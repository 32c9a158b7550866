//! The error taxonomy of the host-side core.
//!
//! Transport failures that the unverified shell observes (socket reads and
//! writes, process start, pool construction) are carried as their
//! descriptive text, so that every variant is plain data.

use vstd::prelude::*;
use vstd::string::StringExecFns;

use crate::connection::{spec_decimal, u64_to_decimal};
use crate::messages::ErrorResponseData;
use crate::protocol::WorkerToHostMessageData;

verus! {

/// A script-level failure: the worker's error report together with the
/// messages that had arrived for the run before it failed.
#[derive(Debug, Clone)]
pub struct RunScriptError {
    /// The worker's error report.
    pub error: ErrorResponseData,
    /// Messages, such as logs, seen before the failure, in arrival order.
    pub messages: Vec<WorkerToHostMessageData>,
}

/// Everything that can go wrong between the host and the worker.
#[derive(Debug, Clone)]
pub enum Error {
    /// A JSON payload body could not be serialized.
    JsonSerialize(String),
    /// Reading from the stream failed, including framing violations.
    ReadStream(String),
    /// Writing to the stream failed.
    WriteStream(String),
    /// A bounded wait on the worker ran out.
    Timeout,
    /// The worker process could not be started or never became ready.
    StartWorker(String),
    /// Connecting to the worker's socket failed.
    ConnectWorker(String),
    /// A recycle health check saw a reply other than Pong: the connection
    /// is presumed desynchronized and must not be reused.
    ConnectionOutOfSync,
    /// Getting a connection from the pool failed.
    Pool(String),
    /// Building the connection pool failed.
    BuildPool(String),
    /// A frame carried a message type outside the protocol's closed set.
    InvalidMessageType(u32),
    /// The script itself failed; carries the worker's report and the
    /// messages collected before it.
    Script(RunScriptError),
    /// The connection closed before a terminal message arrived.
    ScriptEndedEarly,
}

/// The one-line description of each failure.
pub open spec fn spec_error_description(e: Error) -> Seq<char> {
    match e {
        Error::JsonSerialize(_) => "Failed to serialize JSON payload"@,
        Error::ReadStream(_) => "Failed to read from stream"@,
        Error::WriteStream(_) => "Failed to write to stream"@,
        Error::Timeout => "Timed out communicating with worker"@,
        Error::StartWorker(_) => "Failed to start Node worker"@,
        Error::ConnectWorker(_) => "Failed to connect to worker socket"@,
        Error::ConnectionOutOfSync => "Connection is out of sync with worker"@,
        Error::Pool(_) => "Failed to get connection from the pool"@,
        Error::BuildPool(_) => "Failed to build connection pool"@,
        Error::InvalidMessageType(code) => "Unknown message type "@ + spec_decimal(code as nat),
        Error::Script(se) => "ScriptError: "@ + se.error.message@,
        Error::ScriptEndedEarly => "Script ended without a response"@,
    }
}

impl Error {
    /// The one-line description of this failure.
    pub fn describe(&self) -> (s: String)
        ensures
            s@ == spec_error_description(*self),
    {
        match self {
            Error::JsonSerialize(_) => "Failed to serialize JSON payload".to_owned(),
            Error::ReadStream(_) => "Failed to read from stream".to_owned(),
            Error::WriteStream(_) => "Failed to write to stream".to_owned(),
            Error::Timeout => "Timed out communicating with worker".to_owned(),
            Error::StartWorker(_) => "Failed to start Node worker".to_owned(),
            Error::ConnectWorker(_) => "Failed to connect to worker socket".to_owned(),
            Error::ConnectionOutOfSync => "Connection is out of sync with worker".to_owned(),
            Error::Pool(_) => "Failed to get connection from the pool".to_owned(),
            Error::BuildPool(_) => "Failed to build connection pool".to_owned(),
            Error::InvalidMessageType(code) => {
                let mut s = "Unknown message type ".to_owned();
                let digits = u64_to_decimal(*code as u64);
                s.append(digits.as_str());
                s
            },
            Error::Script(se) => {
                let mut s = "ScriptError: ".to_owned();
                s.append(se.error.message.as_str());
                s
            },
            Error::ScriptEndedEarly => "Script ended without a response".to_owned(),
        }
    }
}

} // verus!
