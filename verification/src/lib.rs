//! Host-side core of a script-execution sidecar: a length-prefixed binary
//! wire protocol between a host and a worker process, the per-connection
//! bookkeeping (message counters, context-reset flag), the run-and-collect
//! loop over decoded frames, the pool recycle (ping/pong) decision logic,
//! and the supervisor lifecycle decisions (socket naming, launch arguments,
//! readiness polling, graceful-then-forced shutdown).
//!
//! Everything here is pure logic over bytes and plain values. Reading and
//! writing sockets, spawning the worker process, and the JSON encoding of
//! message payload bodies are left to a thin unverified shell around this
//! crate; payloads cross this crate's boundary as opaque byte strings.

pub mod connection;
pub mod error;
pub mod messages;
pub mod protocol;

pub use connection::{Connection, ConnectionEvent, ConnectionManager, RecycleEvent, RunScriptAndWaitResult, RunWaitStep, run_wait_step, run_wait_trace, socket_file_name, worker_command_args};
pub use error::{Error, RunScriptError};
pub use messages::{CodeModule, ErrorResponseData, FunctionDef, LogResponseData, RunResponseData, RunScriptArgs};
pub use protocol::{FrameHeader, HostToWorkerMessage, HostToWorkerMessageData, WorkerMessageKind, WorkerToHostMessage, WorkerToHostMessageData, decode_frame, decode_worker_frame, encode_frame, parse_header};
