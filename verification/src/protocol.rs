//! The length-prefixed binary wire protocol between host and worker.
//!
//! A frame is a 16-byte little-endian header — `total_length`, `request_id`,
//! `message_id`, `message_type`, each a `u32` — followed by
//! `total_length - 12` bytes of payload, so `total_length` covers the three
//! header fields after it plus the payload. Payload bodies are opaque byte
//! strings here; `message_type` selects their logical schema.

use vstd::prelude::*;
use vstd::bytes::{lemma_auto_spec_u32_to_from_le_bytes, spec_u32_from_le_bytes, spec_u32_to_le_bytes, u32_from_le_bytes, u32_to_le_bytes};
use vstd::slice::{slice_subrange, slice_to_vec};

use crate::error::Error;
use crate::messages::{ErrorResponseData, LogResponseData, RunResponseData, RunScriptArgs};

verus! {

/// Wire code of a RunScript message (host to worker).
pub const RUN_SCRIPT_MESSAGE_TYPE: u32 = 0;

/// Wire code of a Ping message (host to worker, empty payload).
pub const PING_MESSAGE_TYPE: u32 = 1;

/// Wire code of a RunResponse message (worker to host).
pub const RUN_RESPONSE_MESSAGE_TYPE: u32 = 0x1000;

/// Wire code of a Log message (worker to host).
pub const LOG_MESSAGE_TYPE: u32 = 0x1001;

/// Wire code of an Error message (worker to host).
pub const ERROR_MESSAGE_TYPE: u32 = 0x1002;

/// Wire code of a Pong message (worker to host, empty payload).
pub const PONG_MESSAGE_TYPE: u32 = 0x1003;

/// A message sent from the host to the worker.
#[derive(Debug, Clone)]
pub enum HostToWorkerMessageData {
    /// Ask the worker to run a script.
    RunScript(RunScriptArgs),
    /// Health check; the worker answers with Pong.
    Ping,
}

impl HostToWorkerMessageData {
    /// The wire code that selects this payload's schema.
    pub open spec fn spec_message_type(&self) -> u32 {
        match self {
            HostToWorkerMessageData::RunScript(_) => RUN_SCRIPT_MESSAGE_TYPE,
            HostToWorkerMessageData::Ping => PING_MESSAGE_TYPE,
        }
    }

    /// The wire code that selects this payload's schema.
    pub fn message_type(&self) -> (t: u32)
        ensures
            t == self.spec_message_type(),
    {
        match self {
            HostToWorkerMessageData::RunScript(_) => RUN_SCRIPT_MESSAGE_TYPE,
            HostToWorkerMessageData::Ping => PING_MESSAGE_TYPE,
        }
    }

    /// The frame carrying this payload under the given counters. `payload`
    /// is the serialized body of a RunScript message; a Ping's payload is
    /// empty and `payload` is ignored for it.
    pub fn to_buffer(&self, request_id: u32, message_id: u32, payload: &[u8]) -> (out: Vec<u8>)
        requires
            payload@.len() + 12 <= u32::MAX,
        ensures
            out@ == spec_frame_bytes(
                request_id,
                message_id,
                self.spec_message_type(),
                if self is Ping { Seq::<u8>::empty() } else { payload@ },
            ),
    {
        match self {
            HostToWorkerMessageData::RunScript(_) => {
                encode_frame(request_id, message_id, RUN_SCRIPT_MESSAGE_TYPE, payload)
            },
            HostToWorkerMessageData::Ping => {
                let empty: Vec<u8> = Vec::new();
                encode_frame(request_id, message_id, PING_MESSAGE_TYPE, empty.as_slice())
            },
        }
    }
}

/// A message received from the worker.
#[derive(Debug, Clone)]
pub enum WorkerToHostMessageData {
    /// The final state after a run; terminal for that run.
    RunResponse(RunResponseData),
    /// A log line; non-terminal.
    Log(LogResponseData),
    /// A script-level failure; terminal, mutually exclusive with
    /// RunResponse for a given run.
    Error(ErrorResponseData),
    /// The answer to a Ping.
    Pong,
}

/// The payload schema that a worker-to-host wire code selects.
#[derive(Debug, Clone, Copy, PartialEq, Eq, Structural)]
pub enum WorkerMessageKind {
    /// Carries RunResponseData as a serialized body.
    RunResponse,
    /// Carries LogResponseData as a serialized body.
    Log,
    /// Carries ErrorResponseData as a serialized body.
    Error,
    /// Carries no body.
    Pong,
}

/// Whether `t` is one of the worker-to-host wire codes.
pub open spec fn spec_known_worker_type(t: u32) -> bool {
    ||| t == RUN_RESPONSE_MESSAGE_TYPE
    ||| t == LOG_MESSAGE_TYPE
    ||| t == ERROR_MESSAGE_TYPE
    ||| t == PONG_MESSAGE_TYPE
}

/// The schema selected by a known worker-to-host wire code.
pub open spec fn spec_worker_kind_of_type(t: u32) -> WorkerMessageKind
    recommends
        spec_known_worker_type(t),
{
    if t == RUN_RESPONSE_MESSAGE_TYPE {
        WorkerMessageKind::RunResponse
    } else if t == LOG_MESSAGE_TYPE {
        WorkerMessageKind::Log
    } else if t == ERROR_MESSAGE_TYPE {
        WorkerMessageKind::Error
    } else {
        WorkerMessageKind::Pong
    }
}

impl WorkerToHostMessageData {
    /// The wire code that selects this payload's schema.
    pub open spec fn spec_message_type(&self) -> u32 {
        match self {
            WorkerToHostMessageData::RunResponse(_) => RUN_RESPONSE_MESSAGE_TYPE,
            WorkerToHostMessageData::Log(_) => LOG_MESSAGE_TYPE,
            WorkerToHostMessageData::Error(_) => ERROR_MESSAGE_TYPE,
            WorkerToHostMessageData::Pong => PONG_MESSAGE_TYPE,
        }
    }

    /// The schema of this payload.
    pub open spec fn spec_kind(&self) -> WorkerMessageKind {
        match self {
            WorkerToHostMessageData::RunResponse(_) => WorkerMessageKind::RunResponse,
            WorkerToHostMessageData::Log(_) => WorkerMessageKind::Log,
            WorkerToHostMessageData::Error(_) => WorkerMessageKind::Error,
            WorkerToHostMessageData::Pong => WorkerMessageKind::Pong,
        }
    }

    /// The wire code that selects this payload's schema.
    pub fn message_type(&self) -> (t: u32)
        ensures
            t == self.spec_message_type(),
    {
        match self {
            WorkerToHostMessageData::RunResponse(_) => RUN_RESPONSE_MESSAGE_TYPE,
            WorkerToHostMessageData::Log(_) => LOG_MESSAGE_TYPE,
            WorkerToHostMessageData::Error(_) => ERROR_MESSAGE_TYPE,
            WorkerToHostMessageData::Pong => PONG_MESSAGE_TYPE,
        }
    }

    /// Dispatch a received frame's wire code to the payload schema it
    /// selects. The one rejection, and the only error this can return, is a
    /// code outside the protocol's closed set.
    pub fn parse_kind(message_type: u32) -> (r: Result<WorkerMessageKind, Error>)
        ensures
            spec_known_worker_type(message_type) ==> r == Ok::<WorkerMessageKind, Error>(
                spec_worker_kind_of_type(message_type),
            ),
            !spec_known_worker_type(message_type) ==> r == Err::<WorkerMessageKind, Error>(
                Error::InvalidMessageType(message_type),
            ),
    {
        if message_type == RUN_RESPONSE_MESSAGE_TYPE {
            Ok(WorkerMessageKind::RunResponse)
        } else if message_type == LOG_MESSAGE_TYPE {
            Ok(WorkerMessageKind::Log)
        } else if message_type == ERROR_MESSAGE_TYPE {
            Ok(WorkerMessageKind::Error)
        } else if message_type == PONG_MESSAGE_TYPE {
            Ok(WorkerMessageKind::Pong)
        } else {
            Err(Error::InvalidMessageType(message_type))
        }
    }
}

/// Classifying a payload's own wire code gives back that payload's schema:
/// the type-code dispatch loses nothing on any message a worker can send.
pub proof fn lemma_worker_type_round_trip(d: WorkerToHostMessageData)
    ensures
        spec_known_worker_type(d.spec_message_type()),
        spec_worker_kind_of_type(d.spec_message_type()) == d.spec_kind(),
{
}

/// A message sent from the host to the worker, with its per-connection
/// counters assigned.
#[derive(Debug, Clone)]
pub struct HostToWorkerMessage {
    /// Per-connection run counter, assigned at send time.
    pub request_id: u32,
    /// Per-connection message counter, assigned at send time.
    pub message_id: u32,
    /// The payload.
    pub data: HostToWorkerMessageData,
}

impl HostToWorkerMessage {
    /// Assemble a message from its parts.
    pub fn new(request_id: u32, message_id: u32, data: HostToWorkerMessageData) -> (m: Self)
        ensures
            m.request_id == request_id,
            m.message_id == message_id,
            m.data == data,
    {
        HostToWorkerMessage { request_id, message_id, data }
    }

    /// The frame for this message: its payload framed under its own
    /// counters. `payload` is the serialized body of a RunScript message
    /// and is ignored for Ping, whose payload is empty.
    pub fn to_buffer(&self, payload: &[u8]) -> (out: Vec<u8>)
        requires
            payload@.len() + 12 <= u32::MAX,
        ensures
            out@ == spec_frame_bytes(
                self.request_id,
                self.message_id,
                self.data.spec_message_type(),
                if self.data is Ping { Seq::<u8>::empty() } else { payload@ },
            ),
    {
        self.data.to_buffer(self.request_id, self.message_id, payload)
    }
}

/// A message received from the worker, with the counters it echoed.
#[derive(Debug, Clone)]
pub struct WorkerToHostMessage {
    /// The run counter the worker echoed.
    pub request_id: u32,
    /// The message counter the worker echoed.
    pub message_id: u32,
    /// The payload.
    pub data: WorkerToHostMessageData,
}

/// The bytes of one frame: `total_length` (the payload length plus the 12
/// bytes of the three fields after the length), then `request_id`,
/// `message_id` and `message_type`, each little-endian, then the payload.
pub open spec fn spec_frame_bytes(
    request_id: u32,
    message_id: u32,
    message_type: u32,
    payload: Seq<u8>,
) -> Seq<u8>
    recommends
        payload.len() + 12 <= u32::MAX,
{
    spec_u32_to_le_bytes(((payload.len() + 12) as u32)) + spec_u32_to_le_bytes(request_id)
        + spec_u32_to_le_bytes(message_id) + spec_u32_to_le_bytes(message_type) + payload
}

/// Encode one frame: 16-byte little-endian header, then the payload.
pub fn encode_frame(
    request_id: u32,
    message_id: u32,
    message_type: u32,
    payload: &[u8],
) -> (out: Vec<u8>)
    requires
        payload@.len() + 12 <= u32::MAX,
    ensures
        out@ == spec_frame_bytes(request_id, message_id, message_type, payload@),
        out@.len() == 16 + payload@.len(),
{
    proof {
        lemma_auto_spec_u32_to_from_le_bytes();
    }
    let total_length: u32 = (payload.len() as u32) + 12;
    let mut out = u32_to_le_bytes(total_length);
    let mut field = u32_to_le_bytes(request_id);
    out.append(&mut field);
    let mut field = u32_to_le_bytes(message_id);
    out.append(&mut field);
    let mut field = u32_to_le_bytes(message_type);
    out.append(&mut field);
    let mut body = slice_to_vec(payload);
    out.append(&mut body);
    proof {
        assert(out@ =~= spec_frame_bytes(request_id, message_id, message_type, payload@));
    }
    out
}

/// The four fields of a frame header, as read from the wire.
#[derive(Debug, Clone, Copy, PartialEq, Eq, Structural)]
pub struct FrameHeader {
    /// Length of the payload plus the 12 bytes of the three fields below.
    pub total_length: u32,
    /// The run counter.
    pub request_id: u32,
    /// The message counter.
    pub message_id: u32,
    /// The wire code of the payload's schema.
    pub message_type: u32,
}

/// The header fields held in the first 16 bytes of `b`.
pub open spec fn spec_header_fields(b: Seq<u8>) -> FrameHeader
    recommends
        b.len() >= 16,
{
    FrameHeader {
        total_length: spec_u32_from_le_bytes(b.subrange(0, 4)),
        request_id: spec_u32_from_le_bytes(b.subrange(4, 8)),
        message_id: spec_u32_from_le_bytes(b.subrange(8, 12)),
        message_type: spec_u32_from_le_bytes(b.subrange(12, 16)),
    }
}

/// Read the four header fields from a 16-byte header. A `total_length` too
/// small to cover the three fields after it is a fatal framing error.
pub fn parse_header(header: &[u8]) -> (r: Result<FrameHeader, Error>)
    requires
        header@.len() == 16,
    ensures
        ({
            let h = spec_header_fields(header@);
            &&& h.total_length >= 12 ==> r == Ok::<FrameHeader, Error>(h)
            &&& h.total_length < 12 ==> (r matches Err(e) && e matches Error::ReadStream(_))
        }),
{
    let total_length = u32_from_le_bytes(slice_subrange(header, 0, 4));
    let request_id = u32_from_le_bytes(slice_subrange(header, 4, 8));
    let message_id = u32_from_le_bytes(slice_subrange(header, 8, 12));
    let message_type = u32_from_le_bytes(slice_subrange(header, 12, 16));
    if total_length < 12 {
        Err(Error::ReadStream("frame length below the header minimum".to_owned()))
    } else {
        Ok(FrameHeader { total_length, request_id, message_id, message_type })
    }
}

/// Whether `b` begins with one complete, well-formed frame.
pub open spec fn spec_frame_ok(b: Seq<u8>) -> bool {
    &&& b.len() >= 16
    &&& spec_header_fields(b).total_length >= 12
    &&& b.len() >= 4 + spec_header_fields(b).total_length
}

/// The payload of the frame at the front of `b`.
pub open spec fn spec_frame_payload(b: Seq<u8>) -> Seq<u8>
    recommends
        spec_frame_ok(b),
{
    b.subrange(16, 4 + spec_header_fields(b).total_length)
}

/// Decode the frame at the front of `bytes`: its header fields, its
/// payload, and how many bytes it occupied. Truncation anywhere — a buffer
/// shorter than a header, or shorter than the length the header announces —
/// and a length below the header minimum fail with a transport error.
pub fn decode_frame(bytes: &[u8]) -> (r: Result<(FrameHeader, Vec<u8>, usize), Error>)
    ensures
        spec_frame_ok(bytes@) ==> (r matches Ok(out) && out.0 == spec_header_fields(bytes@)
            && out.1@ == spec_frame_payload(bytes@) && out.2 == 4 + spec_header_fields(
            bytes@,
        ).total_length),
        !spec_frame_ok(bytes@) ==> (r matches Err(e) && e matches Error::ReadStream(_)),
{
    if bytes.len() < 16 {
        return Err(Error::ReadStream("stream ended inside a frame header".to_owned()));
    }
    let header_bytes = slice_subrange(bytes, 0, 16);
    proof {
        assert(header_bytes@.subrange(0, 4) =~= bytes@.subrange(0, 4));
        assert(header_bytes@.subrange(4, 8) =~= bytes@.subrange(4, 8));
        assert(header_bytes@.subrange(8, 12) =~= bytes@.subrange(8, 12));
        assert(header_bytes@.subrange(12, 16) =~= bytes@.subrange(12, 16));
    }
    let header = match parse_header(header_bytes) {
        Ok(h) => h,
        Err(e) => {
            return Err(e);
        },
    };
    let payload_len = (header.total_length - 12) as usize;
    if payload_len > bytes.len() - 16 {
        return Err(Error::ReadStream("stream ended inside a frame payload".to_owned()));
    }
    let payload = slice_to_vec(slice_subrange(bytes, 16, 16 + payload_len));
    Ok((header, payload, 16 + payload_len))
}

/// Decode a worker-to-host frame from the front of `bytes`: the header
/// fields, the payload schema its wire code selects, the payload, and how
/// many bytes the frame occupied. Truncation and a bad length fail as in
/// [`decode_frame`]; a wire code outside the protocol's closed set fails
/// with exactly `InvalidMessageType` carrying that code.
pub fn decode_worker_frame(bytes: &[u8]) -> (r: Result<
    (FrameHeader, WorkerMessageKind, Vec<u8>, usize),
    Error,
>)
    ensures
        ({
            let h = spec_header_fields(bytes@);
            &&& !spec_frame_ok(bytes@) ==> (r matches Err(e) && e matches Error::ReadStream(_))
            &&& spec_frame_ok(bytes@) && !spec_known_worker_type(h.message_type) ==> r
                == Err::<(FrameHeader, WorkerMessageKind, Vec<u8>, usize), Error>(
                Error::InvalidMessageType(h.message_type),
            )
            &&& spec_frame_ok(bytes@) && spec_known_worker_type(h.message_type) ==> (
            r matches Ok(out) && out.0 == h && out.1 == spec_worker_kind_of_type(h.message_type)
                && out.2@ == spec_frame_payload(bytes@) && out.3 == 4 + h.total_length)
        }),
{
    let (header, payload, used) = match decode_frame(bytes) {
        Ok(decoded) => decoded,
        Err(e) => {
            return Err(e);
        },
    };
    let kind = match WorkerToHostMessageData::parse_kind(header.message_type) {
        Ok(kind) => kind,
        Err(e) => {
            return Err(e);
        },
    };
    Ok((header, kind, payload, used))
}

/// Round trip at the frame level: every frame this crate encodes is decoded
/// back to exactly the counters, wire code and payload it was built from,
/// and occupies exactly its own bytes.
pub proof fn lemma_frame_round_trip(
    request_id: u32,
    message_id: u32,
    message_type: u32,
    payload: Seq<u8>,
)
    requires
        payload.len() + 12 <= u32::MAX,
    ensures
        ({
            let b = spec_frame_bytes(request_id, message_id, message_type, payload);
            &&& b.len() == 16 + payload.len()
            &&& spec_frame_ok(b)
            &&& spec_header_fields(b) == (FrameHeader {
                total_length: (payload.len() + 12) as u32,
                request_id,
                message_id,
                message_type,
            })
            &&& spec_frame_payload(b) == payload
        }),
{
    lemma_auto_spec_u32_to_from_le_bytes();
    let b = spec_frame_bytes(request_id, message_id, message_type, payload);
    let total: u32 = (payload.len() + 12) as u32;
    assert(b.subrange(0, 4) =~= spec_u32_to_le_bytes(total));
    assert(b.subrange(4, 8) =~= spec_u32_to_le_bytes(request_id));
    assert(b.subrange(8, 12) =~= spec_u32_to_le_bytes(message_id));
    assert(b.subrange(12, 16) =~= spec_u32_to_le_bytes(message_type));
    assert(spec_frame_payload(b) =~= payload);
}

/// Round trip at the message level, as far as the payload body is opaque:
/// frame any worker-to-host message's counters, wire code and serialized
/// body, and decoding gives back the same counters, the same body bytes,
/// and the schema of the very payload that was framed — nothing is lost
/// or misattributed between a message and its frame.
pub proof fn lemma_worker_message_round_trip(m: WorkerToHostMessage, payload: Seq<u8>)
    requires
        payload.len() + 12 <= u32::MAX,
    ensures
        ({
            let b = spec_frame_bytes(
                m.request_id,
                m.message_id,
                m.data.spec_message_type(),
                payload,
            );
            &&& spec_frame_ok(b)
            &&& spec_header_fields(b).request_id == m.request_id
            &&& spec_header_fields(b).message_id == m.message_id
            &&& spec_known_worker_type(spec_header_fields(b).message_type)
            &&& spec_worker_kind_of_type(spec_header_fields(b).message_type) == m.data.spec_kind()
            &&& spec_frame_payload(b) == payload
        }),
{
    lemma_frame_round_trip(m.request_id, m.message_id, m.data.spec_message_type(), payload);
    lemma_worker_type_round_trip(m.data);
}

/// Framing robustness: cut anywhere strictly inside an encoded frame, and
/// what remains no longer begins with a complete frame, so decoding it
/// fails rather than inventing data.
pub proof fn lemma_truncated_frame_rejected(
    request_id: u32,
    message_id: u32,
    message_type: u32,
    payload: Seq<u8>,
    cut: int,
)
    requires
        payload.len() + 12 <= u32::MAX,
        0 <= cut < spec_frame_bytes(request_id, message_id, message_type, payload).len(),
    ensures
        !spec_frame_ok(spec_frame_bytes(request_id, message_id, message_type, payload).take(cut)),
{
    let b = spec_frame_bytes(request_id, message_id, message_type, payload);
    let t = b.take(cut);
    lemma_frame_round_trip(request_id, message_id, message_type, payload);
    if cut >= 16 {
        assert(t.subrange(0, 4) =~= b.subrange(0, 4));
        assert(spec_header_fields(t).total_length == spec_header_fields(b).total_length);
        assert(t.len() < 4 + spec_header_fields(t).total_length);
    }
}

} // verus!
