//! Per-connection bookkeeping, the run-and-collect loop over decoded
//! frames, the pool recycle (ping/pong) decision logic, and the supervisor
//! lifecycle decisions.
//!
//! The unverified shell owns the sockets and tasks; it feeds what it reads
//! and observes into the functions here as plain events, and writes out the
//! messages and frames they produce.

use vstd::prelude::*;
use vstd::string::StringExecFns;

use crate::error::{Error, RunScriptError};
use crate::messages::{ErrorResponseData, RunScriptArgs, RunResponseData};
use crate::protocol::{HostToWorkerMessage, HostToWorkerMessageData, WorkerToHostMessage, WorkerToHostMessageData};

verus! {

/// What one receive on a connection yields: the next decoded message, or
/// the fact that the channel closed because the reader ended.
#[derive(Debug)]
pub enum ConnectionEvent {
    /// The background reader decoded and forwarded a frame.
    Message(WorkerToHostMessage),
    /// The channel is closed and drained; no more messages will come.
    Closed,
}

/// Where the run-and-collect loop stands after feeding it one event.
#[derive(Debug)]
pub enum RunWaitStep {
    /// Nothing terminal yet; carries the messages collected so far.
    Continue(Vec<WorkerToHostMessageData>),
    /// A RunResponse arrived: the run succeeded.
    Finished(RunScriptAndWaitResult),
    /// An Error arrived or the channel closed: the run failed.
    Failed(Error),
}

/// How a run ends, at the specification level.
pub enum RunWaitOutcome {
    /// A RunResponse arrived; `messages` are the non-terminal messages
    /// collected before it, in arrival order.
    Success { response: RunResponseData, messages: Seq<WorkerToHostMessageData> },
    /// An Error arrived; `messages` are the non-terminal messages collected
    /// before it, in arrival order.
    ScriptFailure { error: ErrorResponseData, messages: Seq<WorkerToHostMessageData> },
    /// The channel closed before any terminal message.
    EndedEarly,
}

/// Whether `d` ends a run.
pub open spec fn spec_terminal(d: WorkerToHostMessageData) -> bool {
    d is RunResponse || d is Error
}

/// The run-and-collect loop as a fold: starting from the messages in
/// `acc`, feed the events in order; the first terminal message or close
/// decides the outcome, and everything non-terminal before it is collected.
/// `None` means the trace ran out with the run still pending.
pub open spec fn spec_run_wait(
    acc: Seq<WorkerToHostMessageData>,
    events: Seq<ConnectionEvent>,
) -> Option<RunWaitOutcome>
    decreases events.len(),
{
    if events.len() == 0 {
        None
    } else {
        match events[0] {
            ConnectionEvent::Closed => Some(RunWaitOutcome::EndedEarly),
            ConnectionEvent::Message(m) => match m.data {
                WorkerToHostMessageData::RunResponse(response) => Some(
                    RunWaitOutcome::Success { response, messages: acc },
                ),
                WorkerToHostMessageData::Error(error) => Some(
                    RunWaitOutcome::ScriptFailure { error, messages: acc },
                ),
                _ => spec_run_wait(acc.push(m.data), events.drop_first()),
            },
        }
    }
}

/// How a specification-level outcome shows up in the run-and-collect
/// loop's return value: pending stays `None`, a response becomes `Ok` with
/// the collected messages, a script failure or an early close becomes the
/// matching error.
pub open spec fn spec_run_wait_result_matches(
    outcome: Option<RunWaitOutcome>,
    r: Option<Result<RunScriptAndWaitResult, Error>>,
) -> bool {
    match outcome {
        None => r is None,
        Some(RunWaitOutcome::Success { response, messages }) => r matches Some(Ok(w))
            && w.response == response && w.messages@ == messages,
        Some(RunWaitOutcome::ScriptFailure { error, messages }) => r matches Some(Err(e))
            && e matches Error::Script(se) && se.error == error && se.messages@ == messages,
        Some(RunWaitOutcome::EndedEarly) => r matches Some(Err(e)) && e is ScriptEndedEarly,
    }
}

/// Fold a complete trace of receive events exactly as the run-and-collect
/// loop does, one [`run_wait_step`] per event. `None` means the trace
/// ended with the run still pending: no terminal message and no close.
pub fn run_wait_trace(events: Vec<ConnectionEvent>) -> (r: Option<
    Result<RunScriptAndWaitResult, Error>,
>)
    ensures
        spec_run_wait_result_matches(spec_run_wait(Seq::empty(), events@), r),
{
    let ghost all_events = events@;
    let mut events = events;
    let mut messages: Vec<WorkerToHostMessageData> = Vec::new();
    let mut result: Option<Result<RunScriptAndWaitResult, Error>> = None;
    let mut done = false;
    while !done && events.len() != 0
        invariant
            !done ==> result is None && spec_run_wait(Seq::empty(), all_events) == spec_run_wait(
                messages@,
                events@,
            ),
            done ==> spec_run_wait_result_matches(spec_run_wait(Seq::empty(), all_events), result),
        decreases events@.len(),
    {
        let ghost evs0 = events@;
        let event = events.remove(0);
        proof {
            assert(events@ =~= evs0.drop_first());
        }
        match run_wait_step(messages, event) {
            RunWaitStep::Continue(ms) => {
                messages = ms;
            },
            RunWaitStep::Finished(w) => {
                result = Some(Ok(w));
                done = true;
                messages = Vec::new();
            },
            RunWaitStep::Failed(e) => {
                result = Some(Err(e));
                done = true;
                messages = Vec::new();
            },
        }
    }
    result
}

/// The message delivered by a message event.
pub open spec fn spec_event_message(e: ConnectionEvent) -> WorkerToHostMessage
    recommends
        e is Message,
{
    match e {
        ConnectionEvent::Message(m) => m,
        ConnectionEvent::Closed => arbitrary(),
    }
}

/// The payloads delivered by the first `n` events, in order.
pub open spec fn spec_collected(events: Seq<ConnectionEvent>, n: int) -> Seq<
    WorkerToHostMessageData,
>
    recommends
        0 <= n <= events.len(),
{
    Seq::new(n as nat, |i: int| spec_event_message(events[i]).data)
}

/// Correct attribution of a successful run: when the first `n` events
/// deliver non-terminal messages and event `n` delivers a RunResponse, the
/// run succeeds with that response and collects exactly those `n` payloads,
/// in arrival order, after whatever was already collected.
pub proof fn lemma_run_wait_success(
    acc: Seq<WorkerToHostMessageData>,
    events: Seq<ConnectionEvent>,
    n: int,
    response: RunResponseData,
)
    requires
        0 <= n < events.len(),
        forall|i: int|
            0 <= i < n ==> #[trigger] events[i] is Message && !spec_terminal(
                spec_event_message(events[i]).data,
            ),
        events[n] matches ConnectionEvent::Message(m) && m.data
            == WorkerToHostMessageData::RunResponse(response),
    ensures
        spec_run_wait(acc, events) == Some(
            RunWaitOutcome::Success { response, messages: acc + spec_collected(events, n) },
        ),
    decreases n,
{
    if n == 0 {
        assert(acc + spec_collected(events, 0) =~= acc);
    } else {
        let d0 = spec_event_message(events[0]).data;
        lemma_run_wait_success(acc.push(d0), events.drop_first(), n - 1, response);
        assert(acc.push(d0) + spec_collected(events.drop_first(), n - 1) =~= acc + spec_collected(
            events,
            n,
        ));
    }
}

/// Correct attribution of a script failure: when the first `n` events
/// deliver non-terminal messages and event `n` delivers an Error, the run
/// fails with that report and carries exactly those `n` payloads, in
/// arrival order, after whatever was already collected.
pub proof fn lemma_run_wait_script_failure(
    acc: Seq<WorkerToHostMessageData>,
    events: Seq<ConnectionEvent>,
    n: int,
    error: ErrorResponseData,
)
    requires
        0 <= n < events.len(),
        forall|i: int|
            0 <= i < n ==> #[trigger] events[i] is Message && !spec_terminal(
                spec_event_message(events[i]).data,
            ),
        events[n] matches ConnectionEvent::Message(m) && m.data
            == WorkerToHostMessageData::Error(error),
    ensures
        spec_run_wait(acc, events) == Some(
            RunWaitOutcome::ScriptFailure { error, messages: acc + spec_collected(events, n) },
        ),
    decreases n,
{
    if n == 0 {
        assert(acc + spec_collected(events, 0) =~= acc);
    } else {
        let d0 = spec_event_message(events[0]).data;
        lemma_run_wait_script_failure(acc.push(d0), events.drop_first(), n - 1, error);
        assert(acc.push(d0) + spec_collected(events.drop_first(), n - 1) =~= acc + spec_collected(
            events,
            n,
        ));
    }
}

/// A close before any terminal message ends the run early, however many
/// non-terminal messages came first.
pub proof fn lemma_run_wait_ended_early(
    acc: Seq<WorkerToHostMessageData>,
    events: Seq<ConnectionEvent>,
    n: int,
)
    requires
        0 <= n < events.len(),
        forall|i: int|
            0 <= i < n ==> #[trigger] events[i] is Message && !spec_terminal(
                spec_event_message(events[i]).data,
            ),
        events[n] is Closed,
    ensures
        spec_run_wait(acc, events) == Some(RunWaitOutcome::EndedEarly),
    decreases n,
{
    if n > 0 {
        let d0 = spec_event_message(events[0]).data;
        lemma_run_wait_ended_early(acc.push(d0), events.drop_first(), n - 1);
    }
}

/// A trace of nothing but non-terminal messages decides nothing: the run
/// stays pending until a terminal message or a close arrives.
pub proof fn lemma_run_wait_pending(
    acc: Seq<WorkerToHostMessageData>,
    events: Seq<ConnectionEvent>,
)
    requires
        forall|i: int|
            0 <= i < events.len() ==> #[trigger] events[i] is Message && !spec_terminal(
                spec_event_message(events[i]).data,
            ),
    ensures
        spec_run_wait(acc, events) is None,
    decreases events.len(),
{
    if events.len() > 0 {
        let d0 = spec_event_message(events[0]).data;
        lemma_run_wait_pending(acc.push(d0), events.drop_first());
    }
}

/// One step of the run-and-collect loop. `messages` is what the run has
/// collected so far; the event either ends the run — a RunResponse carries
/// the collected messages out as a success, an Error carries them out
/// inside the script failure, a close fails with ScriptEndedEarly — or is
/// appended and the run continues.
pub fn run_wait_step(messages: Vec<WorkerToHostMessageData>, event: ConnectionEvent) -> (r:
    RunWaitStep)
    ensures
        event is Closed ==> (r matches RunWaitStep::Failed(e) && e is ScriptEndedEarly),
        event matches ConnectionEvent::Message(m) ==> match m.data {
            WorkerToHostMessageData::RunResponse(response) => r matches RunWaitStep::Finished(w)
                && w.response == response && w.messages@ == messages@,
            WorkerToHostMessageData::Error(error) => r matches RunWaitStep::Failed(e)
                && e matches Error::Script(se) && se.error == error && se.messages@ == messages@,
            _ => r matches RunWaitStep::Continue(ms) && ms@ == messages@.push(m.data),
        },
{
    match event {
        ConnectionEvent::Closed => RunWaitStep::Failed(Error::ScriptEndedEarly),
        ConnectionEvent::Message(m) => match m.data {
            WorkerToHostMessageData::RunResponse(response) => RunWaitStep::Finished(
                RunScriptAndWaitResult { response, messages },
            ),
            WorkerToHostMessageData::Error(error) => RunWaitStep::Failed(
                Error::Script(RunScriptError { error, messages }),
            ),
            other => {
                let mut messages = messages;
                messages.push(other);
                RunWaitStep::Continue(messages)
            },
        },
    }
}

/// The result of running a script and waiting for it to finish.
#[derive(Debug, Clone)]
pub struct RunScriptAndWaitResult {
    /// The run's final state.
    pub response: RunResponseData,
    /// The other messages that arrived during the run, such as logs, in
    /// arrival order.
    pub messages: Vec<WorkerToHostMessageData>,
}

/// The host-side state of one connection to the worker: the two counters
/// the next message will carry, and whether the pool has asked that the
/// next run start from a fresh execution context.
///
/// At most one run may be in flight per connection at a time: the protocol
/// attributes replies by arrival order alone, so a second run started
/// before the first one's terminal message has been drained would have its
/// logs and response attributed to the wrong run.
#[derive(Debug, Clone)]
pub struct Connection {
    /// The message counter for the next message sent.
    pub next_id: u32,
    /// The run counter for the next message sent.
    pub next_req_id: u32,
    /// Set by the pool's recycle step; forces `recreate_context` on exactly
    /// the next run.
    pub reset_context_on_next: bool,
}

impl Connection {
    /// A fresh connection: both counters at zero, no reset pending.
    pub fn new() -> (c: Connection)
        ensures
            c.next_id == 0,
            c.next_req_id == 0,
            !c.reset_context_on_next,
    {
        Connection { next_id: 0, next_req_id: 0, reset_context_on_next: false }
    }

    /// Start a run: assign fresh counters to a RunScript message, applying
    /// and clearing any pending context reset, which forces
    /// `recreate_context` for exactly this one call.
    pub fn run_script(&mut self, args: RunScriptArgs) -> (msg: HostToWorkerMessage)
        requires
            old(self).next_id < u32::MAX,
            old(self).next_req_id < u32::MAX,
        ensures
            final(self).next_id == old(self).next_id + 1,
            final(self).next_req_id == old(self).next_req_id + 1,
            !final(self).reset_context_on_next,
            msg.request_id == old(self).next_req_id,
            msg.message_id == old(self).next_id,
            msg.data matches HostToWorkerMessageData::RunScript(a) && a == (RunScriptArgs {
                recreate_context: args.recreate_context || old(self).reset_context_on_next,
                ..args
            }),
    {
        let mut args = args;
        if self.reset_context_on_next {
            self.reset_context_on_next = false;
            args.recreate_context = true;
        }
        let message_id = self.next_id;
        let req_id = self.next_req_id;
        self.next_req_id = self.next_req_id + 1;
        self.next_id = self.next_id + 1;
        HostToWorkerMessage::new(req_id, message_id, HostToWorkerMessageData::RunScript(args))
    }

    /// Run a script and wait for it to finish, over a complete trace of
    /// receive events: sends the run (first return value) and folds the
    /// trace exactly as [`run_wait_step`] would, message by message. The
    /// second return value is `None` when the trace ends with the run still
    /// pending: no terminal message and no close.
    ///
    /// The shell performs the same fold incrementally, calling
    /// [`run_wait_step`] on each event as it arrives.
    pub fn run_script_and_wait(&mut self, args: RunScriptArgs, events: Vec<ConnectionEvent>) -> (r:
        (HostToWorkerMessage, Option<Result<RunScriptAndWaitResult, Error>>))
        requires
            old(self).next_id < u32::MAX,
            old(self).next_req_id < u32::MAX,
        ensures
            final(self).next_id == old(self).next_id + 1,
            final(self).next_req_id == old(self).next_req_id + 1,
            !final(self).reset_context_on_next,
            r.0.request_id == old(self).next_req_id,
            r.0.message_id == old(self).next_id,
            r.0.data matches HostToWorkerMessageData::RunScript(a) && a == (RunScriptArgs {
                recreate_context: args.recreate_context || old(self).reset_context_on_next,
                ..args
            }),
            spec_run_wait_result_matches(spec_run_wait(Seq::empty(), events@), r.1),
    {
        let msg = self.run_script(args);
        let outcome = run_wait_trace(events);
        (msg, outcome)
    }

    /// A health check: assign fresh counters to a Ping message. Does not
    /// touch the pending context reset.
    pub fn ping(&mut self) -> (msg: HostToWorkerMessage)
        requires
            old(self).next_id < u32::MAX,
            old(self).next_req_id < u32::MAX,
        ensures
            final(self).next_id == old(self).next_id + 1,
            final(self).next_req_id == old(self).next_req_id + 1,
            final(self).reset_context_on_next == old(self).reset_context_on_next,
            msg.request_id == old(self).next_req_id,
            msg.message_id == old(self).next_id,
            msg.data is Ping,
    {
        let message_id = self.next_id;
        let req_id = self.next_req_id;
        self.next_req_id = self.next_req_id + 1;
        self.next_id = self.next_id + 1;
        HostToWorkerMessage::new(req_id, message_id, HostToWorkerMessageData::Ping)
    }
}

/// What the bounded wait for a ping's reply can observe.
#[derive(Debug)]
pub enum RecycleEvent {
    /// A message arrived within the bound.
    Received(WorkerToHostMessage),
    /// The connection's channel closed and drained.
    ChannelClosed,
    /// Nothing arrived within the bound.
    TimedOut,
}

/// Whether a recycle health check passes on what it observed: only a Pong
/// within the bound will do.
pub open spec fn spec_recycle_event_ok(event: RecycleEvent) -> bool {
    event matches RecycleEvent::Received(m) && m.data is Pong
}

/// The pool's per-socket bookkeeping: where to connect, and how many
/// recycle health checks were attempted and how many passed. The counters
/// are observability only, not correctness-critical.
#[derive(Debug, Clone)]
pub struct ConnectionManager {
    /// The worker's socket path.
    pub socket_path: String,
    /// Recycle health checks attempted.
    pub recycle_calls: u64,
    /// Recycle health checks passed.
    pub recycle_success: u64,
}

impl ConnectionManager {
    /// A manager for one socket, books at zero.
    pub fn new(socket_path: String) -> (m: ConnectionManager)
        ensures
            m.socket_path == socket_path,
            m.recycle_calls == 0,
            m.recycle_success == 0,
    {
        ConnectionManager { socket_path, recycle_calls: 0, recycle_success: 0 }
    }

    /// First half of a recycle health check: count the attempt and build
    /// the Ping, which takes the connection's next counters like any other
    /// message.
    pub fn recycle_ping(&mut self, conn: &mut Connection) -> (msg: HostToWorkerMessage)
        requires
            old(self).recycle_calls < u64::MAX,
            old(conn).next_id < u32::MAX,
            old(conn).next_req_id < u32::MAX,
        ensures
            final(self).recycle_calls == old(self).recycle_calls + 1,
            final(self).recycle_success == old(self).recycle_success,
            final(self).socket_path == old(self).socket_path,
            final(conn).next_id == old(conn).next_id + 1,
            final(conn).next_req_id == old(conn).next_req_id + 1,
            final(conn).reset_context_on_next == old(conn).reset_context_on_next,
            msg.request_id == old(conn).next_req_id,
            msg.message_id == old(conn).next_id,
            msg.data is Ping,
    {
        self.recycle_calls = self.recycle_calls + 1;
        conn.ping()
    }

    /// Second half of a recycle health check: judge what the bounded wait
    /// observed. A Pong passes — the success is counted, and the
    /// connection is marked so that its next run starts from a fresh
    /// execution context. Anything else fails without touching the
    /// connection: no reply in time is a timeout, a closed channel is a
    /// transport error, and any other message means the connection is out
    /// of sync — a previous run's tail may still be in flight — so the
    /// pool must discard it rather than reuse it.
    pub fn recycle_finish(&mut self, conn: &mut Connection, event: RecycleEvent) -> (r: Result<
        (),
        Error,
    >)
        requires
            old(self).recycle_success < u64::MAX,
        ensures
            final(self).recycle_calls == old(self).recycle_calls,
            final(self).socket_path == old(self).socket_path,
            final(self).recycle_success == old(self).recycle_success + if spec_recycle_event_ok(
                event,
            ) {
                1int
            } else {
                0int
            },
            final(conn).next_id == old(conn).next_id,
            final(conn).next_req_id == old(conn).next_req_id,
            r is Ok <==> spec_recycle_event_ok(event),
            spec_recycle_event_ok(event) ==> final(conn).reset_context_on_next,
            !spec_recycle_event_ok(event) ==> *final(conn) == *old(conn),
            match event {
                RecycleEvent::Received(m) => !(m.data is Pong) ==> r == Err::<(), Error>(
                    Error::ConnectionOutOfSync,
                ),
                RecycleEvent::ChannelClosed => r matches Err(e) && e matches Error::ReadStream(s)
                    && s@ == "worker is closed"@,
                RecycleEvent::TimedOut => r == Err::<(), Error>(Error::Timeout),
            },
    {
        match event {
            RecycleEvent::Received(m) => {
                if let WorkerToHostMessageData::Pong = m.data {
                    conn.reset_context_on_next = true;
                    self.recycle_success = self.recycle_success + 1;
                    Ok(())
                } else {
                    Err(Error::ConnectionOutOfSync)
                }
            },
            RecycleEvent::ChannelClosed => Err(Error::ReadStream("worker is closed".to_owned())),
            RecycleEvent::TimedOut => Err(Error::Timeout),
        }
    }
}

/// One whole recycle round as a relation on the manager's books: the
/// attempt is counted, and the success exactly when the check passed.
pub open spec fn spec_recycle_round(
    pre: ConnectionManager,
    post: ConnectionManager,
    event: RecycleEvent,
) -> bool {
    &&& post.recycle_calls == pre.recycle_calls + 1
    &&& post.recycle_success == pre.recycle_success + if spec_recycle_event_ok(event) {
        1int
    } else {
        0int
    }
}

/// The books balance under clean use: starting from equal counters, after
/// any chain of recycle rounds that all passed — every reply a Pong within
/// its bound — the attempt count still equals the success count.
pub proof fn lemma_clean_recycles_balance(
    states: Seq<ConnectionManager>,
    events: Seq<RecycleEvent>,
)
    requires
        states.len() == events.len() + 1,
        states[0].recycle_calls == states[0].recycle_success,
        forall|i: int|
            0 <= i < events.len() ==> spec_recycle_round(
                states[i],
                states[i + 1],
                #[trigger] events[i],
            ),
        forall|i: int| 0 <= i < events.len() ==> spec_recycle_event_ok(#[trigger] events[i]),
    ensures
        states[states.len() - 1].recycle_calls == states[states.len() - 1].recycle_success,
    decreases events.len(),
{
    if events.len() > 0 {
        assert(spec_recycle_round(states[0], states[1], events[0]));
        assert(spec_recycle_event_ok(events[0]));
        let st = states.drop_first();
        let ev = events.drop_first();
        assert forall|i: int|
            0 <= i < ev.len() implies spec_recycle_round(st[i], st[i + 1], #[trigger] ev[i]) by {
            assert(ev[i] == events[i + 1]);
            assert(st[i] == states[i + 1]);
            assert(st[i + 1] == states[i + 2]);
            assert(spec_recycle_round(states[i + 1], states[i + 2], events[i + 1]));
        }
        assert forall|i: int| 0 <= i < ev.len() implies spec_recycle_event_ok(#[trigger] ev[i]) by {
            assert(ev[i] == events[i + 1]);
        }
        lemma_clean_recycles_balance(st, ev);
        assert(st[st.len() - 1] == states[states.len() - 1]);
    }
}

/// How many times the supervisor tries to connect to the worker's socket,
/// sleeping between attempts, before it gives up on the worker starting.
pub const READINESS_ATTEMPTS: u32 = 50;

/// How long the supervisor sleeps between readiness attempts, in
/// milliseconds.
pub const READINESS_RETRY_DELAY_MS: u64 = 10;

/// How long a close waits for the worker to exit after the graceful
/// termination signal before force-killing it, in milliseconds.
pub const SHUTDOWN_WAIT_MS: u64 = 5000;

/// Bound on concurrently live connections in the pool.
pub const POOL_MAX_SIZE: usize = 1024;

/// Capacity of a connection's queue of decoded incoming messages.
pub const RECEIVE_QUEUE_CAPACITY: usize = 16;

/// Bound on the recycle ping round trip, in milliseconds.
pub const RECYCLE_TIMEOUT_MS: u64 = 1000;

/// The character of one decimal digit.
pub open spec fn spec_digit_char(d: int) -> char
    recommends
        0 <= d < 10,
{
    if d == 0 {
        '0'
    } else if d == 1 {
        '1'
    } else if d == 2 {
        '2'
    } else if d == 3 {
        '3'
    } else if d == 4 {
        '4'
    } else if d == 5 {
        '5'
    } else if d == 6 {
        '6'
    } else if d == 7 {
        '7'
    } else if d == 8 {
        '8'
    } else {
        '9'
    }
}

/// The decimal digits of `n`, most significant first.
pub open spec fn spec_decimal(n: nat) -> Seq<char>
    decreases n,
{
    if n < 10 {
        seq![spec_digit_char(n as int)]
    } else {
        spec_decimal(n / 10) + seq![spec_digit_char((n % 10) as int)]
    }
}

/// The one-character string of one decimal digit.
fn digit_str(d: u64) -> (s: &'static str)
    requires
        d < 10,
    ensures
        s@ == seq![spec_digit_char(d as int)],
{
    proof {
        reveal_strlit("0");
        reveal_strlit("1");
        reveal_strlit("2");
        reveal_strlit("3");
        reveal_strlit("4");
        reveal_strlit("5");
        reveal_strlit("6");
        reveal_strlit("7");
        reveal_strlit("8");
        reveal_strlit("9");
    }
    let s: &'static str = if d == 0 {
        "0"
    } else if d == 1 {
        "1"
    } else if d == 2 {
        "2"
    } else if d == 3 {
        "3"
    } else if d == 4 {
        "4"
    } else if d == 5 {
        "5"
    } else if d == 6 {
        "6"
    } else if d == 7 {
        "7"
    } else if d == 8 {
        "8"
    } else {
        "9"
    };
    proof {
        assert(s@ =~= seq![spec_digit_char(d as int)]);
    }
    s
}

/// Write `n` in decimal.
pub fn u64_to_decimal(n: u64) -> (s: String)
    ensures
        s@ == spec_decimal(n as nat),
    decreases n,
{
    if n < 10 {
        digit_str(n).to_owned()
    } else {
        proof {
            assert(n / 10 < n) by (nonlinear_arith)
                requires
                    n >= 10,
            ;
        }
        let mut s = u64_to_decimal(n / 10);
        s.append(digit_str(n % 10));
        s
    }
}

/// Decimal digit strings are never empty and a number of two or more
/// digits never collapses to one.
proof fn lemma_decimal_len(n: nat)
    ensures
        spec_decimal(n).len() >= 1,
        n >= 10 ==> spec_decimal(n).len() >= 2,
    decreases n,
{
    if n >= 10 {
        lemma_decimal_len(n / 10);
    }
}

/// No decimal digit is a dot.
proof fn lemma_decimal_no_dot(n: nat)
    ensures
        forall|i: int| 0 <= i < spec_decimal(n).len() ==> #[trigger] spec_decimal(n)[i] != '.',
    decreases n,
{
    if n < 10 {
        assert forall|i: int| 0 <= i < spec_decimal(n).len() implies #[trigger] spec_decimal(n)[i]
            != '.' by {
            assert(spec_decimal(n)[i] == spec_digit_char(n as int));
        }
    } else {
        lemma_decimal_no_dot(n / 10);
        assert forall|i: int| 0 <= i < spec_decimal(n).len() implies #[trigger] spec_decimal(n)[i]
            != '.' by {
            if i < spec_decimal(n / 10).len() {
                assert(spec_decimal(n)[i] == spec_decimal(n / 10)[i]);
            } else {
                assert(spec_decimal(n)[i] == spec_digit_char((n % 10) as int));
            }
        }
    }
}

/// Different digits have different characters.
proof fn lemma_digit_char_injective(d1: int, d2: int)
    requires
        0 <= d1 < 10,
        0 <= d2 < 10,
        spec_digit_char(d1) == spec_digit_char(d2),
    ensures
        d1 == d2,
{
}

/// Different numbers have different decimal digit strings.
proof fn lemma_decimal_injective(a: nat, b: nat)
    requires
        spec_decimal(a) == spec_decimal(b),
    ensures
        a == b,
    decreases a,
{
    lemma_decimal_len(a);
    lemma_decimal_len(b);
    if a < 10 && b < 10 {
        assert(spec_decimal(a)[0] == spec_digit_char(a as int));
        assert(spec_decimal(b)[0] == spec_digit_char(b as int));
        lemma_digit_char_injective(a as int, b as int);
    } else if a >= 10 && b >= 10 {
        assert(spec_decimal(a).last() == spec_digit_char((a % 10) as int));
        assert(spec_decimal(b).last() == spec_digit_char((b % 10) as int));
        lemma_digit_char_injective((a % 10) as int, (b % 10) as int);
        assert(a % 10 == b % 10);
        assert(spec_decimal(a).drop_last() =~= spec_decimal(a / 10));
        assert(spec_decimal(b).drop_last() =~= spec_decimal(b / 10));
        assert(a / 10 < a) by (nonlinear_arith)
            requires
                a >= 10,
        ;
        lemma_decimal_injective(a / 10, b / 10);
        assert(a == 10 * (a / 10) + a % 10) by (nonlinear_arith);
        assert(b == 10 * (b / 10) + b % 10) by (nonlinear_arith);
    } else {
        assert(spec_decimal(a).len() == spec_decimal(b).len());
        assert(false);
    }
}

/// The socket file name used by the supervisor with process id `pid` and
/// per-process instance number `counter`: dot-separated, so that the two
/// numbers can be read back unambiguously.
pub open spec fn spec_socket_file_name(pid: u32, counter: u64) -> Seq<char> {
    "js_sidecar."@ + spec_decimal(pid as nat) + "."@ + spec_decimal(counter as nat) + ".sock"@
}

/// The socket file name for one supervisor instance.
pub fn socket_file_name(pid: u32, counter: u64) -> (s: String)
    ensures
        s@ == spec_socket_file_name(pid, counter),
{
    let mut s = "js_sidecar.".to_owned();
    let pid_digits = u64_to_decimal(pid as u64);
    s.append(pid_digits.as_str());
    s.append(".");
    let counter_digits = u64_to_decimal(counter);
    s.append(counter_digits.as_str());
    s.append(".sock");
    proof {
        assert(s@ =~= spec_socket_file_name(pid, counter));
    }
    s
}

/// Socket file names collide only between supervisors with the same
/// process id and the same instance number: within one process the
/// monotone instance counter rules collisions out, and across processes
/// the process id does.
pub proof fn lemma_socket_file_name_unique(pid1: u32, counter1: u64, pid2: u32, counter2: u64)
    requires
        spec_socket_file_name(pid1, counter1) == spec_socket_file_name(pid2, counter2),
    ensures
        pid1 == pid2,
        counter1 == counter2,
{
    reveal_strlit("js_sidecar.");
    reveal_strlit(".");
    reveal_strlit(".sock");
    let p = "js_sidecar."@;
    let dot = "."@;
    let sfx = ".sock"@;
    let d1 = spec_decimal(pid1 as nat);
    let e1 = spec_decimal(counter1 as nat);
    let d2 = spec_decimal(pid2 as nat);
    let e2 = spec_decimal(counter2 as nat);
    let s1 = spec_socket_file_name(pid1, counter1);
    let s2 = spec_socket_file_name(pid2, counter2);
    lemma_decimal_len(pid1 as nat);
    lemma_decimal_len(pid2 as nat);
    lemma_decimal_no_dot(pid1 as nat);
    lemma_decimal_no_dot(pid2 as nat);
    assert(sfx[0] == '.');
    if d1.len() < d2.len() {
        let i = p.len() + d1.len();
        assert(s1[i as int] == dot[0]);
        assert(s2[i as int] == d2[d1.len() as int]);
        assert(false);
    }
    if d2.len() < d1.len() {
        let i = p.len() + d2.len();
        assert(s2[i as int] == dot[0]);
        assert(s1[i as int] == d1[d2.len() as int]);
        assert(false);
    }
    assert(d1 =~= d2) by {
        assert forall|i: int| 0 <= i < d1.len() implies d1[i] == d2[i] by {
            assert(s1[p.len() + i] == d1[i]);
            assert(s2[p.len() + i] == d2[i]);
        }
    }
    lemma_decimal_injective(pid1 as nat, pid2 as nat);
    assert(s1.len() == s2.len());
    assert(e1.len() == e2.len());
    let base = p.len() + d1.len() + 1;
    assert(e1 =~= e2) by {
        assert forall|i: int| 0 <= i < e1.len() implies e1[i] == e2[i] by {
            assert(s1[base + i] == e1[i]);
            assert(s2[base + i] == e2[i]);
        }
    }
    lemma_decimal_injective(counter1 as nat, counter2 as nat);
}

/// The arguments the worker process is launched with: the flags its
/// runtime needs, the bootstrap script's path, the socket path, and, when
/// given, the worker concurrency.
pub fn worker_command_args(script_path: String, socket_path: String, num_workers: Option<u32>) -> (
    args: Vec<String>)
    ensures
        args@.len() == (if num_workers is Some {
            7int
        } else {
            5int
        }),
        args@[0]@ == "--no-warnings=ExperimentalWarning"@,
        args@[1]@ == "--experimental-vm-modules"@,
        args@[2] == script_path,
        args@[3]@ == "--socket"@,
        args@[4] == socket_path,
        num_workers matches Some(n) ==> args@[5]@ == "--workers"@ && args@[6]@ == spec_decimal(
            n as nat,
        ),
{
    let mut args: Vec<String> = Vec::new();
    args.push("--no-warnings=ExperimentalWarning".to_owned());
    args.push("--experimental-vm-modules".to_owned());
    args.push(script_path);
    args.push("--socket".to_owned());
    args.push(socket_path);
    if let Some(n) = num_workers {
        args.push("--workers".to_owned());
        args.push(u64_to_decimal(n as u64));
    }
    args
}

/// What the readiness poll does next, given whether the last connection
/// attempt succeeded and how many have failed so far.
#[derive(Debug, Clone, Copy, PartialEq, Eq, Structural)]
pub enum ReadinessStep {
    /// The socket accepted: the worker is ready, build the pool.
    Proceed,
    /// Not ready yet: sleep for the retry delay and try again.
    RetryAfterDelay,
    /// The attempt bound is spent: fail supervisor construction.
    GiveUp,
}

/// The readiness poll's decision: proceed as soon as a connection attempt
/// succeeds, retry while failures are under the bound, and give up — the
/// worker never became ready — once the bound is spent.
pub fn readiness_step(connected: bool, failed_checks: u32) -> (r: ReadinessStep)
    ensures
        connected ==> r == ReadinessStep::Proceed,
        !connected && failed_checks < READINESS_ATTEMPTS ==> r == ReadinessStep::RetryAfterDelay,
        !connected && failed_checks >= READINESS_ATTEMPTS ==> r == ReadinessStep::GiveUp,
{
    if connected {
        ReadinessStep::Proceed
    } else if failed_checks < READINESS_ATTEMPTS {
        ReadinessStep::RetryAfterDelay
    } else {
        ReadinessStep::GiveUp
    }
}

/// The first stage of shutting the worker down.
#[derive(Debug, Clone, Copy, PartialEq, Eq, Structural)]
pub enum ShutdownAction {
    /// Send the graceful termination signal, then wait, bounded, for exit.
    SignalAndWait,
    /// The child already exited; there is nothing to do.
    Done,
}

/// Begin shutting down the child: if it still has a process id, signal it
/// and wait; a child that already exited is not an error.
pub fn shutdown_begin(child_pid: Option<u32>) -> (a: ShutdownAction)
    ensures
        child_pid is Some <==> a == ShutdownAction::SignalAndWait,
        child_pid is None <==> a == ShutdownAction::Done,
{
    match child_pid {
        Some(_) => ShutdownAction::SignalAndWait,
        None => ShutdownAction::Done,
    }
}

/// After the bounded wait that follows the graceful signal: force-kill
/// exactly when the child did not exit within the bound.
pub fn shutdown_force_kill(exited_within_bound: bool) -> (force: bool)
    ensures
        force == !exited_within_bound,
{
    !exited_within_bound
}

/// The supervisor's lifecycle.
#[derive(Debug, Clone, Copy, PartialEq, Eq, Structural)]
pub enum SidecarPhase {
    /// Spawned; waiting for the worker's socket to become ready.
    Starting,
    /// The pool is built; connections can be handed out.
    Ready,
    /// A close was requested; the child is being terminated.
    Closing,
    /// The child has exited.
    Closed,
}

/// What moves the supervisor between phases.
#[derive(Debug, Clone, Copy, PartialEq, Eq, Structural)]
pub enum SidecarEvent {
    /// The worker's socket accepted a connection within the bound.
    SocketReady,
    /// A close was requested, explicitly or by teardown.
    CloseRequested,
    /// The child process was observed to have exited.
    ChildExited,
}

/// The supervisor's phase transitions: readiness moves Starting to Ready,
/// a close request moves anything not yet closed to Closing, and the
/// child's observed exit moves Closing to Closed. Everything else stays
/// put.
pub fn sidecar_advance(phase: SidecarPhase, event: SidecarEvent) -> (next: SidecarPhase)
    ensures
        next == spec_sidecar_advance(phase, event),
{
    match event {
        SidecarEvent::SocketReady => if let SidecarPhase::Starting = phase {
            SidecarPhase::Ready
        } else {
            phase
        },
        SidecarEvent::CloseRequested => if let SidecarPhase::Closed = phase {
            SidecarPhase::Closed
        } else {
            SidecarPhase::Closing
        },
        SidecarEvent::ChildExited => if let SidecarPhase::Closing = phase {
            SidecarPhase::Closed
        } else {
            phase
        },
    }
}

/// The supervisor's phase transitions, as a function.
pub open spec fn spec_sidecar_advance(phase: SidecarPhase, event: SidecarEvent) -> SidecarPhase {
    match event {
        SidecarEvent::SocketReady => if phase == SidecarPhase::Starting {
            SidecarPhase::Ready
        } else {
            phase
        },
        SidecarEvent::CloseRequested => if phase == SidecarPhase::Closed {
            SidecarPhase::Closed
        } else {
            SidecarPhase::Closing
        },
        SidecarEvent::ChildExited => if phase == SidecarPhase::Closing {
            SidecarPhase::Closed
        } else {
            phase
        },
    }
}

/// Closing is idempotent: a second close request, whenever it comes after
/// a first, does not move the supervisor again.
pub proof fn lemma_close_idempotent(phase: SidecarPhase)
    ensures
        spec_sidecar_advance(
            spec_sidecar_advance(phase, SidecarEvent::CloseRequested),
            SidecarEvent::CloseRequested,
        ) == spec_sidecar_advance(phase, SidecarEvent::CloseRequested),
{
}

} // verus!
