use js_sidecar::connection::{
    readiness_step, sidecar_advance, shutdown_begin, shutdown_force_kill, u64_to_decimal,
    ReadinessStep, ShutdownAction, SidecarEvent, SidecarPhase, POOL_MAX_SIZE, READINESS_ATTEMPTS,
    READINESS_RETRY_DELAY_MS, RECEIVE_QUEUE_CAPACITY, RECYCLE_TIMEOUT_MS, SHUTDOWN_WAIT_MS,
};
use js_sidecar::{socket_file_name, worker_command_args, Error, ErrorResponseData, RunScriptError};

#[test]
fn decimal_rendering() {
    assert_eq!(u64_to_decimal(0), "0");
    assert_eq!(u64_to_decimal(9), "9");
    assert_eq!(u64_to_decimal(10), "10");
    assert_eq!(u64_to_decimal(1234567890), "1234567890");
    assert_eq!(u64_to_decimal(u64::MAX), "18446744073709551615");
}

#[test]
fn socket_file_names_are_exact_and_distinct() {
    assert_eq!(socket_file_name(12, 3), "js_sidecar.12.3.sock");
    assert_eq!(socket_file_name(0, 0), "js_sidecar.0.0.sock");
    // The two numbers cannot blur into each other.
    assert_ne!(socket_file_name(12, 3), socket_file_name(1, 23));
    assert_ne!(socket_file_name(123, 4), socket_file_name(12, 34));
}

#[test]
fn worker_args_without_worker_count() {
    let args = worker_command_args("/tmp/boot.mjs".to_owned(), "/tmp/w.sock".to_owned(), None);
    assert_eq!(
        args,
        vec![
            "--no-warnings=ExperimentalWarning".to_owned(),
            "--experimental-vm-modules".to_owned(),
            "/tmp/boot.mjs".to_owned(),
            "--socket".to_owned(),
            "/tmp/w.sock".to_owned(),
        ]
    );
}

#[test]
fn worker_args_with_worker_count() {
    let args = worker_command_args("b.mjs".to_owned(), "w.sock".to_owned(), Some(4));
    assert_eq!(args.len(), 7);
    assert_eq!(args[5], "--workers");
    assert_eq!(args[6], "4");
}

#[test]
fn readiness_policy() {
    assert_eq!(readiness_step(true, 0), ReadinessStep::Proceed);
    assert_eq!(readiness_step(true, 49), ReadinessStep::Proceed);
    assert_eq!(readiness_step(false, 0), ReadinessStep::RetryAfterDelay);
    assert_eq!(readiness_step(false, 49), ReadinessStep::RetryAfterDelay);
    assert_eq!(readiness_step(false, 50), ReadinessStep::GiveUp);
    assert_eq!(READINESS_ATTEMPTS, 50);
    assert_eq!(READINESS_RETRY_DELAY_MS, 10);
}

#[test]
fn shutdown_policy() {
    assert_eq!(shutdown_begin(Some(1234)), ShutdownAction::SignalAndWait);
    assert_eq!(shutdown_begin(None), ShutdownAction::Done);
    assert!(shutdown_force_kill(false));
    assert!(!shutdown_force_kill(true));
    assert_eq!(SHUTDOWN_WAIT_MS, 5000);
}

#[test]
fn pool_and_queue_bounds() {
    assert_eq!(POOL_MAX_SIZE, 1024);
    assert_eq!(RECEIVE_QUEUE_CAPACITY, 16);
    assert_eq!(RECYCLE_TIMEOUT_MS, 1000);
}

#[test]
fn lifecycle_transitions() {
    let ready = sidecar_advance(SidecarPhase::Starting, SidecarEvent::SocketReady);
    assert_eq!(ready, SidecarPhase::Ready);
    let closing = sidecar_advance(ready, SidecarEvent::CloseRequested);
    assert_eq!(closing, SidecarPhase::Closing);
    let closed = sidecar_advance(closing, SidecarEvent::ChildExited);
    assert_eq!(closed, SidecarPhase::Closed);
    // Closing again, at any point, changes nothing further.
    assert_eq!(
        sidecar_advance(closing, SidecarEvent::CloseRequested),
        SidecarPhase::Closing
    );
    assert_eq!(
        sidecar_advance(closed, SidecarEvent::CloseRequested),
        SidecarPhase::Closed
    );
}

#[test]
fn error_descriptions() {
    assert_eq!(
        Error::Timeout.describe(),
        "Timed out communicating with worker"
    );
    assert_eq!(
        Error::InvalidMessageType(0x9999).describe(),
        "Unknown message type 39321"
    );
    assert_eq!(
        Error::ScriptEndedEarly.describe(),
        "Script ended without a response"
    );
    let script = Error::Script(RunScriptError {
        error: ErrorResponseData {
            message: "This is an error".to_owned(),
            stack: None,
        },
        messages: Vec::new(),
    });
    assert_eq!(script.describe(), "ScriptError: This is an error");
}
