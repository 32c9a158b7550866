use js_sidecar::{
    Connection, ConnectionEvent, ConnectionManager, Error, ErrorResponseData, HostToWorkerMessageData,
    LogResponseData, RecycleEvent, RunResponseData, RunScriptArgs, RunWaitStep, run_wait_step,
    run_wait_trace, WorkerToHostMessage, WorkerToHostMessageData,
};

fn log_message(message_id: u32) -> WorkerToHostMessage {
    WorkerToHostMessage {
        request_id: 0,
        message_id,
        data: WorkerToHostMessageData::Log(LogResponseData {
            level: "info".to_owned(),
            data: "[\"abc\"]".to_owned(),
        }),
    }
}

fn response_message(globals: Vec<(String, String)>, return_value: &str) -> WorkerToHostMessage {
    WorkerToHostMessage {
        request_id: 0,
        message_id: 1,
        data: WorkerToHostMessageData::RunResponse(RunResponseData {
            globals,
            return_value: return_value.to_owned(),
        }),
    }
}

#[test]
fn default_args_are_empty() {
    let args = RunScriptArgs::default();
    assert_eq!(args.name, "");
    assert!(args.code.is_none());
    assert!(!args.recreate_context);
    assert!(!args.expr);
    assert!(args.globals.is_none());
    assert!(args.timeout_ms.is_none());
    assert!(args.functions.is_empty());
    assert!(args.modules.is_empty());
    assert!(args.return_keys.is_empty());
}

#[test]
fn counters_start_at_zero_and_increase() {
    let mut conn = Connection::new();
    let first = conn.run_script(RunScriptArgs::default());
    assert_eq!(first.request_id, 0);
    assert_eq!(first.message_id, 0);
    let second = conn.run_script(RunScriptArgs::default());
    assert_eq!(second.request_id, 1);
    assert_eq!(second.message_id, 1);
    let third = conn.ping();
    assert_eq!(third.request_id, 2);
    assert_eq!(third.message_id, 2);
}

#[test]
fn run_script_wraps_args() {
    let mut conn = Connection::new();
    let args = RunScriptArgs {
        code: Some("output + 15".to_owned()),
        expr: true,
        globals: Some(vec![("output".to_owned(), "5".to_owned())]),
        ..RunScriptArgs::default()
    };
    let msg = conn.run_script(args);
    match msg.data {
        HostToWorkerMessageData::RunScript(sent) => {
            assert_eq!(sent.code.as_deref(), Some("output + 15"));
            assert!(sent.expr);
            assert!(!sent.recreate_context);
            assert_eq!(
                sent.globals,
                Some(vec![("output".to_owned(), "5".to_owned())])
            );
        }
        HostToWorkerMessageData::Ping => panic!("expected a RunScript message"),
    }
}

#[test]
fn reset_flag_forces_recreate_context_once() {
    let mut conn = Connection::new();
    let mut manager = ConnectionManager::new("sock".to_owned());
    let ping = manager.recycle_ping(&mut conn);
    assert!(matches!(ping.data, HostToWorkerMessageData::Ping));
    let pong = WorkerToHostMessage {
        request_id: 0,
        message_id: 0,
        data: WorkerToHostMessageData::Pong,
    };
    manager
        .recycle_finish(&mut conn, RecycleEvent::Received(pong))
        .unwrap();
    // The recycle marked the connection; the next run starts fresh.
    let first = conn.run_script(RunScriptArgs::default());
    match first.data {
        HostToWorkerMessageData::RunScript(sent) => assert!(sent.recreate_context),
        _ => panic!("expected a RunScript message"),
    }
    // Exactly once: the run after it reuses its context again.
    let second = conn.run_script(RunScriptArgs::default());
    match second.data {
        HostToWorkerMessageData::RunScript(sent) => assert!(!sent.recreate_context),
        _ => panic!("expected a RunScript message"),
    }
}

#[test]
fn run_and_wait_collects_log_then_response() {
    let mut conn = Connection::new();
    let args = RunScriptArgs {
        code: Some("console.log('abc'); output = 15".to_owned()),
        globals: Some(vec![("output".to_owned(), "5".to_owned())]),
        ..RunScriptArgs::default()
    };
    let events = vec![
        ConnectionEvent::Message(log_message(0)),
        ConnectionEvent::Message(response_message(
            vec![("output".to_owned(), "15".to_owned())],
            "null",
        )),
    ];
    let (_, outcome) = conn.run_script_and_wait(args, events);
    let result = outcome.unwrap().unwrap();
    assert_eq!(result.messages.len(), 1);
    assert!(matches!(
        result.messages[0],
        WorkerToHostMessageData::Log(_)
    ));
    let globals = &result.response.globals;
    assert_eq!(globals.len(), 1);
    assert_eq!(globals[0].0, "output");
    assert_eq!(globals[0].1, "15");
}

#[test]
fn expression_run_yields_value_and_no_messages() {
    let events = vec![ConnectionEvent::Message(response_message(vec![], "20"))];
    let result = run_wait_trace(events).unwrap().unwrap();
    assert_eq!(result.messages.len(), 0);
    assert_eq!(result.response.return_value, "20");
}

#[test]
fn script_error_carries_message_and_prior_logs() {
    let error = WorkerToHostMessage {
        request_id: 0,
        message_id: 1,
        data: WorkerToHostMessageData::Error(ErrorResponseData {
            message: "This is an error".to_owned(),
            stack: None,
        }),
    };
    let events = vec![
        ConnectionEvent::Message(log_message(0)),
        ConnectionEvent::Message(error),
    ];
    let outcome = run_wait_trace(events).unwrap();
    match outcome {
        Err(Error::Script(script_error)) => {
            assert_eq!(script_error.error.message, "This is an error");
            assert_eq!(script_error.messages.len(), 1);
            assert!(matches!(
                script_error.messages[0],
                WorkerToHostMessageData::Log(_)
            ));
        }
        other => panic!("expected a Script error, saw {other:#?}"),
    }
}

#[test]
fn close_before_terminal_ends_early() {
    let events = vec![
        ConnectionEvent::Message(log_message(0)),
        ConnectionEvent::Closed,
    ];
    let outcome = run_wait_trace(events).unwrap();
    assert!(matches!(outcome, Err(Error::ScriptEndedEarly)));
}

#[test]
fn pending_run_has_no_outcome_yet() {
    let events = vec![ConnectionEvent::Message(log_message(0))];
    assert!(run_wait_trace(events).is_none());
}

#[test]
fn step_accumulates_non_terminal_messages() {
    let step = run_wait_step(Vec::new(), ConnectionEvent::Message(log_message(0)));
    match step {
        RunWaitStep::Continue(messages) => {
            assert_eq!(messages.len(), 1);
            assert!(matches!(messages[0], WorkerToHostMessageData::Log(_)));
        }
        other => panic!("expected the run to continue, saw {other:#?}"),
    }
}

#[test]
fn recycle_pong_passes_and_counts() {
    let mut conn = Connection::new();
    let mut manager = ConnectionManager::new("sock".to_owned());
    let _ = manager.recycle_ping(&mut conn);
    let pong = WorkerToHostMessage {
        request_id: 0,
        message_id: 0,
        data: WorkerToHostMessageData::Pong,
    };
    let outcome = manager.recycle_finish(&mut conn, RecycleEvent::Received(pong));
    assert!(outcome.is_ok());
    assert_eq!(manager.recycle_calls, 1);
    assert_eq!(manager.recycle_success, 1);
}

#[test]
fn recycle_non_pong_is_out_of_sync() {
    let mut conn = Connection::new();
    let mut manager = ConnectionManager::new("sock".to_owned());
    let _ = manager.recycle_ping(&mut conn);
    let stray = log_message(0);
    let outcome = manager.recycle_finish(&mut conn, RecycleEvent::Received(stray));
    assert!(matches!(outcome, Err(Error::ConnectionOutOfSync)));
    assert_eq!(manager.recycle_calls, 1);
    assert_eq!(manager.recycle_success, 0);
}

#[test]
fn recycle_timeout_and_close() {
    let mut conn = Connection::new();
    let mut manager = ConnectionManager::new("sock".to_owned());
    let _ = manager.recycle_ping(&mut conn);
    assert!(matches!(
        manager.recycle_finish(&mut conn, RecycleEvent::TimedOut),
        Err(Error::Timeout)
    ));
    let _ = manager.recycle_ping(&mut conn);
    assert!(matches!(
        manager.recycle_finish(&mut conn, RecycleEvent::ChannelClosed),
        Err(Error::ReadStream(_))
    ));
    assert_eq!(manager.recycle_calls, 2);
    assert_eq!(manager.recycle_success, 0);
}

#[test]
fn clean_recycles_keep_books_balanced() {
    let mut conn = Connection::new();
    let mut manager = ConnectionManager::new("sock".to_owned());
    for i in 0..5u32 {
        let ping = manager.recycle_ping(&mut conn);
        assert_eq!(ping.message_id, i);
        let pong = WorkerToHostMessage {
            request_id: ping.request_id,
            message_id: ping.message_id,
            data: WorkerToHostMessageData::Pong,
        };
        manager
            .recycle_finish(&mut conn, RecycleEvent::Received(pong))
            .unwrap();
    }
    assert_eq!(manager.recycle_calls, 5);
    assert_eq!(manager.recycle_success, 5);
    assert_eq!(manager.recycle_calls, manager.recycle_success);
}
