use logqtt::error::TryRecvError;
use logqtt::journal::try_recv_outcome;
use logqtt::orchestrator::{may_poll, next_state, on_poll, Action, RunState, POLL_IDLE_MILLIS};
use logqtt::Timestamp;

fn entry(with_host: bool) -> Vec<(String, String)> {
    let mut e = vec![
        ("MESSAGE".to_string(), "m".to_string()),
        ("PRIORITY".to_string(), "5".to_string()),
    ];
    if with_host {
        e.push(("_HOSTNAME".to_string(), "h".to_string()));
    }
    e
}

#[test]
fn recoverable_entry_is_reported_and_polling_continues() {
    let now = Timestamp { micros: 1 };
    let mut state = RunState::Running;
    let first = on_poll(try_recv_outcome(Ok(Some(entry(false))), now));
    assert!(matches!(first, Action::Report(TryRecvError::Recoverable { .. })));
    state = next_state(state, false, false);
    assert!(may_poll(state));
    let second = on_poll(try_recv_outcome(Ok(Some(entry(true))), now));
    match second {
        Action::Publish(item) => assert_eq!(item.hostname, "h"),
        other => panic!("unexpected {other:?}"),
    }
}

#[test]
fn not_ready_sleeps_on_every_poll() {
    for _ in 0..3 {
        match on_poll(Err(TryRecvError::NotReady)) {
            Action::Sleep { millis } => assert_eq!(millis, POLL_IDLE_MILLIS),
            other => panic!("unexpected {other:?}"),
        }
    }
    assert!(POLL_IDLE_MILLIS > 0);
}

#[test]
fn finished_connection_stops_the_loop() {
    let state = next_state(RunState::Running, false, true);
    assert_eq!(state, RunState::Stopping);
    assert!(!may_poll(state));
    assert_eq!(next_state(state, false, false), RunState::Stopped);
    assert_eq!(next_state(RunState::Stopped, false, false), RunState::Stopped);
}

#[test]
fn shutdown_request_stops_the_loop() {
    assert_eq!(next_state(RunState::Running, true, false), RunState::Stopping);
    assert_eq!(next_state(RunState::Running, false, false), RunState::Running);
    assert!(may_poll(RunState::Running));
}

#[test]
fn fatal_and_closed_abort() {
    let fatal = TryRecvError::Fatal { context: "x".to_string(), cause: None };
    assert!(matches!(on_poll(Err(fatal)), Action::Abort(TryRecvError::Fatal { .. })));
    assert!(matches!(on_poll(Err(TryRecvError::Closed)), Action::Abort(TryRecvError::Closed)));
}
