use logqtt::error::{RecvError, TryRecvError};
use logqtt::journal::{recv_outcome, try_recv_outcome};
use logqtt::level::systemd_priority_rankings;
use logqtt::mapping::entry_to_log_item;
use logqtt::{LogLevel, Timestamp};

fn pair(k: &str, v: &str) -> (String, String) {
    (k.to_string(), v.to_string())
}

fn now() -> Timestamp {
    Timestamp { micros: 1_750_000_000_123_456 }
}

fn full_entry(priority: &str) -> Vec<(String, String)> {
    vec![
        pair("MESSAGE", "disk full"),
        pair("PRIORITY", priority),
        pair("_SYSTEMD_UNIT", "diskd.service"),
        pair("_HOSTNAME", "host1"),
        pair("_SOURCE_REALTIME_TIMESTAMP", "1700000000000000"),
    ]
}

#[test]
fn scenario_entry_maps_to_record() {
    let item = entry_to_log_item(full_entry("3"), now()).unwrap();
    assert_eq!(item.hostname, "host1");
    assert_eq!(item.unit, "diskd.service");
    assert_eq!(item.level, LogLevel::Error);
    assert_eq!(item.message, "disk full");
    assert_eq!(item.timestamp, Timestamp { micros: 1_700_000_000_000_000 });
}

#[test]
fn missing_unit_defaults_to_unknown() {
    let entry = vec![pair("MESSAGE", "m"), pair("PRIORITY", "6"), pair("_HOSTNAME", "h")];
    let item = entry_to_log_item(entry, now()).unwrap();
    assert_eq!(item.unit, "unknown");
    assert_eq!(item.level, LogLevel::Info);
}

#[test]
fn missing_timestamp_uses_time_of_mapping() {
    let entry = vec![pair("MESSAGE", "m"), pair("PRIORITY", "6"), pair("_HOSTNAME", "h")];
    let item = entry_to_log_item(entry, now()).unwrap();
    assert_eq!(item.timestamp, now());
}

#[test]
fn missing_required_fields_are_rejected() {
    for missing in ["MESSAGE", "PRIORITY", "_HOSTNAME"] {
        let entry: Vec<(String, String)> =
            full_entry("3").into_iter().filter(|(k, _)| k != missing).collect();
        let err = entry_to_log_item(entry, now()).unwrap_err();
        assert!(!err.is_empty());
    }
}

#[test]
fn priority_ranks_map_to_levels_in_order() {
    let expected = [
        LogLevel::Emergency,
        LogLevel::Alert,
        LogLevel::Critical,
        LogLevel::Error,
        LogLevel::Warning,
        LogLevel::Notice,
        LogLevel::Info,
        LogLevel::Debug,
    ];
    assert_eq!(systemd_priority_rankings(), expected.to_vec());
    for (rank, level) in expected.iter().enumerate() {
        let item = entry_to_log_item(full_entry(&rank.to_string()), now()).unwrap();
        assert_eq!(item.level, *level);
    }
}

#[test]
fn out_of_range_or_malformed_priority_is_rejected() {
    for bad in ["8", "42", "-1", "abc", "", "18446744073709551616"] {
        assert!(entry_to_log_item(full_entry(bad), now()).is_err(), "{bad}");
    }
    assert_eq!(entry_to_log_item(full_entry("+3"), now()).unwrap().level, LogLevel::Error);
}

#[test]
fn malformed_timestamp_is_rejected() {
    let mut entry = full_entry("3");
    entry[4] = pair("_SOURCE_REALTIME_TIMESTAMP", "soon");
    assert!(entry_to_log_item(entry, now()).is_err());
}

#[test]
fn unknown_keys_are_ignored_and_last_value_counts() {
    let mut entry = full_entry("3");
    entry.push(pair("_PID", "12"));
    entry.push(pair("MESSAGE", "disk really full"));
    let item = entry_to_log_item(entry, now()).unwrap();
    assert_eq!(item.message, "disk really full");
}

#[test]
fn missing_hostname_is_recoverable_on_try_recv() {
    let entry: Vec<(String, String)> =
        full_entry("3").into_iter().filter(|(k, _)| k != "_HOSTNAME").collect();
    match try_recv_outcome(Ok(Some(entry)), now()) {
        Err(TryRecvError::Recoverable { context, cause }) => {
            assert!(!context.is_empty());
            assert!(cause.is_none());
        }
        other => panic!("unexpected {other:?}"),
    }
}

#[test]
fn try_recv_outcomes() {
    assert!(matches!(try_recv_outcome(Ok(None), now()), Err(TryRecvError::NotReady)));
    match try_recv_outcome(Err("io failure".to_string()), now()) {
        Err(TryRecvError::Fatal { context, cause }) => {
            assert_eq!(context, "failed to read from journal");
            assert_eq!(cause.as_deref(), Some("io failure"));
        }
        other => panic!("unexpected {other:?}"),
    }
    let item = try_recv_outcome(Ok(Some(full_entry("4"))), now()).unwrap();
    assert_eq!(item.level, LogLevel::Warning);
}

#[test]
fn recv_outcomes() {
    assert!(recv_outcome(Ok(None), now()).is_none());
    match recv_outcome(Err("gone".to_string()), now()) {
        Some(Err(RecvError::Fatal { context, cause })) => {
            assert_eq!(context, "failed to read from journal");
            assert_eq!(cause.as_deref(), Some("gone"));
        }
        other => panic!("unexpected {other:?}"),
    }
    assert!(matches!(
        recv_outcome(Ok(Some(vec![pair("MESSAGE", "m")])), now()),
        Some(Err(RecvError::Recoverable { .. }))
    ));
    let item = recv_outcome(Ok(Some(full_entry("0"))), now()).unwrap().unwrap();
    assert_eq!(item.level, LogLevel::Emergency);
}

#[test]
fn error_descriptions() {
    assert_eq!(RecvError::Closed.to_string(), "log connection closed");
    assert_eq!(TryRecvError::Closed.to_string(), "log connection closed");
    assert_eq!(TryRecvError::NotReady.to_string(), "log not ready");
    let e = RecvError::Recoverable { context: "bad entry".to_string(), cause: None };
    assert_eq!(e.to_string(), "recoverable error: bad entry");
    let e = RecvError::Fatal { context: "read".to_string(), cause: Some("eof".to_string()) };
    assert_eq!(e.to_string(), "fatal error: read; caused by eof");
    let e = TryRecvError::Recoverable { context: "x".to_string(), cause: Some("y".to_string()) };
    assert_eq!(e.to_string(), "recoverable error: x; caused by y");
    let e = TryRecvError::Fatal { context: "read".to_string(), cause: None };
    assert_eq!(e.to_string(), "fatal error: read");
}
