use serde_json::Value;
use swarmfs_tui::app::{App, LogEntry};
use swarmfs_tui::ipc::types::{DaemonEvent, NetworkEvent, StateEvent};
use swarmfs_tui::tabs::TabId;

fn json(text: &str) -> Value {
    serde_json::from_str(text).unwrap()
}

#[test]
fn unknown_state_event_keeps_name_and_payload() {
    let frame = json(r#"{"type":"evt","event":"state.unknown_future_kind","data":{"a":[1,2]}}"#);
    match DaemonEvent::try_from(frame) {
        Ok(DaemonEvent::State(StateEvent::Other { name, data })) => {
            assert_eq!(name, "state.unknown_future_kind");
            assert_eq!(data, json(r#"{"a":[1,2]}"#));
        }
        _ => panic!("an unknown state event is kept"),
    }
}

#[test]
fn unknown_network_event_keeps_name_and_payload() {
    match NetworkEvent::from_event_name("network.peer", json("[1]")) {
        NetworkEvent::Other { name, data } => {
            assert_eq!(name, "network.peer");
            assert_eq!(data, json("[1]"));
        }
        _ => panic!("an unknown network event is kept"),
    }
}

#[test]
fn known_events_get_their_variant() {
    assert!(matches!(
        StateEvent::from_event_name("state.files", json("1")),
        StateEvent::Files(v) if v == json("1")
    ));
    assert!(matches!(
        StateEvent::from_event_name("state.topics", json("2")),
        StateEvent::Topics(v) if v == json("2")
    ));
    assert!(matches!(
        NetworkEvent::from_event_name("network.stats", json("3")),
        NetworkEvent::Stats(v) if v == json("3")
    ));
    assert!(matches!(
        StateEvent::from_event_name("state.filesx", json("1")),
        StateEvent::Other { .. }
    ));
}

#[test]
fn event_without_data_gets_null() {
    match DaemonEvent::try_from(json(r#"{"event":"network.stats"}"#)) {
        Ok(DaemonEvent::Network(NetworkEvent::Stats(data))) => assert_eq!(data, Value::Null),
        _ => panic!("the payload defaults to null"),
    }
}

#[test]
fn event_of_an_unknown_namespace_is_kept() {
    for name in ["files.changed", "network", "state", "logs", ""] {
        let frame = json(&format!(r#"{{"event":"{}","data":[1]}}"#, name));
        match DaemonEvent::try_from(frame) {
            Ok(DaemonEvent::Other { name: kept, data }) => {
                assert_eq!(kept, name);
                assert_eq!(data, json("[1]"));
            }
            _ => panic!("an event of an unknown namespace is kept"),
        }
    }
}

#[test]
fn event_without_a_name_is_an_error() {
    for text in [r#"{"data":1}"#, r#"{"event":7}"#, r#"{"event":null,"data":{}}"#, "[]"] {
        match DaemonEvent::try_from(json(text)) {
            Err(e) => assert_eq!(e.message(), "event without a name"),
            Ok(_) => panic!("a frame without a name carries no event"),
        }
    }
}

#[test]
fn log_entry_reads_members_and_defaults() {
    let entry = LogEntry::try_from(json(r#"{"ts":1700,"level":"warn","message":"disk"}"#));
    assert_eq!(entry.ts, 1700);
    assert_eq!(entry.level, "warn");
    assert_eq!(entry.message, "disk");
    let entry = LogEntry::try_from(json(r#"{"ts":"late","level":3}"#));
    assert_eq!(entry.ts, 0);
    assert_eq!(entry.level, "info");
    assert_eq!(entry.message, "");
    let entry = LogEntry::try_from(Value::Null);
    assert_eq!((entry.ts, entry.level.as_str(), entry.message.as_str()), (0, "info", ""));
}

#[test]
fn lines_decode_to_events_or_nothing() {
    let line = "{\"type\":\"evt\",\"event\":\"log\",\"data\":{\"message\":\"hi\"}}\n";
    match DaemonEvent::from_line(line) {
        Some(DaemonEvent::Log(entry)) => assert_eq!(entry.message, "hi"),
        _ => panic!("a log event decodes"),
    }
    assert!(DaemonEvent::from_line("").is_none());
    assert!(DaemonEvent::from_line("garbage").is_none());
    assert!(DaemonEvent::from_line(r#"{"type":"res","id":"1","ok":true}"#).is_none());
    assert!(DaemonEvent::from_line(r#"{"event":"log","data":{}}"#).is_none());
    assert!(DaemonEvent::from_line(r#"{"type":"evt","data":1}"#).is_none());
    assert!(matches!(
        DaemonEvent::from_line(r#"{"type":"evt","event":"other.kind"}"#),
        Some(DaemonEvent::Other { .. })
    ));
    assert!(matches!(
        DaemonEvent::from_line(r#"{"type":"evt","event":"state.unknown_future_kind","data":4}"#),
        Some(DaemonEvent::State(StateEvent::Other { .. }))
    ));
}

#[test]
fn events_keep_the_order_of_the_lines() {
    let lines = [
        r#"{"type":"evt","event":"log","data":{"message":"one"}}"#,
        "noise",
        r#"{"type":"evt","event":"log","data":{"message":"two"}}"#,
        r#"{"type":"res","id":"1","ok":true}"#,
        r#"{"type":"evt","event":"log","data":{"message":"three"}}"#,
    ];
    let mut messages = Vec::new();
    for line in lines {
        if let Some(DaemonEvent::Log(entry)) = DaemonEvent::from_line(line) {
            messages.push(entry.message);
        }
    }
    assert_eq!(messages, vec!["one", "two", "three"]);
    let lines: Vec<String> = lines.iter().map(|l| l.to_string()).collect();
    let batch: Vec<String> = DaemonEvent::from_lines(&lines)
        .into_iter()
        .map(|e| match e {
            DaemonEvent::Log(entry) => entry.message,
            _ => panic!("only log events were sent"),
        })
        .collect();
    assert_eq!(batch, messages);
    assert!(DaemonEvent::from_lines(&Vec::new()).is_empty());
}

fn log(message: &str) -> LogEntry {
    LogEntry { ts: 0, level: "info".to_string(), message: message.to_string() }
}

#[test]
fn app_starts_empty_on_the_network_tab() {
    let app = App::new();
    assert!(!app.should_quit);
    assert_eq!(app.active_tab, TabId::Network);
    assert_eq!(app.status_json, Value::Null);
    assert!(app.logs.is_empty());
    assert_eq!(app.logs_max, 5000);
    assert!(app.network.stats_json.is_none());
    assert!(app.ui.tab_hitboxes.is_empty());
}

#[test]
fn log_keeps_the_newest_entries() {
    let mut app = App::new();
    app.logs_max = 3;
    for i in 0..5 {
        app.push_log(log(&format!("m{}", i)));
    }
    let kept: Vec<&str> = app.logs.iter().map(|e| e.message.as_str()).collect();
    assert_eq!(kept, vec!["m2", "m3", "m4"]);
    app.logs_max = 0;
    app.push_log(log("gone"));
    assert!(app.logs.is_empty());
}

#[test]
fn app_takes_in_events() {
    let mut app = App::new();
    app.on_daemon_event(DaemonEvent::Log(log("first")));
    assert_eq!(app.logs.len(), 1);
    app.on_daemon_event(DaemonEvent::Network(NetworkEvent::Stats(json(r#"{"peers":3}"#))));
    assert_eq!(app.network.stats_json, Some(json(r#"{"peers":3}"#)));
    app.on_daemon_event(DaemonEvent::Network(NetworkEvent::Other {
        name: "network.x".to_string(),
        data: json("1"),
    }));
    assert_eq!(app.network.stats_json, Some(json(r#"{"peers":3}"#)));
    app.on_daemon_event(DaemonEvent::State(StateEvent::Files(json("1"))));
    assert_eq!(app.logs.len(), 1);
    app.set_active_tab(TabId::Logs);
    assert_eq!(app.active_tab, TabId::Logs);
}

#[test]
fn status_follows_successful_replies_only() {
    let mut app = App::new();
    app.refresh_basics(Ok(json(r#"{"up":true}"#)));
    assert_eq!(app.status_json, json(r#"{"up":true}"#));
    app.refresh_basics(Err(swarmfs_tui::ipc::RpcError::Disconnected));
    assert_eq!(app.status_json, json(r#"{"up":true}"#));
}
