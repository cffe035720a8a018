use serde_json::Value;
use swarmfs_tui::ipc::{
    classify_response, frame_request, plain_call, text_call, text_list, Call, RpcClient,
    RpcError, RpcStep,
};
use swarmfs_tui::json::{get_array, get_bool, get_i64, get_or_null, get_str, get_u64};

fn json(text: &str) -> Value {
    serde_json::from_str(text).unwrap()
}

#[test]
fn accessors_read_members_by_type() {
    let v = json(r#"{"s":"text","b":true,"n":7,"neg":-3,"a":[1,"x"],"o":{"k":null}}"#);
    assert_eq!(get_str(&v, "s"), Some("text"));
    assert_eq!(get_str(&v, "n"), None);
    assert_eq!(get_str(&v, "missing"), None);
    assert_eq!(get_bool(&v, "b"), Some(true));
    assert_eq!(get_bool(&v, "s"), None);
    assert_eq!(get_u64(&v, "n"), Some(7));
    assert_eq!(get_u64(&v, "neg"), None);
    assert_eq!(get_i64(&v, "neg"), Some(-3));
    assert_eq!(get_i64(&v, "n"), Some(7));
    assert_eq!(get_array(&v, "a").map(|a| a.len()), Some(2));
    assert!(get_array(&v, "o").is_none());
    assert_eq!(get_or_null(&v, "o"), json(r#"{"k":null}"#));
    assert_eq!(get_or_null(&v, "missing"), Value::Null);
    assert_eq!(get_str(&json("[1,2]"), "s"), None);
}

#[test]
fn accessors_tell_integer_ranges_apart() {
    let v = json(r#"{"big":18446744073709551615,"float":1.5,"min":-9223372036854775808}"#);
    assert_eq!(get_u64(&v, "big"), Some(u64::MAX));
    assert_eq!(get_i64(&v, "big"), None);
    assert_eq!(get_u64(&v, "float"), None);
    assert_eq!(get_i64(&v, "float"), None);
    assert_eq!(get_i64(&v, "min"), Some(i64::MIN));
}

#[test]
fn call_builders_set_method_and_params() {
    let call = text_call("topic.join", "name", "music");
    assert_eq!(call.method, "topic.join");
    assert_eq!(call.params, json(r#"{"name":"music"}"#));
    let call = plain_call("network.overview");
    assert_eq!(call.method, "network.overview");
    assert_eq!(call.params, json("{}"));
    let list = text_list(&vec!["a".to_string(), "b".to_string()]);
    assert_eq!(list, json(r#"["a","b"]"#));
    assert_eq!(text_list(&Vec::new()), json("[]"));
}

#[test]
fn request_frame_is_one_line_of_json() {
    let call = Call { method: "files.info".to_string(), params: json(r#"{"path":"a/b"}"#) };
    let line = frame_request("12", call).unwrap();
    assert!(line.ends_with('\n'));
    assert_eq!(line.matches('\n').count(), 1);
    let frame = json(line.trim_end());
    assert_eq!(
        frame,
        json(r#"{"id":"12","type":"req","method":"files.info","params":{"path":"a/b"}}"#)
    );
}

#[test]
fn ids_count_up_from_one_in_decimal() {
    let mut client = RpcClient::new();
    let mut ids = Vec::new();
    for _ in 0..12 {
        let pending = match client.begin(plain_call("node.status")) {
            Ok(pending) => pending,
            Err(_) => panic!("a request without parameters can be written"),
        };
        let frame = json(pending.line.trim_end());
        assert_eq!(get_str(&frame, "id"), Some(pending.id.as_str()));
        assert_eq!(get_str(&frame, "type"), Some("req"));
        assert_eq!(get_str(&frame, "method"), Some("node.status"));
        ids.push(pending.id);
    }
    let expected: Vec<String> = (1..=12).map(|n: u32| n.to_string()).collect();
    assert_eq!(ids, expected);
}

#[test]
fn response_with_another_id_does_not_resolve() {
    let early = r#"{"id":"7","type":"res","ok":true,"result":{"n":1}}"#;
    let ours = r#"{"id":"8","type":"res","ok":true,"result":{"n":2}}"#;
    assert!(matches!(RpcClient::on_line("8", early), RpcStep::Ignore));
    match RpcClient::on_line("8", ours) {
        RpcStep::Resolve(Ok(result)) => assert_eq!(result, json(r#"{"n":2}"#)),
        _ => panic!("the response with the pending id resolves the call"),
    }
}

#[test]
fn lines_that_are_no_response_are_ignored() {
    assert!(matches!(RpcClient::on_line("1", ""), RpcStep::Ignore));
    assert!(matches!(RpcClient::on_line("1", "   \n"), RpcStep::Ignore));
    assert!(matches!(RpcClient::on_line("1", "not json"), RpcStep::Ignore));
    assert!(matches!(RpcClient::on_line("1", "{\"id\":\"1\""), RpcStep::Ignore));
    let event = r#"{"type":"evt","event":"log","data":{},"id":"1"}"#;
    assert!(matches!(RpcClient::on_line("1", event), RpcStep::Ignore));
    let request = r#"{"type":"req","id":"1","method":"x","params":{}}"#;
    assert!(matches!(RpcClient::on_line("1", request), RpcStep::Ignore));
    let numeric_id = r#"{"type":"res","id":1,"ok":true}"#;
    assert!(matches!(RpcClient::on_line("1", numeric_id), RpcStep::Ignore));
    let no_type = r#"{"id":"1","ok":true}"#;
    assert!(matches!(RpcClient::on_line("1", no_type), RpcStep::Ignore));
}

#[test]
fn response_is_read_through_surrounding_white_space() {
    let line = "  {\"id\":\"3\",\"type\":\"res\",\"ok\":true,\"result\":5}\r\n";
    match RpcClient::on_line("3", line) {
        RpcStep::Resolve(Ok(result)) => assert_eq!(result, json("5")),
        _ => panic!("white space around a frame does not matter"),
    }
}

#[test]
fn success_without_result_gives_null() {
    let frame = json(r#"{"id":"1","type":"res","ok":true}"#);
    match classify_response(&frame, "1") {
        RpcStep::Resolve(Ok(result)) => assert_eq!(result, Value::Null),
        _ => panic!("a response with ok resolves the call"),
    }
}

#[test]
fn failure_carries_the_daemon_message() {
    let frame = json(r#"{"id":"1","type":"res","ok":false,"error":{"message":"no such topic"}}"#);
    match classify_response(&frame, "1") {
        RpcStep::Resolve(Err(RpcError::Daemon { message })) => {
            assert_eq!(message, "no such topic")
        }
        _ => panic!("a response without ok fails the call"),
    }
}

#[test]
fn failure_without_message_gets_the_generic_one() {
    for text in [
        r#"{"id":"1","type":"res","ok":false}"#,
        r#"{"id":"1","type":"res","ok":false,"error":{}}"#,
        r#"{"id":"1","type":"res","ok":false,"error":{"message":5}}"#,
        r#"{"id":"1","type":"res","ok":"yes","result":1}"#,
        r#"{"id":"1","type":"res"}"#,
    ] {
        match classify_response(&json(text), "1") {
            RpcStep::Resolve(Err(e)) => assert_eq!(e.message(), "RPC error"),
            _ => panic!("a response without ok fails the call"),
        }
    }
}

#[test]
fn disconnect_fails_the_call() {
    match RpcClient::on_disconnect() {
        Err(e) => {
            assert!(matches!(e, RpcError::Disconnected));
            assert_eq!(e.message(), "daemon disconnected");
        }
        Ok(_) => panic!("a lost connection fails the call"),
    }
}

#[test]
fn error_messages_by_variant() {
    assert_eq!(RpcError::Disconnected.message(), "daemon disconnected");
    assert_eq!(RpcError::Daemon { message: "x".to_string() }.message(), "x");
    assert_eq!(RpcError::Encode.message(), "request could not be encoded");
}
