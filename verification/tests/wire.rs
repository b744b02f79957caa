use qmp::wire::{
    build_capabilities_request, build_execute_request, decimal_text, frame_line, json_quote,
    received_line, trim_line,
};
use qmp::Error;
use serde_json::Value;

fn object(pairs: Vec<(&str, Value)>) -> String {
    let mut m = serde_json::Map::new();
    for (k, v) in pairs {
        m.insert(k.to_string(), v);
    }
    Value::Object(m).to_string()
}

#[test]
fn requests_match_the_original_transcript() {
    assert_eq!(
        build_capabilities_request(0, &[]),
        r#"{"execute":"qmp_capabilities","id":0}"#
    );
    assert_eq!(
        build_execute_request(1, "query-version", None),
        r#"{"execute":"query-version","id":1}"#
    );
}

#[test]
fn execute_request_with_arguments() {
    let args = object(vec![("device", Value::from("drive0")), ("force", Value::from(true))]);
    let line = build_execute_request(42, "eject", Some(&args));
    assert_eq!(line, r#"{"arguments":{"device":"drive0","force":true},"execute":"eject","id":42}"#);
    let expected = object(vec![
        ("execute", Value::from("eject")),
        ("arguments", serde_json::from_str::<Value>(&args).unwrap()),
        ("id", Value::from(42u64)),
    ]);
    assert_eq!(line, expected);
}

#[test]
fn capabilities_request_with_enable_list() {
    let caps = vec!["oob".to_string(), "x\"y".to_string()];
    let line = build_capabilities_request(0, &caps);
    assert_eq!(
        line,
        r#"{"arguments":{"enable":["oob","x\"y"]},"execute":"qmp_capabilities","id":0}"#
    );
    let one = build_capabilities_request(7, &["oob".to_string()]);
    assert_eq!(one, r#"{"arguments":{"enable":["oob"]},"execute":"qmp_capabilities","id":7}"#);
}

#[test]
fn quoting_escapes_like_the_json_library() {
    let raw = "a\"b\\c\u{8}\t\n\u{c}\r\u{1}\u{1f} é\u{7f}";
    assert_eq!(json_quote(raw), "\"a\\\"b\\\\c\\b\\t\\n\\f\\r\\u0001\\u001f é\u{7f}\"");
    assert_eq!(json_quote(raw), serde_json::to_string(raw).unwrap());
    assert_eq!(json_quote(""), "\"\"");
}

#[test]
fn decimal_numbers() {
    assert_eq!(decimal_text(0), "0");
    assert_eq!(decimal_text(9), "9");
    assert_eq!(decimal_text(10), "10");
    assert_eq!(decimal_text(1234567890), "1234567890");
    assert_eq!(decimal_text(u64::MAX), u64::MAX.to_string());
}

#[test]
fn framing_round_trip() {
    let line = build_execute_request(3, "query-status", None);
    let framed = frame_line(&line);
    assert_eq!(framed, format!("{line}\r\n"));
    assert_eq!(trim_line(&framed), line);
}

#[test]
fn trimming_removes_every_trailing_line_end() {
    assert_eq!(trim_line("{}\r\n"), "{}");
    assert_eq!(trim_line("{}\n\r\n\r"), "{}");
    assert_eq!(trim_line("{}"), "{}");
    assert_eq!(trim_line("\r\n"), "");
    assert_eq!(trim_line("a\rb\n"), "a\rb");
    assert_eq!(trim_line("é\n"), "é");
}

#[test]
fn received_lines() {
    assert!(matches!(received_line(0, ""), Err(Error::Disconnected)));
    assert_eq!(received_line(4, "{}\r\n").unwrap(), "{}");
}

#[test]
fn quoted_text_never_holds_a_line_break() {
    let quoted = json_quote("line one\r\nline two\n");
    assert!(!quoted.contains('\n') && !quoted.contains('\r'));
    let line = build_execute_request(5, "human-monitor-command", Some(&quoted));
    assert_eq!(trim_line(&frame_line(&line)), line);
}
