use gardena_bnw::ipc::{make_frame, message_too_big, received_message, RepService, SocketReadError, SubService};
use gardena_bnw::syslog::{
    escape_val, format_event_line, remove_invalid, str_lt, CollectingVisitor, LogLevel, SpanFields,
};
use std::collections::HashMap;

#[test]
fn test_make_frame() {
    let msg = "Hello, World!";
    let frame = make_frame(msg);
    assert_eq!(frame, "Hello, World!\n");
}

#[test]
fn test_make_frame_escaped() {
    let msg = "Hello\nWorld!";
    let frame = make_frame(msg);
    assert_eq!(frame, "Hello\\nWorld!\n");
}

#[test]
fn frames_are_trimmed_single_lines() {
    assert_eq!(make_frame("  a \n\n"), "a \\n\\n\n");
    assert_eq!(make_frame("\t\u{3000}"), "\n");
    let frame = make_frame("x\ny\nz");
    assert_eq!(frame.matches('\n').count(), 1);
    assert!(frame.ends_with('\n'));
}

#[test]
fn received_messages() {
    assert_eq!(received_message(None, b""), Err(SocketReadError::ReadError));
    assert_eq!(received_message(Some(0), b""), Err(SocketReadError::PeerDisconnected));
    assert_eq!(received_message(Some(4), b"abc\n"), Ok("abc\n".to_string()));
    assert_eq!(received_message(Some(2), &[0xff, b'\n']), Err(SocketReadError::ReadError));
    assert!(message_too_big(16 * 1024 * 1024 + 1));
    assert!(!message_too_big(16 * 1024 * 1024));
}

#[test]
fn services_keep_their_urls() {
    assert_eq!(RepService::new("/tmp/a-command.ipc").get_url(), "/tmp/a-command.ipc");
    assert_eq!(SubService::new("/tmp/a-event.ipc").get_url(), "/tmp/a-event.ipc");
}

#[test]
fn syslog_escaping() {
    assert_eq!(escape_val(r#"a"b]c\d"#), r#"a\"b\]c\\d"#);
    assert_eq!(remove_invalid("a b=c]d\"e\u{e9}f"), "abcdef");
    assert_eq!(remove_invalid(&"x".repeat(40)), "x".repeat(32));
    assert!(str_lt("abc", "abd"));
    assert!(str_lt("ab", "abc"));
    assert!(!str_lt("b", "abc"));
    assert!(!str_lt("abc", "abc"));
}

#[test]
fn collecting_visitor_replaces_values() {
    let mut fields: HashMap<&str, String> = HashMap::new();
    let mut visitor = CollectingVisitor::new(&mut fields);
    visitor.record("a", "1".to_string());
    visitor.record("a", "2".to_string());
    assert_eq!(fields.get("a"), Some(&"2".to_string()));
}

fn f(n: &str, v: &str) -> (String, String) {
    (n.to_string(), v.to_string())
}

#[test]
fn log_lines() {
    let spans = vec![
        SpanFields { name: "outer".to_string(), fields: vec![f("device", "\"dev\"")] },
        SpanFields { name: "inner".to_string(), fields: vec![f("zeta", "1"), f("alpha", "2")] },
    ];
    let line = format_event_line(
        LogLevel::Warn,
        Some(spans),
        vec![f("message", "started"), f("log.target", "x"), f("remote", "r]")],
    );
    assert_eq!(
        line,
        "<4>[bnw@55029 device=\"\\\"dev\\\"\" activity=\"inner\" remote=\"r\\]\"] started, alpha=2, zeta=1\n"
    );

    let metric = format_event_line(
        LogLevel::Trace,
        None,
        vec![f("metric_name", "rx bytes"), f("metric_value", "12"), f("activity", "boot")],
    );
    assert_eq!(
        metric,
        "<7>[bnw@55029 activity=\"boot\"][metric@55029 name=\"rxbytes\" value=\"12\"] \n"
    );

    let plain = format_event_line(LogLevel::Error, None, vec![]);
    assert_eq!(plain, "<3>[bnw@55029] \n");
}
