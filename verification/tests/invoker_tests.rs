use invoker::invoker::{
    captured_output, java_arguments, log_arguments, must_wait_for_slot, output_subject,
    request_sent_millis, shell_command, streamed_output, LogPayload, SILENT_EXIT_CODE,
};

#[test]
fn shell_command_quotes_the_payload() {
    assert_eq!(shell_command("../go/example-function/acl/handler_acl", b"user1"), "../go/example-function/acl/handler_acl 'user1'");
    assert_eq!(shell_command("echo", b""), "echo ''");
}

#[test]
fn shell_command_replaces_invalid_utf8() {
    assert_eq!(shell_command("echo", &[b'o', 0xc3, b'k']), "echo 'o\u{FFFD}k'");
}

#[test]
fn waits_while_all_slots_are_taken() {
    assert!(must_wait_for_slot(10, 10));
    assert!(must_wait_for_slot(11, 10));
    assert!(!must_wait_for_slot(9, 10));
    assert!(!must_wait_for_slot(0, 5));
}

#[test]
fn silent_exit_publishes_nothing() {
    assert_eq!(SILENT_EXIT_CODE, 8);
    assert_eq!(output_subject(8, Some("inbox.1".to_string()), "output".to_string()), None);
    assert_eq!(output_subject(8, None, "output".to_string()), None);
}

#[test]
fn output_goes_to_reply_subject_first() {
    assert_eq!(
        output_subject(0, Some("inbox.1".to_string()), "output".to_string()),
        Some("inbox.1".to_string())
    );
    assert_eq!(output_subject(1, None, "output".to_string()), Some("output".to_string()));
    assert_eq!(output_subject(-1, None, "out".to_string()), Some("out".to_string()));
}

#[test]
fn request_time_is_read_from_the_payload() {
    assert_eq!(request_sent_millis(b"1725029869000"), Some(1725029869000));
    assert_eq!(request_sent_millis(b"+5"), Some(5));
    assert_eq!(request_sent_millis(b"hello"), None);
    assert_eq!(request_sent_millis(b" 12"), None);
    assert_eq!(request_sent_millis(&[0xff]), None);
}

#[test]
fn java_launcher_arguments() {
    assert_eq!(java_arguments("app.jar"), vec!["-jar".to_string(), "app.jar".to_string()]);
}

#[test]
fn log_function_arguments() {
    let payload = LogPayload {
        timestamp: "2024-01-01T00:00:00Z".to_string(),
        message: "disk full".to_string(),
        severity: "error".to_string(),
    };
    assert_eq!(
        log_arguments("../function/LOG-js-function/logger.js", &payload),
        vec![
            "../function/LOG-js-function/logger.js".to_string(),
            "2024-01-01T00:00:00Z".to_string(),
            "disk full".to_string(),
            "error".to_string()
        ]
    );
}

#[test]
fn captured_output_is_trimmed() {
    assert_eq!(captured_output(b"  allowed\n"), "allowed");
    assert_eq!(captured_output(b"\n\n"), "");
    assert_eq!(captured_output(&[b'x', 0xfe, b'\n']), "x\u{FFFD}");
}

#[test]
fn streamed_output_joins_lines() {
    let lines = vec!["first".to_string(), "second".to_string(), "".to_string()];
    assert_eq!(streamed_output(&lines), "first\nsecond");
    assert_eq!(streamed_output(&Vec::new()), "");
    assert_eq!(streamed_output(&vec!["  one ".to_string()]), "one");
}

#[test]
fn payloads_are_read_as_utf8() {
    assert_eq!(shell_command("run", "héllo".as_bytes()), "run 'héllo'");
    assert_eq!(captured_output(&[]), "");
}
