use ctrl_modem::diagnostics::{redact_qicsgp, truncate_on_char_boundary};

#[test]
fn qicsgp_write_cmd_password_redacted() {
    let cmd = r#"AT+QICSGP=1,1,"internet","myuser","s3cr3t!",2"#;
    let result = redact_qicsgp(cmd);
    assert!(!result.contains("s3cr3t!"), "write command must not contain plaintext password, got: {result}");
    assert!(result.contains(r#"AT+QICSGP=1,1,"internet","myuser","#), "prefix fields must be preserved, got: {result}");
    assert!(result.ends_with(",2"), "auth field must be preserved, got: {result}");
}

#[test]
fn qicsgp_response_line_password_redacted() {
    let resp = r#"+QICSGP: 1,"internet","myuser","s3cr3t!",2"#;
    let result = redact_qicsgp(resp);
    assert!(!result.contains("s3cr3t!"), "response line must not contain plaintext password, got: {result}");
    assert!(result.contains(r#"+QICSGP: 1,"internet","myuser","#), "prefix fields must be preserved, got: {result}");
    assert!(result.ends_with(",2"), "auth field must be preserved, got: {result}");
}

#[test]
fn qicsgp_empty_password_handled_correctly() {
    let cmd = r#"AT+QICSGP=1,1,"internet","","",0"#;
    let result = redact_qicsgp(cmd);
    assert!(result.contains(r#"AT+QICSGP=1,1,"internet","","#), "empty-password write must preserve prefix fields, got: {result}");
    assert!(result.ends_with(",0"), "auth field must be preserved for empty-password case, got: {result}");
    assert!(result.contains("<redacted>"), "empty password must still emit redaction marker, got: {result}");
}

#[test]
fn non_qicsgp_line_passes_through_unchanged() {
    for cmd in &["AT+CGDCONT?", "AT+CSQ", "AT+CFUN=1", "+CSQ: 20,0", "+CGDCONT: 1,\"IP\",\"internet\"", "OK"] {
        let result = redact_qicsgp(cmd);
        assert_eq!(result, *cmd, "non-QICSGP line must pass through unchanged");
    }
}

#[test]
fn qicsgp_multiline_response_redacts_only_qicsgp_line() {
    let response = "+QICSGP: 1,\"internet\",\"myuser\",\"s3cr3t!\",2\r\nOK\r\n";
    let result = redact_qicsgp(response);
    assert!(!result.contains("s3cr3t!"), "multiline: password must be redacted, got: {result}");
    assert!(result.contains("OK"), "multiline: non-QICSGP lines must be preserved, got: {result}");
}

#[test]
fn qicsgp_redaction_is_exact() {
    assert_eq!(
        redact_qicsgp("+QICSGP: 1,\"internet\",\"myuser\",\"s3cr3t!\",2\r\nOK\r\n"),
        "+QICSGP: 1,\"internet\",\"myuser\",\"<redacted>\",2\r\nOK\r\n"
    );
    assert_eq!(
        redact_qicsgp("at+qicsgp=1,1,\"apn\",\"u\",\"p\",1"),
        "at+qicsgp=1,1,\"apn\",\"u\",\"<redacted>\",1"
    );
}

#[test]
fn truncate_short_string_returned_unchanged() {
    let s = "AT+CSQ OK";
    assert_eq!(truncate_on_char_boundary(s, 200), s);
}

#[test]
fn truncate_empty_string_returned_unchanged() {
    assert_eq!(truncate_on_char_boundary("", 200), "");
}

#[test]
fn truncate_exactly_at_limit_returned_whole() {
    let s = "abcde";
    assert_eq!(truncate_on_char_boundary(s, 5), s);
}

#[test]
fn truncate_ascii_over_limit_truncates_to_limit() {
    let s = "a".repeat(250);
    let out = truncate_on_char_boundary(&s, 200);
    assert_eq!(out.len(), 200);
    assert!(s.starts_with(out));
}

#[test]
fn truncate_mid_multibyte_codepoint_does_not_panic() {
    let s = "é".repeat(100);
    assert_eq!(s.len(), 200);
    let out = truncate_on_char_boundary(&s, 199);
    assert_eq!(out.len(), 198);
    assert_eq!(out.chars().count(), 99);
    assert!(out.chars().all(|c| c == 'é'));
}

#[test]
fn truncate_never_panics_at_any_boundary_in_multibyte_string() {
    let s = "AT+COPS: 0,0,\"Téléphøne 日本語 Ñandú\",7\r\nOK\r\n";
    for limit in 0..=s.len() + 5 {
        let out = truncate_on_char_boundary(s, limit);
        assert!(s.starts_with(out));
        assert!(out.len() <= limit || out.len() == s.len());
    }
}

#[test]
fn response_line_with_write_text_in_apn_is_redacted() {
    let input = "+QICSGP: 1,\"at+qicsgp=evil\",\"AT+QICSGP=1,1\",\"secret\",3\r\nOK\r\n";
    let out = redact_qicsgp(input);
    assert_eq!(out, "+QICSGP: 1,\"at+qicsgp=evil\",\"AT+QICSGP=1,1\",\"<redacted>\",3\r\nOK\r\n");
    assert!(!out.contains("secret"));
    let write = "AT+QICSGP=1,1,\"apn\",\"user\",\"pw\",1";
    assert_eq!(redact_qicsgp(write), "AT+QICSGP=1,1,\"apn\",\"user\",\"<redacted>\",1");
    assert_eq!(redact_qicsgp("  +qicsgp: 2,\"a\",\"b\",\"\",0"), "  +qicsgp: 2,\"a\",\"b\",\"<redacted>\",0");
}
