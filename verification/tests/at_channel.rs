use ctrl_modem::at_channel::{
    classify_io, expected_response_prefix, find_control_char, frame_response, is_device_gone_errno,
    is_urc_line, prepare_command, reopen_decision, should_reopen_after_io_error,
    validate_at_quoted_arg, AtExchangeError, FramingState, IoErrorKind, ReopenStep,
};
use ctrl_modem::hardware::HardwareError;
use std::io::ErrorKind as K;

fn kind_of(k: std::io::ErrorKind) -> IoErrorKind {
    match k {
        K::NotFound => IoErrorKind::NotFound,
        K::PermissionDenied => IoErrorKind::PermissionDenied,
        K::ConnectionRefused => IoErrorKind::ConnectionRefused,
        K::ConnectionReset => IoErrorKind::ConnectionReset,
        K::ConnectionAborted => IoErrorKind::ConnectionAborted,
        K::NotConnected => IoErrorKind::NotConnected,
        K::AddrInUse => IoErrorKind::AddrInUse,
        K::AddrNotAvailable => IoErrorKind::AddrNotAvailable,
        K::BrokenPipe => IoErrorKind::BrokenPipe,
        K::AlreadyExists => IoErrorKind::AlreadyExists,
        K::WouldBlock => IoErrorKind::WouldBlock,
        K::InvalidInput => IoErrorKind::InvalidInput,
        K::InvalidData => IoErrorKind::InvalidData,
        K::TimedOut => IoErrorKind::TimedOut,
        K::WriteZero => IoErrorKind::WriteZero,
        K::Interrupted => IoErrorKind::Interrupted,
        K::Unsupported => IoErrorKind::Unsupported,
        K::UnexpectedEof => IoErrorKind::UnexpectedEof,
        K::OutOfMemory => IoErrorKind::OutOfMemory,
        _ => IoErrorKind::Other,
    }
}

#[test]
fn should_reopen_on_fd_dead_kinds() {
    assert!(should_reopen_after_io_error(kind_of(std::io::ErrorKind::BrokenPipe)));
    assert!(should_reopen_after_io_error(kind_of(std::io::ErrorKind::NotConnected)));
    assert!(should_reopen_after_io_error(kind_of(std::io::ErrorKind::UnexpectedEof)));
}

#[test]
fn should_not_reopen_on_timed_out() {
    assert!(!should_reopen_after_io_error(kind_of(std::io::ErrorKind::TimedOut)));
}

#[test]
fn should_not_reopen_on_interrupted() {
    assert!(!should_reopen_after_io_error(kind_of(std::io::ErrorKind::Interrupted)));
}

#[test]
fn should_reopen_allow_set_is_exactly_fd_dead() {
    let reopen_kinds = [K::BrokenPipe, K::NotConnected, K::UnexpectedEof];
    let no_reopen_kinds = [
        K::TimedOut,
        K::Interrupted,
        K::WouldBlock,
        K::PermissionDenied,
        K::InvalidData,
        K::InvalidInput,
        K::Other,
        K::ConnectionReset,
        K::AddrInUse,
        K::AlreadyExists,
        K::WriteZero,
    ];
    for k in reopen_kinds {
        assert!(should_reopen_after_io_error(kind_of(k)), "{k:?} must reopen");
    }
    for k in no_reopen_kinds {
        assert!(!should_reopen_after_io_error(kind_of(k)), "{k:?} must NOT reopen");
    }
}

#[test]
fn cgdcont_build_rejects_quote_or_control_char_in_apn() {
    assert!(validate_at_quoted_arg("internet").is_ok(), "a clean APN must pass");
    assert!(validate_at_quoted_arg("apn.with-dots_123").is_ok(), "typical APN punctuation must pass");
    assert!(
        validate_at_quoted_arg("evil\",\"IP\"\rAT+QFASTBOOT").is_err(),
        "an APN containing a double-quote must be rejected"
    );
    assert!(validate_at_quoted_arg("evil\rAT+QFASTBOOT").is_err(), "an APN containing a CR must be rejected");
    assert!(validate_at_quoted_arg("evil\nfoo").is_err(), "an APN containing a LF must be rejected");
}

#[test]
fn quoted_arg_rejection_names_the_byte() {
    assert_eq!(
        validate_at_quoted_arg("ab\"c"),
        Err(HardwareError::CommandRejected(
            "AT quoted argument contains forbidden byte 0x22".to_string()
        ))
    );
    assert_eq!(
        validate_at_quoted_arg("x\ty"),
        Err(HardwareError::CommandRejected(
            "AT quoted argument contains forbidden byte 0x09".to_string()
        ))
    );
}

#[test]
fn is_device_gone_errno_matches_removed_device_errnos() {
    assert!(is_device_gone_errno(Some(5)));
    assert!(is_device_gone_errno(Some(6)));
    assert!(is_device_gone_errno(Some(19)));
    assert!(!is_device_gone_errno(Some(13)));
    assert!(!is_device_gone_errno(Some(0)));
    assert!(!is_device_gone_errno(None));
}

#[test]
fn classify_io_treats_device_gone_errno_as_reopenable() {
    let eio = std::io::Error::from_raw_os_error(5);
    assert!(matches!(
        classify_io(kind_of(eio.kind()), eio.raw_os_error(), "Write failed", &eio.to_string()),
        AtExchangeError::Reopenable(_)
    ));
    let eacces = std::io::Error::from_raw_os_error(13);
    assert!(matches!(
        classify_io(kind_of(eacces.kind()), eacces.raw_os_error(), "Write failed", &eacces.to_string()),
        AtExchangeError::Fatal(_)
    ));
}

#[test]
fn classify_io_message_joins_context_and_detail() {
    assert_eq!(
        classify_io(IoErrorKind::BrokenPipe, None, "Read failed", "pipe closed"),
        AtExchangeError::Reopenable("Read failed: pipe closed".to_string())
    );
}

#[test]
fn carriage_return_in_cmd_is_rejected_and_not_transmitted() {
    assert!(matches!(
        prepare_command("AT+CFUN=1\rAT+QFASTBOOT"),
        Err(AtExchangeError::Rejected(_))
    ));
    assert_eq!(find_control_char("AT+CFUN=1\rAT+QFASTBOOT"), Some(b'\r'));
}

#[test]
fn line_feed_in_cmd_is_rejected_and_not_transmitted() {
    assert_eq!(
        prepare_command("AT+CFUN=1\nAT+QFASTBOOT"),
        Err(AtExchangeError::Rejected(
            "AT command contains forbidden control byte 0x0a (possible multi-command injection)"
                .to_string()
        ))
    );
}

#[test]
fn normal_multi_arg_command_transmits_unchanged() {
    let cmd = "AT+QENG=\"servingcell\"";
    assert_eq!(prepare_command(cmd), Ok(format!("{cmd}\r")));
    assert_eq!(find_control_char(cmd), None);
}

#[test]
fn reopen_decision_reopens_only_once() {
    let dead = || Err(AtExchangeError::Reopenable("Write failed: broken pipe".to_string()));
    assert!(matches!(reopen_decision(false, dead()), ReopenStep::Reopen));
    match reopen_decision(true, dead()) {
        ReopenStep::Finish(Err(HardwareError::Io(m))) => assert_eq!(m, "Write failed: broken pipe"),
        other => panic!("expected Io error, got {other:?}"),
    }
}

#[test]
fn timed_out_does_not_trigger_reopen() {
    assert!(matches!(
        reopen_decision(false, Err(AtExchangeError::Timeout)),
        ReopenStep::Finish(Err(HardwareError::Timeout))
    ));
}

#[test]
fn healthy_port_returns_response_without_reopen() {
    match reopen_decision(false, Ok("+CSQ: 20,99\r\nOK\r\n".to_string())) {
        ReopenStep::Finish(Ok(resp)) => {
            assert!(resp.contains("+CSQ: 20,99"));
            assert!(resp.contains("OK"));
        }
        other => panic!("expected response, got {other:?}"),
    }
}

#[test]
fn rejected_command_finishes_without_reopen() {
    assert!(matches!(
        reopen_decision(false, Err(AtExchangeError::Rejected("bad".to_string()))),
        ReopenStep::Finish(Err(HardwareError::CommandRejected(_)))
    ));
    assert!(matches!(
        reopen_decision(false, Err(AtExchangeError::Fatal("eacces".to_string()))),
        ReopenStep::Finish(Err(HardwareError::Io(_)))
    ));
}

#[test]
fn expected_prefix_of_commands() {
    assert_eq!(expected_response_prefix("AT+CPIN?").as_deref(), Some("+CPIN:"));
    assert_eq!(expected_response_prefix("AT+QMBNCFG=\"AutoSel\"").as_deref(), Some("+QMBNCFG:"));
    assert_eq!(expected_response_prefix("AT+CREG?").as_deref(), Some("+CREG:"));
    assert_eq!(expected_response_prefix("at+creg?").as_deref(), Some("+creg:"));
    assert_eq!(expected_response_prefix("  AT+CSQ  ").as_deref(), Some("+CSQ:"));
    assert_eq!(expected_response_prefix("AT"), None);
    assert_eq!(expected_response_prefix("ATI"), None);
    assert_eq!(expected_response_prefix("AT+"), None);
}

#[test]
fn urc_lines_are_recognized() {
    assert!(is_urc_line("+CREG: 1,\"1A2B\"", Some("+CSQ:")));
    assert!(is_urc_line("RDY", None));
    assert!(is_urc_line("+CPIN: READY", None));
    assert!(!is_urc_line("+CPIN: READY", Some("+CPIN:")));
    assert!(!is_urc_line("+CSQ: 20,99", Some("+CSQ:")));
    assert!(!is_urc_line("OK", None));
}

fn read_lines(stream: &str) -> Vec<String> {
    stream.split_inclusive('\n').map(|l| l.to_string()).collect()
}

#[test]
fn r2_strips_command_echo_from_response() {
    let resp = frame_response("AT+CSQ", &read_lines("AT+CSQ\r\r\n+CSQ: 20,99\r\nOK\r\n"))
        .expect("exchange should succeed");
    assert!(resp.contains("+CSQ: 20,99"), "response body kept, got {resp:?}");
    assert!(!resp.lines().any(|l| l.trim() == "AT+CSQ"), "command echo line must be stripped, got {resp:?}");
}

#[test]
fn r2_bare_at_echo_crossing_does_not_terminate_early() {
    let resp = frame_response(
        "AT+QUIMSLOT?",
        &read_lines("AT\r\r\nOK\r\nAT+QUIMSLOT?\r\r\n+QUIMSLOT: 1\r\nOK\r\n"),
    )
    .expect("exchange should succeed");
    assert!(resp.contains("+QUIMSLOT: 1"), "must return the real QUIMSLOT response, got {resp:?}");
}

#[test]
fn r2_degrades_safely_when_echo_absent() {
    let resp = frame_response("AT+CSQ", &read_lines("+CSQ: 20,99\r\nOK\r\n"))
        .expect("echo-absent exchange should succeed");
    assert!(resp.contains("+CSQ: 20,99"), "got {resp:?}");
    assert!(resp.contains("OK"), "terminal accepted with no echo, got {resp:?}");
}

#[test]
fn r3_filters_interleaved_urcs_from_response() {
    let resp = frame_response(
        "AT+CSQ",
        &read_lines(
            "AT+CSQ\r\r\n+CREG: 1,\"1A2B\",\"00C1D2\",7\r\n+CSQ: 20,99\r\n+QIND: act,\"LTE\"\r\nOK\r\n",
        ),
    )
    .expect("exchange should succeed");
    assert!(resp.contains("+CSQ: 20,99"), "real response kept, got {resp:?}");
    assert!(!resp.contains("+CREG"), "+CREG URC must be filtered, got {resp:?}");
    assert!(!resp.contains("+QIND"), "+QIND URC must be filtered, got {resp:?}");
}

#[test]
fn r3_dual_use_guard_keeps_cpin_for_cpin_query() {
    let resp = frame_response("AT+CPIN?", &read_lines("AT+CPIN?\r\r\n+CPIN: READY\r\nOK\r\n"))
        .expect("exchange should succeed");
    assert!(resp.contains("+CPIN: READY"), "+CPIN: response must be kept for AT+CPIN?, got {resp:?}");
}

#[test]
fn r3_qmbncfg_autosel_read_clean_under_urc_flood() {
    let resp = frame_response(
        "AT+QMBNCFG=\"AutoSel\"",
        &read_lines(
            "AT+QMBNCFG=\"AutoSel\"\r\r\n+CREG: 1\r\n+QIND: SMS DONE\r\n+QMBNCFG: \"AutoSel\",1\r\n+CGEV: ME PDN ACT 1\r\nOK\r\n",
        ),
    )
    .expect("exchange should succeed");
    assert!(resp.contains("+QMBNCFG: \"AutoSel\",1"), "clean QMBNCFG line must survive, got {resp:?}");
    assert!(!resp.contains("+CREG"), "URC filtered, got {resp:?}");
    assert!(!resp.contains("+QIND"), "URC filtered, got {resp:?}");
    assert!(!resp.contains("+CGEV"), "URC filtered, got {resp:?}");
}

#[test]
fn framing_times_out_without_terminal() {
    assert_eq!(frame_response("AT+CSQ", &read_lines("AT+CSQ\r\r\n+CSQ: 20,99\r\n")), None);
}

#[test]
fn framing_state_reports_partial_response() {
    let mut st = FramingState::new("AT+CSQ");
    assert!(!st.feed_line("AT+CSQ\r\r\n"));
    assert!(!st.feed_line("+CSQ: 20,99\r\n"));
    assert_eq!(st.response(), "+CSQ: 20,99\r\n");
    assert!(st.feed_line("+CME ERROR: 10\r\n"));
    assert_eq!(st.response(), "+CSQ: 20,99\r\n+CME ERROR: 10\r\n");
}
