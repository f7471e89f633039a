use ctrl_modem::at_replies::{extract_cme_error_code, parse_cpin};
use ctrl_modem::types::SimState;

#[test]
fn cpin_states() {
    assert_eq!(parse_cpin("+CPIN: READY\r\nOK\r\n"), SimState::Ready);
    assert_eq!(parse_cpin("+CPIN: SIM PIN\r\nOK\r\n"), SimState::PinRequired);
    assert_eq!(parse_cpin("+CPIN: SIM PUK\r\nOK\r\n"), SimState::PukRequired);
    assert_eq!(parse_cpin("+CME ERROR: 10\r\n"), SimState::NotInserted);
    assert_eq!(parse_cpin(""), SimState::Error);
}

#[test]
fn cme_error_codes() {
    assert_eq!(extract_cme_error_code("+CME ERROR: 516\r\n"), Some(516));
    assert_eq!(extract_cme_error_code("OK\r\n  +CME ERROR: 504 \r\n"), Some(504));
    assert_eq!(extract_cme_error_code("+CME ERROR: SIM busy\r\n"), None);
    assert_eq!(extract_cme_error_code("ERROR\r\n"), None);
}
