use ctrl_modem::hardware::HardwareError;
use ctrl_modem::mock::{
    mock_change_pin, mock_check_pin, mock_device_info, mock_scan_networks, mock_select_network,
    MockState,
};
use ctrl_modem::types::{AuthType, ConnectionConfig, IpType, RegistrationState, SimState};

fn config(apn: &str) -> ConnectionConfig {
    ConnectionConfig {
        cid: 1,
        apn: apn.to_string(),
        username: None,
        password: None,
        auth_type: AuthType::NoAuth,
        ip_type: IpType::Ipv4,
    }
}

#[test]
fn test_mock_device_info() {
    let info = mock_device_info();
    assert_eq!(info.manufacturer, "Quectel");
    assert_eq!(info.model, "RM520N-GL");
}

#[test]
fn test_mock_connect_disconnect() {
    let mut modem = MockState::default();
    modem.connect(&config("internet"), 100).unwrap();
    let status = modem.get_status();
    assert!(status.connected);
    assert!(status.ip_address.is_some());
    modem.disconnect().unwrap();
    let status = modem.get_status();
    assert!(!status.connected);
}

#[test]
fn test_mock_reconnect_after_disconnect() {
    let mut modem = MockState::default();
    modem.connect(&config("internet"), 100).unwrap();
    modem.disconnect().unwrap();
    assert!(!modem.get_status().connected);
    modem.reconnect(200).unwrap();
    assert!(modem.get_status().connected);
    assert_eq!(modem.get_data_stats(230).session_uptime_secs, 30);
}

#[test]
fn test_mock_at_commands() {
    let modem = MockState::default();
    assert_eq!(modem.execute_at("AT"), "OK");
    assert!(modem.execute_at("AT+CSQ").contains("+CSQ:"));
}

#[test]
fn mock_status_normalizes_signal() {
    let modem = MockState::default();
    assert_eq!(modem.get_status().signal_strength, 61);
    assert_eq!(modem.execute_at("at+csq"), "+CSQ: 19,99\n\nOK");
}

#[test]
fn mock_connect_errors() {
    let mut modem = MockState::default();
    assert_eq!(modem.connect(&config(""), 1), Err(HardwareError::CommandRejected("APN required".to_string())));
    modem.sim_locked = true;
    assert_eq!(modem.connect(&config("internet"), 1), Err(HardwareError::SimError("SIM PIN required".to_string())));
    modem.sim_present = false;
    assert_eq!(modem.connect(&config("internet"), 1), Err(HardwareError::SimError("No SIM card".to_string())));
    assert!(!modem.connected);
}

#[test]
fn mock_pin_unlocks_sim() {
    let mut modem = MockState::default();
    modem.sim_locked = true;
    assert_eq!(modem.get_sim_status().state, SimState::PinRequired);
    assert!(modem.get_sim_status().imsi.is_none());
    assert_eq!(modem.verify_pin("0000"), Err(HardwareError::SimError("Incorrect PIN".to_string())));
    assert!(modem.sim_locked);
    modem.verify_pin("1234").unwrap();
    assert_eq!(modem.get_sim_status().state, SimState::Ready);
    assert_eq!(modem.execute_at("AT+CPIN?"), "+CPIN: READY\n\nOK");
}

#[test]
fn mock_registration_follows_connection() {
    let mut modem = MockState::default();
    assert_eq!(modem.get_registration(), RegistrationState::NotRegistered);
    modem.connect(&config("internet"), 0).unwrap();
    assert_eq!(modem.get_registration(), RegistrationState::Registered { home: true });
    assert_eq!(modem.execute_at("AT+COPS?"), "+COPS: 0,0,\"Mock Carrier\",7\n\nOK");
}

#[test]
fn mock_pin_management() {
    assert!(mock_change_pin("1234", "5678").is_ok());
    assert_eq!(mock_change_pin("1234", "123"), Err(HardwareError::SimError("PIN must be 4-8 digits".to_string())));
    assert_eq!(mock_change_pin("9999", "5678"), Err(HardwareError::SimError("Incorrect PIN".to_string())));
    assert!(mock_check_pin("1234").is_ok());
    assert!(mock_check_pin("4321").is_err());
}

#[test]
fn mock_network_selection() {
    assert_eq!(mock_scan_networks().len(), 3);
    assert!(mock_select_network(None).is_ok());
    assert!(mock_select_network(Some("310410")).is_ok());
    assert_eq!(
        mock_select_network(Some("99999")),
        Err(HardwareError::CommandRejected("Unknown operator: 99999".to_string()))
    );
}

#[test]
fn mock_at_replies_for_profiles() {
    let modem = MockState::default();
    assert_eq!(modem.execute_at("AT+QCFG=\"usbnet\""), "+QCFG: \"usbnet\",0\r\nOK\r\n");
    assert_eq!(modem.execute_at("AT+QMBNCFG=\"AutoSel\""), "+QMBNCFG: \"AutoSel\",0\n\nOK");
    assert_eq!(modem.execute_at("AT+QMBNCFG=\"AutoSel\",1"), "OK");
    assert_eq!(modem.execute_at("AT+QNWPREFCFG=\"nrdc_mode\""), "+QNWPREFCFG: \"nrdc_mode\",0\n\nOK");
    assert_eq!(modem.execute_at("AT+QUIMSLOT=2"), "OK");
    assert_eq!(modem.execute_at("AT+UNKNOWN"), "OK");
}
