use ctrl_modem::hardware::{is_candidate_net_iface, modem_mac_from_file, usb_serial_from_file};
use ctrl_modem::hardware::{
    bus_port_from_path, choose_at_port, detect_mock_modems, detect_modems,
    find_net_device_for_bus_port, find_qmi_control_device_for_bus_port, generate_modem_id,
    interface_number_from_path, modem_id_from_identifiers, normalize_cgpaddr_ip,
    parse_product_from_uevent, DetectedModem, DetectionVerbosity, HardwareError, ModemProtocol,
};
use ctrl_modem::registry::ProfileRegistry;

fn modem(vendor: Option<&str>, product: Option<&str>, bus_port: Option<&str>) -> DetectedModem {
    DetectedModem {
        device_path: "/dev/cdc-wdm0".to_string(),
        protocol: ModemProtocol::Qmi,
        description: "test".to_string(),
        vendor_id: vendor.map(|s| s.to_string()),
        product_id: product.map(|s| s.to_string()),
        profile_id: None,
        has_profile: false,
        bus_port: bus_port.map(|s| s.to_string()),
        all_ports: Vec::new(),
    }
}

#[test]
fn find_qmi_control_device_for_bus_port_returns_none_on_missing_sysfs() {
    assert_eq!(find_qmi_control_device_for_bus_port("no-such-bus-port-99-99"), None);
}

#[test]
fn default_build_detects_no_modems() {
    let reg = ProfileRegistry::new();
    assert!(detect_modems(&reg, DetectionVerbosity::Quiet).is_empty());
    assert_eq!(find_net_device_for_bus_port("4-1"), None);
}

#[test]
fn default_build_modem_id_uses_bus_port() {
    let id = generate_modem_id(&modem(Some("2c7c"), Some("0801"), Some("4-1.2"))).unwrap();
    assert_eq!(id, "2c7c:0801:MOCK-412");
    let id = generate_modem_id(&modem(None, None, None)).unwrap();
    assert_eq!(id, "0000:0000:MOCK-unknown");
}

#[test]
fn mock_modem_list_has_one_quectel() {
    let modems = detect_mock_modems();
    assert_eq!(modems.len(), 1);
    assert_eq!(modems[0].device_path, "/dev/mock0");
    assert_eq!(modems[0].vendor_id.as_deref(), Some("2c7c"));
    assert_eq!(modems[0].product_id.as_deref(), Some("0801"));
}

#[test]
fn uevent_product_is_zero_padded_and_lowercased() {
    let content = "DEVTYPE=usb_device\nPRODUCT=2C7C/800/414\nTYPE=0/0/0\n";
    assert_eq!(
        parse_product_from_uevent(content),
        Some(("2c7c".to_string(), "0800".to_string()))
    );
    assert_eq!(parse_product_from_uevent("PRODUCT=2c7c\nDRIVER=usb\n"), None);
    assert_eq!(parse_product_from_uevent(""), None);
}

#[test]
fn bus_port_is_deepest_hub_component() {
    assert_eq!(
        bus_port_from_path("/sys/devices/platform/11200000.xhci/usb4/4-1/4-1.2/4-1.2:1.2/ttyUSB5"),
        Some("4-1.2".to_string())
    );
    assert_eq!(bus_port_from_path("/sys/devices/virtual/tty/tty0"), None);
}

#[test]
fn interface_number_from_component() {
    assert_eq!(
        interface_number_from_path("/sys/devices/platform/usb4/4-1/4-1.2/4-1.2:1.2/ttyUSB5"),
        Some(2)
    );
    assert_eq!(interface_number_from_path("/sys/devices/virtual/tty/tty0"), None);
}

#[test]
fn at_port_choice_follows_preferences() {
    let ports = vec!["/dev/ttyUSB0".to_string(), "/dev/ttyUSB1".to_string(), "/dev/ttyUSB2".to_string()];
    let ifaces = vec![Some(0), Some(1), Some(2)];
    assert_eq!(
        choose_at_port(&ports, &["ttyUSB2".to_string()], &[3], &ifaces),
        Some("/dev/ttyUSB2".to_string())
    );
    assert_eq!(
        choose_at_port(&ports, &["ttyUSB7".to_string()], &[5, 1], &ifaces),
        Some("/dev/ttyUSB1".to_string())
    );
    assert_eq!(choose_at_port(&ports, &[], &[9], &ifaces), Some("/dev/ttyUSB0".to_string()));
    assert_eq!(choose_at_port(&[], &[], &[], &[]), None);
}

#[test]
fn real_modem_id_prefers_serial_then_mac() {
    let m = modem(Some("2c7c"), Some("0122"), Some("4-1"));
    assert_eq!(
        modem_id_from_identifiers(&m, Some("e3183572"), Some("aa:bb:cc:dd:ee:ff")),
        Ok("2c7c:0122:e3183572".to_string())
    );
    assert_eq!(
        modem_id_from_identifiers(&m, Some("0000"), Some("00:12:d1:23:45:67")),
        Ok("2c7c:0122:MAC-0012d1234567".to_string())
    );
    assert_eq!(
        modem_id_from_identifiers(&m, None, None),
        Err(HardwareError::Internal(
            "No stable identifier available for modem at bus-port 4-1".to_string()
        ))
    );
    assert_eq!(
        modem_id_from_identifiers(&modem(None, None, None), Some("abc"), None),
        Err(HardwareError::Internal(
            "No stable identifier available for modem at bus-port unknown".to_string()
        ))
    );
}

#[test]
fn cgpaddr_ipv6_is_normalized() {
    assert_eq!(
        normalize_cgpaddr_ip("32.1.13.184.0.0.0.0.0.0.0.0.0.0.0.1"),
        "2001:0db8:0000:0000:0000:0000:0000:0001"
    );
    assert_eq!(normalize_cgpaddr_ip("10.0.0.42"), "10.0.0.42");
    assert_eq!(
        normalize_cgpaddr_ip("32.1.13.184.0.0.0.0.0.0.0.0.0.0.0.256"),
        "32.1.13.184.0.0.0.0.0.0.0.0.0.0.0.256"
    );
}

#[test]
fn sysfs_readings() {
    assert!(is_candidate_net_iface("wwan0"));
    assert!(is_candidate_net_iface("usb0"));
    assert!(!is_candidate_net_iface("lo"));
    assert!(!is_candidate_net_iface("sit0"));
    assert!(!is_candidate_net_iface("br-lan"));
    assert!(!is_candidate_net_iface("docker0"));
    assert!(is_candidate_net_iface("lo0"));
    assert_eq!(usb_serial_from_file(" a1b2c3 \n").as_deref(), Some("a1b2c3"));
    assert_eq!(usb_serial_from_file(" \n"), None);
    assert_eq!(modem_mac_from_file("AA:BB:CC:00:11:22\n").as_deref(), Some("aa:bb:cc:00:11:22"));
    assert_eq!(modem_mac_from_file("00:00:00:00:00:00\n"), None);
    assert_eq!(modem_mac_from_file("\n"), None);
}
