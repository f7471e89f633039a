use ctrl_modem::fingerprint::{
    generate_device_token, is_globally_unique_mac, is_valid_persisted_token, select_primary_mac,
    FingerprintInputs,
};
use sha2::Digest;

fn no_inputs() -> FingerprintInputs {
    FingerprintInputs {
        persisted_token: None,
        board_name: None,
        board_model: None,
        cpuinfo: None,
        primary_mac: None,
        machine_id: None,
        blkid_output: None,
    }
}

fn router_inputs() -> FingerprintInputs {
    FingerprintInputs {
        persisted_token: None,
        board_name: Some("bananapi,bpi-r4\n".to_string()),
        board_model: Some("Bananapi BPI-R4\n".to_string()),
        cpuinfo: Some("processor\t: 0\nSerial\t\t: 00000000deadbeef\n".to_string()),
        primary_mac: Some("00:11:22:33:44:55".to_string()),
        machine_id: Some("0123456789abcdef\n".to_string()),
        blkid_output: Some("/dev/root: UUID=\"1234-ABCD\" TYPE=\"squashfs\"\n".to_string()),
    }
}

#[test]
fn test_mock_token_on_non_linux() {
    let token = generate_device_token(&no_inputs());
    assert_eq!(token, "MOCK-DEV-TOKEN-NOT-FOR-PRODUCTION");
}

#[test]
fn test_deterministic() {
    let t1 = generate_device_token(&router_inputs());
    let t2 = generate_device_token(&router_inputs());
    assert_eq!(t1, t2, "Device token must be deterministic");
}

#[test]
fn test_is_globally_unique_mac() {
    assert!(is_globally_unique_mac("00:11:22:33:44:55"));
    assert!(is_globally_unique_mac("ac:de:48:00:11:22"));
    assert!(is_globally_unique_mac("10:20:30:40:50:60"));

    assert!(!is_globally_unique_mac("02:00:00:00:00:01"));
    assert!(!is_globally_unique_mac("06:11:22:33:44:55"));
    assert!(!is_globally_unique_mac("fe:ff:ff:ff:ff:ff"));
    assert!(!is_globally_unique_mac("da:d1:d2:d3:d4:d5"));

    assert!(!is_globally_unique_mac("00:00:00:00:00:00"));
    assert!(!is_globally_unique_mac(""));
    assert!(!is_globally_unique_mac("not-a-mac"));
    assert!(!is_globally_unique_mac("zz:00:00:00:00:00"));
}

#[test]
fn test_is_globally_unique_mac_whitespace() {
    assert!(is_globally_unique_mac("  00:11:22:33:44:55  "));
}

#[test]
fn test_is_valid_persisted_token() {
    assert!(is_valid_persisted_token("ABCDEFGHIJKLMNOPQRSTUVWXYZ234567ABCDEFGH"));
    assert!(is_valid_persisted_token("  ABCDEFGHIJKLMNOPQRSTUVWXYZ234567ABCDEFGH\n"));

    assert!(!is_valid_persisted_token("SHORT"));
    assert!(!is_valid_persisted_token(""));
    assert!(!is_valid_persisted_token("ABCDEF!@#$%^&*()GHIJKLMNOPQRSTUVWXYZ234567"));
    assert!(!is_valid_persisted_token(&"A".repeat(61)));
}

#[test]
fn generated_token_is_base32_sha256_of_sorted_entries() {
    let joined = "board_model=Bananapi BPI-R4:board_name=bananapi,bpi-r4:cpu_serial=00000000deadbeef:machine_id=0123456789abcdef:primary_mac=00:11:22:33:44:55:root_uuid=1234-ABCD";
    let expected = data_encoding::BASE32_NOPAD.encode(&sha2::Sha256::digest(joined.as_bytes()));
    let token = generate_device_token(&router_inputs());
    assert_eq!(token, expected);
    assert_eq!(token.len(), 52);
    assert!(is_valid_persisted_token(&token));
}

#[test]
fn persisted_token_wins() {
    let mut inputs = router_inputs();
    inputs.persisted_token = Some(" ABCDEFGHIJKLMNOPQRSTUVWXYZ234567ABCDEFGH\n".to_string());
    assert_eq!(generate_device_token(&inputs), "ABCDEFGHIJKLMNOPQRSTUVWXYZ234567ABCDEFGH");
    inputs.persisted_token = Some("garbage!".to_string());
    assert_ne!(generate_device_token(&inputs), "garbage!");
}

#[test]
fn primary_mac_prefers_unique_br_lan_then_eth0() {
    let picked = select_primary_mac(
        Some("02:00:00:00:00:01".to_string()),
        Some("00:11:22:33:44:55".to_string()),
        vec![],
        vec![],
    );
    assert_eq!(picked, Some(("eth0".to_string(), "00:11:22:33:44:55".to_string())));
    let picked = select_primary_mac(
        Some("02:00:00:00:00:01".to_string()),
        None,
        vec![("phy0".to_string(), "ac:de:48:00:11:22".to_string())],
        vec![],
    );
    assert_eq!(picked, Some(("wifi/phy0".to_string(), "ac:de:48:00:11:22".to_string())));
}

#[test]
fn primary_mac_falls_back_to_local_br_lan() {
    let picked = select_primary_mac(
        Some("02:00:00:00:00:01".to_string()),
        None,
        vec![("phy0".to_string(), "06:00:00:00:00:01".to_string())],
        vec![("eth1".to_string(), "0a:00:00:00:00:01".to_string())],
    );
    assert_eq!(picked, Some(("br-lan".to_string(), "02:00:00:00:00:01".to_string())));
    assert_eq!(select_primary_mac(None, None, vec![], vec![]), None);
}
