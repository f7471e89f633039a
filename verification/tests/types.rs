use ctrl_modem::types::{
    wan_modem_state_from_flag, wan_modem_state_from_name, UsbNetMode, WanModemEntry, WanModemState,
    WatchdogConfig,
};

#[test]
fn default_is_unknown() {
    assert_eq!(UsbNetMode::default(), UsbNetMode::Unknown);
}

#[test]
fn watchdog_defaults_include_wedge_reboot_off() {
    let w = WatchdogConfig::default();
    assert!(!w.wedge_reboot_enabled);
    assert_eq!(w.wedge_reboot_grace_mins, 10);
    assert_eq!(w.wedge_reboot_max_per_day, 2);
    assert_eq!(w.wedge_reboot_min_uptime_mins, 15);
}

fn entry(state: WanModemState) -> WanModemEntry {
    WanModemEntry {
        modem_id: "2c7c:0801:abc".to_string(),
        label: "Modem 1".to_string(),
        interface_name: "wwan0".to_string(),
        network_device: "wwan0".to_string(),
        device_path: "/dev/cdc-wdm0".to_string(),
        state,
        metric: 10,
        entry_type: Default::default(),
        original_bridge: None,
        mtu: None,
        ttl: None,
        hop_limit: None,
        weight: None,
        proto_override: None,
    }
}

#[test]
fn wan_entry_active_only_in_active_state() {
    assert!(entry(WanModemState::Active).is_active());
    assert!(!entry(WanModemState::Standby).is_active());
}

#[test]
fn wan_modem_state_stored_forms() {
    assert_eq!(wan_modem_state_from_name("active"), Some(WanModemState::Active));
    assert_eq!(wan_modem_state_from_name("standby"), Some(WanModemState::Standby));
    assert_eq!(wan_modem_state_from_name("Active"), None);
    assert_eq!(wan_modem_state_from_name("enabled"), None);
    assert_eq!(wan_modem_state_from_flag(true), WanModemState::Active);
    assert_eq!(wan_modem_state_from_flag(false), WanModemState::Standby);
    assert_eq!(WanModemState::default(), WanModemState::Standby);
}
