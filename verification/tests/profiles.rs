use ctrl_modem::builtin::{
    builtin_profiles, generic_modem, quectel_rm500q_gl, quectel_rm520n_gl, quectel_rm551e_gl,
    telit_fn990,
};
use ctrl_modem::profiles::ApnLiveConfig;
use ctrl_modem::registry::ProfileRegistry;

const QICSGP_QUERY: &str = "AT+QICSGP={cid}";
const QICSGP_WRITE: &str =
    r#"AT+QICSGP={cid},{context_type},"{apn}","{username}","{password}",{auth}"#;

#[test]
fn quectel_profiles_expose_qicsgp_apn_live_config() {
    for profile in [quectel_rm551e_gl(), quectel_rm520n_gl(), quectel_rm500q_gl()] {
        assert_eq!(
            profile.apn_live_config.query.as_deref(),
            Some(QICSGP_QUERY),
            "{} query template",
            profile.identity.model
        );
        assert_eq!(
            profile.apn_live_config.write.as_deref(),
            Some(QICSGP_WRITE),
            "{} write template",
            profile.identity.model
        );
    }
}

#[test]
fn non_quectel_profiles_have_no_apn_live_config() {
    for profile in [telit_fn990(), generic_modem()] {
        assert!(profile.apn_live_config.query.is_none(), "{} query must be None", profile.identity.model);
        assert!(profile.apn_live_config.write.is_none(), "{} write must be None", profile.identity.model);
    }
}

#[test]
fn apn_live_config_default_is_none_none() {
    let cfg = ApnLiveConfig::default();
    assert!(cfg.query.is_none());
    assert!(cfg.write.is_none());
}

#[test]
fn quectel_whitelists_cover_qicsgp_query_and_write() {
    for profile in [quectel_rm551e_gl(), quectel_rm520n_gl(), quectel_rm500q_gl()] {
        let wl = &profile.at_whitelist_additions;
        for cid in 1..=8 {
            let q = format!("AT+QICSGP={cid}");
            assert!(
                wl.safe_commands.contains(&q),
                "{} safe_commands must contain {q}",
                profile.identity.model
            );
        }
        assert!(
            wl.confirmation_commands.contains(&"AT+QICSGP".to_string()),
            "{} confirmation_commands must contain bare AT+QICSGP",
            profile.identity.model
        );
    }
}

#[test]
fn builtin_profiles_in_priority_order() {
    let all = builtin_profiles();
    let ids: Vec<String> = all.iter().map(|p| p.profile_id()).collect();
    assert_eq!(ids, vec!["quectel_rm551e_gl", "quectel_rm520n_gl", "quectel_rm500q_gl", "telit_fn990"]);
    assert!(all.iter().all(|p| !p.is_generic()));
}

#[test]
fn generic_profile_id_is_generic() {
    let g = generic_modem();
    assert!(g.is_generic());
    assert_eq!(g.profile_id(), "generic");
}

#[test]
fn match_profile_ignores_leading_zeros_and_case() {
    let reg = ProfileRegistry::new();
    assert_eq!(reg.match_profile("2c7c", "122").identity.model, "RM551E-GL");
    assert_eq!(reg.match_profile(" 2C7C ", "0122").identity.model, "RM551E-GL");
    assert_eq!(reg.match_profile("2c7c", "0801").identity.model, "RM520N-GL");
    assert_eq!(reg.match_profile("1bc7", "1073").identity.model, "FN990");
}

#[test]
fn match_profile_falls_back_to_generic() {
    let reg = ProfileRegistry::new();
    assert!(reg.match_profile("dead", "beef").is_generic());
    assert!(reg.match_profile("not-hex", "0122").is_generic());
}

#[test]
fn find_by_id_resolves_generic_and_specific() {
    let reg = ProfileRegistry::new();
    assert!(reg.find_by_id("generic").unwrap().is_generic());
    assert_eq!(reg.find_by_id("telit_fn990").unwrap().identity.product_id, "1073");
    assert!(reg.find_by_id("no_such_modem").is_none());
    assert_eq!(reg.all_profiles().len(), 4);
    assert!(reg.generic().is_generic());
}

#[test]
fn override_replaces_profile_with_same_ids() {
    let mut reg = ProfileRegistry::new();
    let mut custom = quectel_rm520n_gl();
    custom.identity.model = "RM520N-GL custom".to_string();
    reg.apply_override(custom);
    assert_eq!(reg.all_profiles().len(), 4);
    assert_eq!(reg.all_profiles()[3].identity.model, "RM520N-GL custom");
    assert_eq!(reg.match_profile("2c7c", "0801").identity.model, "RM520N-GL custom");
}

#[test]
fn override_with_new_ids_is_added() {
    let mut reg = ProfileRegistry::new();
    let mut extra = generic_modem();
    extra.identity.vendor_id = "1199".to_string();
    extra.identity.product_id = "9071".to_string();
    extra.identity.manufacturer = "Sierra Wireless".to_string();
    extra.identity.model = "EM7455".to_string();
    reg.apply_override(extra);
    assert_eq!(reg.all_profiles().len(), 5);
    assert_eq!(reg.match_profile("1199", "9071").profile_id(), "sierra_wireless_em7455");
}

#[test]
fn registry_fallback_is_generic_modem() {
    let reg = ctrl_modem::registry::ProfileRegistry::new();
    let g = reg.generic();
    assert!(g.is_generic());
    assert_eq!(g.profile_id(), "generic");
    assert_eq!(g.identity.manufacturer, "Generic");
    assert_eq!(g.identity.model, "Unknown Modem");
    assert!(g.commands.signal_cmd.is_none());
    for p in reg.all_profiles().iter().chain([reg.generic()]) {
        assert_eq!(reg.find_by_id(&p.profile_id()).map(|q| q.profile_id()), Some(p.profile_id()));
    }
    assert!(reg.find_by_id("nonexistent_modem").is_none());
}

#[test]
fn builtin_command_sets() {
    let p = telit_fn990();
    assert_eq!(p.usbnet_detect.query_cmd.as_deref(), Some("AT#USBCFG?"));
    assert_eq!(p.commands.signal_cmd.as_deref(), Some("AT#RFSTS"));
    let q = quectel_rm551e_gl();
    assert_eq!(q.commands.iccid_cmd, "AT+QCCID");
    assert_eq!(q.commands.operator_name_cmd.as_deref(), Some("AT+QSPN"));
    let g = generic_modem();
    assert_eq!(g.commands.iccid_cmd, "AT+CCID");
    assert!(g.commands.signal_cmd.is_none());
}

#[test]
fn profile_blocks_as_built() {
    let p = quectel_rm551e_gl();
    let a = &p.antenna_metrics_config;
    assert_eq!(a.rsrp_cmd.as_deref(), Some("AT+QRSRP"));
    assert_eq!(a.sinr_cmd.as_deref(), Some("AT+QSINR"));
    assert_eq!(a.rsrq_cmd.as_deref(), Some("AT+QRSRQ"));
    assert_eq!((a.sentinel_value, a.rsrp_min, a.rsrp_max), (-32768, -140, -44));
    assert_eq!(p.signal_parse_config.variants.len(), 4);
    let reg = ctrl_modem::registry::ProfileRegistry::new();
    assert_eq!(reg.generic().port_mapping.baud_rate, 115200);
    assert_eq!(reg.all_profiles()[3].commands.signal_cmd.as_deref(), Some("AT#RFSTS"));
}
