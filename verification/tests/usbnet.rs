use ctrl_modem::profiles::UsbNetDetectConfig;
use ctrl_modem::types::UsbNetMode;
use ctrl_modem::usbnet::{
    at_mode_from_reply, decide_mode, kernel_driver_to_mode, parse_quectel_qcfg_usbnet,
    parse_telit_usbcfg, parse_usbnet_response,
};

#[test]
fn quectel_parses_known_codes() {
    assert_eq!(parse_quectel_qcfg_usbnet("+QCFG: \"usbnet\",0\r\nOK\r\n"), UsbNetMode::Rmnet);
    assert_eq!(parse_quectel_qcfg_usbnet("+QCFG: \"usbnet\",1\r\nOK\r\n"), UsbNetMode::Ecm);
    assert_eq!(parse_quectel_qcfg_usbnet("+QCFG: \"usbnet\",2\r\nOK\r\n"), UsbNetMode::Mbim);
    assert_eq!(parse_quectel_qcfg_usbnet("+QCFG: \"usbnet\",3\r\nOK\r\n"), UsbNetMode::Rndis);
    assert_eq!(parse_quectel_qcfg_usbnet("+QCFG: \"usbnet\",5\r\nOK\r\n"), UsbNetMode::Ncm);
}

#[test]
fn quectel_returns_unknown_for_unmapped_or_garbage() {
    assert_eq!(parse_quectel_qcfg_usbnet("+QCFG: \"usbnet\",99\r\n"), UsbNetMode::Unknown);
    assert_eq!(parse_quectel_qcfg_usbnet("ERROR\r\n"), UsbNetMode::Unknown);
    assert_eq!(parse_quectel_qcfg_usbnet(""), UsbNetMode::Unknown);
    assert_eq!(parse_quectel_qcfg_usbnet("garbage"), UsbNetMode::Unknown);
}

#[test]
fn telit_parses_known_codes() {
    assert_eq!(parse_telit_usbcfg("#USBCFG: 0\r\nOK\r\n"), UsbNetMode::Ecm);
    assert_eq!(parse_telit_usbcfg("#USBCFG: 2\r\nOK\r\n"), UsbNetMode::Mbim);
    assert_eq!(parse_telit_usbcfg("#USBCFG: 3\r\nOK\r\n"), UsbNetMode::Rmnet);
    assert_eq!(parse_telit_usbcfg("#USBCFG: 4\r\nOK\r\n"), UsbNetMode::Ncm);
}

#[test]
fn telit_returns_unknown_for_unmapped() {
    assert_eq!(parse_telit_usbcfg("#USBCFG: 99\r\n"), UsbNetMode::Unknown);
    assert_eq!(parse_telit_usbcfg("ERROR\r\n"), UsbNetMode::Unknown);
}

#[test]
fn dispatch_unknown_parser_returns_unknown() {
    assert_eq!(
        parse_usbnet_response("nonexistent_parser", "+QCFG: \"usbnet\",1"),
        UsbNetMode::Unknown
    );
}

#[test]
fn dispatch_routes_to_correct_parser() {
    assert_eq!(
        parse_usbnet_response("quectel_qcfg_usbnet", "+QCFG: \"usbnet\",1\r\n"),
        UsbNetMode::Ecm
    );
    assert_eq!(parse_usbnet_response("telit_usbcfg", "#USBCFG: 2\r\n"), UsbNetMode::Mbim);
}

#[test]
fn kernel_driver_to_mode_maps_known_drivers() {
    assert_eq!(kernel_driver_to_mode("qmi_wwan"), Some(UsbNetMode::Rmnet));
    assert_eq!(kernel_driver_to_mode("cdc_ether"), Some(UsbNetMode::Ecm));
    assert_eq!(kernel_driver_to_mode("cdc_mbim"), Some(UsbNetMode::Mbim));
    assert_eq!(kernel_driver_to_mode("cdc_ncm"), Some(UsbNetMode::Ncm));
    assert_eq!(kernel_driver_to_mode("rndis_host"), Some(UsbNetMode::Rndis));
}

#[test]
fn kernel_driver_to_mode_returns_none_for_unknown() {
    assert_eq!(kernel_driver_to_mode("usbnet"), None);
    assert_eq!(kernel_driver_to_mode(""), None);
    assert_eq!(kernel_driver_to_mode("qmi-wwan"), None);
}

#[test]
fn decide_mode_kernel_wins_on_disagreement() {
    assert_eq!(decide_mode(UsbNetMode::Ecm, Some(UsbNetMode::Rmnet), "test:1"), UsbNetMode::Rmnet);
    assert_eq!(decide_mode(UsbNetMode::Mbim, Some(UsbNetMode::Ecm), "test:2"), UsbNetMode::Ecm);
}

#[test]
fn decide_mode_agrees_silently() {
    assert_eq!(decide_mode(UsbNetMode::Rmnet, Some(UsbNetMode::Rmnet), "test:3"), UsbNetMode::Rmnet);
    assert_eq!(decide_mode(UsbNetMode::Ecm, Some(UsbNetMode::Ecm), "test:4"), UsbNetMode::Ecm);
}

#[test]
fn decide_mode_falls_back_to_at_when_kernel_absent() {
    assert_eq!(decide_mode(UsbNetMode::Rmnet, None, "test:5"), UsbNetMode::Rmnet);
    assert_eq!(decide_mode(UsbNetMode::Unknown, None, "test:6"), UsbNetMode::Unknown);
}

#[test]
fn decide_mode_falls_back_to_kernel_when_at_unknown() {
    assert_eq!(decide_mode(UsbNetMode::Unknown, Some(UsbNetMode::Mbim), "test:7"), UsbNetMode::Mbim);
}

#[test]
fn at_mode_unknown_without_query_command() {
    let cfg = UsbNetDetectConfig { query_cmd: None, parser: Some("quectel_qcfg_usbnet".into()) };
    assert_eq!(at_mode_from_reply(&cfg, Some("+QCFG: \"usbnet\",0\r\nOK\r\n")), UsbNetMode::Unknown);
}

#[test]
fn at_mode_unknown_when_query_failed() {
    let cfg = UsbNetDetectConfig {
        query_cmd: Some("AT+QCFG=\"usbnet\"".into()),
        parser: Some("quectel_qcfg_usbnet".into()),
    };
    assert_eq!(at_mode_from_reply(&cfg, None), UsbNetMode::Unknown);
}

#[test]
fn at_mode_parses_reply_with_declared_parser() {
    let cfg = UsbNetDetectConfig {
        query_cmd: Some("AT+QCFG=\"usbnet\"".into()),
        parser: Some("quectel_qcfg_usbnet".into()),
    };
    assert_eq!(at_mode_from_reply(&cfg, Some("+QCFG: \"usbnet\",0\r\nOK\r\n")), UsbNetMode::Rmnet);
    let no_parser = UsbNetDetectConfig { query_cmd: Some("AT#USBCFG?".into()), parser: None };
    assert_eq!(at_mode_from_reply(&no_parser, Some("#USBCFG: 3\r\nOK\r\n")), UsbNetMode::Unknown);
}
