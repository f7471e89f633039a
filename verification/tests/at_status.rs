use ctrl_modem::at_status::{iccid_from_captures, operator_from_captures};
use ctrl_modem::at_status::{
    iccid_from_reply, imsi_from_reply, operator_from_reply, sim_status,
    ati_identity_lines, ati_needs_fallback, classify_verify_line, connection_status,
    cops_from_captures, csq_from_captures, device_info, firmware_version, in_flight_mode,
    info_line_of, modem_status, networks_from_captures, parse_cereg, parse_cops, parse_csq,
    parse_network_scan, pin_change_command, pin_lock_command, reopen_order, reply_result,
    select_network_command, VerifyLine, pdp_context_command, gps_start_result, gps_stop_result,
};
use ctrl_modem::hardware::HardwareError;
use ctrl_modem::types::{IpType, NetworkStatus, RegistrationState, SimState, Technology};

fn s(x: &str) -> String {
    x.to_string()
}

#[test]
fn csq_reads_dbm() {
    assert_eq!(parse_csq("+CSQ: 20,99\r\n\r\nOK"), Some(-73));
    assert_eq!(parse_csq("+CSQ: 99,99\r\nOK"), Some(-999));
    assert_eq!(parse_csq("+CSQ: 0,0"), Some(-113));
    assert_eq!(parse_csq("ERROR"), None);
    assert_eq!(parse_csq("+CSQ: 20"), None);
    assert_eq!(parse_csq("+CSQ: 99999999999,0"), None);
}

#[test]
fn csq_from_match_groups() {
    assert_eq!(csq_from_captures(&Some(vec![Some(s("+CSQ: 31,")), Some(s("31"))])), Some(-51));
    assert_eq!(csq_from_captures(&None), None);
}

#[test]
fn cops_reads_operator_and_technology() {
    let (op, tech) = parse_cops("+COPS: 0,0,\"Vodafone\",7\r\nOK");
    assert_eq!(op.as_deref(), Some("Vodafone"));
    assert_eq!(tech, Some(Technology::Gen4));
    let (op, tech) = parse_cops("+COPS: 0,0,\"T-Mobile\",13");
    assert_eq!(op.as_deref(), Some("T-Mobile"));
    assert_eq!(tech, Some(Technology::Gen5));
    let (op, tech) = parse_cops("+COPS: 0,0,\"X\",2");
    assert_eq!((op.as_deref(), tech), (Some("X"), Some(Technology::Gen3)));
    let (op, tech) = parse_cops("+COPS: 0");
    assert_eq!((op, tech), (None, None));
    let (op, tech) = parse_cops("+COPS: 0,0,\"X\",42");
    assert_eq!((op.as_deref(), tech), (Some("X"), None));
    assert_eq!(parse_cops("nothing"), (None, None));
    let (op, tech) = cops_from_captures(&Some(vec![Some(s("m")), Some(s("Op")), Some(s("0"))]));
    assert_eq!((op.as_deref(), tech), (Some("Op"), Some(Technology::Gen2)));
}

#[test]
fn cereg_reads_registration() {
    assert_eq!(parse_cereg("+CEREG: 2,1"), RegistrationState::Registered { home: true });
    assert_eq!(parse_cereg("+CEREG: 0,5\r\nOK"), RegistrationState::Registered { home: false });
    assert_eq!(parse_cereg("+CGREG: 0,2"), RegistrationState::Searching);
    // `[E5G]?` takes one character, so "+C5GREG" does not match.
    assert_eq!(parse_cereg("+C5GREG: 0,2"), RegistrationState::Unknown);
    assert_eq!(parse_cereg("+CREG: 0,3"), RegistrationState::Denied);
    assert_eq!(parse_cereg("+C5REG: 0,0"), RegistrationState::NotRegistered);
    assert_eq!(parse_cereg("+CEREG: 0,4"), RegistrationState::Unknown);
    assert_eq!(parse_cereg("ERROR"), RegistrationState::Unknown);
}

#[test]
fn flight_mode_detected() {
    assert!(in_flight_mode("+CFUN: 4\r\nOK"));
    assert!(in_flight_mode("+CFUN: 0"));
    assert!(!in_flight_mode("+CFUN: 1\r\nOK"));
}

#[test]
fn status_from_replies() {
    let st = modem_status(
        "+CSQ: 20,99",
        "+COPS: 0,0,\"Vodafone\",7",
        "+CGACT: 1,1",
        Some("+CGPADDR: 1,\"10.1.2.3\""),
        false,
    );
    assert!(st.connected);
    assert_eq!(st.operator.as_deref(), Some("Vodafone"));
    assert_eq!(st.technology, Some(Technology::Gen4));
    // (-73 + 113) * 100 / 62 = 64
    assert_eq!(st.signal_strength, 64);
    assert_eq!(st.ip_address.as_deref(), Some("10.1.2.3"));

    let st = modem_status("+CSQ: 99,99", "+COPS: 0", "+CGACT: 1,0", None, true);
    assert!(st.connected);
    assert_eq!(st.signal_strength, 0);
    assert_eq!(st.ip_address, None);

    let st = modem_status("ERROR", "ERROR", "+CGACT: 1,0", Some("ERROR"), false);
    assert!(!st.connected);
    // no reading counts as 0 dBm: (0 + 113) * 100 / 62 clamps to 100
    assert_eq!(st.signal_strength, 100);

    let cs = connection_status(
        "+COPS: 0,0,\"Op\",12",
        "+CGACT: 1,0",
        Some("+CGPADDR: 1,\"32.1.13.184.0.0.0.0.0.0.0.0.0.0.0.1\""),
        false,
    );
    assert!(!cs.connected);
    assert_eq!(cs.technology, Some(Technology::Gen5));
    assert_eq!(cs.ip_address.as_deref(), Some("2001:0db8:0000:0000:0000:0000:0000:0001"));
}

#[test]
fn network_scan_lists_known_statuses() {
    let reply = "+COPS: (2,\"Vodafone\",\"VF\",\"26202\",7),(1,\"Telekom\",\"TDG\",\"26201\",12),\
                 (3,\"O2\",\"O2\",\"26203\"),(0,\"Unknown\",\"U\",\"99999\",7),,(0,1,2,3,4),(0,1,2)\r\nOK";
    let nets = parse_network_scan(reply);
    assert_eq!(nets.len(), 3);
    assert_eq!(nets[0].operator_name, "Vodafone");
    assert_eq!(nets[0].operator_code, "26202");
    assert_eq!(nets[0].technology, Technology::Gen4);
    assert_eq!(nets[0].status, NetworkStatus::Current);
    assert_eq!(nets[1].technology, Technology::Gen5);
    assert_eq!(nets[1].status, NetworkStatus::Available);
    assert_eq!(nets[2].operator_name, "O2");
    assert_eq!(nets[2].technology, Technology::Gen4);
    assert_eq!(nets[2].status, NetworkStatus::Forbidden);
    assert!(parse_network_scan("ERROR").is_empty());

    let nets = networks_from_captures(&vec![vec![
        Some(s("m")),
        Some(s("1")),
        Some(s("Name")),
        Some(s("N")),
        Some(s("123")),
        Some(s("0")),
    ]]);
    assert_eq!(nets.len(), 1);
    assert_eq!(nets[0].technology, Technology::Gen2);
}

#[test]
fn commands_are_built_verbatim() {
    assert_eq!(select_network_command(Some("26202")), "AT+COPS=1,2,\"26202\"");
    assert_eq!(select_network_command(None), "AT+COPS=0");
    assert_eq!(pin_change_command("1234", "4321"), "AT+CPWD=\"SC\",\"1234\",\"4321\"");
    assert_eq!(pin_lock_command(true, "1234"), "AT+CLCK=\"SC\",1,\"1234\"");
    assert_eq!(pin_lock_command(false, "0000"), "AT+CLCK=\"SC\",0,\"0000\"");
}

#[test]
fn reply_with_error_fails() {
    assert!(matches!(
        reply_result("+CME ERROR: 16", HardwareError::SimError(s("PIN change failed"))),
        Err(HardwareError::SimError(m)) if m == "PIN change failed"
    ));
    assert!(reply_result("OK", HardwareError::SimError(s("x"))).is_ok());
}

#[test]
fn verify_lines_classified() {
    assert_eq!(classify_verify_line("OK\r\n"), VerifyLine::Answered);
    assert_eq!(classify_verify_line("  ERROR "), VerifyLine::Refused(s("ERROR")));
    assert_eq!(classify_verify_line("+CME ERROR: 10\r\n"), VerifyLine::Refused(s("+CME ERROR: 10")));
    assert_eq!(classify_verify_line("+CMS ERROR: 500"), VerifyLine::Refused(s("+CMS ERROR: 500")));
    assert_eq!(classify_verify_line("AT\r\n"), VerifyLine::Pending);
    assert_eq!(classify_verify_line("OK then"), VerifyLine::Pending);
}

#[test]
fn ati_identity_and_fallback() {
    let ati = "ATI\r\nQuectel\r\nRM520N-GL\r\nRevision: RM520NGLAAR03A03M4G\r\n\r\nOK\r\n";
    assert_eq!(
        ati_identity_lines(ati),
        vec![s("Quectel"), s("RM520N-GL"), s("Revision: RM520NGLAAR03A03M4G")]
    );
    assert!(!ati_needs_fallback(ati));
    assert!(ati_needs_fallback("332\r\n\r\nOK"));
    assert!(ati_needs_fallback("Telit\r\nOK"));
    assert_eq!(info_line_of("AT+CGMI\r\nTelit\r\n\r\nOK"), Some(s("Telit")));
    assert_eq!(info_line_of("+CME ERROR: 4\r\nOK"), None);
}

#[test]
fn device_info_from_ati() {
    let ati = "ATI\r\nQuectel\r\nRM520N-GL\r\nRevision: RM520NGLAAR03A03M4G\r\n\r\nOK\r\n";
    let d = device_info(ati, "\r\n862146050000000\r\n\r\nOK", None, None, None);
    assert_eq!(d.manufacturer, "Quectel");
    assert_eq!(d.model, "RM520N-GL");
    assert_eq!(d.firmware_version, "RM520NGLAAR03A03M4G");
    // `str::lines` of the reply starts with an empty line, which is all digits.
    assert_eq!(d.imei, "");
    assert_eq!(d.supported_protocols, vec![s("at")]);

    let d = device_info(ati, "862146050000000\r\nOK", None, None, Some(s("FW1")));
    assert_eq!(d.imei, "862146050000000");
    assert_eq!(d.firmware_version, "FW1");
}

#[test]
fn device_info_falls_back_to_cgmi_cgmm() {
    let d = device_info(
        "332\r\n\r\nOK",
        "OK",
        Some("AT+CGMI\r\nTelit\r\nOK"),
        Some("FN990A28\r\nOK"),
        None,
    );
    assert_eq!(d.manufacturer, "Telit");
    assert_eq!(d.model, "FN990A28");
    assert_eq!(d.firmware_version, "Unknown");
    assert_eq!(d.imei, "Unknown");

    let d = device_info("332\r\n\r\nOK", "OK", Some("123\r\nOK"), None, None);
    assert_eq!(d.manufacturer, "332");
    assert_eq!(d.model, "Unknown");
}

#[test]
fn firmware_from_reply() {
    assert_eq!(
        firmware_version("+QGMR: RM520NGLAAR03A03M4G\r\nOK", Some(r"\+QGMR:\s*(\S+)")),
        Some(s("RM520NGLAAR03A03M4G"))
    );
    assert_eq!(firmware_version("M0F.660006\r\n\r\nOK", None), Some(s("M0F.660006")));
    assert_eq!(firmware_version("AT+CGMR\r\n  \r\nOK", None), None);
    // A pattern that does not compile falls back to the lines.
    assert_eq!(firmware_version("V1\r\nOK", Some("(")), Some(s("V1")));
    assert_eq!(firmware_version("nothing", Some(r"ver=(\d+)")), None);
}

#[test]
fn reopen_probes_preferred_interfaces_first() {
    let cands = vec![s("/dev/ttyUSB0"), s("/dev/ttyUSB1"), s("/dev/ttyUSB2"), s("/dev/ttyUSB3")];
    let ifs = vec![Some(0), Some(1), Some(2), Some(3)];
    assert_eq!(
        reopen_order(&cands, &ifs, &vec![2, 3]),
        vec![s("/dev/ttyUSB2"), s("/dev/ttyUSB3"), s("/dev/ttyUSB0"), s("/dev/ttyUSB1")]
    );
    assert_eq!(reopen_order(&cands, &ifs, &vec![7, 2, 2]), vec![
        s("/dev/ttyUSB2"),
        s("/dev/ttyUSB0"),
        s("/dev/ttyUSB1"),
        s("/dev/ttyUSB3")
    ]);
    assert_eq!(reopen_order(&cands, &vec![None, None], &vec![2]), cands);
}

#[test]
fn sim_details_read_from_replies() {
    assert_eq!(
        iccid_from_reply("+QCCID: 89860318640220133897\r\nOK", Some(r"\+QCCID:\s*(\w+)")),
        Some(s("89860318640220133897"))
    );
    assert_eq!(iccid_from_reply("\r\n8944500102198304826F\r\nOK", None), Some(s("8944500102198304826F")));
    assert_eq!(iccid_from_reply("8944f\r\nOK", Some(r"\+ICCID: (\d+)")), Some(s("8944f")));
    assert_eq!(iccid_from_reply("ERROR", None), None);
    assert_eq!(imsi_from_reply("AT+CIMI\r\n262011234567890\r\nOK"), Some(s("262011234567890")));
    assert_eq!(imsi_from_reply("OK"), None);
    assert_eq!(
        operator_from_reply("+QSPN: \"Vodafone.de\",\"VF\",\"\",0,\"26202\"", r#"\+QSPN:\s*"([^"]*)""#),
        Some(s("Vodafone.de"))
    );
    assert_eq!(operator_from_reply("+QSPN: \"\",\"\"", r#"\+QSPN:\s*"([^"]*)""#), None);
    assert_eq!(operator_from_reply("+COPS: 0,0,\"X\"", "("), None);
}

#[test]
fn sim_status_keeps_details_only_when_ready() {
    let st = sim_status("+CPIN: READY", Some(s("8949")), Some(s("2620")), Some(s("Op")));
    assert!(st.present);
    assert_eq!(st.state, SimState::Ready);
    assert_eq!(st.iccid.as_deref(), Some("8949"));
    assert_eq!(st.operator_name.as_deref(), Some("Op"));
    let st = sim_status("+CPIN: SIM PIN", Some(s("8949")), None, None);
    assert!(st.present);
    assert_eq!(st.state, SimState::PinRequired);
    assert_eq!(st.iccid, None);
    let st = sim_status("+CME ERROR: 10", None, None, None);
    assert!(!st.present);
    assert_eq!(st.state, SimState::NotInserted);
}

#[test]
fn pdp_context_commands() {
    assert_eq!(
        pdp_context_command(1, IpType::Ipv4v6, "fast.t-mobile.com").unwrap(),
        "AT+CGDCONT=1,\"IPV4V6\",\"fast.t-mobile.com\""
    );
    assert_eq!(pdp_context_command(3, IpType::Ipv4, "internet").unwrap(), "AT+CGDCONT=3,\"IP\",\"internet\"");
    assert_eq!(pdp_context_command(12, IpType::Ipv6, "").unwrap(), "AT+CGDCONT=12,\"IPV6\",\"\"");
    match pdp_context_command(1, IpType::Ipv4, "bad\"apn") {
        Err(HardwareError::CommandRejected(m)) => {
            assert_eq!(m, "AT quoted argument contains forbidden byte 0x22")
        }
        other => panic!("unexpected {:?}", other),
    }
}

#[test]
fn gps_replies() {
    assert!(gps_start_result("\r\nOK\r\n", &[504], false).is_ok());
    assert!(gps_start_result("\r\n+CME ERROR: 504\r\n", &[504], false).is_ok());
    assert!(gps_start_result("\r\nERROR\r\n", &[504], true).is_ok());
    match gps_start_result("\r\nERROR\r\n", &[504], false) {
        Err(HardwareError::Protocol(m)) => assert_eq!(m, "Failed to enable GPS: ERROR"),
        other => panic!("unexpected {:?}", other),
    }
    match gps_start_result("+CME ERROR: 3", &[504], true) {
        Err(HardwareError::Protocol(m)) => assert_eq!(m, "Failed to enable GPS: +CME ERROR: 3"),
        other => panic!("unexpected {:?}", other),
    }
    assert!(gps_stop_result("OK", &[505]).is_ok());
    assert!(gps_stop_result("+CME ERROR: 505", &[505]).is_ok());
    match gps_stop_result(" ERROR ", &[505]) {
        Err(HardwareError::Protocol(m)) => assert_eq!(m, "Failed to stop GPS: ERROR"),
        other => panic!("unexpected {:?}", other),
    }
}

#[test]
fn readings_from_captures() {
    let reply = "\r\n89012345678901234567\r\nOK\r\n";
    assert_eq!(iccid_from_captures(reply, &None).as_deref(), Some("89012345678901234567"));
    assert_eq!(iccid_from_captures(reply, &Some(None)).as_deref(), Some("89012345678901234567"));
    let m = Some(vec![Some("+QCCID: 8901".to_string()), Some("8901".to_string())]);
    assert_eq!(iccid_from_captures(reply, &Some(m)).as_deref(), Some("8901"));
    let g = Some(vec![Some("x".to_string()), Some("T-Mobile".to_string())]);
    assert_eq!(operator_from_captures(&g).as_deref(), Some("T-Mobile"));
    let empty = Some(vec![Some("x".to_string()), Some(String::new())]);
    assert_eq!(operator_from_captures(&empty), None);
    assert_eq!(operator_from_captures(&None), None);
}
