use ctrl_modem::detection::{
    plan_detection, sort_strings, DetectionFacts, PortFacts, QmiDeviceFacts, TtyFacts,
};
use ctrl_modem::hardware::ModemProtocol;
use ctrl_modem::registry::ProfileRegistry;
use ctrl_modem::speedtest::{total_step_bytes, MeasurementStep};

fn s(x: &str) -> String {
    x.to_string()
}

fn port(path: &str, iface: u32) -> PortFacts {
    PortFacts { path: s(path), interface: Some(iface) }
}

fn tty(path: &str, bus: &str, ids: Option<(&str, &str)>, iface: u32) -> TtyFacts {
    TtyFacts {
        path: s(path),
        bus_port: Some(s(bus)),
        identity: ids.map(|(v, p)| (s(v), s(p))),
        interface: Some(iface),
    }
}

fn rm520n_qmi(driver: &str) -> QmiDeviceFacts {
    QmiDeviceFacts {
        driver: Some(s(driver)),
        identity: Some((s("2c7c"), s("0801"))),
        bus_port: Some(s("4-1")),
        bus_ttys: vec![
            port("/dev/ttyUSB3", 3),
            port("/dev/ttyUSB2", 2),
            port("/dev/ttyUSB0", 0),
        ],
    }
}

fn two_groups() -> Vec<TtyFacts> {
    vec![
        tty("/dev/ttyUSB6", "2-1", None, 2),
        tty("/dev/ttyUSB0", "4-1", Some(("2c7c", "0801")), 0),
        tty("/dev/ttyUSB4", "2-1", None, 0),
        tty("/dev/ttyUSB2", "4-1", Some(("2c7c", "0801")), 2),
        tty("/dev/ttyUSB5", "2-1", None, 1),
        tty("/dev/ttyUSB3", "4-1", Some(("2c7c", "0801")), 3),
    ]
}

#[test]
fn qmi_modem_then_remaining_tty_group() {
    let reg = ProfileRegistry::new();
    let facts = DetectionFacts {
        qmi: vec![rm520n_qmi("qmi_wwan")],
        ttys: two_groups(),
        fallback: Some(None),
    };
    let modems = plan_detection(&reg, &facts);
    assert_eq!(modems.len(), 2);

    let m = &modems[0];
    assert_eq!(m.device_path, "/dev/ttyUSB2");
    assert_eq!(m.protocol, ModemProtocol::At);
    assert_eq!(m.description, "Quectel RM520N-GL");
    assert_eq!(m.vendor_id.as_deref(), Some("2c7c"));
    assert_eq!(m.product_id.as_deref(), Some("0801"));
    assert_eq!(m.profile_id.as_deref(), Some("quectel_rm520n_gl"));
    assert!(m.has_profile);
    assert_eq!(m.bus_port.as_deref(), Some("4-1"));
    assert!(m.all_ports.is_empty());

    let g = &modems[1];
    assert_eq!(g.device_path, "/dev/ttyUSB6");
    assert_eq!(g.description, "Modem (bus 2-1)");
    assert_eq!(g.vendor_id, None);
    assert_eq!(g.product_id, None);
    assert_eq!(g.profile_id.as_deref(), Some("generic"));
    assert!(!g.has_profile);
    assert_eq!(g.bus_port.as_deref(), Some("2-1"));
    assert_eq!(g.all_ports, vec![s("/dev/ttyUSB4"), s("/dev/ttyUSB5"), s("/dev/ttyUSB6")]);
}

#[test]
fn non_qmi_driver_leaves_the_group_to_the_tty_scan() {
    let reg = ProfileRegistry::new();
    let facts = DetectionFacts {
        qmi: vec![rm520n_qmi("cdc_mbim")],
        ttys: two_groups(),
        fallback: None,
    };
    let modems = plan_detection(&reg, &facts);
    assert_eq!(modems.len(), 2);
    // Groups come by ascending bus-port: "2-1" before "4-1".
    assert_eq!(modems[0].bus_port.as_deref(), Some("2-1"));
    let q = &modems[1];
    assert_eq!(q.device_path, "/dev/ttyUSB2");
    assert_eq!(q.description, "Quectel RM520N-GL");
    assert_eq!(q.bus_port.as_deref(), Some("4-1"));
    assert_eq!(
        q.all_ports,
        vec![s("/dev/ttyUSB0"), s("/dev/ttyUSB2"), s("/dev/ttyUSB3")]
    );
}

#[test]
fn unknown_ids_are_described_by_vid_pid() {
    let reg = ProfileRegistry::new();
    let facts = DetectionFacts {
        qmi: Vec::new(),
        ttys: vec![tty("/dev/ttyUSB9", "1-1", Some(("abcd", "1234")), 7)],
        fallback: None,
    };
    let modems = plan_detection(&reg, &facts);
    assert_eq!(modems.len(), 1);
    assert_eq!(modems[0].device_path, "/dev/ttyUSB9");
    assert_eq!(modems[0].description, "Unknown Modem (abcd:1234)");
    assert_eq!(modems[0].vendor_id.as_deref(), Some("abcd"));
    assert_eq!(modems[0].profile_id.as_deref(), Some("generic"));
}

#[test]
fn fallback_to_tty_usb2_when_nothing_found() {
    let reg = ProfileRegistry::new();
    let facts = DetectionFacts {
        qmi: Vec::new(),
        ttys: Vec::new(),
        fallback: Some(Some((s("1bc7"), s("1073")))),
    };
    let modems = plan_detection(&reg, &facts);
    assert_eq!(modems.len(), 1);
    assert_eq!(modems[0].device_path, "/dev/ttyUSB2");
    assert_eq!(modems[0].description, "Telit FN990");
    assert_eq!(modems[0].profile_id.as_deref(), Some("telit_fn990"));
    assert_eq!(modems[0].bus_port, None);

    let facts = DetectionFacts { qmi: Vec::new(), ttys: Vec::new(), fallback: Some(None) };
    let modems = plan_detection(&reg, &facts);
    assert_eq!(modems[0].description, "Modem (ttyUSB2)");
    assert_eq!(modems[0].vendor_id, None);
}

#[test]
fn nothing_found_without_fallback_port() {
    let reg = ProfileRegistry::new();
    let facts = DetectionFacts { qmi: Vec::new(), ttys: Vec::new(), fallback: None };
    assert!(plan_detection(&reg, &facts).is_empty());
}

#[test]
fn strings_sort_ascending() {
    let v = vec![s("ttyUSB3"), s("ttyUSB10"), s("b"), s("a"), s("ttyUSB3")];
    assert_eq!(
        sort_strings(&v),
        vec![s("a"), s("b"), s("ttyUSB10"), s("ttyUSB3"), s("ttyUSB3")]
    );
}

#[test]
fn step_bytes_sum_payload_times_count() {
    let steps = vec![
        MeasurementStep { payload_bytes: 100_000, request_count: 3 },
        MeasurementStep { payload_bytes: 1_000_000, request_count: 2 },
    ];
    assert_eq!(total_step_bytes(&steps), 2_300_000);
    assert_eq!(total_step_bytes(&[]), 0);
}
