use ctrl_modem::antenna::{
    antenna_ports, interleaved_ports, PortReading, normalize_band_name, parse_antenna_interleaved, parse_antenna_metric_multi, parse_antenna_val,
    response_prefix_from_cmd, telit_band_class_to_name,
};
use ctrl_modem::profiles::BandPrefixMapping;
use ctrl_modem::types::Technology;

const SENTINEL: i32 = -32768;
const RSRP_MIN: i32 = -140;
const RSRP_MAX: i32 = -44;
const RSRQ_MIN: i32 = -20;
const RSRQ_MAX: i32 = -3;
const SINR_MIN: i32 = -20;
const SINR_MAX: i32 = 30;
const TELIT_RSRQ_MIN: i32 = -20;
const TELIT_RSRQ_MAX: i32 = 0;

#[test]
fn rsrp_valid_lower_boundary() {
    assert_eq!(parse_antenna_val("-140", SENTINEL, RSRP_MIN, RSRP_MAX), Some(-140));
}

#[test]
fn rsrp_valid_upper_boundary() {
    assert_eq!(parse_antenna_val("-44", SENTINEL, RSRP_MIN, RSRP_MAX), Some(-44));
}

#[test]
fn rsrp_valid_mid_range() {
    assert_eq!(parse_antenna_val("-84", SENTINEL, RSRP_MIN, RSRP_MAX), Some(-84));
}

#[test]
fn rsrp_below_range() {
    assert_eq!(parse_antenna_val("-141", SENTINEL, RSRP_MIN, RSRP_MAX), None);
}

#[test]
fn rsrp_above_range() {
    assert_eq!(parse_antenna_val("-43", SENTINEL, RSRP_MIN, RSRP_MAX), None);
}

#[test]
fn rsrp_sentinel() {
    assert_eq!(parse_antenna_val("-32768", SENTINEL, RSRP_MIN, RSRP_MAX), None);
}

#[test]
fn rsrq_valid_lower_boundary() {
    assert_eq!(parse_antenna_val("-20", SENTINEL, RSRQ_MIN, RSRQ_MAX), Some(-20));
}

#[test]
fn rsrq_valid_upper_boundary() {
    assert_eq!(parse_antenna_val("-3", SENTINEL, RSRQ_MIN, RSRQ_MAX), Some(-3));
}

#[test]
fn rsrq_valid_mid_range() {
    assert_eq!(parse_antenna_val("-10", SENTINEL, RSRQ_MIN, RSRQ_MAX), Some(-10));
}

#[test]
fn rsrq_below_range() {
    assert_eq!(parse_antenna_val("-21", SENTINEL, RSRQ_MIN, RSRQ_MAX), None);
}

#[test]
fn rsrq_above_range() {
    assert_eq!(parse_antenna_val("-2", SENTINEL, RSRQ_MIN, RSRQ_MAX), None);
}

#[test]
fn rsrq_sentinel() {
    assert_eq!(parse_antenna_val("-32768", SENTINEL, RSRQ_MIN, RSRQ_MAX), None);
}

#[test]
fn sinr_valid_lower_boundary() {
    assert_eq!(parse_antenna_val("-20", SENTINEL, SINR_MIN, SINR_MAX), Some(-20));
}

#[test]
fn sinr_valid_upper_boundary() {
    assert_eq!(parse_antenna_val("30", SENTINEL, SINR_MIN, SINR_MAX), Some(30));
}

#[test]
fn sinr_valid_mid_range() {
    assert_eq!(parse_antenna_val("12", SENTINEL, SINR_MIN, SINR_MAX), Some(12));
}

#[test]
fn sinr_below_range() {
    assert_eq!(parse_antenna_val("-21", SENTINEL, SINR_MIN, SINR_MAX), None);
}

#[test]
fn sinr_above_range() {
    assert_eq!(parse_antenna_val("31", SENTINEL, SINR_MIN, SINR_MAX), None);
}

#[test]
fn sinr_sentinel() {
    assert_eq!(parse_antenna_val("-32768", SENTINEL, SINR_MIN, SINR_MAX), None);
}

#[test]
fn parse_with_whitespace() {
    assert_eq!(parse_antenna_val(" -84 ", SENTINEL, RSRP_MIN, RSRP_MAX), Some(-84));
    assert_eq!(parse_antenna_val(" 15 ", SENTINEL, SINR_MIN, SINR_MAX), Some(15));
    assert_eq!(parse_antenna_val(" -10 ", SENTINEL, RSRQ_MIN, RSRQ_MAX), Some(-10));
}

#[test]
fn parse_non_numeric() {
    assert_eq!(parse_antenna_val("abc", SENTINEL, RSRP_MIN, RSRP_MAX), None);
    assert_eq!(parse_antenna_val("", SENTINEL, SINR_MIN, SINR_MAX), None);
    assert_eq!(parse_antenna_val("--5", SENTINEL, RSRQ_MIN, RSRQ_MAX), None);
}

#[test]
fn response_prefix_from_at_command() {
    assert_eq!(response_prefix_from_cmd("AT+QRSRP"), "+QRSRP:");
    assert_eq!(response_prefix_from_cmd("AT+QSINR"), "+QSINR:");
    assert_eq!(response_prefix_from_cmd("AT+QRSRQ"), "+QRSRQ:");
}

#[test]
fn parse_rsrp_multi_with_sentinel() {
    let response = "+QRSRP: -84,-90,-32768,-32768,LTE\r\nOK\r\n";
    let rows = parse_antenna_metric_multi(response, "+QRSRP:", SENTINEL, RSRP_MIN, RSRP_MAX);
    assert_eq!(rows.len(), 1);
    let (tech, vals) = &rows[0];
    assert_eq!(tech, "LTE");
    assert_eq!(vals[0], Some(-84));
    assert_eq!(vals[1], Some(-90));
    assert_eq!(vals[2], None);
    assert_eq!(vals[3], None);
}

#[test]
fn parse_sinr_multi_valid_range() {
    let response = "+QSINR: -20,15,30,-21,NR5G-NSA\r\nOK\r\n";
    let rows = parse_antenna_metric_multi(response, "+QSINR:", SENTINEL, SINR_MIN, SINR_MAX);
    assert_eq!(rows.len(), 1);
    let (tech, vals) = &rows[0];
    assert_eq!(tech, "NR5G-NSA");
    assert_eq!(vals[0], Some(-20));
    assert_eq!(vals[1], Some(15));
    assert_eq!(vals[2], Some(30));
    assert_eq!(vals[3], None);
}

#[test]
fn parse_rsrq_multi_filters_invalid() {
    let response = "+QRSRQ: -10,-3,-50,-2,LTE\r\nOK\r\n";
    let rows = parse_antenna_metric_multi(response, "+QRSRQ:", SENTINEL, RSRQ_MIN, RSRQ_MAX);
    assert_eq!(rows.len(), 1);
    let (_, vals) = &rows[0];
    assert_eq!(vals[0], Some(-10));
    assert_eq!(vals[1], Some(-3));
    assert_eq!(vals[2], None);
    assert_eq!(vals[3], None);
}

#[test]
fn parse_multi_row_technologies() {
    let response =
        "+QRSRP: -84,-90,-95,-100,LTE\r\n+QRSRP: -88,-92,-32768,-32768,NR5G-NSA\r\nOK\r\n";
    let rows = parse_antenna_metric_multi(response, "+QRSRP:", SENTINEL, RSRP_MIN, RSRP_MAX);
    assert_eq!(rows.len(), 2);
    assert_eq!(rows[0].0, "LTE");
    assert_eq!(rows[0].1[0], Some(-84));
    assert_eq!(rows[1].0, "NR5G-NSA");
    assert_eq!(rows[1].1[0], Some(-88));
    assert_eq!(rows[1].1[2], None);
}

fn quectel_band_mappings() -> Vec<BandPrefixMapping> {
    vec![
        BandPrefixMapping { prefix: "LTE BAND ".into(), replacement: "B".into() },
        BandPrefixMapping { prefix: "NR5G BAND ".into(), replacement: "n".into() },
    ]
}

#[test]
fn normalize_band_name_applies_first_match() {
    let mappings = quectel_band_mappings();
    assert_eq!(normalize_band_name("LTE BAND 7", &mappings), "B7");
    assert_eq!(normalize_band_name("NR5G BAND 78", &mappings), "n78");
    assert_eq!(normalize_band_name("UNKNOWN BAND 1", &mappings), "UNKNOWN BAND 1");
}

#[test]
fn telit_laps_basic_2rx() {
    let response = "#LAPS: -114,-12,-109,-11\r\nOK\r\n";
    let (rsrp, rsrq) = parse_antenna_interleaved(
        response, "#LAPS:", SENTINEL, RSRP_MIN, RSRP_MAX, TELIT_RSRQ_MIN, TELIT_RSRQ_MAX,
    );
    assert_eq!(rsrp[0], Some(-114));
    assert_eq!(rsrq[0], Some(-12));
    assert_eq!(rsrp[1], Some(-109));
    assert_eq!(rsrq[1], Some(-11));
    assert_eq!(rsrp[2], None);
    assert_eq!(rsrq[2], None);
    assert_eq!(rsrp[3], None);
    assert_eq!(rsrq[3], None);
}

#[test]
fn telit_laps_4rx() {
    let response = "#LAPS: -100,-8,-105,-10,-110,-14,-115,-18\r\nOK\r\n";
    let (rsrp, rsrq) = parse_antenna_interleaved(
        response, "#LAPS:", SENTINEL, RSRP_MIN, RSRP_MAX, TELIT_RSRQ_MIN, TELIT_RSRQ_MAX,
    );
    assert_eq!(rsrp[0], Some(-100));
    assert_eq!(rsrq[0], Some(-8));
    assert_eq!(rsrp[1], Some(-105));
    assert_eq!(rsrq[1], Some(-10));
    assert_eq!(rsrp[2], Some(-110));
    assert_eq!(rsrq[2], Some(-14));
    assert_eq!(rsrp[3], Some(-115));
    assert_eq!(rsrq[3], Some(-18));
}

#[test]
fn telit_laps_with_sentinel_values() {
    let response = "#LAPS: -114,-12,-32768,-32768\r\nOK\r\n";
    let (rsrp, rsrq) = parse_antenna_interleaved(
        response, "#LAPS:", SENTINEL, RSRP_MIN, RSRP_MAX, TELIT_RSRQ_MIN, TELIT_RSRQ_MAX,
    );
    assert_eq!(rsrp[0], Some(-114));
    assert_eq!(rsrq[0], Some(-12));
    assert_eq!(rsrp[1], None);
    assert_eq!(rsrq[1], None);
}

#[test]
fn telit_laps_out_of_range() {
    let response = "#LAPS: -150,-25,-44,0\r\nOK\r\n";
    let (rsrp, rsrq) = parse_antenna_interleaved(
        response, "#LAPS:", SENTINEL, RSRP_MIN, RSRP_MAX, TELIT_RSRQ_MIN, TELIT_RSRQ_MAX,
    );
    assert_eq!(rsrp[0], None);
    assert_eq!(rsrq[0], None);
    assert_eq!(rsrp[1], Some(-44));
    assert_eq!(rsrq[1], Some(0));
}

#[test]
fn telit_nraps_prefix() {
    let response = "#NRAPS: -95,-9,-100,-12\r\nOK\r\n";
    let (rsrp, rsrq) = parse_antenna_interleaved(
        response, "#NRAPS:", SENTINEL, RSRP_MIN, RSRP_MAX, TELIT_RSRQ_MIN, TELIT_RSRQ_MAX,
    );
    assert_eq!(rsrp[0], Some(-95));
    assert_eq!(rsrq[0], Some(-9));
    assert_eq!(rsrp[1], Some(-100));
    assert_eq!(rsrq[1], Some(-12));
}

#[test]
fn telit_laps_empty_response() {
    let response = "OK\r\n";
    let (rsrp, rsrq) = parse_antenna_interleaved(
        response, "#LAPS:", SENTINEL, RSRP_MIN, RSRP_MAX, TELIT_RSRQ_MIN, TELIT_RSRQ_MAX,
    );
    for i in 0..4 {
        assert_eq!(rsrp[i], None);
        assert_eq!(rsrq[i], None);
    }
}

#[test]
fn response_prefix_from_telit_commands() {
    assert_eq!(response_prefix_from_cmd("AT#LAPS"), "#LAPS:");
    assert_eq!(response_prefix_from_cmd("AT#NRAPS"), "#NRAPS:");
    assert_eq!(response_prefix_from_cmd("AT#CAINFO?"), "#CAINFO?:");
}

#[test]
fn telit_band_class_lte() {
    let (name, tech) = telit_band_class_to_name(121);
    assert_eq!(name, "B2");
    assert_eq!(tech, Some(Technology::Gen4));
}

#[test]
fn telit_band_class_nr() {
    let (name, tech) = telit_band_class_to_name(290);
    assert_eq!(name, "n41");
    assert_eq!(tech, Some(Technology::Gen5));
}

#[test]
fn telit_band_class_b1() {
    let (name, tech) = telit_band_class_to_name(120);
    assert_eq!(name, "B1");
    assert_eq!(tech, Some(Technology::Gen4));
}

#[test]
fn telit_band_class_n1() {
    let (name, tech) = telit_band_class_to_name(250);
    assert_eq!(name, "n1");
    assert_eq!(tech, Some(Technology::Gen5));
}

#[test]
fn antenna_value_plus_sign_accepted() {
    assert_eq!(parse_antenna_val("+15", SENTINEL, SINR_MIN, SINR_MAX), Some(15));
}

#[test]
fn antenna_metric_ignores_other_prefixes() {
    let rows = parse_antenna_metric_multi(
        "+QSINR: 1,2,3,4,LTE\r\nOK\r\n",
        "+QRSRP:",
        SENTINEL,
        RSRP_MIN,
        RSRP_MAX,
    );
    assert!(rows.is_empty());
}

fn row(tech: &str, v: [Option<i32>; 4]) -> (String, [Option<i32>; 4]) {
    (tech.to_string(), v)
}

#[test]
fn antenna_ports_without_tags_use_first_rows() {
    let rsrp = vec![row("", [Some(-90), None, Some(-95), None])];
    let sinr = vec![row("", [Some(12), None, None, Some(3)])];
    let rsrq = vec![];
    let ports = antenna_ports(&rsrp, &sinr, &rsrq);
    assert_eq!(
        ports,
        vec![
            PortReading { port: 0, rsrp: -90, rsrq: -999, sinr: 12, technology: None },
            PortReading { port: 2, rsrp: -95, rsrq: -999, sinr: 0, technology: None },
            PortReading { port: 3, rsrp: -999, rsrq: -999, sinr: 3, technology: None },
        ]
    );
    assert!(antenna_ports(&vec![], &vec![], &vec![]).is_empty());
}

#[test]
fn antenna_ports_grouped_by_technology() {
    let rsrp = vec![
        row("LTE", [Some(-80), Some(-81), None, None]),
        row("NR5G", [Some(-100), None, None, None]),
        row("LTE", [Some(-1), Some(-1), Some(-1), Some(-1)]),
    ];
    let sinr = vec![row("NR5G", [Some(5), None, None, None])];
    let rsrq = vec![row("LTE", [None, Some(-11), None, None])];
    let ports = antenna_ports(&rsrp, &sinr, &rsrq);
    let lte = Some("LTE".to_string());
    let nr = Some("NR5G".to_string());
    assert_eq!(
        ports,
        vec![
            PortReading { port: 0, rsrp: -80, rsrq: -999, sinr: 0, technology: lte.clone() },
            PortReading { port: 1, rsrp: -81, rsrq: -11, sinr: 0, technology: lte },
            PortReading { port: 0, rsrp: -100, rsrq: -999, sinr: 5, technology: nr },
        ]
    );
}

#[test]
fn interleaved_ports_have_no_sinr() {
    let ports = interleaved_ports(&[Some(-90), None, None, Some(-70)], &[Some(-10), Some(-12), None, None]);
    assert_eq!(
        ports,
        vec![
            PortReading { port: 0, rsrp: -90, rsrq: -10, sinr: 0, technology: None },
            PortReading { port: 1, rsrp: -999, rsrq: -12, sinr: 0, technology: None },
            PortReading { port: 3, rsrp: -70, rsrq: -999, sinr: 0, technology: None },
        ]
    );
}
