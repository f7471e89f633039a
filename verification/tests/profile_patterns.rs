use ctrl_modem::builtin::{quectel_rm551e_gl, telit_fn990};
use ctrl_modem::profiles::ModemProfile;

/// The profile's signal variant with the given label, compiled.
fn variant_regex(p: &ModemProfile, label: &str) -> regex::Regex {
    let v = p.signal_parse_config.variants.iter().find(|v| v.label == label).expect("variant present");
    regex::Regex::new(&v.regex).expect("variant regex should compile")
}

/// The RM551E-GL profile regex for single-line LTE QENG responses.
fn rm551e_signal_regex() -> regex::Regex {
    regex::Regex::new(quectel_rm551e_gl().commands.signal_parse_regex.as_deref().unwrap()).unwrap()
}

/// The 2-line LTE regex (the profile's "LTE 2-line" variant).
fn lte_line_regex() -> regex::Regex {
    variant_regex(&quectel_rm551e_gl(), "LTE 2-line")
}

fn cap_f64(caps: &regex::Captures, name: &str) -> f64 {
    caps.name(name).and_then(|m| m.as_str().parse::<f64>().ok()).unwrap_or(-999.0)
}

fn cap_str<'a>(caps: &'a regex::Captures<'a>, name: &str) -> &'a str {
    caps.name(name).map(|m| m.as_str()).unwrap_or("")
}

#[test]
fn single_line_lte_matches_profile_regex() {
    let re = rm551e_signal_regex();
    let response = r#"+QENG: "servingcell","NOCONN","LTE","FDD",310,410,29401C0,325,5330,14,3,3,2294,-84,-12,-54,18,12,30,-"#;
    let caps = re.captures(response).expect("profile regex should match single-line LTE");
    assert_eq!(cap_str(&caps, "cellid"), "29401C0");
    assert_eq!(cap_str(&caps, "earfcn"), "5330");
    assert_eq!(cap_str(&caps, "band"), "14");
    assert_eq!(cap_f64(&caps, "rsrp"), -84.0);
    assert_eq!(cap_f64(&caps, "rsrq"), -12.0);
    assert_eq!(cap_f64(&caps, "rssi"), -54.0);
    assert_eq!(cap_f64(&caps, "sinr"), 18.0);
}

#[test]
fn single_line_lte_in_full_at_response() {
    let re = rm551e_signal_regex();
    let response = "AT+QENG=\"servingcell\"\r\n\
        +QENG: \"servingcell\",\"NOCONN\",\"LTE\",\"FDD\",310,410,29401C0,325,5330,14,3,3,2294,-84,-12,-54,18,12,30,-\r\n\
        OK\r\n";
    let caps = re.captures(response).expect("should match inside full AT response");
    assert_eq!(cap_f64(&caps, "rsrp"), -84.0);
    assert_eq!(cap_str(&caps, "band"), "14");
}

#[test]
fn two_line_lte_matches_lte_line_regex() {
    let re = lte_line_regex();
    let response = "+QENG: \"servingcell\",\"NOCONN\"\r\n\
        +QENG: \"LTE\",\"FDD\",310,410,29401C0,325,5330,14,3,3,2294,-84,-12,-54,18,12,30,-\r\n\
        OK\r\n";
    let caps = re.captures(response).expect("LTE line regex should match 2-line format");
    assert_eq!(cap_str(&caps, "cellid"), "29401C0");
    assert_eq!(cap_str(&caps, "earfcn"), "5330");
    assert_eq!(cap_str(&caps, "band"), "14");
    assert_eq!(cap_f64(&caps, "rsrp"), -84.0);
    assert_eq!(cap_f64(&caps, "rsrq"), -12.0);
    assert_eq!(cap_f64(&caps, "rssi"), -54.0);
    assert_eq!(cap_f64(&caps, "sinr"), 18.0);
}

#[test]
fn two_line_lte_not_matched_by_profile_regex() {
    let re = rm551e_signal_regex();
    let response = "+QENG: \"servingcell\",\"NOCONN\"\r\n\
        +QENG: \"LTE\",\"FDD\",310,410,29401C0,325,5330,14,3,3,2294,-84,-12,-54,18,12,30,-\r\n\
        OK\r\n";
    assert!(
        re.captures(response).is_none(),
        "profile regex must NOT match 2-line LTE (servingcell and LTE on different lines)"
    );
}

#[test]
fn lte_line_regex_does_not_match_single_line_servingcell() {
    let re = lte_line_regex();
    let response = r#"+QENG: "servingcell","NOCONN","LTE","FDD",310,410,29401C0,325,5330,14,3,3,2294,-84,-12,-54,18"#;
    assert!(
        re.captures(response).is_none(),
        "LTE line regex must NOT match single-line format where LTE follows servingcell"
    );
}

#[test]
fn nr5g_sa_single_line_response() {
    let nr_re = variant_regex(&quectel_rm551e_gl(), "NR5G-SA single-line");
    let response = r#"+QENG: "servingcell","NOCONN","NR5G-SA","TDD",310,410,1A2B3C4,100,627264,77,100,-88,-9,15"#;
    let caps = nr_re.captures(response).expect("NR5G-SA regex should match");
    assert_eq!(cap_str(&caps, "cellid"), "1A2B3C4");
    assert_eq!(cap_str(&caps, "band"), "77");
    assert_eq!(cap_f64(&caps, "rsrp"), -88.0);
    assert_eq!(cap_f64(&caps, "rsrq"), -9.0);
    assert_eq!(cap_f64(&caps, "sinr"), 15.0);
}

#[test]
fn nr5g_sa_hex_arfcn_response() {
    let nr_re = variant_regex(&quectel_rm551e_gl(), "NR5G-SA single-line");
    let response = r#"+QENG: "servingcell","NOCONN","NR5G-SA","FDD",310,260,10244F016,823,ABFB00,387410,25,2,-106,-12,3,0,11"#;
    let caps = nr_re.captures(response).expect("NR5G-SA regex should match hex ARFCN response");
    assert_eq!(cap_str(&caps, "cellid"), "10244F016");
    assert_eq!(cap_str(&caps, "band"), "25");
    assert_eq!(cap_f64(&caps, "rsrp"), -106.0);
    assert_eq!(cap_f64(&caps, "rsrq"), -12.0);
    assert_eq!(cap_f64(&caps, "sinr"), 3.0);
}

#[test]
fn telit_rfsts_nr_sa_does_not_match_lte_variant() {
    let lte_regex = variant_regex(&telit_fn990(), "Telit RFSTS LTE");
    let nr_sa_response = r#"#RFSTS: "310 260",501390,501390,-95,-80,-10,41,100,100"#;
    assert!(
        lte_regex.captures(nr_sa_response).is_none(),
        "LTE variant must NOT match NR SA response (no quoted IMSI/NetName)"
    );
}

/// The Telit FN990 profile regex for $GPSACP GPS position responses.
fn telit_gps_regex() -> regex::Regex {
    regex::Regex::new(telit_fn990().gps_config.query_regex.as_deref().unwrap()).unwrap()
}

#[test]
fn telit_gpsacp_valid_fix_matches() {
    let re = telit_gps_regex();
    let response = "$GPSACP: 161229.487,3723.2475,N,12158.3416,W,1.0,161.5,2,227.08,0.78,0.42,130998,12";
    let caps = re.captures(response).expect("regex should match valid $GPSACP with fix");
    assert_eq!(cap_str(&caps, "time"), "161229.487");
    assert_eq!(cap_f64(&caps, "lat"), 3723.2475);
    assert_eq!(cap_str(&caps, "ns"), "N");
    assert_eq!(cap_f64(&caps, "lon"), 12158.3416);
    assert_eq!(cap_str(&caps, "ew"), "W");
    assert_eq!(cap_f64(&caps, "alt"), 161.5);
    assert_eq!(cap_str(&caps, "fix"), "2");
    assert_eq!(cap_f64(&caps, "speed"), 0.78);
    assert_eq!(cap_str(&caps, "date"), "130998");
    assert_eq!(cap_str(&caps, "satellites"), "12");
}

#[test]
fn telit_gpsacp_no_fix_does_not_match() {
    let re = telit_gps_regex();
    let response = "$GPSACP: ,,,,,1,,,,,";
    assert!(re.captures(response).is_none(), "regex should NOT match no-fix $GPSACP response with empty fields");
}

#[test]
fn telit_gpsacp_hemisphere_groups() {
    let re = telit_gps_regex();
    let caps = re
        .captures("$GPSACP: 120000.000,3350.5000,S,15110.2500,E,1.0,50.0,3,0.0,1.5,0.8,010126,8")
        .expect("regex should match");
    assert_eq!(cap_str(&caps, "ns"), "S");
    assert_eq!(cap_str(&caps, "ew"), "E");
    assert_eq!(cap_f64(&caps, "lat"), 3350.5);
    assert_eq!(cap_f64(&caps, "lon"), 15110.25);
}
