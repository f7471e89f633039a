use ctrl_modem::profiles::SignalFormatVariant;
use ctrl_modem::signal_format::{read_signal_variants, SignalReading};
use ctrl_modem::types::Technology;

/// A captured decimal field as a number, as the handler reads it.
fn num(field: &Option<String>, default: f64) -> f64 {
    field.as_deref().and_then(|s| s.parse::<f64>().ok()).unwrap_or(default)
}

fn rsrp(r: &SignalReading) -> f64 {
    num(&r.rsrp, -999.0)
}
fn rsrq(r: &SignalReading) -> f64 {
    num(&r.rsrq, -999.0)
}
fn rssi(r: &SignalReading) -> f64 {
    num(&r.rssi, -999.0)
}
fn sinr(r: &SignalReading) -> f64 {
    num(&r.sinr, 0.0)
}

fn variant(label: &str, requires: &str, regex: &str, prefix: &str, tech: &str) -> SignalFormatVariant {
    SignalFormatVariant {
        label: label.into(),
        requires_substring: requires.into(),
        regex: regex.into(),
        band_prefix: prefix.into(),
        technology: tech.into(),
    }
}

/// The Quectel RM551E-GL signal variant list.
fn quectel_signal_variants() -> Vec<SignalFormatVariant> {
    vec![
        variant(
            "NR5G-NSA 3-line",
            "NR5G-NSA",
            r#"\+QENG:\s*"LTE","[^"]*",\d+,\d+,(?P<cellid>[0-9A-Fa-f]+),\d+,\d+,(?P<band>\d+),\d+,\d+,[0-9A-Fa-f]+,(?P<rsrp>-?\d+),(?P<rsrq>-?\d+),(?P<rssi>-?\d+),(?P<sinr>-?\d+)"#,
            "B",
            "4G",
        ),
        variant(
            "LTE single-line",
            "",
            r#"\+QENG:\s*"servingcell","[^"]*","LTE","[^"]*",\d+,\d+,(?P<cellid>[0-9A-Fa-f]+),\d+,(?P<earfcn>\d+),(?P<band>\d+),\d+,\d+,[0-9A-Fa-f]+,(?P<rsrp>-?\d+),(?P<rsrq>-?\d+),(?P<rssi>-?\d+),(?P<sinr>-?\d+)"#,
            "B",
            "4G",
        ),
        variant(
            "LTE 2-line",
            "",
            r#"\+QENG:\s*"LTE","[^"]*",\d+,\d+,(?P<cellid>[0-9A-Fa-f]+),\d+,(?P<earfcn>\d+),(?P<band>\d+),\d+,\d+,[0-9A-Fa-f]+,(?P<rsrp>-?\d+),(?P<rsrq>-?\d+),(?P<rssi>-?\d+),(?P<sinr>-?\d+)"#,
            "B",
            "4G",
        ),
        variant(
            "NR5G-SA single-line",
            "NR5G-SA",
            r#"\+QENG:\s*"servingcell","[^"]*","NR5G-SA","[^"]*",\d+,\d+,(?P<cellid>[0-9A-Fa-f]+),[0-9A-Fa-f]+,(?:[0-9A-Fa-f]+,)*(?P<band>\d+),\d+,(?P<rsrp>-?\d+),(?P<rsrq>-?\d+),(?P<sinr>-?\d+)"#,
            "n",
            "5G",
        ),
    ]
}

#[test]
fn variant_engine_nsa_returns_lte_anchor() {
    let variants = quectel_signal_variants();
    let response = "+QENG: \"servingcell\",\"NOCONN\"\r\n\
        +QENG: \"LTE\",\"FDD\",310,410,29401C0,325,5330,14,3,3,2294,-84,-12,-54,18\r\n\
        +QENG: \"NR5G-NSA\",310,410,500,-95,12,-10,627264,77,100,1\r\n\
        OK\r\n";
    let info = read_signal_variants(response, &variants).expect("NSA response should match variant 1");
    assert_eq!(info.band, "B14", "NSA PCC rule: LTE is primary, band should be B14");
    assert_eq!(rsrp(&info), -84.0);
    assert_eq!(rsrq(&info), -12.0);
    assert_eq!(rssi(&info), -54.0);
    assert_eq!(sinr(&info), 18.0);
    assert_eq!(info.cell_id, "29401C0");
    assert_eq!(info.technology, Technology::Gen4, "NSA PCC should report Gen4 (LTE anchor)");
}

#[test]
fn variant_engine_lte_single_line() {
    let variants = quectel_signal_variants();
    let response = r#"+QENG: "servingcell","NOCONN","LTE","FDD",310,410,29401C0,325,5330,14,3,3,2294,-84,-12,-54,18,12,30,-"#;
    let info = read_signal_variants(response, &variants).expect("Single-line LTE should match variant 2");
    assert_eq!(info.band, "B14");
    assert_eq!(rsrp(&info), -84.0);
    assert_eq!(rsrq(&info), -12.0);
    assert_eq!(rssi(&info), -54.0);
    assert_eq!(sinr(&info), 18.0);
    assert_eq!(info.technology, Technology::Gen4);
}

#[test]
fn variant_engine_lte_two_line() {
    let variants = quectel_signal_variants();
    let response = "+QENG: \"servingcell\",\"NOCONN\"\r\n\
        +QENG: \"LTE\",\"FDD\",310,410,29401C0,325,5330,14,3,3,2294,-84,-12,-54,18\r\n\
        OK\r\n";
    let info = read_signal_variants(response, &variants).expect("2-line LTE should match variant 3");
    assert_eq!(info.band, "B14");
    assert_eq!(rsrp(&info), -84.0);
    assert_eq!(info.technology, Technology::Gen4);
}

#[test]
fn variant_engine_nr5g_sa() {
    let variants = quectel_signal_variants();
    let response = r#"+QENG: "servingcell","NOCONN","NR5G-SA","TDD",310,410,1A2B3C4,100,627264,77,100,-88,-9,15"#;
    let info = read_signal_variants(response, &variants).expect("NR5G-SA should match variant 4");
    assert_eq!(info.band, "n77", "SA band should use 'n' prefix");
    assert_eq!(rsrp(&info), -88.0);
    assert_eq!(rsrq(&info), -9.0);
    assert_eq!(sinr(&info), 15.0);
    assert_eq!(info.cell_id, "1A2B3C4");
    assert_eq!(info.technology, Technology::Gen5, "SA should report Gen5");
}

#[test]
fn variant_engine_nr5g_sa_hex_arfcn() {
    let variants = quectel_signal_variants();
    let response = r#"+QENG: "servingcell","NOCONN","NR5G-SA","FDD",310,260,10244F016,823,ABFB00,387410,25,2,-106,-12,3,0,11"#;
    let info = read_signal_variants(response, &variants).expect("NR5G-SA with hex ARFCN should match variant 4");
    assert_eq!(info.cell_id, "10244F016", "cell ID should be parsed from hex field");
    assert_eq!(info.band, "n25", "SA band should use 'n' prefix");
    assert_eq!(rsrp(&info), -106.0);
    assert_eq!(rsrq(&info), -12.0);
    assert_eq!(sinr(&info), 3.0);
    assert_eq!(info.technology, Technology::Gen5, "SA should report Gen5");
}

#[test]
fn variant_engine_garbage_returns_none() {
    let variants = quectel_signal_variants();
    let response = "OK\r\nERROR\r\ngarbage text\r\n";
    assert!(read_signal_variants(response, &variants).is_none(), "Garbage response should not match any variant");
}

#[test]
fn variant_engine_empty_variants_returns_none() {
    let variants: Vec<SignalFormatVariant> = vec![];
    let response = r#"+QENG: "servingcell","NOCONN","LTE","FDD",310,410,29401C0,325,5330,14,3,3,2294,-84,-12,-54,18"#;
    assert!(read_signal_variants(response, &variants).is_none(), "Empty variant list should return None (CSQ fallback)");
}

/// The Telit FN990 signal variants.
fn telit_signal_variants() -> Vec<SignalFormatVariant> {
    vec![
        variant(
            "Telit RFSTS LTE",
            "#RFSTS:",
            r#"#RFSTS:\s*"[^"]*",(?P<earfcn>\d+),(?P<rsrp>-?\d+),(?P<rssi>-?\d+),(?P<rsrq>-?\d+),[0-9A-Fa-f]+,[0-9A-Fa-f]+,-?\d*,\d+,\d+,\d+,(?P<cellid>[0-9A-Fa-f]+),"[^"]*","[^"]*",\d+,(?P<band>\d+)"#,
            "B",
            "4G",
        ),
        variant(
            "Telit RFSTS NR SA",
            "#RFSTS:",
            r#"#RFSTS:\s*"[^"]*",\d+,\d+,(?P<rsrp>-?\d+),(?P<rssi>-?\d+),(?P<rsrq>-?\d+),(?P<band>\d+),\d+,\d+"#,
            "n",
            "5G",
        ),
    ]
}

#[test]
fn telit_rfsts_lte_only() {
    let variants = telit_signal_variants();
    let response = r#"#RFSTS: "310 260",66811,-116,-80,-16,ABFB,FF,,1280,3,0,07BAB02,"310260228115983","T-Mobile",3,66"#;
    let info = read_signal_variants(response, &variants).expect("LTE-only RFSTS should match variant 1");
    assert_eq!(info.band, "B66", "Band should be B66 (ABND=66)");
    assert_eq!(rsrp(&info), -116.0);
    assert_eq!(rssi(&info), -80.0);
    assert_eq!(rsrq(&info), -16.0);
    assert_eq!(info.cell_id, "07BAB02");
    assert_eq!(info.technology, Technology::Gen4, "LTE should report Gen4");
}

#[test]
fn telit_rfsts_endc_returns_lte_primary() {
    let variants = telit_signal_variants();
    let response = r#"#RFSTS: "310 260",66811,-114,-78,-16,ABFB,255,23,1280,19,2,07BAB02,"310260228115983","T-Mobile",3,66,501390,501390,-111,-96,-15,41,90,90,0"#;
    let info = read_signal_variants(response, &variants).expect("ENDC RFSTS should match LTE variant (variant 1)");
    assert_eq!(info.band, "B66", "NSA PCC rule: LTE is primary, band=B66");
    assert_eq!(rsrp(&info), -114.0);
    assert_eq!(rssi(&info), -78.0);
    assert_eq!(rsrq(&info), -16.0);
    assert_eq!(info.cell_id, "07BAB02");
    assert_eq!(info.technology, Technology::Gen4, "NSA PCC should report Gen4 (LTE anchor)");
}

#[test]
fn telit_rfsts_nr_sa() {
    let variants = telit_signal_variants();
    let response = r#"#RFSTS: "310 260",501390,501390,-95,-80,-10,41,100,100"#;
    let info = read_signal_variants(response, &variants).expect("NR SA RFSTS should match variant 2");
    assert_eq!(info.band, "n41", "SA band should use 'n' prefix");
    assert_eq!(rsrp(&info), -95.0);
    assert_eq!(rssi(&info), -80.0);
    assert_eq!(rsrq(&info), -10.0);
    assert_eq!(info.technology, Technology::Gen5, "SA should report Gen5");
}

#[test]
fn telit_rfsts_lte_in_full_at_response() {
    let variants = telit_signal_variants();
    let response = "AT#RFSTS\r\n\
        #RFSTS: \"310 260\",66811,-116,-80,-16,ABFB,FF,,1280,3,0,07BAB02,\"310260228115983\",\"T-Mobile\",3,66\r\n\
        OK\r\n";
    let info = read_signal_variants(response, &variants).expect("Should match inside full AT response with echo/OK");
    assert_eq!(info.band, "B66");
    assert_eq!(rsrp(&info), -116.0);
}

#[test]
fn variant_skipped_without_required_text_or_valid_pattern() {
    let broken = variant("broken", "", "(unclosed", "B", "4G");
    let needs = variant("needs", "SA:", r"(?P<band>\d+)", "n", "5G");
    let any = variant("any", "", r"(?P<band>\d+),(?P<rsrp>-?\d+)", "B", "4G");
    let vs = vec![broken, needs, any];
    let r = read_signal_variants("7,-90", &vs).expect("third variant reads it");
    assert_eq!(r.band, "B7");
    assert_eq!(r.rsrp.as_deref(), Some("-90"));
    assert!(r.rsrq.is_none() && r.sinr.is_none());
    assert_eq!(r.cell_id, "");
    let r = read_signal_variants("SA: 78", &vs).expect("second variant applies");
    assert_eq!((r.band.as_str(), r.technology), ("n78", Technology::Gen5));
}
