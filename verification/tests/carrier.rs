use ctrl_modem::carrier::{
    parse_qnwinfo_type, qcainfo_primary, qcainfo_secondary, telit_cainfo_rows, QuectelCarrier,
};
use ctrl_modem::profiles::BandPrefixMapping;
use ctrl_modem::types::Technology;

fn quectel_band_mappings() -> Vec<BandPrefixMapping> {
    vec![
        BandPrefixMapping { prefix: "LTE BAND ".into(), replacement: "B".into() },
        BandPrefixMapping { prefix: "NR5G BAND ".into(), replacement: "n".into() },
    ]
}

const LTE_RE: &str =
    r#"\+QCAINFO:\s*"(PCC|SCC)",(\d+),(\d+),"(LTE[^"]*)",\d+,(\d+),(-?\d+),(-?\d+),(-?\d+),(-?\d+)"#;
const NR_RE: &str = r#"\+QCAINFO:\s*"(PCC|SCC)",(\d+),(\d+),"(NR5G[^"]*)"(?:,(.+))?"#;
const NWINFO_RE: &str = r#"\+QNWINFO:\s*"([^"]*)""#;

/// A signal field read as the handler reads it: a decimal, or the default.
fn num(field: &Option<String>, default: f64) -> f64 {
    field.as_deref().and_then(|s| s.parse::<f64>().ok()).unwrap_or(default)
}

fn rsrp(c: &QuectelCarrier) -> f64 {
    num(&c.rsrp, -999.0)
}
fn rsrq(c: &QuectelCarrier) -> f64 {
    num(&c.rsrq, -999.0)
}
fn rssi(c: &QuectelCarrier) -> f64 {
    num(&c.rssi, -999.0)
}
fn sinr(c: &QuectelCarrier) -> f64 {
    num(&c.sinr, 0.0)
}

#[test]
fn parse_qcainfo_lte_scc() {
    let mappings = quectel_band_mappings();
    let response = r#"+QCAINFO: "SCC",1850,50,"LTE BAND 3",2,100,-95,-12,-68,10"#;
    let cells = qcainfo_secondary(response, Some(LTE_RE), None, &mappings);
    assert_eq!(cells.len(), 1);
    assert_eq!(cells[0].band, "B3");
    assert_eq!(rsrp(&cells[0]), -95.0);
    assert_eq!(rsrq(&cells[0]), -12.0);
    assert_eq!(rssi(&cells[0]), -68.0);
    assert_eq!(sinr(&cells[0]), 10.0);
}

#[test]
fn parse_qcainfo_nr5g_scc() {
    let mappings = quectel_band_mappings();
    let response = r#"+QCAINFO: "SCC",627264,100,"NR5G BAND 78",2,500,-88,-9,15"#;
    let cells = qcainfo_secondary(response, None, Some(NR_RE), &mappings);
    assert_eq!(cells.len(), 1);
    assert_eq!(cells[0].band, "n78");
    assert_eq!(rsrp(&cells[0]), -88.0);
    assert_eq!(rsrq(&cells[0]), -9.0);
    assert_eq!(sinr(&cells[0]), 15.0);
}

#[test]
fn parse_qcainfo_pcc_lte_parsed() {
    let mappings = quectel_band_mappings();
    let response = r#"+QCAINFO: "PCC",5330,50,"LTE BAND 14",4,325,-84,-12,-54,18"#;
    let pcc = qcainfo_primary(response, Some(LTE_RE), None, &mappings);
    assert!(pcc.is_some(), "PCC line should be parsed");
    let pcc = pcc.unwrap();
    assert_eq!(pcc.band, "B14");
    assert_eq!(rsrp(&pcc), -84.0);
    assert_eq!(rsrq(&pcc), -12.0);
    assert_eq!(rssi(&pcc), -54.0);
    assert_eq!(sinr(&pcc), 18.0);
}

#[test]
fn parse_qcainfo_pcc_still_excluded_from_secondary() {
    let mappings = quectel_band_mappings();
    let response = r#"+QCAINFO: "PCC",5330,50,"LTE BAND 14",4,325,-84,-12,-54,18"#;
    let cells = qcainfo_secondary(response, Some(LTE_RE), None, &mappings);
    assert_eq!(cells.len(), 0, "PCC lines should still be ignored by secondary parser");
}

#[test]
fn parse_qcainfo_mixed_lte_nr5g() {
    let mappings = quectel_band_mappings();
    let response = "+QCAINFO: \"PCC\",5330,50,\"LTE BAND 14\",4,325,-84,-12,-54,18\r\n\
                    +QCAINFO: \"SCC\",1850,50,\"LTE BAND 3\",2,100,-95,-12,-68,10\r\n\
                    +QCAINFO: \"SCC\",627264,100,\"NR5G BAND 78\",2,500,-88,-9,15\r\n";
    let cells = qcainfo_secondary(response, Some(LTE_RE), Some(NR_RE), &mappings);
    assert_eq!(cells.len(), 2);
    assert_eq!(cells[0].band, "B3");
    assert_eq!(cells[1].band, "n78");
}

#[test]
fn parse_qnwinfo_type_extracts_technology() {
    let response = r#"+QNWINFO: "FDD LTE","310410","LTE BAND 14",5330"#;
    assert_eq!(parse_qnwinfo_type(response, Some(NWINFO_RE)), Some("FDD LTE".to_string()));
}

#[test]
fn parse_qnwinfo_type_none_when_no_regex() {
    assert_eq!(parse_qnwinfo_type("anything", None), None);
}

#[test]
fn parse_qcainfo_no_regexes_returns_empty() {
    let response = r#"+QCAINFO: "SCC",1850,50,"LTE BAND 3",2,100,-95,-12,-68,10"#;
    let cells = qcainfo_secondary(response, None, None, &[]);
    assert_eq!(cells.len(), 0);
}

#[test]
fn parse_qcainfo_pcc_nsa_mode_lte_pcc_nr5g_scc() {
    let mappings = quectel_band_mappings();
    let response = "+QCAINFO: \"PCC\",5330,50,\"LTE BAND 2\",2,325,-85,-10,-54,15\r\n\
                    +QCAINFO: \"SCC\",627264,100,\"NR5G BAND 77\",2,500,-95,-10,12\r\n";
    let pcc = qcainfo_primary(response, Some(LTE_RE), Some(NR_RE), &mappings);
    assert!(pcc.is_some(), "PCC should be found");
    let pcc = pcc.unwrap();
    assert_eq!(pcc.band, "B2", "PCC should be LTE Band 2");
    assert_eq!(rsrp(&pcc), -85.0);
    assert_eq!(rsrq(&pcc), -10.0);
    assert_eq!(rssi(&pcc), -54.0);
    assert_eq!(sinr(&pcc), 15.0);

    let sccs = qcainfo_secondary(response, Some(LTE_RE), Some(NR_RE), &mappings);
    assert_eq!(sccs.len(), 1, "Should have 1 SCC");
    assert_eq!(sccs[0].band, "n77", "SCC should be NR5G Band 77");
}

#[test]
fn parse_qcainfo_pcc_sa_mode_nr5g_pcc_only() {
    let mappings = quectel_band_mappings();
    let response = r#"+QCAINFO: "PCC",627264,100,"NR5G BAND 77",2,500,-88,-9,15"#;
    let pcc = qcainfo_primary(response, Some(LTE_RE), Some(NR_RE), &mappings);
    assert!(pcc.is_some(), "PCC should be found");
    let pcc = pcc.unwrap();
    assert_eq!(pcc.band, "n77", "PCC should be NR5G Band 77");
    assert_eq!(rsrp(&pcc), -88.0);
    assert_eq!(rsrq(&pcc), -9.0);
    assert_eq!(sinr(&pcc), 15.0);

    let sccs = qcainfo_secondary(response, Some(LTE_RE), Some(NR_RE), &mappings);
    assert_eq!(sccs.len(), 0, "Should have no SCCs");
}

#[test]
fn parse_qcainfo_pcc_lte_only_ca() {
    let mappings = quectel_band_mappings();
    let response = "+QCAINFO: \"PCC\",5330,50,\"LTE BAND 2\",2,325,-85,-10,-54,15\r\n\
                    +QCAINFO: \"SCC\",3450,50,\"LTE BAND 7\",2,100,-92,-11,-65,12\r\n\
                    +QCAINFO: \"SCC\",66486,50,\"LTE BAND 66\",2,200,-90,-9,-62,14\r\n";
    let pcc = qcainfo_primary(response, Some(LTE_RE), None, &mappings);
    assert!(pcc.is_some(), "PCC should be found");
    let pcc = pcc.unwrap();
    assert_eq!(pcc.band, "B2", "PCC should be LTE Band 2");
    assert_eq!(rsrp(&pcc), -85.0);

    let sccs = qcainfo_secondary(response, Some(LTE_RE), None, &mappings);
    assert_eq!(sccs.len(), 2, "Should have 2 SCCs");
    assert_eq!(sccs[0].band, "B7", "First SCC should be LTE Band 7");
    assert_eq!(sccs[1].band, "B66", "Second SCC should be LTE Band 66");
}

#[test]
fn parse_qcainfo_pcc_no_pcc_line_returns_none() {
    let mappings = quectel_band_mappings();
    let response = "+QCAINFO: \"SCC\",3450,50,\"LTE BAND 7\",2,100,-92,-11,-65,12\r\n";
    let pcc = qcainfo_primary(response, Some(LTE_RE), None, &mappings);
    assert!(pcc.is_none(), "Should return None when no PCC line is present");
}

#[test]
fn parse_qcainfo_pcc_no_regexes_returns_none() {
    let response = r#"+QCAINFO: "PCC",5330,50,"LTE BAND 14",4,325,-84,-12,-54,18"#;
    let pcc = qcainfo_primary(response, None, None, &[]);
    assert!(pcc.is_none(), "Should return None when no regexes are provided");
}

#[test]
fn qcainfo_nr_short_form_has_no_signal() {
    let mappings = quectel_band_mappings();
    let response = r#"+QCAINFO: "SCC",627264,100,"NR5G BAND 78",500"#;
    let cells = qcainfo_secondary(response, None, Some(NR_RE), &mappings);
    assert_eq!(cells.len(), 1);
    assert_eq!(cells[0].rsrp, None);
    assert_eq!(rsrp(&cells[0]), -999.0);
    assert_eq!(sinr(&cells[0]), 0.0);
}

#[test]
fn telit_cainfo_rows_read_fields() {
    let response = "#CAINFO: 121,1079,3,61,-110,-76,-16,105,abfb,,0,0,0\r\n\
                    #CAINFO: 185,66486,3,100,-95,-68,-12,120,1,0,0,0\r\n\
                    ENDC: 327,627264,100,500,-88,-60,-9,150,0,0,0,0\r\n\
                    ENDC: 12,0,0,0,0,0,0,x,0,0,0,0\r\n\
                    #CAINFO: 121,1079\r\n\
                    #CAINFO: x,1,2,3,4,5,6,7\r\n\
                    OK\r\n";
    let rows = telit_cainfo_rows(response);
    assert_eq!(rows.len(), 4);
    assert!(!rows[0].is_endc);
    assert_eq!(rows[0].band, "B2");
    assert_eq!(rows[0].technology, Some(Technology::Gen4));
    assert_eq!(rows[0].earfcn, 1079);
    assert_eq!(rows[0].pci, 61);
    assert_eq!((rows[0].rsrp.as_str(), rows[0].rssi.as_str(), rows[0].rsrq.as_str()), ("-110", "-76", "-16"));
    assert_eq!(rows[0].sinr_raw, 105);
    assert_eq!(rows[1].band, "B66");
    assert!(rows[2].is_endc);
    assert_eq!(rows[2].band, "n78");
    assert_eq!(rows[2].technology, Some(Technology::Gen5));
    // ENDC lines use NR encoding: band class 12 counts as 250.
    assert_eq!(rows[3].band, "n1");
    assert_eq!(rows[3].sinr_raw, 0);
    assert!(telit_cainfo_rows("OK\r\n").is_empty());
}
