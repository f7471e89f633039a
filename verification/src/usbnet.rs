//! USB-net mode detection: vendor AT response parsers, the kernel driver
//! mapping and the reconciliation of both signals.

use vstd::prelude::*;
use crate::text::{
    all_bounds, bounds, chars_of, first_some, has_prefix, lemma_first_some_at, lemma_first_some_skip,
    line_ranges, lines, parse_u32, parse_u32_chars, split, split_ranges, starts_with, str_eq, trim,
    trim_bounds,
};
use crate::types::UsbNetMode;
use crate::profiles::UsbNetDetectConfig;

verus! {

/// Mode named by a Quectel `AT+QCFG="usbnet"` code.
pub open spec fn quectel_code_mode(n: u32) -> UsbNetMode {
    if n == 0 {
        UsbNetMode::Rmnet
    } else if n == 1 {
        UsbNetMode::Ecm
    } else if n == 2 {
        UsbNetMode::Mbim
    } else if n == 3 {
        UsbNetMode::Rndis
    } else if n == 5 {
        UsbNetMode::Ncm
    } else {
        UsbNetMode::Unknown
    }
}

/// Mode named by a Telit `AT#USBCFG?` code.
pub open spec fn telit_code_mode(n: u32) -> UsbNetMode {
    if n == 0 {
        UsbNetMode::Ecm
    } else if n == 2 {
        UsbNetMode::Mbim
    } else if n == 3 {
        UsbNetMode::Rmnet
    } else if n == 4 {
        UsbNetMode::Ncm
    } else {
        UsbNetMode::Unknown
    }
}

/// The code a trimmed `+QCFG:` line carries: the second comma-separated
/// field after the prefix, trimmed and read as a `u32`.
pub open spec fn qcfg_line_code(line: Seq<char>) -> Option<u32> {
    let t = trim(line);
    if starts_with(t, "+QCFG:"@) {
        let fields = split(t.skip("+QCFG:"@.len() as int), ',');
        if fields.len() > 1 {
            parse_u32(trim(fields[1]))
        } else {
            None
        }
    } else {
        None
    }
}

/// The code a trimmed `#USBCFG:` line carries: the rest of the line,
/// trimmed and read as a `u32`.
pub open spec fn usbcfg_line_code(line: Seq<char>) -> Option<u32> {
    let t = trim(line);
    if starts_with(t, "#USBCFG:"@) {
        parse_u32(trim(t.skip("#USBCFG:"@.len() as int)))
    } else {
        None
    }
}

pub open spec fn qcfg_code_fn() -> spec_fn(Seq<char>) -> Option<u32> {
    |l: Seq<char>| qcfg_line_code(l)
}

pub open spec fn usbcfg_code_fn() -> spec_fn(Seq<char>) -> Option<u32> {
    |l: Seq<char>| usbcfg_line_code(l)
}

/// Mode reported by a Quectel `AT+QCFG="usbnet"` response: the first line
/// that carries a readable code decides.
pub open spec fn quectel_usbnet_mode(response: Seq<char>) -> UsbNetMode {
    match first_some(lines(response), qcfg_code_fn()) {
        Some(n) => quectel_code_mode(n),
        None => UsbNetMode::Unknown,
    }
}

/// Mode reported by a Telit `AT#USBCFG?` response.
pub open spec fn telit_usbnet_mode(response: Seq<char>) -> UsbNetMode {
    match first_some(lines(response), usbcfg_code_fn()) {
        Some(n) => telit_code_mode(n),
        None => UsbNetMode::Unknown,
    }
}

/// Mode a response maps to under the named parser.
pub open spec fn usbnet_response_mode(parser: Seq<char>, response: Seq<char>) -> UsbNetMode {
    if parser == "quectel_qcfg_usbnet"@ {
        quectel_usbnet_mode(response)
    } else if parser == "telit_usbcfg"@ {
        telit_usbnet_mode(response)
    } else {
        UsbNetMode::Unknown
    }
}

/// Mode a kernel USB-net driver name stands for.
pub open spec fn driver_mode(driver: Seq<char>) -> Option<UsbNetMode> {
    if driver == "qmi_wwan"@ {
        Some(UsbNetMode::Rmnet)
    } else if driver == "cdc_ether"@ {
        Some(UsbNetMode::Ecm)
    } else if driver == "cdc_mbim"@ {
        Some(UsbNetMode::Mbim)
    } else if driver == "cdc_ncm"@ {
        Some(UsbNetMode::Ncm)
    } else if driver == "rndis_host"@ {
        Some(UsbNetMode::Rndis)
    } else {
        None
    }
}

/// Reconciled mode: the kernel signal wins whenever it is present.
pub open spec fn decided_mode(at_mode: UsbNetMode, kernel_mode: Option<UsbNetMode>) -> UsbNetMode {
    match kernel_mode {
        Some(km) => km,
        None => at_mode,
    }
}

fn quectel_mode_of(n: u32) -> (m: UsbNetMode)
    ensures
        m == quectel_code_mode(n),
{
    match n {
        0 => UsbNetMode::Rmnet,
        1 => UsbNetMode::Ecm,
        2 => UsbNetMode::Mbim,
        3 => UsbNetMode::Rndis,
        5 => UsbNetMode::Ncm,
        _ => UsbNetMode::Unknown,
    }
}

fn telit_mode_of(n: u32) -> (m: UsbNetMode)
    ensures
        m == telit_code_mode(n),
{
    match n {
        0 => UsbNetMode::Ecm,
        2 => UsbNetMode::Mbim,
        3 => UsbNetMode::Rmnet,
        4 => UsbNetMode::Ncm,
        _ => UsbNetMode::Unknown,
    }
}

fn qcfg_code_of(line: &[char]) -> (r: Option<u32>)
    ensures
        r == qcfg_line_code(line@),
{
    let (a, b) = trim_bounds(line);
    let t = &line[a..b];
    let pfx = chars_of("+QCFG:");
    if !has_prefix(t, pfx.as_slice()) {
        return None;
    }
    let rest = &t[pfx.len()..t.len()];
    assert(rest@ == t@.skip("+QCFG:"@.len() as int));
    let fields = split_ranges(rest, ',');
    if fields.len() > 1 {
        let (x, y) = fields[1];
        assert(bounds(rest@, fields@[1], split(rest@, ',')[1]));
        let f = &rest[x..y];
        let (c, d) = trim_bounds(f);
        parse_u32_chars(&f[c..d])
    } else {
        None
    }
}

fn usbcfg_code_of(line: &[char]) -> (r: Option<u32>)
    ensures
        r == usbcfg_line_code(line@),
{
    let (a, b) = trim_bounds(line);
    let t = &line[a..b];
    let pfx = chars_of("#USBCFG:");
    if !has_prefix(t, pfx.as_slice()) {
        return None;
    }
    let rest = &t[pfx.len()..t.len()];
    assert(rest@ == t@.skip("#USBCFG:"@.len() as int));
    let (c, d) = trim_bounds(rest);
    parse_u32_chars(&rest[c..d])
}

/// Parse a Quectel `AT+QCFG="usbnet"` response (`+QCFG: "usbnet",<n>`).
pub fn parse_quectel_qcfg_usbnet(response: &str) -> (m: UsbNetMode)
    ensures
        m == quectel_usbnet_mode(response@),
{
    let cs = chars_of(response);
    let ranges = line_ranges(cs.as_slice());
    let ghost ls = lines(cs@);
    let ghost f = qcfg_code_fn();
    let mut k: usize = 0;
    while k < ranges.len()
        invariant
            all_bounds(cs@, ranges@, ls),
            ls == lines(response@),
            f == qcfg_code_fn(),
            k <= ranges@.len(),
            forall|j: int| 0 <= j < k ==> f(#[trigger] ls[j]) is None,
        decreases ranges@.len() - k,
    {
        let (a, b) = ranges[k];
        assert(bounds(cs@, ranges@[k as int], ls[k as int]));
        let line = &cs[a..b];
        let code = qcfg_code_of(line);
        proof {
            assert(line@ == ls[k as int]);
            assert(code == qcfg_line_code(ls[k as int]));
            assert(f(ls[k as int]) == code);
            lemma_first_some_at(ls, f, k as int);
        }
        if let Some(n) = code {
            return quectel_mode_of(n);
        }
        k = k + 1;
    }
    proof {
        lemma_first_some_skip(ls, f, k as int);
        assert(ls.skip(k as int).len() == 0);
    }
    UsbNetMode::Unknown
}

/// Parse a Telit `AT#USBCFG?` response (`#USBCFG: <n>`).
pub fn parse_telit_usbcfg(response: &str) -> (m: UsbNetMode)
    ensures
        m == telit_usbnet_mode(response@),
{
    let cs = chars_of(response);
    let ranges = line_ranges(cs.as_slice());
    let ghost ls = lines(cs@);
    let ghost f = usbcfg_code_fn();
    let mut k: usize = 0;
    while k < ranges.len()
        invariant
            all_bounds(cs@, ranges@, ls),
            ls == lines(response@),
            f == usbcfg_code_fn(),
            k <= ranges@.len(),
            forall|j: int| 0 <= j < k ==> f(#[trigger] ls[j]) is None,
        decreases ranges@.len() - k,
    {
        let (a, b) = ranges[k];
        assert(bounds(cs@, ranges@[k as int], ls[k as int]));
        let line = &cs[a..b];
        let code = usbcfg_code_of(line);
        proof {
            assert(line@ == ls[k as int]);
            assert(code == usbcfg_line_code(ls[k as int]));
            assert(f(ls[k as int]) == code);
            lemma_first_some_at(ls, f, k as int);
        }
        if let Some(n) = code {
            return telit_mode_of(n);
        }
        k = k + 1;
    }
    proof {
        lemma_first_some_skip(ls, f, k as int);
        assert(ls.skip(k as int).len() == 0);
    }
    UsbNetMode::Unknown
}

/// Map a vendor AT response to a mode by the profile's parser key; an
/// unknown key gives `Unknown`.
pub fn parse_usbnet_response(parser: &str, response: &str) -> (m: UsbNetMode)
    ensures
        m == usbnet_response_mode(parser@, response@),
{
    if str_eq(parser, "quectel_qcfg_usbnet") {
        parse_quectel_qcfg_usbnet(response)
    } else if str_eq(parser, "telit_usbcfg") {
        parse_telit_usbcfg(response)
    } else {
        UsbNetMode::Unknown
    }
}

/// Map a kernel USB-net driver basename to a mode.
pub fn kernel_driver_to_mode(driver: &str) -> (m: Option<UsbNetMode>)
    ensures
        m == driver_mode(driver@),
{
    if str_eq(driver, "qmi_wwan") {
        Some(UsbNetMode::Rmnet)
    } else if str_eq(driver, "cdc_ether") {
        Some(UsbNetMode::Ecm)
    } else if str_eq(driver, "cdc_mbim") {
        Some(UsbNetMode::Mbim)
    } else if str_eq(driver, "cdc_ncm") {
        Some(UsbNetMode::Ncm)
    } else if str_eq(driver, "rndis_host") {
        Some(UsbNetMode::Rndis)
    } else {
        None
    }
}

/// Reconcile the AT and kernel signals: kernel wins on disagreement and
/// when AT is silent; AT stands alone when the kernel gives nothing.
pub fn decide_mode(at_mode: UsbNetMode, kernel_mode: Option<UsbNetMode>, modem_id: &str) -> (m:
    UsbNetMode)
    ensures
        m == decided_mode(at_mode, kernel_mode),
{
    match kernel_mode {
        Some(km) => km,
        None => at_mode,
    }
}

/// The AT-side mode of a detection run: `Unknown` when the profile declares
/// no query command, when the query failed or timed out (`reply` is
/// `None`), or when no parser is declared; otherwise the parser's reading of
/// the reply.
pub open spec fn at_detected_mode(config: UsbNetDetectConfig, reply: Option<Seq<char>>) -> UsbNetMode {
    if config.query_cmd is None {
        UsbNetMode::Unknown
    } else if reply is None {
        UsbNetMode::Unknown
    } else if config.parser is None {
        UsbNetMode::Unknown
    } else {
        usbnet_response_mode(config.parser.unwrap()@, reply.unwrap())
    }
}

/// Reads the AT-side mode from the reply to the profile's detection query
/// (see [`at_detected_mode`]).
pub fn at_mode_from_reply(config: &UsbNetDetectConfig, reply: Option<&str>) -> (m: UsbNetMode)
    ensures
        m == at_detected_mode(*config, match reply {
            Some(r) => Some(r@),
            None => None,
        }),
{
    if config.query_cmd.is_none() {
        return UsbNetMode::Unknown;
    }
    let response = match reply {
        Some(r) => r,
        None => return UsbNetMode::Unknown,
    };
    match &config.parser {
        Some(p) => parse_usbnet_response(p.as_str(), response),
        None => UsbNetMode::Unknown,
    }
}

} // verus!
