//! Carrier-aggregation replies: the rows of a Telit `AT#CAINFO?` reply
//! and the carriers of a Quectel `AT+QCAINFO` reply, with their signal
//! fields kept as the modem's text (the handler reads them as decimals).

use vstd::prelude::*;
use crate::antenna::{after_colon, after_colon_bounds, normalize_band_name, normalized_band, telit_band, telit_band_class_to_name};
use crate::at_status::{find_match, first_match, group, group_text, groups_view, match_view, str_opt};
use crate::profiles::BandPrefixMapping;
use crate::text::{
    all_bounds, bounds, chars_of, contains, contains_seq, has_prefix, line_ranges, lines, parse_i32,
    parse_i32_chars, parse_u32, parse_u32_chars, parse_u64, parse_u64_chars, split, split_ranges,
    first_some, lemma_first_some_at, opt_view, starts_with, to_uppercase, unicode_uppercase, string_from_chars, trim, trim_bounds,
};
use crate::types::Technology;

verus! {

// ---------------------------------------------------------------------------
// Telit AT#CAINFO?
// ---------------------------------------------------------------------------

/// One carrier line of a Telit `AT#CAINFO?` reply.
#[derive(Debug, Clone, PartialEq, Eq)]
pub struct TelitCaRow {
    /// The line was an `ENDC:` (NR secondary) line.
    pub is_endc: bool,
    /// Band name of the band class (NR encoding forced for `ENDC:` lines).
    pub band: String,
    pub technology: Option<Technology>,
    /// EARFCN (0 when unreadable).
    pub earfcn: u64,
    /// Physical cell id (0 when unreadable).
    pub pci: u32,
    /// RSRP, RSSI and RSRQ fields as the modem wrote them (trimmed).
    pub rsrp: String,
    pub rssi: String,
    pub rsrq: String,
    /// Telit-encoded SINR (0 when unreadable).
    pub sinr_raw: i32,
}

/// A Telit row as values.
pub type TelitRowView = (bool, Seq<char>, Option<Technology>, u64, u32, Seq<char>, Seq<char>, Seq<char>, i32);

pub open spec fn telit_row_view(r: TelitCaRow) -> TelitRowView {
    (r.is_endc, r.band@, r.technology, r.earfcn, r.pci, r.rsrp@, r.rssi@, r.rsrq@, r.sinr_raw)
}

/// The data of a carrier line and whether it is an `ENDC:` line: the
/// trimmed line either starts with `ENDC:` (the rest, trimmed) or contains
/// `#CAINFO:` (its text after the first ':', trimmed).
pub open spec fn telit_data(line: Seq<char>) -> Option<(Seq<char>, bool)> {
    let t = trim(line);
    if starts_with(t, "ENDC:"@) {
        Some((trim(t.skip(5)), true))
    } else if contains(t, "#CAINFO:"@) {
        Some((trim(after_colon(t)), false))
    } else {
        None
    }
}

/// The comma-separated fields of `data`, each trimmed.
pub open spec fn trimmed_fields(data: Seq<char>) -> Seq<Seq<char>> {
    split(data, ',').map_values(|p: Seq<char>| trim(p))
}

pub open spec fn or_else<T>(v: Option<T>, d: T) -> T {
    match v {
        Some(x) => x,
        None => d,
    }
}

/// The row of a line: at least eight fields, the first a band class.
pub open spec fn telit_row(line: Seq<char>) -> Option<TelitRowView> {
    match telit_data(line) {
        Some((data, endc)) => {
            let p = trimmed_fields(data);
            if p.len() < 8 {
                None
            } else {
                match parse_u32(p[0]) {
                    Some(bc) => {
                        let (band, tech) = telit_band(if endc && bc < 250 { 250 } else { bc });
                        Some((
                            endc,
                            band,
                            tech,
                            or_else(parse_u64(p[1]), 0u64),
                            or_else(parse_u32(p[3]), 0u32),
                            p[4],
                            p[5],
                            p[6],
                            or_else(parse_i32(p[7]), 0i32),
                        ))
                    },
                    None => None,
                }
            }
        },
        None => None,
    }
}

/// The rows of the lines, in order.
pub open spec fn telit_rows(ls: Seq<Seq<char>>) -> Seq<TelitRowView>
    decreases ls.len(),
{
    if ls.len() == 0 {
        Seq::empty()
    } else {
        let prev = telit_rows(ls.drop_last());
        match telit_row(ls.last()) {
            Some(r) => prev.push(r),
            None => prev,
        }
    }
}

fn text_eq(s: &[char], t: &str) -> (b: bool)
    ensures
        b == (s@ == t@),
{
    let c = chars_of(t);
    crate::text::slice_eq(s, c.as_slice())
}

fn copy_chars(s: &[char]) -> (r: String)
    ensures
        r@ == s@,
{
    string_from_chars(s)
}

/// The trimmed fields of `data` as strings.
fn fields_of(data: &[char]) -> (r: Vec<String>)
    ensures
        r@.map_values(|f: String| f@) == trimmed_fields(data@),
{
    let ranges = split_ranges(data, ',');
    let ghost parts = split(data@, ',');
    let mut out: Vec<String> = Vec::new();
    let mut i: usize = 0;
    while i < ranges.len()
        invariant
            i <= ranges@.len(),
            parts == split(data@, ','),
            all_bounds(data@, ranges@, parts),
            out@.map_values(|f: String| f@) == parts.take(i as int).map_values(|p: Seq<char>| trim(p)),
        decreases ranges@.len() - i,
    {
        let (a, b) = ranges[i];
        assert(bounds(data@, ranges@[i as int], parts[i as int]));
        let piece = &data[a..b];
        let (ta, tb) = trim_bounds(piece);
        assert(piece@ == parts[i as int]);
        let ghost before = out@.map_values(|f: String| f@);
        let f = copy_chars(&piece[ta..tb]);
        assert(f@ == trim(parts[i as int]));
        out.push(f);
        assert(out@.map_values(|f: String| f@) =~= before.push(trim(parts[i as int])));
        assert(parts.take(i + 1).map_values(|p: Seq<char>| trim(p)) =~= parts.take(i as int).map_values(
            |p: Seq<char>| trim(p),
        ).push(trim(parts[i as int])));
        i = i + 1;
    }
    assert(parts.take(i as int) == parts);
    out
}

fn parse_u32_str(s: &String) -> (r: Option<u32>)
    ensures
        r == parse_u32(s@),
{
    let c = chars_of(s.as_str());
    parse_u32_chars(c.as_slice())
}

fn parse_u64_str(s: &String) -> (r: Option<u64>)
    ensures
        r == parse_u64(s@),
{
    let c = chars_of(s.as_str());
    parse_u64_chars(c.as_slice())
}

fn parse_i32_str(s: &String) -> (r: Option<i32>)
    ensures
        r == parse_i32(s@),
{
    let c = chars_of(s.as_str());
    parse_i32_chars(c.as_slice())
}

fn telit_row_of(line: &[char]) -> (r: Option<TelitCaRow>)
    ensures
        match telit_row(line@) {
            Some(v) => r matches Some(row) && telit_row_view(row) == v,
            None => r is None,
        },
{
    let (a, b) = trim_bounds(line);
    let t = &line[a..b];
    let endc = chars_of("ENDC:");
    let cainfo = chars_of("#CAINFO:");
    let (data, is_endc): (Vec<char>, bool) = if has_prefix(t, endc.as_slice()) {
        proof {
            reveal_strlit("ENDC:");
        }
        assert(endc@.len() == 5);
        let rest = &t[5..t.len()];
        assert(rest@ == t@.skip(5));
        let (ra, rb) = trim_bounds(rest);
        let mut v: Vec<char> = Vec::new();
        crate::text::push_all(&mut v, &rest[ra..rb]);
        (v, true)
    } else if contains_seq(t, cainfo.as_slice()) {
        let (ca, cb) = after_colon_bounds(t);
        let piece = &t[ca..cb];
        let (ra, rb) = trim_bounds(piece);
        let mut v: Vec<char> = Vec::new();
        crate::text::push_all(&mut v, &piece[ra..rb]);
        (v, false)
    } else {
        return None;
    };
    let p = fields_of(data.as_slice());
    let ghost pv = p@.map_values(|f: String| f@);
    if p.len() < 8 {
        return None;
    }
    proof {
        assert(pv[0] == p@[0]@ && pv[1] == p@[1]@ && pv[3] == p@[3]@);
        assert(pv[4] == p@[4]@ && pv[5] == p@[5]@ && pv[6] == p@[6]@ && pv[7] == p@[7]@);
    }
    let bc = match parse_u32_str(&p[0]) {
        Some(v) => v,
        None => return None,
    };
    let class = if is_endc && bc < 250 { 250 } else { bc };
    let (band, technology) = telit_band_class_to_name(class);
    let earfcn = match parse_u64_str(&p[1]) {
        Some(v) => v,
        None => 0,
    };
    let pci = match parse_u32_str(&p[3]) {
        Some(v) => v,
        None => 0,
    };
    let sinr_raw = match parse_i32_str(&p[7]) {
        Some(v) => v,
        None => 0,
    };
    Some(TelitCaRow {
        is_endc,
        band,
        technology,
        earfcn,
        pci,
        rsrp: p[4].clone(),
        rssi: p[5].clone(),
        rsrq: p[6].clone(),
        sinr_raw,
    })
}

/// The carrier rows of a Telit `AT#CAINFO?` reply, in order: each line that
/// (trimmed) starts with `ENDC:` or contains `#CAINFO:` and has at least
/// eight comma-separated fields, the first of them a band class.
pub fn telit_cainfo_rows(response: &str) -> (r: Vec<TelitCaRow>)
    ensures
        r@.map_values(|x: TelitCaRow| telit_row_view(x)) == telit_rows(lines(response@)),
{
    let all = chars_of(response);
    let ranges = line_ranges(all.as_slice());
    let ghost ls = lines(all@);
    let mut out: Vec<TelitCaRow> = Vec::new();
    let mut i: usize = 0;
    assert(ls.take(0) =~= Seq::<Seq<char>>::empty());
    assert(out@.map_values(|x: TelitCaRow| telit_row_view(x)) =~= Seq::<TelitRowView>::empty());
    while i < ranges.len()
        invariant
            i <= ranges@.len(),
            ls == lines(all@),
            all@ == response@,
            all_bounds(all@, ranges@, ls),
            out@.map_values(|x: TelitCaRow| telit_row_view(x)) == telit_rows(ls.take(i as int)),
        decreases ranges@.len() - i,
    {
        let (a, e) = ranges[i];
        assert(bounds(all@, ranges@[i as int], ls[i as int]));
        proof {
            assert(ls.take(i + 1).drop_last() == ls.take(i as int));
            assert(ls.take(i + 1).last() == ls[i as int]);
        }
        match telit_row_of(&all.as_slice()[a..e]) {
            Some(row) => {
                let ghost before = out@.map_values(|x: TelitCaRow| telit_row_view(x));
                out.push(row);
                assert(out@.map_values(|x: TelitCaRow| telit_row_view(x)) =~= before.push(telit_row_view(row)));
            },
            None => {},
        }
        i = i + 1;
    }
    assert(ls.take(i as int) == ls);
    out
}

// ---------------------------------------------------------------------------
// Quectel AT+QCAINFO
// ---------------------------------------------------------------------------

/// One carrier of a Quectel `+QCAINFO` line: its band and its signal fields
/// as the modem wrote them (`None` where absent).
#[derive(Debug, Clone, PartialEq, Eq)]
pub struct QuectelCarrier {
    pub band: String,
    pub rsrp: Option<String>,
    pub rsrq: Option<String>,
    pub rssi: Option<String>,
    pub sinr: Option<String>,
}

pub type CarrierView = (Seq<char>, Option<Seq<char>>, Option<Seq<char>>, Option<Seq<char>>, Option<Seq<char>>);

pub open spec fn carrier_view(c: QuectelCarrier) -> CarrierView {
    (c.band@, opt_view(c.rsrp), opt_view(c.rsrq), opt_view(c.rssi), opt_view(c.sinr))
}

/// The match of an optional profile pattern (none without a pattern or when
/// it does not compile).
pub open spec fn pattern_match(pattern: Option<Seq<char>>, line: Seq<char>) -> Option<Seq<Option<Seq<char>>>> {
    match pattern {
        Some(p) => first_match(p, line),
        None => None,
    }
}

/// The band of a carrier match: group 4, trimmed, normalized.
pub open spec fn match_band(c: Seq<Option<Seq<char>>>, maps: Seq<BandPrefixMapping>) -> Seq<char> {
    normalized_band(trim(or_else(group(c, 4), Seq::empty())), maps)
}

/// An LTE carrier: RSRP, RSRQ, RSSI and SINR are groups 6 to 9.
pub open spec fn lte_carrier(c: Seq<Option<Seq<char>>>, maps: Seq<BandPrefixMapping>) -> CarrierView {
    (match_band(c, maps), group(c, 6), group(c, 7), group(c, 8), group(c, 9))
}

/// The non-blank fields of a list of trimmed fields, in order.
pub open spec fn nonblank_fields(ps: Seq<Seq<char>>) -> Seq<Seq<char>>
    decreases ps.len(),
{
    if ps.len() == 0 {
        Seq::empty()
    } else {
        let prev = nonblank_fields(ps.drop_last());
        if ps.last().len() > 0 {
            prev.push(ps.last())
        } else {
            prev
        }
    }
}

pub open spec fn field_at(fs: Seq<Seq<char>>, i: int) -> Option<Seq<char>> {
    if 0 <= i < fs.len() {
        Some(fs[i])
    } else {
        None
    }
}

/// An NR carrier: the non-blank fields of group 5 give RSRP, RSRQ and SINR
/// at positions 2, 3 and 4 when there are at least three; no RSSI.
pub open spec fn nr_carrier(c: Seq<Option<Seq<char>>>, maps: Seq<BandPrefixMapping>) -> CarrierView {
    let fs = nonblank_fields(trimmed_fields(or_else(group(c, 5), Seq::empty())));
    if fs.len() >= 3 {
        (match_band(c, maps), field_at(fs, 2), field_at(fs, 3), None, field_at(fs, 4))
    } else {
        (match_band(c, maps), None, None, None, None)
    }
}

/// Whether group 1 of a match is `kind`.
pub open spec fn is_kind(m: Option<Seq<Option<Seq<char>>>>, kind: Seq<char>) -> bool {
    m matches Some(c) && group(c, 1) == Some(kind)
}

/// The secondary carrier of a line: the trimmed line has `+QCAINFO:` and
/// `SCC`; an LTE match decides alone (a carrier when its kind is `SCC`);
/// else an NR match of kind `SCC` gives one.
pub open spec fn scc_carrier(line: Seq<char>, lte: Option<Seq<char>>, nr: Option<Seq<char>>, maps: Seq<BandPrefixMapping>) -> Option<CarrierView> {
    let t = trim(line);
    if !contains(t, "+QCAINFO:"@) || !contains(t, "SCC"@) {
        None
    } else {
        match pattern_match(lte, t) {
            Some(c) => if group(c, 1) == Some("SCC"@) {
                Some(lte_carrier(c, maps))
            } else {
                None
            },
            None => if is_kind(pattern_match(nr, t), "SCC"@) {
                Some(nr_carrier(pattern_match(nr, t).unwrap(), maps))
            } else {
                None
            },
        }
    }
}

/// The secondary carriers of the lines, in order.
pub open spec fn scc_carriers(ls: Seq<Seq<char>>, lte: Option<Seq<char>>, nr: Option<Seq<char>>, maps: Seq<BandPrefixMapping>) -> Seq<CarrierView>
    decreases ls.len(),
{
    if ls.len() == 0 {
        Seq::empty()
    } else {
        let prev = scc_carriers(ls.drop_last(), lte, nr, maps);
        match scc_carrier(ls.last(), lte, nr, maps) {
            Some(c) => prev.push(c),
            None => prev,
        }
    }
}

fn match_line(pattern: Option<&str>, line: &str) -> (r: Option<Vec<Option<String>>>)
    ensures
        match_view(r) == pattern_match(str_opt(pattern), line@),
{
    match pattern {
        Some(p) => find_match(p, line),
        None => None,
    }
}

fn band_of(g: &Vec<Option<String>>, maps: &[BandPrefixMapping]) -> (r: String)
    ensures
        r@ == match_band(groups_view(g@), maps@),
{
    let raw = match group_text(g, 4) {
        Some(t) => t,
        None => String::new(),
    };
    let c = chars_of(raw.as_str());
    let (a, b) = trim_bounds(c.as_slice());
    let t = string_from_chars(&c.as_slice()[a..b]);
    normalize_band_name(t.as_str(), maps)
}

/// The LTE carrier a match of the profile's LTE `+QCAINFO` pattern
/// describes.
pub fn lte_carrier_of(g: &Vec<Option<String>>, maps: &[BandPrefixMapping]) -> (r: QuectelCarrier)
    ensures
        carrier_view(r) == lte_carrier(groups_view(g@), maps@),
{
    QuectelCarrier {
        band: band_of(g, maps),
        rsrp: group_text(g, 6),
        rsrq: group_text(g, 7),
        rssi: group_text(g, 8),
        sinr: group_text(g, 9),
    }
}

fn nonblank_of(fs: &Vec<String>) -> (r: Vec<String>)
    ensures
        r@.map_values(|f: String| f@) == nonblank_fields(fs@.map_values(|f: String| f@)),
{
    let ghost fv = fs@.map_values(|f: String| f@);
    let mut out: Vec<String> = Vec::new();
    let mut i: usize = 0;
    assert(fv.take(0) =~= Seq::<Seq<char>>::empty());
    assert(out@.map_values(|f: String| f@) =~= Seq::<Seq<char>>::empty());
    while i < fs.len()
        invariant
            i <= fs@.len(),
            fv == fs@.map_values(|f: String| f@),
            out@.map_values(|f: String| f@) == nonblank_fields(fv.take(i as int)),
        decreases fs@.len() - i,
    {
        proof {
            assert(fv.take(i + 1).drop_last() == fv.take(i as int));
            assert(fv.take(i + 1).last() == fv[i as int]);
            assert(fv[i as int] == fs@[i as int]@);
        }
        if !fs[i].as_str().is_empty() {
            let ghost before = out@.map_values(|f: String| f@);
            out.push(fs[i].clone());
            assert(out@.map_values(|f: String| f@) =~= before.push(fv[i as int]));
        }
        i = i + 1;
    }
    assert(fv.take(i as int) == fv);
    out
}

fn field_at_of(fs: &Vec<String>, i: usize) -> (r: Option<String>)
    ensures
        opt_view(r) == field_at(fs@.map_values(|f: String| f@), i as int),
{
    if i < fs.len() {
        Some(fs[i].clone())
    } else {
        None
    }
}

/// The NR carrier a match of the profile's NR `+QCAINFO` pattern
/// describes.
pub fn nr_carrier_of(g: &Vec<Option<String>>, maps: &[BandPrefixMapping]) -> (r: QuectelCarrier)
    ensures
        carrier_view(r) == nr_carrier(groups_view(g@), maps@),
{
    let rest = match group_text(g, 5) {
        Some(t) => t,
        None => String::new(),
    };
    let rc = chars_of(rest.as_str());
    let all = fields_of(rc.as_slice());
    let fs = nonblank_of(&all);
    let band = band_of(g, maps);
    if fs.len() >= 3 {
        QuectelCarrier {
            band,
            rsrp: field_at_of(&fs, 2),
            rsrq: field_at_of(&fs, 3),
            rssi: None,
            sinr: field_at_of(&fs, 4),
        }
    } else {
        QuectelCarrier { band, rsrp: None, rsrq: None, rssi: None, sinr: None }
    }
}

fn kind_of(m: &Option<Vec<Option<String>>>, kind: &str) -> (b: bool)
    ensures
        b == is_kind(match_view(*m), kind@),
{
    match m {
        Some(g) => match group_text(g, 1) {
            Some(t) => {
                let c = chars_of(t.as_str());
                text_eq(c.as_slice(), kind)
            },
            None => false,
        },
        None => false,
    }
}

fn scc_carrier_of(line: &[char], lte: Option<&str>, nr: Option<&str>, maps: &[BandPrefixMapping]) -> (r: Option<QuectelCarrier>)
    ensures
        match scc_carrier(line@, str_opt(lte), str_opt(nr), maps@) {
            Some(v) => r matches Some(c) && carrier_view(c) == v,
            None => r is None,
        },
{
    let (a, b) = trim_bounds(line);
    let t = &line[a..b];
    let k1 = chars_of("+QCAINFO:");
    let k2 = chars_of("SCC");
    if !contains_seq(t, k1.as_slice()) || !contains_seq(t, k2.as_slice()) {
        return None;
    }
    let ts = string_from_chars(t);
    let lm = match_line(lte, ts.as_str());
    match &lm {
        Some(g) => {
            if kind_of(&lm, "SCC") {
                return Some(lte_carrier_of(g, maps));
            } else {
                return None;
            }
        },
        None => {},
    }
    let nm = match_line(nr, ts.as_str());
    if kind_of(&nm, "SCC") {
        match &nm {
            Some(g) => Some(nr_carrier_of(g, maps)),
            None => None,
        }
    } else {
        None
    }
}

/// The secondary (`SCC`) carriers of a Quectel `AT+QCAINFO` reply, in
/// order, read with the profile's LTE and NR patterns: a line whose LTE
/// match is not an `SCC` carrier gives none; NR lines carry RSRP, RSRQ and
/// SINR among the non-blank fields of group 5.
pub fn qcainfo_secondary(
    response: &str,
    lte: Option<&str>,
    nr: Option<&str>,
    maps: &[BandPrefixMapping],
) -> (r: Vec<QuectelCarrier>)
    ensures
        r@.map_values(|c: QuectelCarrier| carrier_view(c)) == scc_carriers(lines(response@), str_opt(lte), str_opt(nr), maps@),
{
    let all = chars_of(response);
    let ranges = line_ranges(all.as_slice());
    let ghost ls = lines(all@);
    let mut out: Vec<QuectelCarrier> = Vec::new();
    let mut i: usize = 0;
    assert(ls.take(0) =~= Seq::<Seq<char>>::empty());
    assert(out@.map_values(|c: QuectelCarrier| carrier_view(c)) =~= Seq::<CarrierView>::empty());
    while i < ranges.len()
        invariant
            i <= ranges@.len(),
            ls == lines(all@),
            all@ == response@,
            all_bounds(all@, ranges@, ls),
            out@.map_values(|c: QuectelCarrier| carrier_view(c)) == scc_carriers(ls.take(i as int), str_opt(lte), str_opt(nr), maps@),
        decreases ranges@.len() - i,
    {
        let (a, e) = ranges[i];
        assert(bounds(all@, ranges@[i as int], ls[i as int]));
        proof {
            assert(ls.take(i + 1).drop_last() == ls.take(i as int));
            assert(ls.take(i + 1).last() == ls[i as int]);
        }
        match scc_carrier_of(&all.as_slice()[a..e], lte, nr, maps) {
            Some(c) => {
                let ghost before = out@.map_values(|c: QuectelCarrier| carrier_view(c));
                out.push(c);
                assert(out@.map_values(|c: QuectelCarrier| carrier_view(c)) =~= before.push(carrier_view(c)));
            },
            None => {},
        }
        i = i + 1;
    }
    assert(ls.take(i as int) == ls);
    out
}

/// The primary carrier of a line: the trimmed line has `+QCAINFO:` and,
/// uppercased, `"PCC"`; an LTE match of kind `PCC` gives one, else an NR
/// match of kind `PCC`.
pub open spec fn pcc_carrier_of(line: Seq<char>, lte: Option<Seq<char>>, nr: Option<Seq<char>>, maps: Seq<BandPrefixMapping>) -> Option<CarrierView> {
    let t = trim(line);
    if !contains(t, "+QCAINFO:"@) || !contains(unicode_uppercase(t), "\"PCC\""@) {
        None
    } else if is_kind(pattern_match(lte, t), "PCC"@) {
        Some(lte_carrier(pattern_match(lte, t).unwrap(), maps))
    } else if is_kind(pattern_match(nr, t), "PCC"@) {
        Some(nr_carrier(pattern_match(nr, t).unwrap(), maps))
    } else {
        None
    }
}

pub open spec fn pcc_fn(lte: Option<Seq<char>>, nr: Option<Seq<char>>, maps: Seq<BandPrefixMapping>) -> spec_fn(Seq<char>) -> Option<CarrierView> {
    |line: Seq<char>| pcc_carrier_of(line, lte, nr, maps)
}

fn pcc_carrier_line(line: &[char], lte: Option<&str>, nr: Option<&str>, maps: &[BandPrefixMapping]) -> (r: Option<QuectelCarrier>)
    ensures
        match pcc_carrier_of(line@, str_opt(lte), str_opt(nr), maps@) {
            Some(v) => r matches Some(c) && carrier_view(c) == v,
            None => r is None,
        },
{
    let (a, b) = trim_bounds(line);
    let t = &line[a..b];
    let k1 = chars_of("+QCAINFO:");
    if !contains_seq(t, k1.as_slice()) {
        return None;
    }
    let ts = string_from_chars(t);
    let up = to_uppercase(ts.as_str());
    let uc = chars_of(up.as_str());
    let k2 = chars_of("\"PCC\"");
    if !contains_seq(uc.as_slice(), k2.as_slice()) {
        return None;
    }
    let lm = match_line(lte, ts.as_str());
    if kind_of(&lm, "PCC") {
        return match &lm {
            Some(g) => Some(lte_carrier_of(g, maps)),
            None => None,
        };
    }
    let nm = match_line(nr, ts.as_str());
    if kind_of(&nm, "PCC") {
        match &nm {
            Some(g) => Some(nr_carrier_of(g, maps)),
            None => None,
        }
    } else {
        None
    }
}

/// The primary (`PCC`) carrier of a Quectel `AT+QCAINFO` reply: that of
/// its first line that gives one.
pub fn qcainfo_primary(
    response: &str,
    lte: Option<&str>,
    nr: Option<&str>,
    maps: &[BandPrefixMapping],
) -> (r: Option<QuectelCarrier>)
    ensures
        match first_some(lines(response@), pcc_fn(str_opt(lte), str_opt(nr), maps@)) {
            Some(v) => r matches Some(c) && carrier_view(c) == v,
            None => r is None,
        },
{
    let ghost f = pcc_fn(str_opt(lte), str_opt(nr), maps@);
    let all = chars_of(response);
    let ranges = line_ranges(all.as_slice());
    let ghost ls = lines(all@);
    let mut i: usize = 0;
    while i < ranges.len()
        invariant
            i <= ranges@.len(),
            ls == lines(all@),
            all@ == response@,
            f == pcc_fn(str_opt(lte), str_opt(nr), maps@),
            all_bounds(all@, ranges@, ls),
            forall|k: int| 0 <= k < i ==> f(#[trigger] ls[k]) is None,
        decreases ranges@.len() - i,
    {
        let (a, e) = ranges[i];
        assert(bounds(all@, ranges@[i as int], ls[i as int]));
        let r = pcc_carrier_line(&all.as_slice()[a..e], lte, nr, maps);
        proof {
            assert(all@.subrange(a as int, e as int) == ls[i as int]);
            assert(f(ls[i as int]) == pcc_carrier_of(ls[i as int], str_opt(lte), str_opt(nr), maps@));
            lemma_first_some_at(ls, f, i as int);
        }
        if r.is_some() {
            return r;
        }
        i = i + 1;
    }
    proof {
        if ls.len() > 0 {
            lemma_first_some_at(ls, f, ls.len() - 1);
        }
    }
    None
}

// ---------------------------------------------------------------------------
// Network type
// ---------------------------------------------------------------------------

/// The access technology of a `+QNWINFO` reply: group 1 of the profile's
/// pattern's match (none without a pattern, a compiling one, or a match).
pub open spec fn qnwinfo_type(response: Seq<char>, pattern: Option<Seq<char>>) -> Option<Seq<char>> {
    match pattern_match(pattern, response) {
        Some(c) => group(c, 1),
        None => None,
    }
}

/// Reads the access technology from an `AT+QNWINFO` reply with the
/// profile's pattern.
pub fn parse_qnwinfo_type(response: &str, pattern: Option<&str>) -> (r: Option<String>)
    ensures
        opt_view(r) == qnwinfo_type(response@, str_opt(pattern)),
{
    match match_line(pattern, response) {
        Some(g) => group_text(&g, 1),
        None => None,
    }
}

} // verus!
