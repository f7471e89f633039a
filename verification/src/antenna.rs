//! Per-antenna metric parsing and band-name normalization.
//!
//! Quectel reports one row per technology (`+QRSRP: rx0,rx1,rx2,rx3,TECH`);
//! Telit interleaves RSRP/RSRQ per port (`#LAPS: rsrp0,rsrq0,rsrp1,...`).
//! Values equal to the sentinel or outside the valid range are dropped.

use vstd::prelude::*;
use crate::profiles::BandPrefixMapping;
use crate::text::{
    all_bounds, bounds, chars_of, contains, contains_seq, decimal, first_index, first_some,
    has_prefix, lemma_first_index, lemma_first_index_none, opt_view,
    lemma_first_some_at, lemma_first_some_skip, line_ranges, lines, parse_i32, parse_i32_chars,
    push_all, push_decimal, split, split_ranges, starts_with, string_from_chars, trim, trim_bounds,
};
use crate::types::Technology;

verus! {

/// Value of one antenna field: parsed after trimming, kept only when it is
/// not the sentinel and lies in `[valid_min, valid_max]`.
pub open spec fn antenna_value(s: Seq<char>, sentinel: i32, valid_min: i32, valid_max: i32) -> Option<
    i32,
> {
    match parse_i32(trim(s)) {
        Some(v) => if v == sentinel || v < valid_min || v > valid_max {
            None
        } else {
            Some(v)
        },
        None => None,
    }
}

/// Parse an antenna metric value, filtering the sentinel and out-of-range values.
pub fn parse_antenna_val(s: &str, sentinel: i32, valid_min: i32, valid_max: i32) -> (r: Option<i32>)
    ensures
        r == antenna_value(s@, sentinel, valid_min, valid_max),
        r matches Some(v) ==> v != sentinel && valid_min <= v <= valid_max,
{
    let cs = chars_of(s);
    antenna_val_chars(cs.as_slice(), sentinel, valid_min, valid_max)
}

fn antenna_val_chars(s: &[char], sentinel: i32, valid_min: i32, valid_max: i32) -> (r: Option<i32>)
    ensures
        r == antenna_value(s@, sentinel, valid_min, valid_max),
{
    let (a, b) = trim_bounds(s);
    match parse_i32_chars(&s[a..b]) {
        Some(v) => if v == sentinel || v < valid_min || v > valid_max {
            None
        } else {
            Some(v)
        },
        None => None,
    }
}

/// The response prefix of a command: a leading "AT" removed, ":" appended.
pub open spec fn response_prefix(cmd: Seq<char>) -> Seq<char> {
    let stripped = if starts_with(cmd, "AT"@) {
        cmd.skip(2)
    } else {
        cmd
    };
    stripped + ":"@
}

/// Derive the AT response prefix from a command (`"AT+QRSRP"` gives `"+QRSRP:"`).
pub fn response_prefix_from_cmd(cmd: &str) -> (r: String)
    ensures
        r@ == response_prefix(cmd@),
{
    let cs = chars_of(cmd);
    let at = chars_of("AT");
    let colon = chars_of(":");
    let mut out: Vec<char> = Vec::new();
    if has_prefix(cs.as_slice(), at.as_slice()) {
        proof {
            reveal_strlit("AT");
        }
        push_all(&mut out, &cs.as_slice()[2..cs.len()]);
        assert(cs@.subrange(2, cs@.len() as int) == cmd@.skip(2));
    } else {
        push_all(&mut out, cs.as_slice());
    }
    push_all(&mut out, colon.as_slice());
    string_from_chars(out.as_slice())
}

/// The text after the first ':' of a line, up to the next ':' (empty when
/// the line has no ':').
pub open spec fn after_colon(line: Seq<char>) -> Seq<char> {
    let parts = split(line, ':');
    if parts.len() > 1 {
        parts[1]
    } else {
        Seq::empty()
    }
}

/// The comma-separated fields of a metric line.
pub open spec fn metric_fields(line: Seq<char>) -> Seq<Seq<char>> {
    split(after_colon(line), ',')
}

/// Field `i` of `parts` read as an antenna value (`None` when absent).
pub open spec fn field_value(
    parts: Seq<Seq<char>>,
    i: int,
    sentinel: i32,
    lo: i32,
    hi: i32,
) -> Option<i32> {
    if 0 <= i < parts.len() {
        antenna_value(parts[i], sentinel, lo, hi)
    } else {
        None
    }
}

/// Technology tag of a metric row: the trimmed fifth field, or empty.
pub open spec fn row_technology(parts: Seq<Seq<char>>) -> Seq<char> {
    if parts.len() > 4 {
        trim(parts[4])
    } else {
        Seq::empty()
    }
}

/// The lines of a response that contain `prefix`, in order.
pub open spec fn metric_lines(response: Seq<char>, prefix: Seq<char>) -> Seq<Seq<char>> {
    lines(response).filter(|l: Seq<char>| contains(l, prefix))
}

pub(crate) fn after_colon_bounds(line: &[char]) -> (r: (usize, usize))
    ensures
        r.0 <= r.1 <= line@.len(),
        line@.subrange(r.0 as int, r.1 as int) == after_colon(line@),
{
    let parts = split_ranges(line, ':');
    if parts.len() > 1 {
        assert(bounds(line@, parts@[1], split(line@, ':')[1]));
        parts[1]
    } else {
        (0, 0)
    }
}

fn field_value_exec(
    data: &[char],
    parts: &Vec<(usize, usize)>,
    i: usize,
    sentinel: i32,
    lo: i32,
    hi: i32,
) -> (r: Option<i32>)
    requires
        all_bounds(data@, parts@, split(data@, ',')),
    ensures
        r == field_value(split(data@, ','), i as int, sentinel, lo, hi),
{
    if i < parts.len() {
        let (a, b) = parts[i];
        assert(bounds(data@, parts@[i as int], split(data@, ',')[i as int]));
        antenna_val_chars(&data[a..b], sentinel, lo, hi)
    } else {
        None
    }
}

/// Parse a multi-row antenna metric response: one `(technology, values)`
/// row for each line that contains `prefix`.
pub fn parse_antenna_metric_multi(
    response: &str,
    prefix: &str,
    sentinel: i32,
    valid_min: i32,
    valid_max: i32,
) -> (r: Vec<(String, [Option<i32>; 4])>)
    ensures
        r@.len() == metric_lines(response@, prefix@).len(),
        forall|k: int|
            0 <= k < r@.len() ==> {
                let parts = #[trigger] metric_fields(metric_lines(response@, prefix@)[k]);
                &&& r@[k].0@ == row_technology(parts)
                &&& forall|i: int|
                    0 <= i < 4 ==> r@[k].1@[i] == field_value(parts, i, sentinel, valid_min, valid_max)
            },
{
    let cs = chars_of(response);
    let pc = chars_of(prefix);
    let ranges = line_ranges(cs.as_slice());
    let ghost ls = lines(cs@);
    let ghost pred = |l: Seq<char>| contains(l, prefix@);
    let mut out: Vec<(String, [Option<i32>; 4])> = Vec::new();
    let mut k: usize = 0;
    while k < ranges.len()
        invariant
            all_bounds(cs@, ranges@, ls),
            ls == lines(response@),
            pc@ == prefix@,
            pred == (|l: Seq<char>| contains(l, prefix@)),
            k <= ranges@.len(),
            out@.len() == ls.take(k as int).filter(pred).len(),
            forall|j: int|
                0 <= j < out@.len() ==> {
                    let parts = #[trigger] metric_fields(ls.take(k as int).filter(pred)[j]);
                    &&& out@[j].0@ == row_technology(parts)
                    &&& forall|i: int|
                        0 <= i < 4 ==> out@[j].1@[i] == field_value(
                            parts,
                            i,
                            sentinel,
                            valid_min,
                            valid_max,
                        )
                },
        decreases ranges@.len() - k,
    {
        let (a, b) = ranges[k];
        assert(bounds(cs@, ranges@[k as int], ls[k as int]));
        let line = &cs.as_slice()[a..b];
        let ghost prev = ls.take(k as int).filter(pred);
        proof {
            assert(ls.take(k + 1) == ls.take(k as int).push(ls[k as int]));
            ls.take(k as int).lemma_filter_push(ls[k as int], pred);
        }
        if contains_seq(line, pc.as_slice()) {
            let (x, y) = after_colon_bounds(line);
            let data = &line[x..y];
            let parts = split_ranges(data, ',');
            let v0 = field_value_exec(data, &parts, 0, sentinel, valid_min, valid_max);
            let v1 = field_value_exec(data, &parts, 1, sentinel, valid_min, valid_max);
            let v2 = field_value_exec(data, &parts, 2, sentinel, valid_min, valid_max);
            let v3 = field_value_exec(data, &parts, 3, sentinel, valid_min, valid_max);
            let tech = if parts.len() > 4 {
                let (p, q) = parts[4];
                assert(bounds(data@, parts@[4], split(data@, ',')[4]));
                let f = &data[p..q];
                let (c, d) = trim_bounds(f);
                string_from_chars(&f[c..d])
            } else {
                string_from_chars(&data[0..0])
            };
            let vals = [v0, v1, v2, v3];
            proof {
                assert(pred(ls[k as int]));
                assert(ls.take(k + 1).filter(pred) == prev.push(ls[k as int]));
                assert(data@ == after_colon(ls[k as int]));
            }
            out.push((tech, vals));
            proof {
                let cur = ls.take(k + 1).filter(pred);
                assert forall|j: int| 0 <= j < out@.len() implies {
                    let parts = #[trigger] metric_fields(cur[j]);
                    &&& out@[j].0@ == row_technology(parts)
                    &&& forall|i: int|
                        0 <= i < 4 ==> out@[j].1@[i] == field_value(
                            parts,
                            i,
                            sentinel,
                            valid_min,
                            valid_max,
                        )
                } by {
                    if j < prev.len() {
                        assert(cur[j] == prev[j]);
                        assert(metric_fields(prev[j]) == metric_fields(cur[j]));
                    } else {
                        assert(cur[j] == ls[k as int]);
                        assert(out@[j] == (tech, vals));
                        assert(vals@ == seq![v0, v1, v2, v3]);
                    }
                }
            }
        } else {
            proof {
                assert(!pred(ls[k as int]));
                assert(ls.take(k + 1).filter(pred) == prev);
            }
        }
        k = k + 1;
    }
    proof {
        assert(ls.take(k as int) == ls);
    }
    out
}

/// The first line that contains `prefix`, if any.
pub open spec fn first_line_with(response: Seq<char>, prefix: Seq<char>) -> Option<Seq<char>> {
    first_some(lines(response), line_with_fn(prefix))
}

pub open spec fn line_with_fn(prefix: Seq<char>) -> spec_fn(Seq<char>) -> Option<Seq<char>> {
    |l: Seq<char>| if contains(l, prefix) {
        Some(l)
    } else {
        None
    }
}

/// Interleaved RSRP/RSRQ values of the first line containing `prefix`:
/// port `p` reads RSRP from field `2p` and RSRQ from field `2p + 1`.
pub open spec fn interleaved_values(
    response: Seq<char>,
    prefix: Seq<char>,
    sentinel: i32,
    rsrp_min: i32,
    rsrp_max: i32,
    rsrq_min: i32,
    rsrq_max: i32,
) -> (Seq<Option<i32>>, Seq<Option<i32>>) {
    match first_line_with(response, prefix) {
        Some(line) => {
            let parts = metric_fields(line);
            (
                Seq::new(4, |p: int| field_value(parts, 2 * p, sentinel, rsrp_min, rsrp_max)),
                Seq::new(4, |p: int| field_value(parts, 2 * p + 1, sentinel, rsrq_min, rsrq_max)),
            )
        },
        None => (Seq::new(4, |p: int| None), Seq::new(4, |p: int| None)),
    }
}

/// Parse an interleaved RSRP/RSRQ response (Telit `#LAPS:` / `#NRAPS:`).
pub fn parse_antenna_interleaved(
    response: &str,
    prefix: &str,
    sentinel: i32,
    rsrp_min: i32,
    rsrp_max: i32,
    rsrq_min: i32,
    rsrq_max: i32,
) -> (r: ([Option<i32>; 4], [Option<i32>; 4]))
    ensures
        (r.0@, r.1@) == interleaved_values(
            response@,
            prefix@,
            sentinel,
            rsrp_min,
            rsrp_max,
            rsrq_min,
            rsrq_max,
        ),
{
    let cs = chars_of(response);
    let pc = chars_of(prefix);
    let ranges = line_ranges(cs.as_slice());
    let ghost ls = lines(cs@);
    let ghost f = line_with_fn(prefix@);
    let mut k: usize = 0;
    while k < ranges.len()
        invariant
            all_bounds(cs@, ranges@, ls),
            ls == lines(response@),
            pc@ == prefix@,
            f == line_with_fn(prefix@),
            k <= ranges@.len(),
            forall|j: int| 0 <= j < k ==> f(#[trigger] ls[j]) is None,
        decreases ranges@.len() - k,
    {
        let (a, b) = ranges[k];
        assert(bounds(cs@, ranges@[k as int], ls[k as int]));
        let line = &cs.as_slice()[a..b];
        let hit = contains_seq(line, pc.as_slice());
        proof {
            lemma_first_some_at(ls, f, k as int);
        }
        if hit {
            let (x, y) = after_colon_bounds(line);
            let data = &line[x..y];
            let parts = split_ranges(data, ',');
            let p0 = field_value_exec(data, &parts, 0, sentinel, rsrp_min, rsrp_max);
            let q0 = field_value_exec(data, &parts, 1, sentinel, rsrq_min, rsrq_max);
            let p1 = field_value_exec(data, &parts, 2, sentinel, rsrp_min, rsrp_max);
            let q1 = field_value_exec(data, &parts, 3, sentinel, rsrq_min, rsrq_max);
            let p2 = field_value_exec(data, &parts, 4, sentinel, rsrp_min, rsrp_max);
            let q2 = field_value_exec(data, &parts, 5, sentinel, rsrq_min, rsrq_max);
            let p3 = field_value_exec(data, &parts, 6, sentinel, rsrp_min, rsrp_max);
            let q3 = field_value_exec(data, &parts, 7, sentinel, rsrq_min, rsrq_max);
            let rsrp = [p0, p1, p2, p3];
            let rsrq = [q0, q1, q2, q3];
            proof {
                assert(f(ls[k as int]) == Some(ls[k as int]));
                assert(data@ == after_colon(ls[k as int]));
                let iv = interleaved_values(
                    response@,
                    prefix@,
                    sentinel,
                    rsrp_min,
                    rsrp_max,
                    rsrq_min,
                    rsrq_max,
                );
                assert(rsrp@ =~= iv.0);
                assert(rsrq@ =~= iv.1);
            }
            return (rsrp, rsrq);
        }
        k = k + 1;
    }
    proof {
        lemma_first_some_skip(ls, f, k as int);
        assert(ls.skip(k as int).len() == 0);
        let iv = interleaved_values(response@, prefix@, sentinel, rsrp_min, rsrp_max, rsrq_min, rsrq_max);
        assert([None::<i32>, None, None, None]@ =~= iv.0);
        assert([None::<i32>, None, None, None]@ =~= iv.1);
    }
    ([None, None, None, None], [None, None, None, None])
}

/// Band name after the first mapping whose prefix starts the trimmed name.
pub open spec fn normalized_band(raw: Seq<char>, mappings: Seq<BandPrefixMapping>) -> Seq<char>
    decreases mappings.len(),
{
    let t = trim(raw);
    if mappings.len() == 0 {
        t
    } else if starts_with(t, mappings[0].prefix@) {
        mappings[0].replacement@ + t.skip(mappings[0].prefix@.len() as int)
    } else {
        normalized_band(raw, mappings.drop_first())
    }
}

proof fn lemma_normalized_band_skip(raw: Seq<char>, mappings: Seq<BandPrefixMapping>, i: int)
    requires
        0 <= i <= mappings.len(),
        forall|k: int| 0 <= k < i ==> !starts_with(trim(raw), #[trigger] mappings[k].prefix@),
    ensures
        normalized_band(raw, mappings) == normalized_band(raw, mappings.skip(i)),
    decreases i,
{
    if i > 0 {
        assert(!starts_with(trim(raw), mappings[0].prefix@));
        lemma_normalized_band_skip(raw, mappings.drop_first(), i - 1);
        assert(mappings.drop_first().skip(i - 1) == mappings.skip(i));
    } else {
        assert(mappings.skip(0) == mappings);
    }
}

/// Normalize a band name with prefix mappings; the first match wins
/// ("LTE BAND 7" becomes "B7" under `("LTE BAND ", "B")`).
pub fn normalize_band_name(raw: &str, mappings: &[BandPrefixMapping]) -> (r: String)
    ensures
        r@ == normalized_band(raw@, mappings@),
{
    let cs = chars_of(raw);
    let (a, b) = trim_bounds(cs.as_slice());
    let t = &cs.as_slice()[a..b];
    let mut i: usize = 0;
    while i < mappings.len()
        invariant
            t@ == trim(raw@),
            i <= mappings@.len(),
            forall|k: int| 0 <= k < i ==> !starts_with(trim(raw@), #[trigger] mappings@[k].prefix@),
        decreases mappings@.len() - i,
    {
        let m = &mappings[i];
        let p = chars_of(m.prefix.as_str());
        if has_prefix(t, p.as_slice()) {
            let mut out = chars_of(m.replacement.as_str());
            push_all(&mut out, &t[p.len()..t.len()]);
            proof {
                lemma_normalized_band_skip(raw@, mappings@, i as int);
                assert(mappings@.skip(i as int)[0] == mappings@[i as int]);
            }
            return string_from_chars(out.as_slice());
        }
        i = i + 1;
    }
    proof {
        lemma_normalized_band_skip(raw@, mappings@, i as int);
        assert(mappings@.skip(i as int).len() == 0);
    }
    string_from_chars(t)
}

/// Band name and technology of a Telit band class: 250+ is NR (`n`,
/// class minus 249), 120+ is LTE (`B`, class minus 119), anything else
/// is reported as `?<class>` with no technology.
pub open spec fn telit_band(band_class: u32) -> (Seq<char>, Option<Technology>) {
    if band_class >= 250 {
        (seq!['n'] + decimal((band_class - 249) as nat), Some(Technology::Gen5))
    } else if band_class >= 120 {
        (seq!['B'] + decimal((band_class - 119) as nat), Some(Technology::Gen4))
    } else {
        (seq!['?'] + decimal(band_class as nat), None)
    }
}

/// Convert a Telit band_class value to a band name and technology.
pub fn telit_band_class_to_name(band_class: u32) -> (r: (String, Option<Technology>))
    ensures
        (r.0@, r.1) == telit_band(band_class),
{
    let mut v: Vec<char> = Vec::new();
    let tech;
    if band_class >= 250 {
        v.push('n');
        push_decimal(&mut v, (band_class - 249) as u64);
        tech = Some(Technology::Gen5);
    } else if band_class >= 120 {
        v.push('B');
        push_decimal(&mut v, (band_class - 119) as u64);
        tech = Some(Technology::Gen4);
    } else {
        v.push('?');
        push_decimal(&mut v, band_class as u64);
        tech = None;
    }
    (string_from_chars(v.as_slice()), tech)
}

// ---------------------------------------------------------------------------
// Per-port readings
// ---------------------------------------------------------------------------

/// One antenna port's readings in whole dBm/dB, as the modem reports them:
/// RSRP and RSRQ are -999 and SINR 0 where the port gave none.
#[derive(Debug, Clone, PartialEq, Eq)]
pub struct PortReading {
    pub port: u32,
    pub rsrp: i32,
    pub rsrq: i32,
    pub sinr: i32,
    pub technology: Option<String>,
}

/// A port reading as values.
pub open spec fn reading_view(p: PortReading) -> (u32, i32, i32, i32, Option<Seq<char>>) {
    (
        p.port,
        p.rsrp,
        p.rsrq,
        p.sinr,
        opt_view(p.technology),
    )
}

pub open spec fn readings_view(ps: Seq<PortReading>) -> Seq<(u32, i32, i32, i32, Option<Seq<char>>)> {
    ps.map_values(|p: PortReading| reading_view(p))
}

/// Metric rows as values.
pub open spec fn rows_view(rows: Seq<(String, [Option<i32>; 4])>) -> Seq<(Seq<char>, Seq<Option<i32>>)> {
    rows.map_values(|r: (String, [Option<i32>; 4])| (r.0@, r.1@))
}

pub open spec fn unwrap_or(v: Option<i32>, d: i32) -> i32 {
    match v {
        Some(x) => x,
        None => d,
    }
}

/// The ports `0..n` of one row triple that have any value.
pub open spec fn ports_upto(
    rsrp: Seq<Option<i32>>,
    sinr: Seq<Option<i32>>,
    rsrq: Seq<Option<i32>>,
    tech: Option<Seq<char>>,
    n: nat,
) -> Seq<(u32, i32, i32, i32, Option<Seq<char>>)>
    decreases n,
{
    if n == 0 {
        Seq::empty()
    } else {
        let prev = ports_upto(rsrp, sinr, rsrq, tech, (n - 1) as nat);
        let i = n - 1;
        if rsrp[i] is Some || rsrq[i] is Some || sinr[i] is Some {
            prev.push((i as u32, unwrap_or(rsrp[i], -999i32), unwrap_or(rsrq[i], -999i32), unwrap_or(sinr[i], 0i32), tech))
        } else {
            prev
        }
    }
}

/// Four absent values.
pub open spec fn no_values() -> Seq<Option<i32>> {
    seq![None, None, None, None]
}

/// The values of the first row, or none.
pub open spec fn first_row(rows: Seq<(Seq<char>, Seq<Option<i32>>)>) -> Seq<Option<i32>> {
    if rows.len() > 0 {
        rows[0].1
    } else {
        no_values()
    }
}

/// Whether row `i` is tagged `tech`.
pub open spec fn tagged(rows: Seq<(Seq<char>, Seq<Option<i32>>)>, tech: Seq<char>) -> spec_fn(int) -> bool {
    |i: int| rows[i].0 == tech
}

/// The values of the first row tagged `tech`, or none.
pub open spec fn row_for(rows: Seq<(Seq<char>, Seq<Option<i32>>)>, tech: Seq<char>) -> Seq<Option<i32>> {
    match first_index(rows.len() as int, tagged(rows, tech)) {
        Some(i) => rows[i].1,
        None => no_values(),
    }
}

/// The non-empty technology tags, in order of first appearance, each once.
pub open spec fn techs_of(rows: Seq<(Seq<char>, Seq<Option<i32>>)>) -> Seq<Seq<char>>
    decreases rows.len(),
{
    if rows.len() == 0 {
        Seq::empty()
    } else {
        let prev = techs_of(rows.drop_last());
        let t = rows.last().0;
        if t.len() > 0 && !prev.contains(t) {
            prev.push(t)
        } else {
            prev
        }
    }
}

/// The ports of each technology in turn, numbered from 0 within it.
pub open spec fn ports_by_tech(
    rsrp: Seq<(Seq<char>, Seq<Option<i32>>)>,
    sinr: Seq<(Seq<char>, Seq<Option<i32>>)>,
    rsrq: Seq<(Seq<char>, Seq<Option<i32>>)>,
    techs: Seq<Seq<char>>,
) -> Seq<(u32, i32, i32, i32, Option<Seq<char>>)>
    decreases techs.len(),
{
    if techs.len() == 0 {
        Seq::empty()
    } else {
        let t = techs.last();
        ports_by_tech(rsrp, sinr, rsrq, techs.drop_last()) + ports_upto(
            row_for(rsrp, t),
            row_for(sinr, t),
            row_for(rsrq, t),
            Some(t),
            4,
        )
    }
}

/// The per-port readings of the RSRP, SINR and RSRQ rows: without any
/// technology tag, the first row of each; otherwise, for each tag in order
/// of first appearance, the first row of each with that tag.
pub open spec fn port_readings(
    rsrp: Seq<(Seq<char>, Seq<Option<i32>>)>,
    sinr: Seq<(Seq<char>, Seq<Option<i32>>)>,
    rsrq: Seq<(Seq<char>, Seq<Option<i32>>)>,
) -> Seq<(u32, i32, i32, i32, Option<Seq<char>>)> {
    let techs = techs_of(rsrp + sinr + rsrq);
    if techs.len() == 0 {
        ports_upto(first_row(rsrp), first_row(sinr), first_row(rsrq), None, 4)
    } else {
        ports_by_tech(rsrp, sinr, rsrq, techs)
    }
}

fn push_ports(
    out: &mut Vec<PortReading>,
    rsrp: &[Option<i32>; 4],
    sinr: &[Option<i32>; 4],
    rsrq: &[Option<i32>; 4],
    tech: &Option<String>,
)
    ensures
        readings_view(final(out)@) == readings_view(old(out)@) + ports_upto(
            rsrp@,
            sinr@,
            rsrq@,
            opt_view(*tech),
            4,
        ),
{
    let ghost tv = opt_view(*tech);
    let ghost start = readings_view(out@);
    let mut i: usize = 0;
    assert(start + ports_upto(rsrp@, sinr@, rsrq@, tv, 0) =~= start);
    while i < 4
        invariant
            i <= 4,
            tv == opt_view(*tech),
            readings_view(out@) == start + ports_upto(rsrp@, sinr@, rsrq@, tv, i as nat),
        decreases 4 - i,
    {
        let a = rsrp[i];
        let b = rsrq[i];
        let c = sinr[i];
        if a.is_some() || b.is_some() || c.is_some() {
            let ghost before = readings_view(out@);
            let p = PortReading {
                port: i as u32,
                rsrp: match a {
                    Some(x) => x,
                    None => -999,
                },
                rsrq: match b {
                    Some(x) => x,
                    None => -999,
                },
                sinr: match c {
                    Some(x) => x,
                    None => 0,
                },
                technology: tech.clone(),
            };
            assert(reading_view(p).4 == tv);
            out.push(p);
            assert(readings_view(out@) =~= before.push(reading_view(p)));
        }
        i = i + 1;
    }
}

fn first_row_of(rows: &Vec<(String, [Option<i32>; 4])>) -> (r: [Option<i32>; 4])
    ensures
        r@ == first_row(rows_view(rows@)),
{
    if rows.len() > 0 {
        rows[0].1
    } else {
        let r = [None, None, None, None];
        assert(r@ =~= no_values());
        r
    }
}

fn row_for_of(rows: &Vec<(String, [Option<i32>; 4])>, tech: &String) -> (r: [Option<i32>; 4])
    ensures
        r@ == row_for(rows_view(rows@), tech@),
{
    let ghost rv = rows_view(rows@);
    let ghost f = tagged(rv, tech@);
    let mut i: usize = 0;
    while i < rows.len()
        invariant
            i <= rows@.len(),
            rv == rows_view(rows@),
            f == tagged(rv, tech@),
            forall|k: int| 0 <= k < i ==> !#[trigger] f(k),
        decreases rows@.len() - i,
    {
        if rows[i].0 == *tech {
            proof {
                assert(f(i as int));
                lemma_first_index(rv.len() as int, f, i as int);
            }
            return rows[i].1;
        }
        assert(!f(i as int));
        i = i + 1;
    }
    proof {
        lemma_first_index_none(rv.len() as int, f);
    }
    let r = [None, None, None, None];
    assert(r@ =~= no_values());
    r
}

fn contains_tech(v: &Vec<String>, x: &String) -> (b: bool)
    ensures
        b == v@.map_values(|s: String| s@).contains(x@),
{
    let ghost vv = v@.map_values(|s: String| s@);
    let mut i: usize = 0;
    while i < v.len()
        invariant
            i <= v@.len(),
            vv == v@.map_values(|s: String| s@),
            forall|k: int| 0 <= k < i ==> vv[k] != x@,
        decreases v@.len() - i,
    {
        if v[i] == *x {
            assert(vv[i as int] == x@);
            return true;
        }
        i = i + 1;
    }
    false
}

fn collect_techs(techs: &mut Vec<String>, rows: &Vec<(String, [Option<i32>; 4])>)
    ensures
        final(techs)@.map_values(|s: String| s@) == techs_of_from(
            old(techs)@.map_values(|s: String| s@),
            rows_view(rows@),
        ),
{
    let ghost start = techs@.map_values(|s: String| s@);
    let ghost rv = rows_view(rows@);
    let mut i: usize = 0;
    assert(rv.take(0) =~= Seq::<(Seq<char>, Seq<Option<i32>>)>::empty());
    while i < rows.len()
        invariant
            i <= rows@.len(),
            rv == rows_view(rows@),
            techs@.map_values(|s: String| s@) == techs_of_from(start, rv.take(i as int)),
        decreases rows@.len() - i,
    {
        proof {
            assert(rv.take(i + 1).drop_last() == rv.take(i as int));
            assert(rv.take(i + 1).last() == rv[i as int]);
        }
        let t = &rows[i].0;
        if !t.as_str().is_empty() && !contains_tech(techs, t) {
            let ghost before = techs@.map_values(|s: String| s@);
            techs.push(t.clone());
            assert(techs@.map_values(|s: String| s@) =~= before.push(t@));
        }
        i = i + 1;
    }
    assert(rv.take(i as int) == rv);
}

/// `techs_of` continued from the tags `acc` already seen.
pub open spec fn techs_of_from(acc: Seq<Seq<char>>, rows: Seq<(Seq<char>, Seq<Option<i32>>)>) -> Seq<Seq<char>>
    decreases rows.len(),
{
    if rows.len() == 0 {
        acc
    } else {
        let prev = techs_of_from(acc, rows.drop_last());
        let t = rows.last().0;
        if t.len() > 0 && !prev.contains(t) {
            prev.push(t)
        } else {
            prev
        }
    }
}

proof fn lemma_techs_of_from(a: Seq<(Seq<char>, Seq<Option<i32>>)>, b: Seq<(Seq<char>, Seq<Option<i32>>)>)
    ensures
        techs_of(a + b) == techs_of_from(techs_of(a), b),
    decreases b.len(),
{
    if b.len() == 0 {
        assert(a + b =~= a);
    } else {
        lemma_techs_of_from(a, b.drop_last());
        assert((a + b).drop_last() =~= a + b.drop_last());
        assert((a + b).last() == b.last());
    }
}

proof fn lemma_techs_of_empty(rows: Seq<(Seq<char>, Seq<Option<i32>>)>)
    ensures
        techs_of(rows) == techs_of_from(Seq::empty(), rows),
{
    lemma_techs_of_from(Seq::empty(), rows);
    assert(Seq::<(Seq<char>, Seq<Option<i32>>)>::empty() + rows =~= rows);
}

/// The per-port readings of the rows of the RSRP, SINR and RSRQ commands
/// (each a [`parse_antenna_metric_multi`] result): without technology tags,
/// the first row of each, one reading per port that has any value; with
/// tags, the same for each tag in order of first appearance, using the
/// first row with that tag, ports numbered from 0 within each tag.
pub fn antenna_ports(
    rsrp_rows: &Vec<(String, [Option<i32>; 4])>,
    sinr_rows: &Vec<(String, [Option<i32>; 4])>,
    rsrq_rows: &Vec<(String, [Option<i32>; 4])>,
) -> (r: Vec<PortReading>)
    ensures
        readings_view(r@) == port_readings(rows_view(rsrp_rows@), rows_view(sinr_rows@), rows_view(rsrq_rows@)),
{
    let ghost a = rows_view(rsrp_rows@);
    let ghost b = rows_view(sinr_rows@);
    let ghost c = rows_view(rsrq_rows@);
    let mut techs: Vec<String> = Vec::new();
    assert(techs@.map_values(|s: String| s@) =~= Seq::<Seq<char>>::empty());
    collect_techs(&mut techs, rsrp_rows);
    collect_techs(&mut techs, sinr_rows);
    collect_techs(&mut techs, rsrq_rows);
    proof {
        lemma_techs_of_empty(a);
        lemma_techs_of_from(a, b);
        lemma_techs_of_from(a + b, c);
    }
    let ghost tv = techs@.map_values(|s: String| s@);
    assert(tv == techs_of(a + b + c));
    let mut out: Vec<PortReading> = Vec::new();
    assert(readings_view(out@) =~= Seq::<(u32, i32, i32, i32, Option<Seq<char>>)>::empty());
    if techs.len() == 0 {
        let x = first_row_of(rsrp_rows);
        let y = first_row_of(sinr_rows);
        let z = first_row_of(rsrq_rows);
        push_ports(&mut out, &x, &y, &z, &None);
        assert(readings_view(out@) =~= ports_upto(first_row(a), first_row(b), first_row(c), None, 4));
        return out;
    }
    let mut k: usize = 0;
    assert(tv.take(0) =~= Seq::<Seq<char>>::empty());
    while k < techs.len()
        invariant
            k <= techs@.len(),
            tv == techs@.map_values(|s: String| s@),
            a == rows_view(rsrp_rows@),
            b == rows_view(sinr_rows@),
            c == rows_view(rsrq_rows@),
            readings_view(out@) == ports_by_tech(a, b, c, tv.take(k as int)),
        decreases techs@.len() - k,
    {
        proof {
            assert(tv.take(k + 1).drop_last() == tv.take(k as int));
            assert(tv.take(k + 1).last() == tv[k as int]);
            assert(tv[k as int] == techs@[k as int]@);
        }
        let t = &techs[k];
        let x = row_for_of(rsrp_rows, t);
        let y = row_for_of(sinr_rows, t);
        let z = row_for_of(rsrq_rows, t);
        push_ports(&mut out, &x, &y, &z, &Some(t.clone()));
        k = k + 1;
    }
    assert(tv.take(k as int) == tv);
    out
}

/// The per-port readings of an interleaved RSRP/RSRQ reply (no SINR, no
/// technology tag): one reading per port that has either value.
pub fn interleaved_ports(rsrp: &[Option<i32>; 4], rsrq: &[Option<i32>; 4]) -> (r: Vec<PortReading>)
    ensures
        readings_view(r@) == ports_upto(rsrp@, no_values(), rsrq@, None, 4),
{
    let mut out: Vec<PortReading> = Vec::new();
    let none = [None, None, None, None];
    assert(none@ =~= no_values());
    push_ports(&mut out, rsrp, &none, rsrq, &None);
    assert(readings_view(out@) =~= ports_upto(rsrp@, no_values(), rsrq@, None, 4));
    out
}

} // verus!
