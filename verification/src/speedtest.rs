//! Speedtest rules that need no network: payload size labels, ISP and
//! city lookups, the TCP statistics of a `Server-Timing` header value, and
//! the bounded history of results.

use vstd::prelude::*;
use std::collections::VecDeque;
use crate::text::{
    all_bounds, bounds, chars_of, decimal, first_index, find, lemma_first_index,
    lemma_first_index_none, occurs_at, parse_u64, parse_u64_chars, push_all, push_decimal, split,
    split_ranges, starts_with, str_eq, string_from_chars, trim, trim_bounds, has_prefix,
};
use crate::types::{SpeedtestMode, TcpStats};

verus! {

/// The label of a payload size.
pub open spec fn size_label(bytes: u64) -> Seq<char> {
    if bytes >= 50_000_000 {
        "50MB"@
    } else if bytes >= 25_000_000 {
        "25MB"@
    } else if bytes >= 10_000_000 {
        "10MB"@
    } else if bytes >= 1_000_000 {
        "1MB"@
    } else if bytes >= 100_000 {
        "100KB"@
    } else {
        decimal(bytes as nat) + seq!['B']
    }
}

/// Formats a byte count as a human-readable size label.
pub fn format_size_label(bytes: u64) -> (r: String)
    ensures
        r@ == size_label(bytes),
{
    if bytes >= 50_000_000 {
        "50MB".to_string()
    } else if bytes >= 25_000_000 {
        "25MB".to_string()
    } else if bytes >= 10_000_000 {
        "10MB".to_string()
    } else if bytes >= 1_000_000 {
        "1MB".to_string()
    } else if bytes >= 100_000 {
        "100KB".to_string()
    } else {
        let mut v: Vec<char> = Vec::new();
        push_decimal(&mut v, bytes);
        v.push('B');
        string_from_chars(v.as_slice())
    }
}

/// The ISP name of a major US autonomous system number.
pub open spec fn asn_name(asn: u32) -> Seq<char> {
    if asn == 7018 {
        "AT&T"@
    } else if asn == 7922 || asn == 33491 || asn == 33650 || asn == 33651 || asn == 33652 || asn == 33668 {
        "Comcast"@
    } else if asn == 701 || asn == 702 || asn == 22394 {
        "Verizon"@
    } else if asn == 20001 || asn == 20115 {
        "Charter/Spectrum"@
    } else if asn == 7843 || asn == 33363 {
        "Cox"@
    } else if asn == 10796 {
        "CenturyLink/Lumen"@
    } else if asn == 5650 || asn == 6939 {
        "Frontier"@
    } else if asn == 22773 || asn == 3356 {
        "Lumen/Level3"@
    } else if asn == 21928 {
        "T-Mobile"@
    } else if asn == 5730 || asn == 14593 {
        "Windstream"@
    } else if asn == 11427 || asn == 20214 {
        "TWC/Spectrum"@
    } else if asn == 6167 {
        "Verizon Business"@
    } else if asn == 174 {
        "Cogent"@
    } else if asn == 6461 {
        "Zayo"@
    } else {
        "Unknown"@
    }
}

/// Looks up the ISP name of an autonomous system number ("Unknown" when not
/// in the table).
pub fn asn_to_name(asn: u32) -> (r: &'static str)
    ensures
        r@ == asn_name(asn),
{
    match asn {
        7018 => "AT&T",
        7922 | 33491 | 33650 | 33651 | 33652 | 33668 => "Comcast",
        701 | 702 | 22394 => "Verizon",
        20001 | 20115 => "Charter/Spectrum",
        7843 | 33363 => "Cox",
        10796 => "CenturyLink/Lumen",
        5650 | 6939 => "Frontier",
        22773 | 3356 => "Lumen/Level3",
        21928 => "T-Mobile",
        5730 | 14593 => "Windstream",
        11427 | 20214 => "TWC/Spectrum",
        6167 => "Verizon Business",
        174 => "Cogent",
        6461 => "Zayo",
        _ => "Unknown",
    }
}

/// The city of a Cloudflare point of presence, if the table knows it.
pub open spec fn colo_city(iata: Seq<char>) -> Option<Seq<char>> {
    if iata == "ATL"@ {
        Some("Atlanta, GA"@)
    } else if iata == "BOS"@ {
        Some("Boston, MA"@)
    } else if iata == "BUF"@ {
        Some("Buffalo, NY"@)
    } else if iata == "CLT"@ {
        Some("Charlotte, NC"@)
    } else if iata == "CMH"@ {
        Some("Columbus, OH"@)
    } else if iata == "DEN"@ {
        Some("Denver, CO"@)
    } else if iata == "DFW"@ {
        Some("Dallas, TX"@)
    } else if iata == "DTW"@ {
        Some("Detroit, MI"@)
    } else if iata == "EWR"@ {
        Some("Newark, NJ"@)
    } else if iata == "IAD"@ {
        Some("Ashburn, VA"@)
    } else if iata == "IAH"@ {
        Some("Houston, TX"@)
    } else if iata == "IND"@ {
        Some("Indianapolis, IN"@)
    } else if iata == "JAX"@ {
        Some("Jacksonville, FL"@)
    } else if iata == "JFK"@ {
        Some("New York, NY"@)
    } else if iata == "LAS"@ {
        Some("Las Vegas, NV"@)
    } else if iata == "LAX"@ {
        Some("Los Angeles, CA"@)
    } else if iata == "MCI"@ {
        Some("Kansas City, MO"@)
    } else if iata == "MEM"@ {
        Some("Memphis, TN"@)
    } else if iata == "MIA"@ {
        Some("Miami, FL"@)
    } else if iata == "MSP"@ {
        Some("Minneapolis, MN"@)
    } else if iata == "ORD"@ {
        Some("Chicago, IL"@)
    } else if iata == "PDX"@ {
        Some("Portland, OR"@)
    } else if iata == "PHL"@ {
        Some("Philadelphia, PA"@)
    } else if iata == "PHX"@ {
        Some("Phoenix, AZ"@)
    } else if iata == "PIT"@ {
        Some("Pittsburgh, PA"@)
    } else if iata == "SAN"@ {
        Some("San Diego, CA"@)
    } else if iata == "SEA"@ {
        Some("Seattle, WA"@)
    } else if iata == "SFO"@ {
        Some("San Francisco, CA"@)
    } else if iata == "SJC"@ {
        Some("San Jose, CA"@)
    } else if iata == "SLC"@ {
        Some("Salt Lake City, UT"@)
    } else if iata == "STL"@ {
        Some("St. Louis, MO"@)
    } else if iata == "TPA"@ {
        Some("Tampa, FL"@)
    } else {
        None
    }
}

/// The city of a Cloudflare point of presence by its IATA code; an unknown
/// code is returned as is.
pub fn colo_to_city(iata: &str) -> (r: &str)
    ensures
        match colo_city(iata@) {
            Some(c) => r@ == c,
            None => r@ == iata@,
        },
{
    if str_eq(iata, "ATL") {
        "Atlanta, GA"
    } else if str_eq(iata, "BOS") {
        "Boston, MA"
    } else if str_eq(iata, "BUF") {
        "Buffalo, NY"
    } else if str_eq(iata, "CLT") {
        "Charlotte, NC"
    } else if str_eq(iata, "CMH") {
        "Columbus, OH"
    } else if str_eq(iata, "DEN") {
        "Denver, CO"
    } else if str_eq(iata, "DFW") {
        "Dallas, TX"
    } else if str_eq(iata, "DTW") {
        "Detroit, MI"
    } else if str_eq(iata, "EWR") {
        "Newark, NJ"
    } else if str_eq(iata, "IAD") {
        "Ashburn, VA"
    } else if str_eq(iata, "IAH") {
        "Houston, TX"
    } else if str_eq(iata, "IND") {
        "Indianapolis, IN"
    } else if str_eq(iata, "JAX") {
        "Jacksonville, FL"
    } else if str_eq(iata, "JFK") {
        "New York, NY"
    } else if str_eq(iata, "LAS") {
        "Las Vegas, NV"
    } else if str_eq(iata, "LAX") {
        "Los Angeles, CA"
    } else if str_eq(iata, "MCI") {
        "Kansas City, MO"
    } else if str_eq(iata, "MEM") {
        "Memphis, TN"
    } else if str_eq(iata, "MIA") {
        "Miami, FL"
    } else if str_eq(iata, "MSP") {
        "Minneapolis, MN"
    } else if str_eq(iata, "ORD") {
        "Chicago, IL"
    } else if str_eq(iata, "PDX") {
        "Portland, OR"
    } else if str_eq(iata, "PHL") {
        "Philadelphia, PA"
    } else if str_eq(iata, "PHX") {
        "Phoenix, AZ"
    } else if str_eq(iata, "PIT") {
        "Pittsburgh, PA"
    } else if str_eq(iata, "SAN") {
        "San Diego, CA"
    } else if str_eq(iata, "SEA") {
        "Seattle, WA"
    } else if str_eq(iata, "SFO") {
        "San Francisco, CA"
    } else if str_eq(iata, "SJC") {
        "San Jose, CA"
    } else if str_eq(iata, "SLC") {
        "Salt Lake City, UT"
    } else if str_eq(iata, "STL") {
        "St. Louis, MO"
    } else if str_eq(iata, "TPA") {
        "Tampa, FL"
    } else {
        iata
    }
}

// ---------------------------------------------------------------------------
// Server-Timing TCP statistics
// ---------------------------------------------------------------------------

/// `s` without its leading '?' characters.
pub open spec fn skip_question_marks(s: Seq<char>) -> Seq<char>
    decreases s.len(),
{
    if s.len() > 0 && s[0] == '?' {
        skip_question_marks(s.drop_first())
    } else {
        s
    }
}

/// Position `i` of `s` holds `c`.
pub open spec fn char_at(s: Seq<char>, c: char) -> spec_fn(int) -> bool {
    |i: int| s[i] == c
}

/// The position of the first `c` in `s`, if any.
pub open spec fn char_position(s: Seq<char>, c: char) -> Option<int> {
    first_index(s.len() as int, char_at(s, c))
}

/// Section `i` of `secs`, trimmed, starts with `cfL4`.
pub open spec fn cfl4_at(secs: Seq<Seq<char>>) -> spec_fn(int) -> bool {
    |i: int| starts_with(trim(secs[i]), "cfL4"@)
}

/// The statistics of a `desc` value: its `name=value` pairs after any
/// leading '?'.
pub open spec fn desc_tcp_stats(desc: Seq<char>) -> TcpStats {
    let pairs = split(skip_question_marks(desc), '&');
    TcpStats {
        rtt_us: param_number(pairs, "rtt"@),
        min_rtt_us: param_number(pairs, "min_rtt"@),
        lost: param_number(pairs, "lost"@),
        retrans: param_number(pairs, "retrans"@),
        cwnd: param_number(pairs, "cwnd"@),
        delivery_rate_bps: param_number(pairs, "delivery_rate"@),
    }
}

/// The value of `key` among `name=value` pairs: the last pair with that name
/// wins; pieces without '=' are ignored.
pub open spec fn param_value(pairs: Seq<Seq<char>>, key: Seq<char>) -> Option<Seq<char>>
    decreases pairs.len(),
{
    if pairs.len() == 0 {
        None
    } else if pair_has_key(pairs.last(), key) {
        Some(pairs.last().skip(char_position(pairs.last(), '=').unwrap() + 1))
    } else {
        param_value(pairs.drop_last(), key)
    }
}

/// A `name=value` piece whose name is `key`.
pub open spec fn pair_has_key(p: Seq<char>, key: Seq<char>) -> bool {
    char_position(p, '=') is Some && p.take(char_position(p, '=').unwrap()) == key
}

/// A parameter read as a number, 0 when absent or not a number.
pub open spec fn param_number(pairs: Seq<Seq<char>>, key: Seq<char>) -> u64 {
    match param_value(pairs, key) {
        Some(v) => match parse_u64(v) {
            Some(n) => n,
            None => 0,
        },
        None => 0,
    }
}

/// The `desc="..."` value of a `cfL4` section.
pub open spec fn section_desc(sec: Seq<char>) -> Option<Seq<char>> {
    let m = "desc=\""@;
    if exists|i: int| occurs_at(sec, m, i) {
        let start = choose|i: int| occurs_at(sec, m, i) && forall|j: int| 0 <= j < i ==> !occurs_at(sec, m, j);
        let rest = sec.skip(start + 6);
        match char_position(rest, '"') {
            Some(e) => Some(rest.take(e)),
            None => None,
        }
    } else {
        None
    }
}

/// The TCP statistics a `Server-Timing` header value carries in its `cfL4`
/// section (`desc="?proto=TCP&rtt=...&delivery_rate=..."`).
pub open spec fn server_timing_tcp(header: Seq<char>) -> Option<TcpStats> {
    let sections = split(header, ',');
    match first_index(sections.len() as int, cfl4_at(sections)) {
        Some(k) => match section_desc(sections[k]) {
            Some(desc) => Some(desc_tcp_stats(desc)),
            None => None,
        },
        None => None,
    }
}

fn char_position_exec(s: &[char], c: char) -> (r: Option<usize>)
    ensures
        match char_position(s@, c) {
            Some(i) => r matches Some(j) && j == i,
            None => r is None,
        },
        r matches Some(j) ==> j < s@.len() && s@[j as int] == c,
{
    let ghost p = char_at(s@, c);
    let mut i: usize = 0;
    while i < s.len()
        invariant
            i <= s@.len(),
            p == char_at(s@, c),
            forall|k: int| 0 <= k < i ==> !#[trigger] p(k),
        decreases s@.len() - i,
    {
        if s[i] == c {
            proof {
                lemma_first_index(s@.len() as int, p, i as int);
            }
            return Some(i);
        }
        i = i + 1;
    }
    proof {
        lemma_first_index_none(s@.len() as int, p);
    }
    None
}

/// The number of parameter `key` (see [`param_number`]).
#[verifier::spinoff_prover]
fn param_number_exec(desc: &[char], ranges: &Vec<(usize, usize)>, key: &str) -> (r: u64)
    requires
        all_bounds(desc@, ranges@, split(desc@, '&')),
    ensures
        r == param_number(split(desc@, '&'), key@),
{
    let ghost pairs = split(desc@, '&');
    let k = chars_of(key);
    let mut i: usize = ranges.len();
    assert(pairs.take(i as int) == pairs);
    while i > 0
        invariant
            i <= ranges@.len(),
            pairs == split(desc@, '&'),
            all_bounds(desc@, ranges@, pairs),
            k@ == key@,
            param_value(pairs, key@) == param_value(pairs.take(i as int), key@),
        decreases i,
    {
        let (a, e) = ranges[i - 1];
        assert(bounds(desc@, ranges@[i - 1], pairs[i - 1]));
        let p = &desc[a..e];
        let ghost t = pairs.take(i as int);
        assert(t.last() == p@);
        assert(t.drop_last() == pairs.take(i - 1));
        match char_position_exec(p, '=') {
            Some(eq) => {
                if crate::text::slice_eq(&p[0..eq], k.as_slice()) {
                    assert(p@.take(eq as int) == p@.subrange(0, eq as int));
                    let v = &p[eq + 1..p.len()];
                    assert(v@ == p@.skip(eq + 1));
                    return match parse_u64_chars(v) {
                        Some(n) => n,
                        None => 0,
                    };
                }
            },
            None => {},
        }
        i = i - 1;
    }
    assert(pairs.take(0).len() == 0);
    0
}

/// Reads the TCP statistics of the `cfL4` section of a `Server-Timing`
/// header value: `rtt`, `min_rtt`, `lost`, `retrans`, `cwnd` and
/// `delivery_rate`, each 0 when absent or not a number.
pub fn parse_server_timing_tcp(header: &str) -> (r: Option<TcpStats>)
    ensures
        r == server_timing_tcp(header@),
{
    let h = chars_of(header);
    let sections = split_ranges(h.as_slice(), ',');
    let ghost secs = split(h@, ',');
    let ghost is_cfl4 = cfl4_at(secs);
    let tag = chars_of("cfL4");
    let mut k: usize = 0;
    while k < sections.len()
        invariant
            k <= sections@.len(),
            secs == split(h@, ','),
            h@ == header@,
            all_bounds(h@, sections@, secs),
            is_cfl4 == cfl4_at(secs),
            tag@ == "cfL4"@,
            forall|j: int| 0 <= j < k ==> !#[trigger] is_cfl4(j),
        decreases sections@.len() - k,
    {
        let (a, e) = sections[k];
        assert(bounds(h@, sections@[k as int], secs[k as int]));
        let sec = &h.as_slice()[a..e];
        let (ta, te) = trim_bounds(sec);
        if has_prefix(&sec[ta..te], tag.as_slice()) {
            proof {
                lemma_first_index(secs.len() as int, is_cfl4, k as int);
            }
            return desc_stats(sec);
        }
        k = k + 1;
    }
    proof {
        lemma_first_index_none(secs.len() as int, is_cfl4);
    }
    None
}

#[verifier::spinoff_prover]
fn desc_stats(sec: &[char]) -> (r: Option<TcpStats>)
    ensures
        r == (match section_desc(sec@) {
            Some(desc) => Some(desc_tcp_stats(desc)),
            None => None,
        }),
{
    let marker = chars_of("desc=\"");
    proof {
        reveal_strlit("desc=\"");
        assert(marker@.len() == 6);
    }
    let start = match find(sec, marker.as_slice()) {
        Some(i) => i,
        None => return None,
    };
    proof {
        let f = choose|i: int| occurs_at(sec@, marker@, i) && forall|j: int| 0 <= j < i ==> !occurs_at(sec@, marker@, j);
        assert(occurs_at(sec@, marker@, start as int));
        if f < start {
            assert(!occurs_at(sec@, marker@, f));
        } else if start < f {
            assert(!occurs_at(sec@, marker@, start as int));
        }
    }
    let n = sec.len();
    assert(start + 6 <= n);
    let rest = &sec[start + 6..n];
    assert(rest@ == sec@.skip(start + 6));
    let end = match char_position_exec(rest, '"') {
        Some(e) => e,
        None => return None,
    };
    let desc = &rest[0..end];
    assert(desc@ == rest@.take(end as int));
    Some(stats_from_desc(desc))
}

fn stats_from_desc(desc: &[char]) -> (r: TcpStats)
    ensures
        r == desc_tcp_stats(desc@),
{
    let mut q: usize = 0;
    assert(desc@.skip(0) == desc@);
    while q < desc.len() && desc[q] == '?'
        invariant
            q <= desc@.len(),
            skip_question_marks(desc@) == skip_question_marks(desc@.skip(q as int)),
        decreases desc@.len() - q,
    {
        assert(desc@.skip(q as int).drop_first() == desc@.skip(q + 1));
        q = q + 1;
    }
    let body = &desc[q..desc.len()];
    assert(body@ == desc@.skip(q as int));
    assert(skip_question_marks(body@) == body@);
    let ranges = split_ranges(body, '&');
    TcpStats {
        rtt_us: param_number_exec(body, &ranges, "rtt"),
        min_rtt_us: param_number_exec(body, &ranges, "min_rtt"),
        lost: param_number_exec(body, &ranges, "lost"),
        retrans: param_number_exec(body, &ranges, "retrans"),
        cwnd: param_number_exec(body, &ranges, "cwnd"),
        delivery_rate_bps: param_number_exec(body, &ranges, "delivery_rate"),
    }
}

// ---------------------------------------------------------------------------
// Measurement steps
// ---------------------------------------------------------------------------

/// One step of a progressive measurement: `request_count` transfers of
/// `payload_bytes` each.
#[derive(Debug, Clone, Copy)]
pub struct MeasurementStep {
    pub payload_bytes: u64,
    pub request_count: usize,
}

/// The bytes a sequence of steps transfers in all.
pub open spec fn steps_bytes(steps: Seq<MeasurementStep>) -> int
    decreases steps.len(),
{
    if steps.len() == 0 {
        0
    } else {
        steps_bytes(steps.drop_last()) + steps.last().payload_bytes * steps.last().request_count
    }
}

proof fn lemma_steps_bytes_monotone(steps: Seq<MeasurementStep>, i: int)
    requires
        0 <= i <= steps.len(),
    ensures
        0 <= steps_bytes(steps.take(i)) <= steps_bytes(steps),
    decreases steps.len(),
{
    if steps.len() > 0 {
        let last = steps.last();
        assert(last.payload_bytes * last.request_count >= 0) by (nonlinear_arith);
        if i < steps.len() {
            assert(steps.drop_last().take(i) == steps.take(i));
            lemma_steps_bytes_monotone(steps.drop_last(), i);
        } else {
            assert(steps.take(i) == steps);
            lemma_steps_bytes_monotone(steps.drop_last(), i - 1);
            assert(steps.drop_last().take(i - 1) == steps.drop_last());
        }
    }
}

/// The total bytes that a list of measurement steps transfers (the sum of
/// `payload_bytes * request_count`).
pub fn total_step_bytes(steps: &[MeasurementStep]) -> (r: u64)
    requires
        steps_bytes(steps@) <= u64::MAX,
    ensures
        r == steps_bytes(steps@),
{
    let mut total: u64 = 0;
    let mut i: usize = 0;
    assert(steps@.take(0) == Seq::<MeasurementStep>::empty());
    while i < steps.len()
        invariant
            i <= steps@.len(),
            steps_bytes(steps@) <= u64::MAX,
            total == steps_bytes(steps@.take(i as int)),
        decreases steps@.len() - i,
    {
        let s = steps[i];
        proof {
            assert(steps@.take(i + 1).drop_last() == steps@.take(i as int));
            assert(steps@.take(i + 1).last() == s);
            lemma_steps_bytes_monotone(steps@, i + 1);
            assert(s.payload_bytes * s.request_count >= 0) by (nonlinear_arith);
        }
        let n = s.request_count as u64;
        assert(s.payload_bytes * n <= u64::MAX);
        total = total + s.payload_bytes * n;
        i = i + 1;
    }
    assert(steps@.take(i as int) == steps@);
    total
}

// ---------------------------------------------------------------------------
// Test configuration
// ---------------------------------------------------------------------------

/// How a speedtest mode measures: probe count, the progressive download and
/// upload steps, which extra metrics it gathers, and its thresholds in whole
/// milliseconds.
#[derive(Debug, Clone)]
pub struct TestConfig {
    pub latency_probes: usize,
    pub download_steps: Vec<MeasurementStep>,
    pub upload_steps: Vec<MeasurementStep>,
    pub warmup: bool,
    pub measure_loaded_latency: bool,
    pub collect_metadata: bool,
    pub calculate_aim: bool,
    pub parse_tcp_stats: bool,
    pub collect_breakdown: bool,
    pub early_termination_ms: Option<u64>,
    pub min_request_duration_ms: u64,
}

/// A measurement step as a value.
pub open spec fn step(payload_bytes: u64, request_count: usize) -> MeasurementStep {
    MeasurementStep { payload_bytes, request_count }
}

/// The latency probes a mode sends.
pub open spec fn probe_count(mode: SpeedtestMode) -> usize {
    match mode {
        SpeedtestMode::Quick => 5,
        SpeedtestMode::Medium => 10,
        SpeedtestMode::Full => 20,
    }
}

/// The download steps of a mode, smallest payload first.
pub open spec fn download_plan(mode: SpeedtestMode) -> Seq<MeasurementStep> {
    match mode {
        SpeedtestMode::Quick => seq![step(100_000, 3), step(1_000_000, 3)],
        SpeedtestMode::Medium => seq![step(100_000, 5), step(1_000_000, 5), step(10_000_000, 3)],
        SpeedtestMode::Full => seq![
            step(100_000, 9),
            step(1_000_000, 8),
            step(10_000_000, 6),
            step(25_000_000, 4),
        ],
    }
}

/// The upload steps of a mode, smallest payload first.
pub open spec fn upload_plan(mode: SpeedtestMode) -> Seq<MeasurementStep> {
    match mode {
        SpeedtestMode::Quick => seq![step(100_000, 3), step(1_000_000, 2)],
        SpeedtestMode::Medium => seq![step(100_000, 5), step(1_000_000, 4), step(10_000_000, 4)],
        SpeedtestMode::Full => seq![
            step(100_000, 8),
            step(1_000_000, 6),
            step(10_000_000, 4),
            step(25_000_000, 4),
        ],
    }
}

/// The elapsed time after which a mode stops stepping up large payloads.
pub open spec fn early_termination(mode: SpeedtestMode) -> u64 {
    match mode {
        SpeedtestMode::Medium => 3000,
        _ => 1000,
    }
}

/// `c` is the configuration of `mode`: Quick probes little and gathers no
/// extra metrics, Medium adds loaded latency, metadata and quality scores,
/// Full adds a warmup, TCP statistics and per-size breakdowns.
pub open spec fn configures(c: TestConfig, mode: SpeedtestMode) -> bool {
    &&& c.latency_probes == probe_count(mode)
    &&& c.download_steps@ == download_plan(mode)
    &&& c.upload_steps@ == upload_plan(mode)
    &&& c.warmup == (mode == SpeedtestMode::Full)
    &&& c.measure_loaded_latency == (mode != SpeedtestMode::Quick)
    &&& c.collect_metadata == (mode != SpeedtestMode::Quick)
    &&& c.calculate_aim == (mode != SpeedtestMode::Quick)
    &&& c.parse_tcp_stats == (mode == SpeedtestMode::Full)
    &&& c.collect_breakdown == (mode == SpeedtestMode::Full)
    &&& c.early_termination_ms == Some(early_termination(mode))
    &&& c.min_request_duration_ms == 0
}

fn steps_of(sizes: [(u64, usize); 4], n: usize) -> (v: Vec<MeasurementStep>)
    requires
        n <= 4,
    ensures
        v@.len() == n,
        forall|i: int| 0 <= i < n ==> #[trigger] v@[i] == step(sizes[i].0, sizes[i].1),
{
    let mut v: Vec<MeasurementStep> = Vec::new();
    let mut i: usize = 0;
    while i < n
        invariant
            i <= n <= 4,
            v@.len() == i,
            forall|k: int| 0 <= k < i ==> #[trigger] v@[k] == step(sizes[k].0, sizes[k].1),
        decreases n - i,
    {
        let (payload_bytes, request_count) = sizes[i];
        v.push(MeasurementStep { payload_bytes, request_count });
        i = i + 1;
    }
    v
}

impl TestConfig {
    /// Quick mode: a fast probe without extra metrics (3.3 MB down, 2.3 MB
    /// up).
    pub fn quick() -> (c: Self)
        ensures
            configures(c, SpeedtestMode::Quick),
    {
        let download_steps = steps_of([(100_000, 3), (1_000_000, 3), (0, 0), (0, 0)], 2);
        let upload_steps = steps_of([(100_000, 3), (1_000_000, 2), (0, 0), (0, 0)], 2);
        assert(download_steps@ == download_plan(SpeedtestMode::Quick));
        assert(upload_steps@ == upload_plan(SpeedtestMode::Quick));
        TestConfig {
            latency_probes: 5,
            download_steps,
            upload_steps,
            warmup: false,
            measure_loaded_latency: false,
            collect_metadata: false,
            calculate_aim: false,
            parse_tcp_stats: false,
            collect_breakdown: false,
            early_termination_ms: Some(1000),
            min_request_duration_ms: 0,
        }
    }

    /// Medium mode (80 MB: 35.5 MB down, 44.5 MB up): moderate testing with
    /// quality scores.
    pub fn medium() -> (c: Self)
        ensures
            configures(c, SpeedtestMode::Medium),
            steps_bytes(c.download_steps@) + steps_bytes(c.upload_steps@) == 80_000_000,
    {
        proof {
            crate::laws::law_planned_bytes(SpeedtestMode::Medium);
        }
        let download_steps = steps_of(
            [(100_000, 5), (1_000_000, 5), (10_000_000, 3), (0, 0)],
            3,
        );
        let upload_steps = steps_of([(100_000, 5), (1_000_000, 4), (10_000_000, 4), (0, 0)], 3);
        assert(download_steps@ == download_plan(SpeedtestMode::Medium));
        assert(upload_steps@ == upload_plan(SpeedtestMode::Medium));
        TestConfig {
            latency_probes: 10,
            download_steps,
            upload_steps,
            warmup: false,
            measure_loaded_latency: true,
            collect_metadata: true,
            calculate_aim: true,
            parse_tcp_stats: false,
            collect_breakdown: false,
            early_termination_ms: Some(3000),
            min_request_duration_ms: 0,
        }
    }

    /// Full mode: loaded latency, TCP statistics and breakdowns as well.
    pub fn full() -> (c: Self)
        ensures
            configures(c, SpeedtestMode::Full),
    {
        let download_steps = steps_of(
            [(100_000, 9), (1_000_000, 8), (10_000_000, 6), (25_000_000, 4)],
            4,
        );
        let upload_steps = steps_of(
            [(100_000, 8), (1_000_000, 6), (10_000_000, 4), (25_000_000, 4)],
            4,
        );
        assert(download_steps@ == download_plan(SpeedtestMode::Full));
        assert(upload_steps@ == upload_plan(SpeedtestMode::Full));
        TestConfig {
            latency_probes: 20,
            download_steps,
            upload_steps,
            warmup: true,
            measure_loaded_latency: true,
            collect_metadata: true,
            calculate_aim: true,
            parse_tcp_stats: true,
            collect_breakdown: true,
            early_termination_ms: Some(1000),
            min_request_duration_ms: 0,
        }
    }

    /// The configuration of a mode.
    pub fn for_mode(mode: SpeedtestMode) -> (c: Self)
        ensures
            configures(c, mode),
    {
        match mode {
            SpeedtestMode::Quick => Self::quick(),
            SpeedtestMode::Medium => Self::medium(),
            SpeedtestMode::Full => Self::full(),
        }
    }

    /// The bytes all download steps transfer.
    pub fn total_download_bytes(&self) -> (r: u64)
        requires
            steps_bytes(self.download_steps@) <= u64::MAX,
        ensures
            r == steps_bytes(self.download_steps@),
    {
        total_step_bytes(self.download_steps.as_slice())
    }

    /// The bytes all upload steps transfer.
    pub fn total_upload_bytes(&self) -> (r: u64)
        requires
            steps_bytes(self.upload_steps@) <= u64::MAX,
        ensures
            r == steps_bytes(self.upload_steps@),
    {
        total_step_bytes(self.upload_steps.as_slice())
    }
}

// ---------------------------------------------------------------------------
// Transfer schedule
// ---------------------------------------------------------------------------

/// `n` copies of `x`.
pub open spec fn repeat(x: u64, n: nat) -> Seq<u64> {
    Seq::new(n, |i: int| x)
}

/// The payload of each transfer of a phase, in order: every step's payload
/// once per request, steps in order.
pub open spec fn schedule(steps: Seq<MeasurementStep>) -> Seq<u64>
    decreases steps.len(),
{
    if steps.len() == 0 {
        Seq::empty()
    } else {
        schedule(steps.drop_last()) + repeat(steps.last().payload_bytes, steps.last().request_count as nat)
    }
}

/// The transfers of a phase, in the order they are made: each step's
/// payload repeated `request_count` times.
pub fn transfer_schedule(steps: &[MeasurementStep]) -> (r: Vec<u64>)
    ensures
        r@ == schedule(steps@),
{
    let mut out: Vec<u64> = Vec::new();
    let mut i: usize = 0;
    assert(steps@.take(0) == Seq::<MeasurementStep>::empty());
    while i < steps.len()
        invariant
            i <= steps@.len(),
            out@ == schedule(steps@.take(i as int)),
        decreases steps@.len() - i,
    {
        let step = steps[i];
        let ghost before = out@;
        let mut k: usize = 0;
        while k < step.request_count
            invariant
                k <= step.request_count,
                out@ == before + repeat(step.payload_bytes, k as nat),
            decreases step.request_count - k,
        {
            out.push(step.payload_bytes);
            assert(before + repeat(step.payload_bytes, (k + 1) as nat) == (before + repeat(
                step.payload_bytes,
                k as nat,
            )).push(step.payload_bytes));
            k = k + 1;
        }
        assert(steps@.take(i + 1).drop_last() == steps@.take(i as int));
        assert(steps@.take(i + 1).last() == step);
        i = i + 1;
    }
    assert(steps@.take(i as int) == steps@);
    out
}

/// The largest body a single upload request carries (2 MiB).
pub const UPLOAD_CHUNK_LIMIT: u64 = 2_097_152;

/// How an upload of `payload_bytes` goes out: `(count, size)` of its
/// requests. A payload above the limit is cut into limit-sized requests, as
/// many as it takes to cover it; a smaller one is sent whole.
pub fn upload_chunks(payload_bytes: u64) -> (r: (u64, u64))
    ensures
        payload_bytes <= UPLOAD_CHUNK_LIMIT ==> r == (1u64, payload_bytes),
        payload_bytes > UPLOAD_CHUNK_LIMIT ==> r.0 == (payload_bytes + UPLOAD_CHUNK_LIMIT - 1)
            / (UPLOAD_CHUNK_LIMIT as int) && r.1 == UPLOAD_CHUNK_LIMIT,
{
    if payload_bytes > UPLOAD_CHUNK_LIMIT {
        let whole = payload_bytes / UPLOAD_CHUNK_LIMIT;
        let count = if payload_bytes % UPLOAD_CHUNK_LIMIT == 0 {
            whole
        } else {
            whole + 1
        };
        assert(count == (payload_bytes + UPLOAD_CHUNK_LIMIT - 1) / (UPLOAD_CHUNK_LIMIT as int)) by (nonlinear_arith)
            requires
                whole == payload_bytes / UPLOAD_CHUNK_LIMIT,
                count == (if payload_bytes % UPLOAD_CHUNK_LIMIT == 0 { whole as int } else { whole + 1 }),
        ;
        (count, UPLOAD_CHUNK_LIMIT)
    } else {
        (1, payload_bytes)
    }
}

// ---------------------------------------------------------------------------
// History
// ---------------------------------------------------------------------------

/// The number of results the history keeps.
pub const MAX_HISTORY: usize = 50;

/// The results of past speedtests, oldest first.
pub struct SpeedtestHistory<T> {
    pub results: VecDeque<T>,
}

impl<T> SpeedtestHistory<T> {
    /// An empty history.
    pub fn new() -> (h: Self)
        ensures
            h.results@.len() == 0,
    {
        SpeedtestHistory { results: VecDeque::new() }
    }

    /// Appends a result, evicting the oldest one when the history is full.
    pub fn push(&mut self, result: T)
        ensures
            final(self).results@ == (if old(self).results@.len() >= MAX_HISTORY {
                old(self).results@.drop_first()
            } else {
                old(self).results@
            }).push(result),
    {
        if self.results.len() >= MAX_HISTORY {
            let _evicted = self.results.pop_front();
            assert(old(self).results@.subrange(1, old(self).results@.len() as int) == old(self).results@.drop_first());
        }
        self.results.push_back(result);
    }
}

} // verus!
