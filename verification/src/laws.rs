//! Properties that hold across the library's operations.

use vstd::prelude::*;
use vstd::utf8::{encode_utf8_valid_utf8, is_char_boundary, valid_utf8};
use crate::at_channel::{
    control_char, control_or_quote, first_at, first_byte_where, frame_step, is_ascii_control,
    is_terminal, is_urc, reopen_step, run_command, AtExchangeError, FramingView, ReopenStep,
};
use crate::at_status::{on_interface, preferred_ports, probe_order, with_rest};
use crate::detection::{insert_sorted, seq_le, sort_seqs, tty_pass, TtyFacts};
use crate::text::{starts_with, trim_start};
use crate::diagnostics::{ascii_upper, boundary_at_most, kept_bytes, redact_line, redacted, trim_end_cr};
use crate::fingerprint::{globally_unique_mac, primary_mac};
use crate::hardware::HardwareError;
use crate::registry::{distinct_ids, has_match, id_at, same_ids, lookup, matches_ids, profile_id_of, query_id, without_ids, other_ids};
use crate::builtin::is_generic_modem;
use crate::profiles::ModemProfile;
use crate::text::{
    first_index, lemma_first_index_some, contains, hex_value, is_ws, lemma_hex_value_leading_zero, lemma_trim_no_ws, parse_hex_u32, trim,
};
use crate::speedtest::{download_plan, repeat, schedule, step, steps_bytes, upload_plan, MeasurementStep, MAX_HISTORY};
use crate::usbnet::decided_mode;
use crate::types::{SpeedtestMode, UsbNetMode};

verus! {

// ---------------------------------------------------------------------------
// Profile matching
// ---------------------------------------------------------------------------

/// A leading zero does not change a USB ID: sysfs may print "122" where a
/// profile says "0122", and both read as the same number.
pub proof fn law_usb_id_leading_zero(s: Seq<char>)
    requires
        s.len() > 0,
        s[0] != '+',
    ensures
        parse_hex_u32(seq!['0'] + s) == parse_hex_u32(s),
{
    lemma_hex_value_leading_zero(s);
    assert((seq!['0'] + s)[0] == '0');
}

proof fn lemma_hex_no_ws(s: Seq<char>)
    requires
        hex_value(s) is Some,
    ensures
        forall|i: int| 0 <= i < s.len() ==> !is_ws(#[trigger] s[i]),
    decreases s.len(),
{
    if s.len() > 0 {
        lemma_hex_no_ws(s.drop_last());
        assert forall|i: int| 0 <= i < s.len() implies !is_ws(#[trigger] s[i]) by {
            if i < s.len() - 1 {
                assert(s[i] == s.drop_last()[i]);
            }
        }
    }
}

/// A USB ID that parses has no surrounding whitespace, so querying with the
/// profile's own ID string reads the same number the profile has.
pub proof fn law_query_own_id(s: Seq<char>)
    requires
        parse_hex_u32(s) is Some,
    ensures
        query_id(s) == parse_hex_u32(s).unwrap(),
{
    let digits = if s.len() > 0 && s[0] == '+' {
        s.drop_first()
    } else {
        s
    };
    lemma_hex_no_ws(digits);
    assert forall|i: int| 0 <= i < s.len() implies !is_ws(#[trigger] s[i]) by {
        if s.len() > 0 && s[0] == '+' {
            if i > 0 {
                assert(s[i] == digits[i - 1]);
            }
        } else {
            assert(s[i] == digits[i]);
        }
    }
    lemma_trim_no_ws(s);
}

/// After an override is added, querying with its own USB IDs never falls
/// back to the generic profile: some profile (the override at the latest)
/// matches.
pub proof fn law_override_is_matched(ps: Seq<ModemProfile>, p: ModemProfile)
    requires
        parse_hex_u32(p.identity.vendor_id@) is Some,
        parse_hex_u32(p.identity.product_id@) is Some,
    ensures
        has_match(
            without_ids(ps, p.identity.vendor_id@, p.identity.product_id@).push(p),
            query_id(p.identity.vendor_id@),
            query_id(p.identity.product_id@),
        ),
{
    law_query_own_id(p.identity.vendor_id@);
    law_query_own_id(p.identity.product_id@);
    let l = without_ids(ps, p.identity.vendor_id@, p.identity.product_id@).push(p);
    assert(l[l.len() - 1] == p);
    assert(matches_ids(l[l.len() - 1], query_id(p.identity.vendor_id@), query_id(p.identity.product_id@)));
}

/// After an override is added, it is the only profile carrying its exact
/// vendor and product ID strings.
pub proof fn law_override_replaces(ps: Seq<ModemProfile>, p: ModemProfile, i: int)
    requires
        0 <= i < without_ids(ps, p.identity.vendor_id@, p.identity.product_id@).len(),
    ensures
        !(without_ids(ps, p.identity.vendor_id@, p.identity.product_id@)[i].identity.vendor_id@
            == p.identity.vendor_id@ && without_ids(
            ps,
            p.identity.vendor_id@,
            p.identity.product_id@,
        )[i].identity.product_id@ == p.identity.product_id@),
{
    let f = other_ids(p.identity.vendor_id@, p.identity.product_id@);
    ps.lemma_filter_pred(f, i);
}

// ---------------------------------------------------------------------------
// AT channel
// ---------------------------------------------------------------------------

/// Once the port has been reopened during a command, no outcome asks for
/// another reopen.
pub proof fn law_no_second_reopen(outcome: Result<String, AtExchangeError>)
    ensures
        reopen_step(true, outcome) is Finish,
{
}

/// A command run reopens the port at most once, whatever the exchanges
/// report.
pub proof fn law_reopen_at_most_once(
    outcomes: Seq<Result<String, AtExchangeError>>,
    opens: Seq<Result<(), HardwareError>>,
)
    ensures
        run_command(false, outcomes, opens) matches Some((_, n)) ==> n <= 1,
{
    if outcomes.len() > 0 && reopen_step(false, outcomes[0]) is Reopen && opens.len() > 0
        && opens[0] is Ok {
        let rest = outcomes.drop_first();
        let opens2 = opens.drop_first();
        if rest.len() > 0 {
            law_no_second_reopen(rest[0]);
            assert(run_command(true, rest, opens2) matches Some((_, n)) && n == 0);
        } else {
            assert(run_command(true, rest, opens2) is None);
        }
    }
}

/// A rejected command is never retried and never reopens the port.
pub proof fn law_rejected_not_retried(reopened: bool, m: String)
    ensures
        reopen_step(reopened, Err(AtExchangeError::Rejected(m))) == ReopenStep::Finish(
            Err(HardwareError::CommandRejected(m)),
        ),
{
}

/// When the guard finds nothing, the command has no control character, so
/// the single `\r` appended is the only one on the wire.
pub proof fn law_clean_command_has_no_control(cmd: Seq<char>)
    requires
        first_byte_where(cmd, control_char()) is None,
    ensures
        forall|i: int| 0 <= i < cmd.len() ==> !is_ascii_control(#[trigger] cmd[i]),
{
    assert forall|i: int| 0 <= i < cmd.len() implies !is_ascii_control(#[trigger] cmd[i]) by {
        if is_ascii_control(cmd[i]) {
            lemma_some_first(cmd, control_char(), i);
        }
    }
}

/// A value accepted for a quoted AT argument holds no double quote and no
/// control character.
pub proof fn law_accepted_quoted_arg(value: Seq<char>)
    requires
        first_byte_where(value, control_or_quote()) is None,
    ensures
        forall|i: int| 0 <= i < value.len() ==> !is_ascii_control(#[trigger] value[i]) && value[i]
            != '"',
{
    assert forall|i: int| 0 <= i < value.len() implies !is_ascii_control(#[trigger] value[i])
        && value[i] != '"' by {
        if is_ascii_control(value[i]) || value[i] == '"' {
            lemma_some_first(value, control_or_quote(), i);
        }
    }
}

proof fn lemma_some_first(s: Seq<char>, bad: spec_fn(char) -> bool, i: int)
    requires
        0 <= i < s.len(),
        bad(s[i]),
    ensures
        exists|j: int| first_at(s, bad, j),
    decreases i,
{
    if exists|k: int| 0 <= k < i && bad(s[k]) {
        let k = choose|k: int| 0 <= k < i && bad(s[k]);
        lemma_some_first(s, bad, k);
    } else {
        assert(first_at(s, bad, i));
    }
}

/// A line from a known URC family that is not the command's own response
/// family never enters the response.
pub proof fn law_urc_never_captured(v: FramingView, line: Seq<char>)
    requires
        trim(line) != v.echo || v.echo_seen,
        is_urc(trim(line), v.expected),
    ensures
        frame_step(v, line).0.response == v.response,
        !frame_step(v, line).1,
{
}

/// A line of the command's own response family is never filtered as a URC.
pub proof fn law_own_family_kept(line: Seq<char>, e: Seq<char>)
    requires
        crate::text::starts_with(line, e),
    ensures
        !is_urc(line, Some(e)),
{
}

/// When a line completes the response, it is a terminal line and it is the
/// last thing appended.
pub proof fn law_completion_is_terminal(v: FramingView, line: Seq<char>)
    requires
        frame_step(v, line).1,
    ensures
        is_terminal(trim(line)),
        frame_step(v, line).0.response == v.response + line,
{
}

/// Our command's echo is not part of the response.
pub proof fn law_echo_stripped(v: FramingView, line: Seq<char>)
    requires
        !v.echo_seen,
        trim(line) == v.echo,
    ensures
        frame_step(v, line).0.response == v.response,
        frame_step(v, line).0.echo_seen,
        !frame_step(v, line).1,
{
}

/// After stale carryover was seen before our echo, a terminal line before
/// the echo belongs to the earlier exchange and does not end ours.
pub proof fn law_stale_terminal_discarded(v: FramingView, line: Seq<char>)
    requires
        !v.echo_seen,
        v.pre_echo_noise,
        trim(line) != v.echo,
        is_terminal(trim(line)),
    ensures
        !frame_step(v, line).1,
        frame_step(v, line).0.response == v.response,
{
}

/// Once the echo has been seen it stays seen.
pub proof fn law_echo_seen_stays(v: FramingView, line: Seq<char>)
    requires
        v.echo_seen,
    ensures
        frame_step(v, line).0.echo_seen,
{
}

// ---------------------------------------------------------------------------
// Diagnostics
// ---------------------------------------------------------------------------

proof fn lemma_boundary_at_most(bytes: Seq<u8>, max: int)
    requires
        valid_utf8(bytes),
    ensures
        0 <= boundary_at_most(bytes, max),
        max >= 0 ==> boundary_at_most(bytes, max) <= max,
        is_char_boundary(bytes, boundary_at_most(bytes, max)),
    decreases max,
{
    if max > 0 && !is_char_boundary(bytes, max) {
        lemma_boundary_at_most(bytes, max - 1);
    }
}

/// Truncation keeps the whole string when it fits; otherwise it keeps at
/// most `max` bytes and cuts on a character boundary.
pub proof fn law_truncation_bounds(s: Seq<char>, max: int)
    requires
        max >= 0,
    ensures
        kept_bytes(vstd::utf8::encode_utf8(s), max) <= max || kept_bytes(
            vstd::utf8::encode_utf8(s),
            max,
        ) == vstd::utf8::encode_utf8(s).len(),
        is_char_boundary(vstd::utf8::encode_utf8(s), kept_bytes(vstd::utf8::encode_utf8(s), max)),
{
    let b = vstd::utf8::encode_utf8(s);
    encode_utf8_valid_utf8(s);
    lemma_boundary_at_most(b, max);
    vstd::utf8::is_char_boundary_start_end_of_seq(b);
}

/// Text without a QICSGP marker passes through redaction unchanged.
pub proof fn law_redaction_passthrough(input: Seq<char>)
    requires
        !contains(ascii_upper(input), "AT+QICSGP"@),
        !contains(ascii_upper(input), "+QICSGP:"@),
    ensures
        redacted(input) == input,
{
}

/// A line without a QICSGP marker is left as it is.
pub proof fn law_redaction_keeps_other_lines(line: Seq<char>)
    requires
        !contains(ascii_upper(trim_end_cr(line)), "AT+QICSGP="@),
        !contains(ascii_upper(trim_end_cr(line)), "+QICSGP:"@),
    ensures
        redact_line(line) == line,
{
    let u = ascii_upper(trim_end_cr(line));
    let k = lemma_trim_start_suffix(u);
    if starts_with(trim_start(u), "+QICSGP:"@) {
        assert(u.subrange(k, k + "+QICSGP:"@.len()) == trim_start(u).take("+QICSGP:"@.len() as int));
        assert(crate::text::occurs_at(u, "+QICSGP:"@, k));
    }
}

/// `trim_start` drops a prefix: the trimmed text is a suffix of the input.
proof fn lemma_trim_start_suffix(s: Seq<char>) -> (k: int)
    ensures
        0 <= k <= s.len(),
        trim_start(s) == s.skip(k),
    decreases s.len(),
{
    if s.len() > 0 && crate::text::is_ws(s[0]) {
        let j = lemma_trim_start_suffix(s.drop_first());
        assert(s.drop_first().skip(j) == s.skip(j + 1));
        j + 1
    } else {
        assert(s.skip(0) == s);
        0
    }
}

// ---------------------------------------------------------------------------
// Fingerprint
// ---------------------------------------------------------------------------

/// The primary MAC is globally unique, unless it is the final `br-lan`
/// fallback.
pub proof fn law_primary_mac_unique_or_fallback(
    br_lan: Option<Seq<char>>,
    eth0: Option<Seq<char>>,
    wifi: Seq<(Seq<char>, Seq<char>)>,
    permanent: Seq<(Seq<char>, Seq<char>)>,
)
    ensures
        primary_mac(br_lan, eth0, wifi, permanent) matches Some((label, mac)) ==> globally_unique_mac(
            mac,
        ) || (label == "br-lan"@ && br_lan == Some(mac)),
{
    if !(br_lan is Some && globally_unique_mac(br_lan.unwrap())) && !(eth0 is Some
        && globally_unique_mac(eth0.unwrap())) {
        if exists|i: int| 0 <= i < wifi.len() && globally_unique_mac(#[trigger] wifi[i].1) {
            let w = choose|i: int| 0 <= i < wifi.len() && globally_unique_mac(#[trigger] wifi[i].1);
            lemma_first_mac(wifi, w);
        } else if exists|i: int| 0 <= i < permanent.len() && globally_unique_mac(#[trigger] permanent[i].1) {
            let w = choose|i: int|
                0 <= i < permanent.len() && globally_unique_mac(#[trigger] permanent[i].1);
            lemma_first_mac(permanent, w);
        }
    }
}

proof fn lemma_first_mac(s: Seq<(Seq<char>, Seq<char>)>, w: int)
    requires
        0 <= w < s.len(),
        globally_unique_mac(s[w].1),
    ensures
        exists|i: int|
            0 <= i < s.len() && globally_unique_mac(s[i].1) && forall|k: int|
                0 <= k < i ==> !globally_unique_mac(#[trigger] s[k].1),
    decreases w,
{
    if exists|k: int| 0 <= k < w && globally_unique_mac(#[trigger] s[k].1) {
        let k = choose|k: int| 0 <= k < w && globally_unique_mac(#[trigger] s[k].1);
        lemma_first_mac(s, k);
    } else {
        assert(0 <= w < s.len() && globally_unique_mac(s[w].1) && forall|k: int|
            0 <= k < w ==> !globally_unique_mac(#[trigger] s[k].1));
    }
}

// ---------------------------------------------------------------------------
// USB-net mode
// ---------------------------------------------------------------------------

/// The kernel's reading wins whenever there is one; otherwise the AT
/// reading stands.
pub proof fn law_kernel_wins(at_mode: UsbNetMode, kernel_mode: Option<UsbNetMode>)
    ensures
        kernel_mode matches Some(k) ==> decided_mode(at_mode, kernel_mode) == k,
        kernel_mode is None ==> decided_mode(at_mode, kernel_mode) == at_mode,
{
}

// ---------------------------------------------------------------------------
// Modem detection
// ---------------------------------------------------------------------------

/// A bus-port that the QMI pass already reported is not reported again by
/// the ttyUSB scan: every modem the scan reports sits on a bus-port outside
/// `found`.
pub proof fn law_found_bus_ports_skipped(
    ps: Seq<ModemProfile>,
    g: ModemProfile,
    ts: Seq<TtyFacts>,
    keys: Seq<Seq<char>>,
    found: Seq<Seq<char>>,
)
    ensures
        forall|i: int|
            0 <= i < tty_pass(ps, g, ts, keys, found).len() ==> ((#[trigger] tty_pass(ps, g, ts, keys, found)[i]).bus_port
                matches Some(b) && !found.contains(b)),
    decreases keys.len(),
{
    if keys.len() > 0 {
        law_found_bus_ports_skipped(ps, g, ts, keys.drop_last(), found);
    }
}

// ---------------------------------------------------------------------------
// AT port re-detection
// ---------------------------------------------------------------------------

proof fn lemma_with_rest(acc: Seq<Seq<char>>, cands: Seq<Seq<char>>)
    ensures
        forall|x: Seq<char>| #[trigger] with_rest(acc, cands).contains(x) <==> (acc.contains(x) || cands.contains(x)),
        acc.no_duplicates() ==> with_rest(acc, cands).no_duplicates(),
    decreases cands.len(),
{
    if cands.len() > 0 {
        let prev = with_rest(acc, cands.drop_last());
        lemma_with_rest(acc, cands.drop_last());
        assert forall|x: Seq<char>| #[trigger] with_rest(acc, cands).contains(x) <==> (acc.contains(x) || cands.contains(x)) by {
            if cands.contains(x) && !cands.drop_last().contains(x) {
                let k = choose|k: int| 0 <= k < cands.len() && cands[k] == x;
                if k < cands.len() - 1 {
                    assert(cands.drop_last()[k] == x);
                }
                assert(x == cands.last());
            }
            if cands.drop_last().contains(x) {
                let k = choose|k: int| 0 <= k < cands.drop_last().len() && cands.drop_last()[k] == x;
                assert(cands[k] == x);
            }
            if !prev.contains(cands.last()) {
                if prev.push(cands.last()).contains(x) && x != cands.last() {
                    let k = choose|k: int| 0 <= k < prev.push(cands.last()).len() && prev.push(cands.last())[k] == x;
                    assert(prev[k] == x);
                }
                if prev.contains(x) {
                    let k = choose|k: int| 0 <= k < prev.len() && prev[k] == x;
                    assert(prev.push(cands.last())[k] == x);
                }
                assert(prev.push(cands.last())[prev.len() as int] == cands.last());
            }
        }
    }
}

proof fn lemma_push_fresh(prev: Seq<Seq<char>>, y: Seq<char>, all: Seq<Seq<char>>)
    requires
        prev.no_duplicates(),
        !prev.contains(y),
        all.contains(y),
        forall|x: Seq<char>| #[trigger] prev.contains(x) ==> all.contains(x),
    ensures
        prev.push(y).no_duplicates(),
        forall|x: Seq<char>| #[trigger] prev.push(y).contains(x) ==> all.contains(x),
{
    let next = prev.push(y);
    assert forall|x: Seq<char>| #[trigger] next.contains(x) implies all.contains(x) by {
        let k = choose|k: int| 0 <= k < next.len() && next[k] == x;
        if k < prev.len() {
            assert(prev[k] == x);
            assert(prev.contains(x));
        } else {
            assert(x == y);
        }
    }
    assert forall|a: int, b: int| 0 <= a < next.len() && 0 <= b < next.len() && a != b implies next[a] != next[b] by {
        if a < prev.len() && b < prev.len() {
            assert(next[a] == prev[a] && next[b] == prev[b]);
        } else if a < prev.len() {
            assert(next[a] == prev[a]);
        } else if b < prev.len() {
            assert(next[b] == prev[b]);
        }
    }
}

proof fn lemma_first_index_bounds(n: int, f: spec_fn(int) -> bool)
    ensures
        first_index(n, f) matches Some(i) ==> 0 <= i < n,
{
    if first_index(n, f) is Some {
        let w = choose|j: int| 0 <= j < n && #[trigger] f(j);
        lemma_first_index_some(n, f, w);
    }
}

proof fn lemma_preferred_ports(cands: Seq<Seq<char>>, ifs: Seq<Option<u32>>, prefs: Seq<u32>)
    ensures
        forall|x: Seq<char>| #[trigger] preferred_ports(cands, ifs, prefs).contains(x) ==> cands.contains(x),
        preferred_ports(cands, ifs, prefs).no_duplicates(),
    decreases prefs.len(),
{
    if prefs.len() > 0 {
        let prev = preferred_ports(cands, ifs, prefs.drop_last());
        lemma_preferred_ports(cands, ifs, prefs.drop_last());
        let f = on_interface(ifs, prefs.last());
        lemma_first_index_bounds(cands.len() as int, f);
        match first_index(cands.len() as int, f) {
            Some(i) => {
                if !prev.contains(cands[i]) {
                    assert(cands.contains(cands[i]));
                    lemma_push_fresh(prev, cands[i], cands);
                }
            },
            None => {},
        }
    }
}

/// Re-detection probes every candidate port of the bus-port, each exactly
/// once, and nothing else, whatever the interface preferences are.
pub proof fn law_probe_order_complete(cands: Seq<Seq<char>>, ifs: Seq<Option<u32>>, prefs: Seq<u32>)
    ensures
        forall|x: Seq<char>| #[trigger] probe_order(cands, ifs, prefs).contains(x) <==> cands.contains(x),
        probe_order(cands, ifs, prefs).no_duplicates(),
{
    lemma_preferred_ports(cands, ifs, prefs);
    lemma_with_rest(preferred_ports(cands, ifs, prefs), cands);
}

// ---------------------------------------------------------------------------
// Speedtest history
// ---------------------------------------------------------------------------

/// The history never holds more than `MAX_HISTORY` results, and a push
/// always keeps the newest result last.
pub proof fn law_history_bounded<T>(before: Seq<T>, result: T, after: Seq<T>)
    requires
        before.len() <= MAX_HISTORY,
        after == (if before.len() >= MAX_HISTORY {
            before.drop_first()
        } else {
            before
        }).push(result),
    ensures
        after.len() <= MAX_HISTORY,
        after.last() == result,
        before.len() < MAX_HISTORY ==> after.len() == before.len() + 1,
{
}

// ---------------------------------------------------------------------------
// Speedtest plans
// ---------------------------------------------------------------------------

/// A payload size the measurement endpoint serves: below 11 MB, or from
/// 20 MB up to below 100 MB.
pub open spec fn payload_allowed(bytes: u64) -> bool {
    (bytes < 11_000_000 || bytes >= 20_000_000) && bytes < 100_000_000
}

/// No mode asks the endpoint for a payload in a range it refuses, in either
/// direction.
pub proof fn law_planned_payloads_allowed(mode: SpeedtestMode)
    ensures
        forall|i: int|
            0 <= i < download_plan(mode).len() ==> payload_allowed(
                #[trigger] download_plan(mode)[i].payload_bytes,
            ),
        forall|i: int|
            0 <= i < upload_plan(mode).len() ==> payload_allowed(
                #[trigger] upload_plan(mode)[i].payload_bytes,
            ),
{
}

/// What each mode transfers in all: Quick 3.3 MB down and 2.3 MB up, Medium
/// 35.5 MB and 44.5 MB (80 MB in all), Full 168.9 MB and 146.8 MB; so each total fits in
/// a `u64`.
pub proof fn law_planned_bytes(mode: SpeedtestMode)
    ensures
        mode == SpeedtestMode::Quick ==> steps_bytes(download_plan(mode)) == 3_300_000
            && steps_bytes(upload_plan(mode)) == 2_300_000,
        mode == SpeedtestMode::Medium ==> steps_bytes(download_plan(mode)) == 35_500_000
            && steps_bytes(upload_plan(mode)) == 44_500_000,
        mode == SpeedtestMode::Full ==> steps_bytes(download_plan(mode)) == 168_900_000
            && steps_bytes(upload_plan(mode)) == 146_800_000,
{
    match mode {
        SpeedtestMode::Quick => lemma_quick_bytes(),
        SpeedtestMode::Medium => lemma_medium_bytes(),
        SpeedtestMode::Full => lemma_full_bytes(),
    }
}

proof fn lemma_quick_bytes()
    ensures
        steps_bytes(download_plan(SpeedtestMode::Quick)) == 3_300_000,
        steps_bytes(upload_plan(SpeedtestMode::Quick)) == 2_300_000,
{
    let d = download_plan(SpeedtestMode::Quick);
    let u = upload_plan(SpeedtestMode::Quick);
    lemma_steps_bytes_prefixes(d);
    lemma_steps_bytes_prefixes(u);
    assert(d.len() == 2 && d[0] == step(100_000, 3) && d[1] == step(1_000_000, 3));
    assert(d[0].payload_bytes * d[0].request_count == 300_000);
    assert(d[1].payload_bytes * d[1].request_count == 3_000_000);
    assert(steps_bytes(d) == 300_000 + 3_000_000);
    assert(u.len() == 2 && u[0] == step(100_000, 3) && u[1] == step(1_000_000, 2));
}

proof fn lemma_medium_bytes()
    ensures
        steps_bytes(download_plan(SpeedtestMode::Medium)) == 35_500_000,
        steps_bytes(upload_plan(SpeedtestMode::Medium)) == 44_500_000,
{
    let d = download_plan(SpeedtestMode::Medium);
    let u = upload_plan(SpeedtestMode::Medium);
    lemma_steps_bytes_prefixes(d);
    lemma_steps_bytes_prefixes(u);
    assert(d.len() == 3 && d[0] == step(100_000, 5) && d[1] == step(1_000_000, 5)
        && d[2] == step(10_000_000, 3));
    assert(d[0].payload_bytes * d[0].request_count == 500_000);
    assert(d[1].payload_bytes * d[1].request_count == 5_000_000);
    assert(d[2].payload_bytes * d[2].request_count == 30_000_000);
    assert(u.len() == 3 && u[0] == step(100_000, 5) && u[1] == step(1_000_000, 4)
        && u[2] == step(10_000_000, 4));
    assert(u[0].payload_bytes * u[0].request_count == 500_000);
    assert(u[1].payload_bytes * u[1].request_count == 4_000_000);
    assert(u[2].payload_bytes * u[2].request_count == 40_000_000);
}

proof fn lemma_full_bytes()
    ensures
        steps_bytes(download_plan(SpeedtestMode::Full)) == 168_900_000,
        steps_bytes(upload_plan(SpeedtestMode::Full)) == 146_800_000,
{
    let d = download_plan(SpeedtestMode::Full);
    let u = upload_plan(SpeedtestMode::Full);
    lemma_steps_bytes_prefixes(d);
    lemma_steps_bytes_prefixes(u);
    assert(d.len() == 4 && d[0] == step(100_000, 9) && d[1] == step(1_000_000, 8)
        && d[2] == step(10_000_000, 6) && d[3] == step(25_000_000, 4));
    assert(u.len() == 4 && u[0] == step(100_000, 8) && u[1] == step(1_000_000, 6)
        && u[2] == step(10_000_000, 4) && u[3] == step(25_000_000, 4));
}

proof fn lemma_steps_bytes_prefixes(s: Seq<MeasurementStep>)
    requires
        2 <= s.len() <= 4,
    ensures
        s.len() == 2 ==> steps_bytes(s) == s[0].payload_bytes * s[0].request_count
            + s[1].payload_bytes * s[1].request_count,
        s.len() == 3 ==> steps_bytes(s) == s[0].payload_bytes * s[0].request_count
            + s[1].payload_bytes * s[1].request_count + s[2].payload_bytes * s[2].request_count,
        s.len() == 4 ==> steps_bytes(s) == s[0].payload_bytes * s[0].request_count
            + s[1].payload_bytes * s[1].request_count + s[2].payload_bytes * s[2].request_count
            + s[3].payload_bytes * s[3].request_count,
{
    let t0 = s.take(0);
    let t1 = s.take(1);
    let t2 = s.take(2);
    let t3 = s.take(3);
    assert(steps_bytes(t0) == 0);
    assert(t1.drop_last() == t0);
    assert(steps_bytes(t1) == s[0].payload_bytes * s[0].request_count);
    assert(t2.drop_last() == t1);
    assert(steps_bytes(t2) == steps_bytes(t1) + s[1].payload_bytes * s[1].request_count);
    if s.len() == 2 {
        assert(t2 == s);
    } else {
        assert(t3.drop_last() == t2);
        assert(steps_bytes(t3) == steps_bytes(t2) + s[2].payload_bytes * s[2].request_count);
        if s.len() == 3 {
            assert(t3 == s);
        } else {
            assert(s.drop_last() == t3);
        }
    }
}

// ---------------------------------------------------------------------------
// Port ordering
// ---------------------------------------------------------------------------

/// Whether a list of strings is in ascending order.
pub open spec fn ascending(s: Seq<Seq<char>>) -> bool {
    forall|i: int, j: int| 0 <= i < j < s.len() ==> seq_le(#[trigger] s[i], #[trigger] s[j])
}

proof fn lemma_seq_le_total(a: Seq<char>, b: Seq<char>)
    ensures
        seq_le(a, b) || seq_le(b, a),
    decreases a.len(),
{
    if a.len() > 0 && b.len() > 0 {
        if a[0] == b[0] {
            lemma_seq_le_total(a.drop_first(), b.drop_first());
        } else {
            vstd::utf8::char_u32_cast(a[0], a[0] as u32);
            vstd::utf8::char_u32_cast(b[0], b[0] as u32);
        }
    }
}

proof fn lemma_seq_le_trans(a: Seq<char>, b: Seq<char>, c: Seq<char>)
    requires
        seq_le(a, b),
        seq_le(b, c),
    ensures
        seq_le(a, c),
    decreases a.len(),
{
    if a.len() > 0 && b.len() > 0 && c.len() > 0 && a[0] == b[0] && b[0] == c[0] {
        lemma_seq_le_trans(a.drop_first(), b.drop_first(), c.drop_first());
    }
}

proof fn lemma_insert_sorted(s: Seq<Seq<char>>, x: Seq<char>)
    ensures
        insert_sorted(s, x).to_multiset() == s.to_multiset().insert(x),
        ascending(s) ==> ascending(insert_sorted(s, x)),
    decreases s.len(),
{
    broadcast use vstd::seq_lib::group_to_multiset_ensures;
    broadcast use vstd::multiset::group_multiset_axioms;

    let r = insert_sorted(s, x);
    if s.len() == 0 {
        assert(r == Seq::<Seq<char>>::empty().push(x));
        assert(s.to_multiset() =~= vstd::multiset::Multiset::<Seq<char>>::empty());
    } else {
        let t = s.drop_first();
        assert(s == seq![s[0]] + t);
        vstd::seq_lib::lemma_multiset_commutative(seq![s[0]], t);
        if seq_le(s[0], x) {
            let rt = insert_sorted(t, x);
            lemma_insert_sorted(t, x);
            assert(r == seq![s[0]] + rt);
            vstd::seq_lib::lemma_multiset_commutative(seq![s[0]], rt);
            assert(r.to_multiset() =~= s.to_multiset().insert(x));
            if ascending(s) {
                assert(ascending(t)) by {
                    assert forall|i: int, j: int| 0 <= i < j < t.len() implies seq_le(
                        #[trigger] t[i],
                        #[trigger] t[j],
                    ) by {
                        assert(t[i] == s[i + 1] && t[j] == s[j + 1]);
                    }
                }
                assert forall|i: int, j: int| 0 <= i < j < r.len() implies seq_le(
                    #[trigger] r[i],
                    #[trigger] r[j],
                ) by {
                    if i == 0 {
                        let e = rt[j - 1];
                        assert(r[j] == e);
                        assert(rt.contains(e));
                        assert(rt.to_multiset().count(e) > 0);
                        if e != x {
                            assert(t.to_multiset().count(e) > 0);
                            assert(t.contains(e));
                            let k = choose|k: int| 0 <= k < t.len() && t[k] == e;
                            assert(s[k + 1] == e);
                        }
                    } else {
                        assert(r[i] == rt[i - 1] && r[j] == rt[j - 1]);
                    }
                }
            }
        } else {
            assert(r == seq![x] + s);
            vstd::seq_lib::lemma_multiset_commutative(seq![x], s);
            assert(seq![x].to_multiset() =~= vstd::multiset::Multiset::<Seq<char>>::empty().insert(x)) by {
                assert(seq![x] == Seq::<Seq<char>>::empty().push(x));
                assert(Seq::<Seq<char>>::empty().to_multiset() =~= vstd::multiset::Multiset::<Seq<char>>::empty());
            }
            assert(r.to_multiset() =~= s.to_multiset().insert(x));
            lemma_seq_le_total(s[0], x);
            if ascending(s) {
                assert forall|i: int, j: int| 0 <= i < j < r.len() implies seq_le(
                    #[trigger] r[i],
                    #[trigger] r[j],
                ) by {
                    if i == 0 {
                        if j > 1 {
                            assert(seq_le(s[0], s[j - 1]));
                            lemma_seq_le_trans(x, s[0], s[j - 1]);
                        }
                    } else {
                        assert(r[i] == s[i - 1] && r[j] == s[j - 1]);
                    }
                }
            }
        }
    }
}

/// The ports of a bus-port come out sorted: in ascending order, and holding
/// each of the given names exactly as often as the input does.
pub proof fn law_sorted_ports(s: Seq<Seq<char>>)
    ensures
        ascending(sort_seqs(s)),
        sort_seqs(s).to_multiset() == s.to_multiset(),
    decreases s.len(),
{
    broadcast use vstd::seq_lib::group_to_multiset_ensures;

    if s.len() == 0 {
        assert(s.to_multiset() =~= vstd::multiset::Multiset::<Seq<char>>::empty()) by {
            broadcast use vstd::multiset::group_multiset_axioms;
        }
        assert(sort_seqs(s).to_multiset() =~= vstd::multiset::Multiset::<Seq<char>>::empty()) by {
            broadcast use vstd::multiset::group_multiset_axioms;
        }
    } else {
        law_sorted_ports(s.drop_last());
        lemma_insert_sorted(sort_seqs(s.drop_last()), s.last());
        assert(s == s.drop_last().push(s.last()));
    }
}

// ---------------------------------------------------------------------------
// Transfer schedule
// ---------------------------------------------------------------------------

/// The sum of a list of byte counts.
pub open spec fn total_of(s: Seq<u64>) -> int
    decreases s.len(),
{
    if s.len() == 0 {
        0
    } else {
        total_of(s.drop_last()) + s.last()
    }
}

proof fn lemma_total_concat(a: Seq<u64>, b: Seq<u64>)
    ensures
        total_of(a + b) == total_of(a) + total_of(b),
    decreases b.len(),
{
    if b.len() == 0 {
        assert(a + b == a);
    } else {
        assert((a + b).drop_last() == a + b.drop_last());
        assert((a + b).last() == b.last());
        lemma_total_concat(a, b.drop_last());
    }
}

proof fn lemma_total_repeat(x: u64, n: nat)
    ensures
        total_of(repeat(x, n)) == x * n,
    decreases n,
{
    if n > 0 {
        assert(repeat(x, n).drop_last() == repeat(x, (n - 1) as nat));
        lemma_total_repeat(x, (n - 1) as nat);
        assert(repeat(x, n).last() == x);
        assert(x * (n - 1) + x == x * n) by (nonlinear_arith);
    } else {
        assert(x * n == 0) by (nonlinear_arith)
            requires
                n == 0,
        ;
    }
}

/// The transfers a phase schedules add up to the bytes its steps plan.
pub proof fn law_schedule_bytes(steps: Seq<MeasurementStep>)
    ensures
        total_of(schedule(steps)) == steps_bytes(steps),
    decreases steps.len(),
{
    if steps.len() > 0 {
        let last = steps.last();
        law_schedule_bytes(steps.drop_last());
        lemma_total_concat(schedule(steps.drop_last()), repeat(last.payload_bytes, last.request_count as nat));
        lemma_total_repeat(last.payload_bytes, last.request_count as nat);
    }
}

// ---------------------------------------------------------------------------
// Profile identifiers
// ---------------------------------------------------------------------------

/// Looking a profile up by its own identifier finds a profile with that
/// identifier, for every listed profile and for the generic fallback.
pub proof fn law_find_by_id_round_trip(ps: Seq<ModemProfile>, generic: ModemProfile, p: ModemProfile)
    requires
        is_generic_modem(generic),
        ps.contains(p) || p == generic,
    ensures
        lookup(ps, generic, profile_id_of(p.identity)) matches Some(q) && profile_id_of(q.identity)
            == profile_id_of(p.identity),
{
    let id = profile_id_of(p.identity);
    if id != "generic"@ {
        if p == generic {
            assert(crate::profiles::is_generic_identity(generic.identity));
        }
        let k = choose|k: int| 0 <= k < ps.len() && ps[k] == p;
        let f = id_at(ps, id);
        assert(f(k));
        lemma_first_index_some(ps.len() as int, f, k);
    } else {
        assert(crate::profiles::is_generic_identity(generic.identity));
    }
}

proof fn lemma_filter_distinct(s: Seq<ModemProfile>, f: spec_fn(ModemProfile) -> bool)
    requires
        distinct_ids(s),
    ensures
        distinct_ids(s.filter(f)),
        forall|i: int| 0 <= i < s.filter(f).len() ==> f(#[trigger] s.filter(f)[i]) && s.contains(s.filter(f)[i]),
    decreases s.len(),
{
    reveal(Seq::filter);
    if s.len() > 0 {
        let d = s.drop_last();
        assert(distinct_ids(d)) by {
            assert forall|i: int, j: int| 0 <= i < j < d.len() implies !same_ids(#[trigger] d[i], #[trigger] d[j]) by {
                assert(d[i] == s[i] && d[j] == s[j]);
            }
        }
        lemma_filter_distinct(d, f);
        let sub = d.filter(f);
        assert forall|i: int| 0 <= i < sub.len() implies s.contains(#[trigger] sub[i]) by {
            let k = choose|k: int| 0 <= k < d.len() && d[k] == sub[i];
            assert(s[k] == sub[i]);
        }
        if f(s.last()) {
            let r = sub.push(s.last());
            assert(s.filter(f) == r);
            assert forall|i: int, j: int| 0 <= i < j < r.len() implies !same_ids(#[trigger] r[i], #[trigger] r[j]) by {
                if j == r.len() - 1 {
                    let k = choose|k: int| 0 <= k < d.len() && d[k] == sub[i];
                    assert(s[k] == r[i] && s[s.len() - 1] == r[j]);
                } else {
                    assert(r[i] == sub[i] && r[j] == sub[j]);
                }
            }
            assert forall|i: int| 0 <= i < r.len() implies f(#[trigger] r[i]) && s.contains(r[i]) by {
                if i == r.len() - 1 {
                    assert(s[s.len() - 1] == r[i]);
                } else {
                    assert(r[i] == sub[i]);
                }
            }
        } else {
            assert(s.filter(f) == sub);
        }
    }
}

/// Adding an override keeps the profiles' USB ID pairs distinct: the list
/// after `apply_override` never holds two profiles with the same vendor and
/// product ID strings, if the list before did not.
pub proof fn law_override_keeps_ids_distinct(ps: Seq<ModemProfile>, p: ModemProfile)
    requires
        distinct_ids(ps),
    ensures
        distinct_ids(without_ids(ps, p.identity.vendor_id@, p.identity.product_id@).push(p)),
{
    let f = other_ids(p.identity.vendor_id@, p.identity.product_id@);
    lemma_filter_distinct(ps, f);
    let w = ps.filter(f);
    let r = w.push(p);
    assert forall|i: int, j: int| 0 <= i < j < r.len() implies !same_ids(#[trigger] r[i], #[trigger] r[j]) by {
        if j == r.len() - 1 {
            assert(f(w[i]));
            assert(r[i] == w[i] && r[j] == p);
        } else {
            assert(r[i] == w[i] && r[j] == w[j]);
        }
    }
}

} // verus!
