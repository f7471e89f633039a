//! What the modem-reply readers must give, stated over their inputs: the
//! technology of 3GPP access-technology codes, signal strength and
//! registration and SIM states, the per-port antenna readings, the padding
//! of USB IDs and the end of an AT response.

use vstd::prelude::*;
use crate::antenna::{
    antenna_value, field_value, first_line_with, interleaved_values, metric_fields, no_values, port_readings, ports_by_tech, ports_upto, row_for, tagged, techs_of, telit_band, unwrap_or,
};
use crate::at_channel::{
    frame_step, is_fd_dead_kind, is_gone_errno, is_urc, urc_bare_lines, urc_prefixes, FramingView,
    IoErrorKind,
};
use crate::at_replies::{cpin_state, line_cme_code, line_cme_code_fn};
use crate::carrier::{telit_data, telit_row, trimmed_fields};
use crate::at_status::{gps_reply_ok, verify_line_meaning, cereg_reading, cops_reading, csq_dbm, group, group_i32, group_u32, networks_of};
use crate::mock::{csq_of, signal_percent};
use crate::hardware::{product_ids, strip_all_prefixes, uevent_product};
use crate::text::{contains, decimal, parse_i32, parse_u32, parse_u64, first_index, first_some, lemma_first_index, lemma_first_index_none, lines, split, starts_with, trim, unicode_lowercase};
use crate::types::{NetworkStatus, RegistrationState, SimState, Technology, UsbNetMode};
use crate::usbnet::{decided_mode, driver_mode, quectel_code_mode, telit_code_mode};
use crate::speedtest::{char_at, char_position, pair_has_key, param_value, size_label};

verus! {

// ---------------------------------------------------------------------------
// Access technologies
// ---------------------------------------------------------------------------

/// Each entry `(<stat>,"<long>","<short>","<numeric>"[,<act>])` of an
/// `AT+COPS=?` reply with `<stat>` 1, 2 or 3 adds one network after those of
/// the entries before it: its long name and numeric code, status Available,
/// Current or Forbidden for `<stat>` 1, 2, 3, and the technology of its
/// `<act>`: 0 (GSM) is 2G, 2 (UTRAN) is 3G, 12 (NR) is 5G, and 7 (E-UTRAN),
/// any other code or none is 4G.
pub proof fn law_scan_entry(prev: Seq<Seq<Option<Seq<char>>>>, c: Seq<Option<Seq<char>>>)
    requires
        group_u32(c, 1) is Some,
        1 <= group_u32(c, 1).unwrap() <= 3,
        group(c, 2) is Some,
        group(c, 4) is Some,
    ensures
        networks_of(prev.push(c)) == networks_of(prev).push(
            (
                group(c, 2).unwrap(),
                group(c, 4).unwrap(),
                if group_u32(c, 5) == Some(0u32) {
                    Technology::Gen2
                } else if group_u32(c, 5) == Some(2u32) {
                    Technology::Gen3
                } else if group_u32(c, 5) == Some(12u32) {
                    Technology::Gen5
                } else {
                    Technology::Gen4
                },
                if group_u32(c, 1) == Some(1u32) {
                    NetworkStatus::Available
                } else if group_u32(c, 1) == Some(2u32) {
                    NetworkStatus::Current
                } else {
                    NetworkStatus::Forbidden
                },
            ),
        ),
{
    assert(prev.push(c).drop_last() == prev);
    assert(prev.push(c).last() == c);
}

/// An entry of an `AT+COPS=?` reply whose `<act>` is 2 (UTRAN) is listed as
/// a 3G network.
pub proof fn law_scan_utran_is_3g(prev: Seq<Seq<Option<Seq<char>>>>, c: Seq<Option<Seq<char>>>)
    requires
        group_u32(c, 1) is Some,
        1 <= group_u32(c, 1).unwrap() <= 3,
        group(c, 2) is Some,
        group(c, 4) is Some,
        group_u32(c, 5) == Some(2u32),
    ensures
        networks_of(prev.push(c)).last().2 == Technology::Gen3,
{
    law_scan_entry(prev, c);
}

/// The technology of a `+COPS` reading follows the 3GPP `<act>` codes:
/// 0, 1, 3 are 2G; 2, 4, 5, 6 are 3G; 7, 8, 9 are 4G (E-UTRAN); 10 to 13 are
/// 5G (E-UTRA or NR connected to the 5G core, NR standalone, NR-DC); any
/// other code, or none, gives no technology. The operator is group 1.
pub proof fn law_cops_technology(c: Seq<Option<Seq<char>>>)
    ensures
        cops_reading(Some(c)).0 == group(c, 1),
        group_u32(c, 2) is None ==> cops_reading(Some(c)).1 is None,
        group_u32(c, 2) matches Some(a) && (a == 0 || a == 1 || a == 3) ==> cops_reading(Some(c)).1
            == Some(Technology::Gen2),
        group_u32(c, 2) matches Some(a) && (a == 2 || a == 4 || a == 5 || a == 6) ==> cops_reading(
            Some(c),
        ).1 == Some(Technology::Gen3),
        group_u32(c, 2) matches Some(a) && 7 <= a <= 9 ==> cops_reading(Some(c)).1 == Some(
            Technology::Gen4,
        ),
        group_u32(c, 2) matches Some(a) && 10 <= a <= 13 ==> cops_reading(Some(c)).1 == Some(
            Technology::Gen5,
        ),
        group_u32(c, 2) matches Some(a) && a > 13 ==> cops_reading(Some(c)).1 is None,
{
}

/// An entry of an `AT+COPS=?` reply whose `<stat>` is 0 (unknown) or above
/// 3 lists no network.
pub proof fn law_scan_unknown_status_dropped(prev: Seq<Seq<Option<Seq<char>>>>, c: Seq<Option<Seq<char>>>)
    requires
        group_u32(c, 1) matches Some(s) && (s == 0 || s > 3),
    ensures
        networks_of(prev.push(c)) == networks_of(prev),
{
    assert(prev.push(c).drop_last() == prev);
    assert(prev.push(c).last() == c);
}

// ---------------------------------------------------------------------------
// Signal strength
// ---------------------------------------------------------------------------

/// The `<rssi>` of a `+CSQ` reply reads as `-113 + 2 * rssi` dBm; 99 (not
/// known) reads as -999; a reply without one gives no reading.
pub proof fn law_csq_dbm(c: Seq<Option<Seq<char>>>)
    ensures
        csq_dbm(Some(c)) == match group_i32(c, 1) {
            Some(r) => if r == 99 {
                Some(-999int)
            } else {
                Some(-113 + 2 * r)
            },
            None => None::<int>,
        },
        csq_dbm(None) is None,
{
}

/// The signal strength of an RSSI is a percentage: 0 at or below -113 dBm,
/// 100 at or above -51 dBm, and between them it never falls as the RSSI
/// rises.
pub proof fn law_signal_percent(a: int, b: int)
    ensures
        0 <= signal_percent(a) <= 100,
        a <= -113 ==> signal_percent(a) == 0,
        a >= -51 ==> signal_percent(a) == 100,
        -113 < a < -51 ==> signal_percent(a) == (a + 113) * 100 / 62,
        a <= b ==> signal_percent(a) <= signal_percent(b),
{
    if -113 < a && a <= b {
        assert((a + 113) * 100 <= (b + 113) * 100) by (nonlinear_arith)
            requires
                a <= b,
        ;
        assert((a + 113) * 100 / 62 <= (b + 113) * 100 / 62) by (nonlinear_arith)
            requires
                (a + 113) * 100 <= (b + 113) * 100,
        ;
    }
    if a >= -51 {
        assert((a + 113) * 100 >= 6200) by (nonlinear_arith)
            requires
                a >= -51,
        ;
    }
}

/// The CSQ value of an RSSI is 0 at or below -113 dBm, 31 at or above
/// -51 dBm, `(rssi + 113) / 2` between them, and never falls as the RSSI
/// rises.
pub proof fn law_csq_of(a: int, b: int)
    ensures
        0 <= csq_of(a) <= 31,
        a <= -113 ==> csq_of(a) == 0,
        a >= -51 ==> csq_of(a) == 31,
        -113 < a < -51 ==> csq_of(a) == (a + 113) / 2,
        a <= b ==> csq_of(a) <= csq_of(b),
{
}

// ---------------------------------------------------------------------------
// Registration and SIM
// ---------------------------------------------------------------------------

/// The `<stat>` of a `+CEREG` reply: 0 not registered, 1 registered at home,
/// 2 searching, 3 denied, 5 registered roaming; any other code, none, or no
/// match is unknown.
pub proof fn law_cereg_states(c: Seq<Option<Seq<char>>>)
    ensures
        cereg_reading(Some(c)) == match group_u32(c, 1) {
            Some(0) => RegistrationState::NotRegistered,
            Some(1) => RegistrationState::Registered { home: true },
            Some(2) => RegistrationState::Searching,
            Some(3) => RegistrationState::Denied,
            Some(5) => RegistrationState::Registered { home: false },
            _ => RegistrationState::Unknown,
        },
        cereg_reading(None) == RegistrationState::Unknown,
{
}

/// The SIM state of an `AT+CPIN?` reply: `READY` anywhere means ready;
/// otherwise `SIM PIN` asks for the PIN and `SIM PUK` for the PUK; otherwise
/// an `ERROR` means no SIM; anything else is an error.
pub proof fn law_cpin_states(r: Seq<char>)
    ensures
        contains(r, "READY"@) ==> cpin_state(r) == SimState::Ready,
        !contains(r, "READY"@) && contains(r, "SIM PIN"@) ==> cpin_state(r) == SimState::PinRequired,
        !contains(r, "READY"@) && !contains(r, "SIM PIN"@) && contains(r, "SIM PUK"@) ==> cpin_state(r)
            == SimState::PukRequired,
        !contains(r, "READY"@) && !contains(r, "SIM PIN"@) && !contains(r, "SIM PUK"@) && contains(
            r,
            "ERROR"@,
        ) ==> cpin_state(r) == SimState::NotInserted,
        !contains(r, "READY"@) && !contains(r, "SIM PIN"@) && !contains(r, "SIM PUK"@) && !contains(
            r,
            "ERROR"@,
        ) ==> cpin_state(r) == SimState::Error,
{
}

// ---------------------------------------------------------------------------
// Bands, USB-net modes, I/O failures, sizes
// ---------------------------------------------------------------------------

/// A Telit band class of 250 or more is NR band `n<class - 249>`, one of
/// 120 to 249 is LTE band `B<class - 119>`, and any other is `?<class>` with
/// no technology.
pub proof fn law_telit_band(bc: u32)
    ensures
        bc >= 250 ==> telit_band(bc) == (seq!['n'] + decimal((bc - 249) as nat), Some(Technology::Gen5)),
        120 <= bc < 250 ==> telit_band(bc) == (seq!['B'] + decimal((bc - 119) as nat), Some(
            Technology::Gen4,
        )),
        bc < 120 ==> telit_band(bc) == (seq!['?'] + decimal(bc as nat), None::<Technology>),
{
}

/// The USB-net codes: Quectel 0 RmNet, 1 ECM, 2 MBIM, 3 RNDIS, 5 NCM; Telit
/// 0 ECM, 2 MBIM, 3 RmNet, 4 NCM; any other code is unknown.
pub proof fn law_usbnet_codes(n: u32)
    ensures
        quectel_code_mode(n) == match n {
            0 => UsbNetMode::Rmnet,
            1 => UsbNetMode::Ecm,
            2 => UsbNetMode::Mbim,
            3 => UsbNetMode::Rndis,
            5 => UsbNetMode::Ncm,
            _ => UsbNetMode::Unknown,
        },
        telit_code_mode(n) == match n {
            0 => UsbNetMode::Ecm,
            2 => UsbNetMode::Mbim,
            3 => UsbNetMode::Rmnet,
            4 => UsbNetMode::Ncm,
            _ => UsbNetMode::Unknown,
        },
{
}

/// The kernel drivers: `qmi_wwan` is RmNet, `cdc_ether` ECM, `cdc_mbim`
/// MBIM, `cdc_ncm` NCM, `rndis_host` RNDIS; no other driver names a mode.
/// When the kernel names a mode it wins over what the modem reported.
pub proof fn law_kernel_driver_modes(driver: Seq<char>, at_mode: UsbNetMode, km: UsbNetMode)
    ensures
        driver == "qmi_wwan"@ ==> driver_mode(driver) == Some(UsbNetMode::Rmnet),
        driver == "cdc_ether"@ ==> driver_mode(driver) == Some(UsbNetMode::Ecm),
        driver == "cdc_mbim"@ ==> driver_mode(driver) == Some(UsbNetMode::Mbim),
        driver == "cdc_ncm"@ ==> driver_mode(driver) == Some(UsbNetMode::Ncm),
        driver == "rndis_host"@ ==> driver_mode(driver) == Some(UsbNetMode::Rndis),
        driver != "qmi_wwan"@ && driver != "cdc_ether"@ && driver != "cdc_mbim"@ && driver != "cdc_ncm"@
            && driver != "rndis_host"@ ==> driver_mode(driver) is None,
        decided_mode(at_mode, Some(km)) == km,
        decided_mode(at_mode, None) == at_mode,
{
    reveal_strlit("qmi_wwan");
    reveal_strlit("cdc_ether");
    reveal_strlit("cdc_mbim");
    reveal_strlit("cdc_ncm");
    reveal_strlit("rndis_host");
    assert("qmi_wwan"@[0] != "cdc_ether"@[0]);
    assert("cdc_ether"@[4] != "cdc_mbim"@[4]);
    assert("rndis_host"@[0] != "qmi_wwan"@[0]);
    assert("rndis_host"@[0] != "cdc_ether"@[0]);
    assert("rndis_host"@.len() != "cdc_mbim"@.len());
    assert("rndis_host"@.len() != "cdc_ncm"@.len());
}

/// A serial port is reopened after a broken pipe, a lost connection or an
/// unexpected end of file, or when the errno is EIO (5), ENXIO (6) or ENODEV
/// (19); a timeout or an interruption alone never reopens it.
pub proof fn law_reopen_conditions(kind: IoErrorKind, raw: Option<i32>)
    ensures
        is_fd_dead_kind(kind) <==> (kind == IoErrorKind::BrokenPipe || kind == IoErrorKind::NotConnected
            || kind == IoErrorKind::UnexpectedEof),
        !is_fd_dead_kind(IoErrorKind::TimedOut) && !is_fd_dead_kind(IoErrorKind::Interrupted),
        is_gone_errno(raw) <==> (raw == Some(5i32) || raw == Some(6i32) || raw == Some(19i32)),
{
}

/// A payload size is labelled by the largest step it reaches: 50MB, 25MB,
/// 10MB, 1MB (decimal megabytes), 100KB; below 100 000 bytes it is the byte
/// count followed by `B`.
pub proof fn law_size_labels(bytes: u64)
    ensures
        bytes >= 50_000_000 ==> size_label(bytes) == "50MB"@,
        25_000_000 <= bytes < 50_000_000 ==> size_label(bytes) == "25MB"@,
        10_000_000 <= bytes < 25_000_000 ==> size_label(bytes) == "10MB"@,
        1_000_000 <= bytes < 10_000_000 ==> size_label(bytes) == "1MB"@,
        100_000 <= bytes < 1_000_000 ==> size_label(bytes) == "100KB"@,
        bytes < 100_000 ==> size_label(bytes) == decimal(bytes as nat) + seq!['B'],
{
}

// ---------------------------------------------------------------------------
// Carrier rows, error codes, port checks, GPS
// ---------------------------------------------------------------------------

/// A Telit carrier line with at least eight fields and a band class in the
/// first gives a row: the EARFCN of the second field and the cell id of the
/// fourth (0 when unreadable), RSRP, RSSI and RSRQ as the fifth to seventh
/// fields, and the raw SINR of the eighth (0 when unreadable). An `ENDC:`
/// line is always an NR carrier; another line is NR from band class 250,
/// LTE from 120.
pub proof fn law_telit_row(line: Seq<char>)
    ensures
        match telit_data(line) {
            Some((data, endc)) => {
                let p = trimmed_fields(data);
                if p.len() >= 8 && parse_u32(p[0]) is Some {
                    let bc = parse_u32(p[0]).unwrap();
                    telit_row(line) matches Some(r) && {
                        &&& r.0 == endc
                        &&& r.3 == (if parse_u64(p[1]) is Some { parse_u64(p[1]).unwrap() } else { 0 })
                        &&& r.4 == (if parse_u32(p[3]) is Some { parse_u32(p[3]).unwrap() } else { 0 })
                        &&& r.5 == p[4] && r.6 == p[5] && r.7 == p[6]
                        &&& r.8 == (if parse_i32(p[7]) is Some { parse_i32(p[7]).unwrap() } else { 0 })
                        &&& (endc || bc >= 250) ==> r.2 == Some(Technology::Gen5) && r.1[0] == 'n'
                        &&& (!endc && 120 <= bc < 250) ==> r.2 == Some(Technology::Gen4) && r.1[0] == 'B'
                        &&& (!endc && bc < 120) ==> r.2 is None
                    }
                } else {
                    telit_row(line) is None
                }
            },
            None => telit_row(line) is None,
        },
{
}

/// A line that, trimmed, is `+CME ERROR:` followed by a number (spaces
/// around it allowed) carries that number; a line not starting so carries
/// none.
pub proof fn law_cme_code(line: Seq<char>)
    ensures
        starts_with(trim(line), "+CME ERROR:"@) ==> line_cme_code(line) == parse_u32(trim(trim(line).skip(11))),
        !starts_with(trim(line), "+CME ERROR:"@) ==> line_cme_code(line) is None,
{
    reveal_strlit("+CME ERROR:");
}

/// While a port is checked with `AT`, a line trimming to `OK` answers, one
/// trimming to `ERROR` or starting with `+CME ERROR` or `+CMS ERROR` refuses
/// with the trimmed line, and any other line leaves the check waiting.
pub proof fn law_verify_line(line: Seq<char>)
    ensures
        trim(line) == "OK"@ ==> verify_line_meaning(line) == Some(None::<Seq<char>>),
        trim(line) == "ERROR"@ || starts_with(trim(line), "+CME ERROR"@) || starts_with(
            trim(line),
            "+CMS ERROR"@,
        ) ==> verify_line_meaning(line) == Some(Some(trim(line))),
        trim(line) != "OK"@ && trim(line) != "ERROR"@ && !starts_with(trim(line), "+CME ERROR"@)
            && !starts_with(trim(line), "+CMS ERROR"@) ==> verify_line_meaning(line) is None,
{
    reveal_strlit("OK");
    reveal_strlit("ERROR");
    reveal_strlit("+CME ERROR");
    reveal_strlit("+CMS ERROR");
    let t = trim(line);
    if starts_with(t, "+CME ERROR"@) || starts_with(t, "+CMS ERROR"@) {
        assert(t.take(10)[0] == t[0]);
        assert(t[0] == '+');
        assert(t != "OK"@);
    }
}

/// A GPS reply without `ERROR` is accepted; one with it is accepted only for
/// a `+CME ERROR` code that the profile lists as harmless, or, without any
/// code, when bare errors are tolerated.
pub proof fn law_gps_reply(reply: Seq<char>, harmless: Seq<u32>, tolerate_bare: bool)
    ensures
        !contains(reply, "ERROR"@) ==> gps_reply_ok(reply, harmless, tolerate_bare),
        contains(reply, "ERROR"@) ==> (gps_reply_ok(reply, harmless, tolerate_bare) <==> match first_some(
            lines(reply),
            line_cme_code_fn(),
        ) {
            Some(c) => exists|i: int| 0 <= i < harmless.len() && harmless[i] == c,
            None => tolerate_bare,
        }),
{
}

/// Among the `name=value` pairs of a `Server-Timing` description the last
/// pair named `key` gives its value, whatever came before; a piece named
/// otherwise, or without '=', changes nothing.
pub proof fn law_param_last_wins(pairs: Seq<Seq<char>>, key: Seq<char>, v: Seq<char>, q: Seq<char>)
    requires
        !key.contains('='),
    ensures
        param_value(pairs.push(key + seq!['='] + v), key) == Some(v),
        !pair_has_key(q, key) ==> param_value(pairs.push(q), key) == param_value(pairs, key),
{
    let p = key + seq!['='] + v;
    let n = key.len() as int;
    assert forall|k: int| 0 <= k < n implies !#[trigger] char_at(p, '=')(k) by {
        assert(p[k] == key[k]);
        if key[k] == '=' {
            assert(key.contains('='));
        }
    }
    assert(char_at(p, '=')(n));
    lemma_first_index(p.len() as int, char_at(p, '='), n);
    assert(p.take(n) =~= key);
    assert(p.skip(n + 1) =~= v);
    assert(pair_has_key(p, key));
    let ps = pairs.push(p);
    assert(ps.last() == p);
    assert(param_value(ps, key) == Some(p.skip(n + 1)));
    assert(pairs.push(q).drop_last() == pairs);
}

// ---------------------------------------------------------------------------
// Antenna ports
// ---------------------------------------------------------------------------

/// The value, or `d` without one.
pub open spec fn value_or(v: Option<i32>, d: int) -> int {
    match v {
        Some(x) => x as int,
        None => d,
    }
}

/// The value of port `i` in the first of `rows`, if any.
pub open spec fn first_value(rows: Seq<(Seq<char>, Seq<Option<i32>>)>, i: int) -> Option<i32> {
    if rows.len() > 0 {
        rows[0].1[i]
    } else {
        None
    }
}

/// No row carries a technology tag.
pub open spec fn untagged(rows: Seq<(Seq<char>, Seq<Option<i32>>)>) -> bool {
    forall|k: int| 0 <= k < rows.len() ==> (#[trigger] rows[k]).0.len() == 0
}

proof fn lemma_techs_of_untagged(rows: Seq<(Seq<char>, Seq<Option<i32>>)>)
    requires
        untagged(rows),
    ensures
        techs_of(rows).len() == 0,
    decreases rows.len(),
{
    if rows.len() > 0 {
        assert(untagged(rows.drop_last())) by {
            assert forall|k: int| 0 <= k < rows.drop_last().len() implies (#[trigger] rows.drop_last()[k]).0.len() == 0 by {
                assert(rows.drop_last()[k] == rows[k]);
            }
        }
        lemma_techs_of_untagged(rows.drop_last());
        assert(rows[rows.len() - 1].0.len() == 0);
    }
}

proof fn lemma_ports_upto(
    rsrp: Seq<Option<i32>>,
    sinr: Seq<Option<i32>>,
    rsrq: Seq<Option<i32>>,
    tech: Option<Seq<char>>,
    n: nat,
)
    requires
        n <= 4,
    ensures
        forall|k: int|
            0 <= k < ports_upto(rsrp, sinr, rsrq, tech, n).len() ==> {
                let e = #[trigger] ports_upto(rsrp, sinr, rsrq, tech, n)[k];
                &&& e.0 < n
                &&& e.1 == value_or(rsrp[e.0 as int], -999)
                &&& e.2 == value_or(rsrq[e.0 as int], -999)
                &&& e.3 == value_or(sinr[e.0 as int], 0)
                &&& e.4 == tech
            },
        forall|i: int|
            0 <= i < n && (rsrp[i] is Some || rsrq[i] is Some || sinr[i] is Some) ==> exists|k: int|
                0 <= k < ports_upto(rsrp, sinr, rsrq, tech, n).len() && (#[trigger] ports_upto(
                    rsrp,
                    sinr,
                    rsrq,
                    tech,
                    n,
                )[k]).0 == i,
    decreases n,
{
    if n > 0 {
        lemma_ports_upto(rsrp, sinr, rsrq, tech, (n - 1) as nat);
        let prev = ports_upto(rsrp, sinr, rsrq, tech, (n - 1) as nat);
        let r = ports_upto(rsrp, sinr, rsrq, tech, n);
        let i = n - 1;
        if rsrp[i] is Some || rsrq[i] is Some || sinr[i] is Some {
            assert(r == prev.push(
                (i as u32, unwrap_or(rsrp[i], -999i32), unwrap_or(rsrq[i], -999i32), unwrap_or(sinr[i], 0i32), tech),
            ));
            assert forall|k: int| 0 <= k < r.len() implies {
                let e = #[trigger] r[k];
                &&& e.0 < n
                &&& e.1 == value_or(rsrp[e.0 as int], -999)
                &&& e.2 == value_or(rsrq[e.0 as int], -999)
                &&& e.3 == value_or(sinr[e.0 as int], 0)
                &&& e.4 == tech
            } by {
                if k < prev.len() {
                    assert(r[k] == prev[k]);
                }
            }
            assert forall|j: int|
                0 <= j < n && (rsrp[j] is Some || rsrq[j] is Some || sinr[j] is Some) implies exists|k: int|
                0 <= k < r.len() && (#[trigger] r[k]).0 == j by {
                if j < n - 1 {
                    let k = choose|k: int| 0 <= k < prev.len() && (#[trigger] prev[k]).0 == j;
                    assert(r[k] == prev[k]);
                } else {
                    assert(r[prev.len() as int].0 == j);
                }
            }
        } else {
            assert(r == prev);
        }
    }
}

/// Without technology tags, each port reading carries the port's values
/// from the first RSRP, SINR and RSRQ rows: RSRP and RSRQ, or -999 where the
/// first row has none (or there is no row), and SINR, or 0; no technology.
/// Every port 0 to 3 with a value in any of those rows is reported.
pub proof fn law_untagged_ports(
    rsrp: Seq<(Seq<char>, Seq<Option<i32>>)>,
    sinr: Seq<(Seq<char>, Seq<Option<i32>>)>,
    rsrq: Seq<(Seq<char>, Seq<Option<i32>>)>,
)
    requires
        untagged(rsrp),
        untagged(sinr),
        untagged(rsrq),
    ensures
        forall|k: int|
            0 <= k < port_readings(rsrp, sinr, rsrq).len() ==> {
                let e = #[trigger] port_readings(rsrp, sinr, rsrq)[k];
                &&& e.0 < 4
                &&& e.1 == value_or(first_value(rsrp, e.0 as int), -999)
                &&& e.2 == value_or(first_value(rsrq, e.0 as int), -999)
                &&& e.3 == value_or(first_value(sinr, e.0 as int), 0)
                &&& e.4 is None
            },
        forall|i: int|
            0 <= i < 4 && (first_value(rsrp, i) is Some || first_value(rsrq, i) is Some || first_value(sinr, i)
                is Some) ==> exists|k: int|
                0 <= k < port_readings(rsrp, sinr, rsrq).len() && (#[trigger] port_readings(
                    rsrp,
                    sinr,
                    rsrq,
                )[k]).0 == i,
{
    let all = rsrp + sinr + rsrq;
    assert(untagged(all)) by {
        assert forall|k: int| 0 <= k < all.len() implies (#[trigger] all[k]).0.len() == 0 by {
            if k < rsrp.len() {
                assert(all[k] == rsrp[k]);
            } else if k < rsrp.len() + sinr.len() {
                assert(all[k] == sinr[k - rsrp.len()]);
            } else {
                assert(all[k] == rsrq[k - rsrp.len() - sinr.len()]);
            }
        }
    }
    lemma_techs_of_untagged(all);
    let a = crate::antenna::first_row(rsrp);
    let b = crate::antenna::first_row(sinr);
    let c = crate::antenna::first_row(rsrq);
    lemma_ports_upto(a, b, c, None, 4);
    assert forall|i: int| 0 <= i < 4 implies #[trigger] a[i] == first_value(rsrp, i) && b[i] == first_value(
        sinr,
        i,
    ) && c[i] == first_value(rsrq, i) by {
        assert(no_values()[i] is None);
    }
}

/// The values a technology's readings take from a list of rows are those of
/// the first row tagged with it, or none at all when no row is.
pub proof fn law_row_for_first_tagged(rows: Seq<(Seq<char>, Seq<Option<i32>>)>, t: Seq<char>, i: int)
    ensures
        0 <= i < rows.len() && rows[i].0 == t && (forall|k: int| 0 <= k < i ==> (#[trigger] rows[k]).0 != t)
            ==> row_for(rows, t) == rows[i].1,
        (forall|k: int| 0 <= k < rows.len() ==> (#[trigger] rows[k]).0 != t) ==> row_for(rows, t) == seq![
            None::<i32>,
            None,
            None,
            None,
        ],
{
    if 0 <= i < rows.len() && rows[i].0 == t && (forall|k: int| 0 <= k < i ==> (#[trigger] rows[k]).0 != t) {
        assert forall|k: int| 0 <= k < i implies !#[trigger] tagged(rows, t)(k) by {
            assert(rows[k].0 != t);
        }
        lemma_first_index(rows.len() as int, tagged(rows, t), i);
    }
    if forall|k: int| 0 <= k < rows.len() ==> (#[trigger] rows[k]).0 != t {
        assert forall|k: int| 0 <= k < rows.len() implies !#[trigger] tagged(rows, t)(k) by {
            assert(rows[k].0 != t);
        }
        lemma_first_index_none(rows.len() as int, tagged(rows, t));
    }
}

/// The technologies of the readings are the non-empty tags of the rows.
proof fn lemma_techs_of_members(rows: Seq<(Seq<char>, Seq<Option<i32>>)>)
    ensures
        forall|t: Seq<char>| #[trigger] techs_of(rows).contains(t) <==> (t.len() > 0 && exists|i: int|
            0 <= i < rows.len() && (#[trigger] rows[i]).0 == t),
    decreases rows.len(),
{
    if rows.len() > 0 {
        let d = rows.drop_last();
        lemma_techs_of_members(d);
        assert forall|t: Seq<char>| #[trigger] techs_of(rows).contains(t) <==> (t.len() > 0 && exists|i: int|
            0 <= i < rows.len() && (#[trigger] rows[i]).0 == t) by {
            if techs_of(rows).contains(t) {
                if techs_of(d).contains(t) {
                    let i = choose|i: int| 0 <= i < d.len() && (#[trigger] d[i]).0 == t;
                    assert(rows[i] == d[i]);
                } else {
                    assert(rows[rows.len() - 1].0 == t);
                }
            }
            if t.len() > 0 && exists|i: int| 0 <= i < rows.len() && (#[trigger] rows[i]).0 == t {
                let i = choose|i: int| 0 <= i < rows.len() && (#[trigger] rows[i]).0 == t;
                if i < rows.len() - 1 {
                    assert(d[i] == rows[i]);
                    assert(techs_of(d).contains(t));
                } else {
                    assert(rows.last().0 == t);
                }
                let prev = techs_of(d);
                if prev.contains(t) {
                    let j = choose|j: int| 0 <= j < prev.len() && prev[j] == t;
                    if rows.last().0.len() > 0 && !prev.contains(rows.last().0) {
                        assert(techs_of(rows)[j] == t);
                    }
                } else {
                    assert(techs_of(rows) == prev.push(t));
                    assert(techs_of(rows)[prev.len() as int] == t);
                }
            }
        }
    }
}

/// Reading `e` carries port `e.0`'s values from the rows of its tag.
pub open spec fn from_tag_rows(
    e: (u32, i32, i32, i32, Option<Seq<char>>),
    rsrp: Seq<(Seq<char>, Seq<Option<i32>>)>,
    sinr: Seq<(Seq<char>, Seq<Option<i32>>)>,
    rsrq: Seq<(Seq<char>, Seq<Option<i32>>)>,
) -> bool {
    &&& e.4 is Some
    &&& e.0 < 4
    &&& e.1 == value_or(row_for(rsrp, e.4.unwrap())[e.0 as int], -999)
    &&& e.2 == value_or(row_for(rsrq, e.4.unwrap())[e.0 as int], -999)
    &&& e.3 == value_or(row_for(sinr, e.4.unwrap())[e.0 as int], 0)
}

proof fn lemma_ports_by_tech_sound(
    rsrp: Seq<(Seq<char>, Seq<Option<i32>>)>,
    sinr: Seq<(Seq<char>, Seq<Option<i32>>)>,
    rsrq: Seq<(Seq<char>, Seq<Option<i32>>)>,
    techs: Seq<Seq<char>>,
)
    ensures
        forall|k: int|
            0 <= k < ports_by_tech(rsrp, sinr, rsrq, techs).len() ==> from_tag_rows(
                #[trigger] ports_by_tech(rsrp, sinr, rsrq, techs)[k],
                rsrp,
                sinr,
                rsrq,
            ) && techs.contains(ports_by_tech(rsrp, sinr, rsrq, techs)[k].4.unwrap()),
    decreases techs.len(),
{
    if techs.len() > 0 {
        let d = techs.drop_last();
        let t = techs.last();
        lemma_ports_by_tech_sound(rsrp, sinr, rsrq, d);
        let a = ports_by_tech(rsrp, sinr, rsrq, d);
        let b = ports_upto(row_for(rsrp, t), row_for(sinr, t), row_for(rsrq, t), Some(t), 4);
        lemma_ports_upto(row_for(rsrp, t), row_for(sinr, t), row_for(rsrq, t), Some(t), 4);
        let r = ports_by_tech(rsrp, sinr, rsrq, techs);
        assert(r == a + b);
        assert forall|k: int| 0 <= k < r.len() implies from_tag_rows(#[trigger] r[k], rsrp, sinr, rsrq)
            && techs.contains(r[k].4.unwrap()) by {
            if k < a.len() {
                assert(r[k] == a[k]);
                let u = a[k].4.unwrap();
                let j = choose|j: int| 0 <= j < d.len() && d[j] == u;
                assert(techs[j] == d[j]);
            } else {
                assert(r[k] == b[k - a.len()]);
                assert(techs[techs.len() - 1] == t);
            }
        }
    }
}

proof fn lemma_ports_by_tech_complete(
    rsrp: Seq<(Seq<char>, Seq<Option<i32>>)>,
    sinr: Seq<(Seq<char>, Seq<Option<i32>>)>,
    rsrq: Seq<(Seq<char>, Seq<Option<i32>>)>,
    techs: Seq<Seq<char>>,
    j: int,
    i: int,
)
    requires
        0 <= j < techs.len(),
        0 <= i < 4,
        row_for(rsrp, techs[j])[i] is Some || row_for(rsrq, techs[j])[i] is Some || row_for(sinr, techs[j])[i]
            is Some,
    ensures
        exists|k: int|
            0 <= k < ports_by_tech(rsrp, sinr, rsrq, techs).len() && (#[trigger] ports_by_tech(
                rsrp,
                sinr,
                rsrq,
                techs,
            )[k]).0 == i && ports_by_tech(rsrp, sinr, rsrq, techs)[k].4 == Some(techs[j]),
    decreases techs.len(),
{
    let d = techs.drop_last();
    let t = techs.last();
    let a = ports_by_tech(rsrp, sinr, rsrq, d);
    let b = ports_upto(row_for(rsrp, t), row_for(sinr, t), row_for(rsrq, t), Some(t), 4);
    let r = ports_by_tech(rsrp, sinr, rsrq, techs);
    assert(r == a + b);
    if j < techs.len() - 1 {
        assert(techs[j] == d[j]);
        lemma_ports_by_tech_complete(rsrp, sinr, rsrq, d, j, i);
        let k = choose|k: int| 0 <= k < a.len() && (#[trigger] a[k]).0 == i && a[k].4 == Some(d[j]);
        assert(r[k] == a[k]);
    } else {
        lemma_ports_upto(row_for(rsrp, t), row_for(sinr, t), row_for(rsrq, t), Some(t), 4);
        let m = choose|m: int| 0 <= m < b.len() && (#[trigger] b[m]).0 == i;
        assert(r[a.len() + m] == b[m]);
    }
}

/// With technology tags, each port reading belongs to one of the tags that
/// the rows carry, is numbered 0 to 3 within it, and carries that port's
/// values from the rows of its tag (the first one of each metric, see
/// [`law_row_for_first_tagged`]): RSRP and RSRQ, or -999, and SINR, or 0.
/// Every tag and port with a value is reported.
pub proof fn law_tagged_ports(
    rsrp: Seq<(Seq<char>, Seq<Option<i32>>)>,
    sinr: Seq<(Seq<char>, Seq<Option<i32>>)>,
    rsrq: Seq<(Seq<char>, Seq<Option<i32>>)>,
)
    requires
        !(untagged(rsrp) && untagged(sinr) && untagged(rsrq)),
    ensures
        forall|k: int|
            0 <= k < port_readings(rsrp, sinr, rsrq).len() ==> {
                let e = #[trigger] port_readings(rsrp, sinr, rsrq)[k];
                &&& e.4 matches Some(t) && t.len() > 0 && exists|i: int|
                    0 <= i < (rsrp + sinr + rsrq).len() && (#[trigger] (rsrp + sinr + rsrq)[i]).0 == t
                &&& e.0 < 4
                &&& e.1 == value_or(row_for(rsrp, e.4.unwrap())[e.0 as int], -999)
                &&& e.2 == value_or(row_for(rsrq, e.4.unwrap())[e.0 as int], -999)
                &&& e.3 == value_or(row_for(sinr, e.4.unwrap())[e.0 as int], 0)
            },
        forall|t: Seq<char>, i: int|
            t.len() > 0 && (exists|m: int| 0 <= m < (rsrp + sinr + rsrq).len() && (#[trigger] (rsrp + sinr
                + rsrq)[m]).0 == t) && 0 <= i < 4 && (row_for(rsrp, t)[i] is Some || row_for(rsrq, t)[i] is Some
                || (#[trigger] row_for(sinr, t)[i]) is Some) ==> exists|k: int|
                0 <= k < port_readings(rsrp, sinr, rsrq).len() && (#[trigger] port_readings(
                    rsrp,
                    sinr,
                    rsrq,
                )[k]).0 == i && port_readings(rsrp, sinr, rsrq)[k].4 == Some(t),
{
    let all = rsrp + sinr + rsrq;
    lemma_techs_of_members(all);
    let w = if !untagged(rsrp) {
        let k = choose|k: int| 0 <= k < rsrp.len() && (#[trigger] rsrp[k]).0.len() != 0;
        assert(all[k] == rsrp[k]);
        k
    } else if !untagged(sinr) {
        let k = choose|k: int| 0 <= k < sinr.len() && (#[trigger] sinr[k]).0.len() != 0;
        assert(all[rsrp.len() + k] == sinr[k]);
        rsrp.len() + k
    } else {
        let k = choose|k: int| 0 <= k < rsrq.len() && (#[trigger] rsrq[k]).0.len() != 0;
        assert(all[rsrp.len() + sinr.len() + k] == rsrq[k]);
        rsrp.len() + sinr.len() + k
    };
    assert(techs_of(all).contains(all[w].0));
    let techs = techs_of(all);
    assert(techs.len() > 0);
    lemma_ports_by_tech_sound(rsrp, sinr, rsrq, techs);
    assert forall|t: Seq<char>, i: int|
        t.len() > 0 && (exists|m: int| 0 <= m < all.len() && (#[trigger] all[m]).0 == t) && 0 <= i < 4 && (
        row_for(rsrp, t)[i] is Some || row_for(rsrq, t)[i] is Some || (#[trigger] row_for(sinr, t)[i]) is Some)
        implies exists|k: int|
        0 <= k < port_readings(rsrp, sinr, rsrq).len() && (#[trigger] port_readings(rsrp, sinr, rsrq)[k]).0 == i
            && port_readings(rsrp, sinr, rsrq)[k].4 == Some(t) by {
        assert(techs.contains(t));
        let j = choose|j: int| 0 <= j < techs.len() && techs[j] == t;
        lemma_ports_by_tech_complete(rsrp, sinr, rsrq, techs, j, i);
    }
}

/// An antenna field gives a value exactly when its trimmed text reads as an
/// integer that is not the sentinel and lies within the valid range.
pub proof fn law_antenna_value(s: Seq<char>, sentinel: i32, lo: i32, hi: i32, v: i32)
    ensures
        antenna_value(s, sentinel, lo, hi) == Some(v) <==> (parse_i32(trim(s)) == Some(v) && v != sentinel
            && lo <= v <= hi),
        parse_i32(trim(s)) is None ==> antenna_value(s, sentinel, lo, hi) is None,
{
}

/// An interleaved reply (`#LAPS:` / `#NRAPS:`) gives port `p` the RSRP of
/// field `2p` and the RSRQ of field `2p + 1` after the colon of the first
/// line holding the prefix; without such a line no port has a value.
pub proof fn law_interleaved_fields(
    response: Seq<char>,
    prefix: Seq<char>,
    sentinel: i32,
    rsrp_min: i32,
    rsrp_max: i32,
    rsrq_min: i32,
    rsrq_max: i32,
    p: int,
)
    requires
        0 <= p < 4,
    ensures
        ({
            let r = interleaved_values(response, prefix, sentinel, rsrp_min, rsrp_max, rsrq_min, rsrq_max);
            &&& r.0.len() == 4 && r.1.len() == 4
            &&& match first_line_with(response, prefix) {
                Some(line) => {
                    &&& r.0[p] == field_value(metric_fields(line), 2 * p, sentinel, rsrp_min, rsrp_max)
                    &&& r.1[p] == field_value(metric_fields(line), 2 * p + 1, sentinel, rsrq_min, rsrq_max)
                },
                None => r.0[p] is None && r.1[p] is None,
            }
        }),
{
}

/// The readings of an interleaved reply: one per port with an RSRP or RSRQ
/// value, numbered 0 to 3, carrying them (or -999), SINR 0 and no
/// technology.
pub proof fn law_interleaved_ports(rsrp: Seq<Option<i32>>, rsrq: Seq<Option<i32>>)
    requires
        rsrp.len() == 4,
        rsrq.len() == 4,
    ensures
        forall|k: int|
            0 <= k < ports_upto(rsrp, no_values(), rsrq, None, 4).len() ==> {
                let e = #[trigger] ports_upto(rsrp, no_values(), rsrq, None, 4)[k];
                &&& e.0 < 4
                &&& e.1 == value_or(rsrp[e.0 as int], -999)
                &&& e.2 == value_or(rsrq[e.0 as int], -999)
                &&& e.3 == 0
                &&& e.4 is None
            },
        forall|i: int|
            0 <= i < 4 && (rsrp[i] is Some || rsrq[i] is Some) ==> exists|k: int|
                0 <= k < ports_upto(rsrp, no_values(), rsrq, None, 4).len() && (#[trigger] ports_upto(
                    rsrp,
                    no_values(),
                    rsrq,
                    None,
                    4,
                )[k]).0 == i,
{
    lemma_ports_upto(rsrp, no_values(), rsrq, None, 4);
    assert forall|i: int| 0 <= i < 4 implies #[trigger] no_values()[i] is None by {}
}

// ---------------------------------------------------------------------------
// USB IDs
// ---------------------------------------------------------------------------

/// `id` is `field` left-padded with '0' to four characters: as long as
/// `field` when that has four or more, else four long, `field` at its end
/// and '0' before it.
pub open spec fn padded_id(id: Seq<char>, field: Seq<char>) -> bool {
    &&& id.len() == (if field.len() >= 4 { field.len() } else { 4 })
    &&& id.subrange(id.len() - field.len(), id.len() as int) == field
    &&& forall|i: int| 0 <= i < id.len() - field.len() ==> id[i] == '0'
}

/// Both USB IDs a `PRODUCT=<vid>/<pid>/...` uevent line gives are the
/// lowercased fields left-padded with '0' to at least four characters.
pub proof fn law_usb_ids_padded(line: Seq<char>)
    ensures
        product_ids(line) matches Some((v, p)) ==> {
            let parts = split(strip_all_prefixes(line, "PRODUCT="@), '/');
            &&& padded_id(v, unicode_lowercase(parts[0]))
            &&& padded_id(p, unicode_lowercase(parts[1]))
        },
{
    if product_ids(line) is Some {
        let parts = split(strip_all_prefixes(line, "PRODUCT="@), '/');
        let f = unicode_lowercase(parts[0]);
        let g = unicode_lowercase(parts[1]);
        if f.len() < 4 {
            let pad = Seq::new((4 - f.len()) as nat, |i: int| '0');
            assert((pad + f).subrange(pad.len() as int, (pad + f).len() as int) == f);
        } else {
            assert(f.subrange(0, f.len() as int) == f);
        }
        if g.len() < 4 {
            let pad = Seq::new((4 - g.len()) as nat, |i: int| '0');
            assert((pad + g).subrange(pad.len() as int, (pad + g).len() as int) == g);
        } else {
            assert(g.subrange(0, g.len() as int) == g);
        }
    }
}

proof fn lemma_first_some_from<T>(s: Seq<Seq<char>>, f: spec_fn(Seq<char>) -> Option<T>)
    ensures
        first_some(s, f) is Some ==> exists|i: int| 0 <= i < s.len() && f(#[trigger] s[i]) == first_some(s, f),
    decreases s.len(),
{
    if s.len() > 0 && f(s[0]) is None {
        lemma_first_some_from(s.drop_first(), f);
        if first_some(s, f) is Some {
            let i = choose|i: int| 0 <= i < s.drop_first().len() && f(#[trigger] s.drop_first()[i]) == first_some(
                s.drop_first(),
                f,
            );
            assert(s[i + 1] == s.drop_first()[i]);
        }
    } else if s.len() > 0 {
        assert(f(s[0]) == first_some(s, f));
    }
}

/// The USB IDs read from a uevent file come from one of its lines, so both
/// are at least four characters long.
pub proof fn law_uevent_ids_four_long(content: Seq<char>)
    ensures
        uevent_product(content) matches Some((v, p)) ==> v.len() >= 4 && p.len() >= 4 && exists|i: int|
            0 <= i < lines(content).len() && product_ids(#[trigger] lines(content)[i]) == Some((v, p)),
{
    let f = crate::hardware::product_ids_fn();
    lemma_first_some_from(lines(content), f);
    if uevent_product(content) is Some {
        let i = choose|i: int| 0 <= i < lines(content).len() && f(#[trigger] lines(content)[i]) == first_some(
            lines(content),
            f,
        );
        law_usb_ids_padded(lines(content)[i]);
    }
}

// ---------------------------------------------------------------------------
// End of an AT response
// ---------------------------------------------------------------------------

proof fn lemma_not_urc(t: Seq<char>, e: Option<Seq<char>>)
    requires
        t.len() > 0,
        t[0] != '+',
        t != "RDY"@ && t != "POWERED DOWN"@ && t != "NORMAL POWER DOWN"@,
    ensures
        !is_urc(t, e),
{
    reveal_strlit("+CREG:");
    reveal_strlit("+CGREG:");
    reveal_strlit("+CEREG:");
    reveal_strlit("+CGEV:");
    reveal_strlit("+CMTI:");
    reveal_strlit("+CMT:");
    reveal_strlit("+CMGS:");
    reveal_strlit("+CDS:");
    reveal_strlit("+CBM:");
    reveal_strlit("+CUSD:");
    reveal_strlit("+CRING:");
    reveal_strlit("+CLIP:");
    reveal_strlit("+CCWA:");
    reveal_strlit("+CPIN:");
    reveal_strlit("+QUSIM:");
    reveal_strlit("+QIND:");
    reveal_strlit("+QUSIM");
    reveal_strlit("+QMBN:");
    reveal_strlit("+QNETDEVSTATUS:");
    reveal_strlit("+CPIN: READY");
    let ps = urc_prefixes();
    assert forall|i: int| 0 <= i < ps.len() implies !starts_with(t, #[trigger] ps[i]) by {
        assert(ps[i][0] == '+');
        if starts_with(t, ps[i]) {
            assert(t.take(ps[i].len() as int)[0] == t[0]);
        }
    }
    let bs = urc_bare_lines();
    assert(bs[3][0] == '+');
    assert(!bs.contains(t)) by {
        if bs.contains(t) {
            let j = choose|j: int| 0 <= j < bs.len() && bs[j] == t;
            assert(j < 3);
        }
    }
}

/// After the echo, a line that trims to `OK` or `ERROR`, or starts with
/// `+CME ERROR`, completes the response, whatever the command: the line is
/// appended to the response and the exchange is done.
pub proof fn law_final_result_completes(v: FramingView, line: Seq<char>)
    requires
        v.echo_seen,
        trim(line) == "OK"@ || trim(line) == "ERROR"@ || starts_with(trim(line), "+CME ERROR"@),
    ensures
        frame_step(v, line) == (FramingView { response: v.response + line, ..v }, true),
{
    reveal_strlit("OK");
    reveal_strlit("ERROR");
    reveal_strlit("+CME ERROR");
    reveal_strlit("RDY");
    reveal_strlit("POWERED DOWN");
    reveal_strlit("NORMAL POWER DOWN");
    let t = trim(line);
    if t == "OK"@ || t == "ERROR"@ {
        lemma_not_urc(t, v.expected);
    } else {
        assert(t.take(10)[0] == '+');
        assert(t[0] == '+');
        // A `+CME ERROR` line is no URC: every URC prefix differs from it
        // within its first characters.
        lemma_cme_not_urc(t, v.expected);
    }
}

proof fn lemma_cme_not_urc(t: Seq<char>, e: Option<Seq<char>>)
    requires
        starts_with(t, "+CME ERROR"@),
    ensures
        !is_urc(t, e),
{
    reveal_strlit("+CME ERROR");
    reveal_strlit("+CREG:");
    reveal_strlit("+CGREG:");
    reveal_strlit("+CEREG:");
    reveal_strlit("+CGEV:");
    reveal_strlit("+CMTI:");
    reveal_strlit("+CMT:");
    reveal_strlit("+CMGS:");
    reveal_strlit("+CDS:");
    reveal_strlit("+CBM:");
    reveal_strlit("+CUSD:");
    reveal_strlit("+CRING:");
    reveal_strlit("+CLIP:");
    reveal_strlit("+CCWA:");
    reveal_strlit("+CPIN:");
    reveal_strlit("+QUSIM:");
    reveal_strlit("+QIND:");
    reveal_strlit("+QUSIM");
    reveal_strlit("+QMBN:");
    reveal_strlit("+QNETDEVSTATUS:");
    reveal_strlit("RDY");
    reveal_strlit("POWERED DOWN");
    reveal_strlit("NORMAL POWER DOWN");
    reveal_strlit("+CPIN: READY");
    assert(t[1] == 'C' && t[2] == 'M' && t[3] == 'E' && t[4] == ' ') by {
        assert(t.take(10) == "+CME ERROR"@);
        assert(t.take(10)[1] == t[1] && t.take(10)[2] == t[2] && t.take(10)[3] == t[3] && t.take(10)[4] == t[4]);
    }
    let ps = urc_prefixes();
    assert forall|i: int| 0 <= i < ps.len() implies !starts_with(t, #[trigger] ps[i]) by {
        if starts_with(t, ps[i]) {
            let n = ps[i].len();
            assert(n >= 5);
            assert(t.take(n as int)[1] == t[1] && t.take(n as int)[2] == t[2] && t.take(n as int)[3] == t[3]
                && t.take(n as int)[4] == t[4]);
        }
    }
    let bs = urc_bare_lines();
    assert(!bs.contains(t)) by {
        if bs.contains(t) {
            let j = choose|j: int| 0 <= j < bs.len() && bs[j] == t;
            assert(t.take(10)[3] == t[3]);
        }
    }
}

} // verus!
