//! How the AT handler reads the modem's replies: signal quality (`+CSQ`),
//! operator (`+COPS`), registration (`+CEREG`), PDP address (`+CGPADDR`),
//! the connection status built from them, and the network list of a scan.
//! The reply patterns are matched with the regex crate, as the handler does;
//! what is done with each match is stated here.

use vstd::prelude::*;
use crate::hardware::{cgpaddr_text, normalize_cgpaddr_ip, strings_view, HardwareError};
use crate::mock::signal_percent;
use crate::text::{
    all_bounds, all_digits, bounds, chars_of, first_index, lemma_first_index, lemma_first_index_none, find_char, index_of, lemma_index_of, occurs_at, contains, contains_seq, has_prefix, is_digit, line_ranges, lines,
    opt_view, parse_i32, parse_i32_chars, parse_u32,
    parse_u32_chars, push_all, decimal, push_decimal, first_some, lemma_first_some_at, slice_eq, starts_with, string_from_chars, trim, trim_bounds,
};
use crate::at_channel::{control_or_quote, first_byte_where, hex2, validate_at_quoted_arg};
use crate::at_replies::{cpin_state, extract_cme_error_code, line_cme_code_fn, parse_cpin};
use crate::types::{
    AvailableNetwork, ConnectionStatus, DeviceInfo, IpType, SimState, SimStatus, ModemStatus, NetworkStatus, RegistrationState, Technology,
};

verus! {

// ---------------------------------------------------------------------------
// Regex matches
// ---------------------------------------------------------------------------

/// The groups of one match, group 0 first; `None` for a group that took no
/// part in the match.
pub open spec fn groups_view(g: Seq<Option<String>>) -> Seq<Option<Seq<char>>> {
    g.map_values(|x: Option<String>| opt_view(x))
}

/// The view of an optional match.
pub open spec fn match_view(m: Option<Vec<Option<String>>>) -> Option<Seq<Option<Seq<char>>>> {
    match m {
        Some(g) => Some(groups_view(g@)),
        None => None,
    }
}

/// What `regex::Regex::new(pattern)` and then `captures(haystack)` give:
/// `None` when the pattern does not compile, `Some(None)` when it does not
/// match, else the groups of the leftmost-first match.
pub uninterp spec fn regex_first_captures(pattern: Seq<char>, haystack: Seq<char>) -> Option<Option<Seq<Option<Seq<char>>>>>;

/// What `regex::Regex::new(pattern)` and then `captures_iter(haystack)`
/// give: `None` when the pattern does not compile, else the groups of each
/// successive non-overlapping match.
pub uninterp spec fn regex_all_captures(pattern: Seq<char>, haystack: Seq<char>) -> Option<Seq<Seq<Option<Seq<char>>>>>;

/// `regex::Regex::new` then `Regex::captures`, each group's text copied
/// out. The result is named `regex_first_captures` of the two arguments;
/// the regex crate's matching rules are left unstated.
#[verifier::external_body]
fn regex_captures(pattern: &str, haystack: &str) -> (r: Option<Option<Vec<Option<String>>>>)
    ensures
        regex_first_captures(pattern@, haystack@) == match r {
            Some(m) => Some(match_view(m)),
            None => None,
        },
{
    match regex::Regex::new(pattern) {
        Ok(re) => Some(
            re.captures(haystack).map(|c| c.iter().map(|g| g.map(|g| g.as_str().to_string())).collect()),
        ),
        Err(_) => None,
    }
}

/// `regex::Regex::new` then `Regex::captures_iter`, each group's text
/// copied out. The result is named `regex_all_captures` of the two
/// arguments; the regex crate's matching rules are left unstated.
#[verifier::external_body]
fn regex_captures_all(pattern: &str, haystack: &str) -> (r: Option<Vec<Vec<Option<String>>>>)
    ensures
        regex_all_captures(pattern@, haystack@) == match r {
            Some(all) => Some(all@.map_values(|g: Vec<Option<String>>| groups_view(g@))),
            None => None,
        },
{
    match regex::Regex::new(pattern) {
        Ok(re) => Some(
            re.captures_iter(haystack).map(
                |c| c.iter().map(|g| g.map(|g| g.as_str().to_string())).collect(),
            ).collect(),
        ),
        Err(_) => None,
    }
}

/// The match of a pattern that compiles; a pattern that does not compile
/// matches nothing.
pub open spec fn first_match(pattern: Seq<char>, haystack: Seq<char>) -> Option<Seq<Option<Seq<char>>>> {
    match regex_first_captures(pattern, haystack) {
        Some(m) => m,
        None => None,
    }
}

pub(crate) fn find_match(pattern: &str, haystack: &str) -> (r: Option<Vec<Option<String>>>)
    ensures
        match_view(r) == first_match(pattern@, haystack@),
{
    match regex_captures(pattern, haystack) {
        Some(m) => m,
        None => None,
    }
}

/// Group `i` of a match (`Captures::get`): `None` past the last group.
pub open spec fn group(c: Seq<Option<Seq<char>>>, i: int) -> Option<Seq<char>> {
    if 0 <= i < c.len() {
        c[i]
    } else {
        None
    }
}

pub(crate) fn group_text(g: &Vec<Option<String>>, i: usize) -> (r: Option<String>)
    ensures
        opt_view(r) == group(groups_view(g@), i as int),
{
    if i < g.len() {
        match &g[i] {
            Some(t) => Some(t.clone()),
            None => None,
        }
    } else {
        None
    }
}

/// A group read as an `i32`.
pub open spec fn group_i32(c: Seq<Option<Seq<char>>>, i: int) -> Option<i32> {
    match group(c, i) {
        Some(t) => parse_i32(t),
        None => None,
    }
}

/// A group read as a `u32`.
pub open spec fn group_u32(c: Seq<Option<Seq<char>>>, i: int) -> Option<u32> {
    match group(c, i) {
        Some(t) => parse_u32(t),
        None => None,
    }
}

fn group_i32_of(g: &Vec<Option<String>>, i: usize) -> (r: Option<i32>)
    ensures
        r == group_i32(groups_view(g@), i as int),
{
    match group_text(g, i) {
        Some(t) => {
            let c = chars_of(t.as_str());
            parse_i32_chars(c.as_slice())
        },
        None => None,
    }
}

fn group_u32_of(g: &Vec<Option<String>>, i: usize) -> (r: Option<u32>)
    ensures
        r == group_u32(groups_view(g@), i as int),
{
    match group_text(g, i) {
        Some(t) => {
            let c = chars_of(t.as_str());
            parse_u32_chars(c.as_slice())
        },
        None => None,
    }
}

pub(crate) fn contains_str(s: &str, p: &str) -> (b: bool)
    ensures
        b == contains(s@, p@),
{
    let a = chars_of(s);
    let b = chars_of(p);
    contains_seq(a.as_slice(), b.as_slice())
}

// ---------------------------------------------------------------------------
// +CSQ
// ---------------------------------------------------------------------------

/// `+CSQ: <rssi>,<ber>`.
pub open spec fn csq_pattern() -> Seq<char> {
    r"\+CSQ:\s*(\d+),"@
}

/// The raw RSSI of a `+CSQ` match.
pub open spec fn csq_raw(m: Option<Seq<Option<Seq<char>>>>) -> Option<i32> {
    match m {
        Some(c) => group_i32(c, 1),
        None => None,
    }
}

/// The dBm of a raw RSSI: 99 (unknown) reads as -999, else `-113 + 2 * raw`.
pub open spec fn rssi_dbm(raw: i32) -> int {
    if raw == 99 {
        -999
    } else {
        -113 + raw * 2
    }
}

/// Whether the dBm of a raw RSSI, `-113 + raw * 2`, is computed without
/// leaving the `i32` range.
pub open spec fn dbm_fits(raw: i32) -> bool {
    raw == 99 || (i32::MIN <= raw * 2 <= i32::MAX && i32::MIN <= rssi_dbm(raw) <= i32::MAX)
}

/// The dBm a `+CSQ` match gives.
pub open spec fn csq_dbm(m: Option<Seq<Option<Seq<char>>>>) -> Option<int> {
    match csq_raw(m) {
        Some(raw) => Some(rssi_dbm(raw)),
        None => None,
    }
}

/// The RSSI in dBm of a `+CSQ` match (group 1 read as an integer).
pub fn csq_from_captures(m: &Option<Vec<Option<String>>>) -> (r: Option<i32>)
    requires
        csq_raw(match_view(*m)) matches Some(raw) ==> dbm_fits(raw),
    ensures
        match csq_dbm(match_view(*m)) {
            Some(d) => r == Some(d as i32),
            None => r is None,
        },
{
    match m {
        Some(g) => match group_i32_of(g, 1) {
            Some(raw) => {
                if raw == 99 {
                    Some(-999)
                } else {
                    Some(-113 + raw * 2)
                }
            },
            None => None,
        },
        None => None,
    }
}

/// What [`parse_csq`] reads from a reply: the dBm of its `+CSQ` match, or
/// nothing when there is none or its dBm would not fit an `i32`.
pub open spec fn csq_reading(response: Seq<char>) -> Option<int> {
    let m = first_match(csq_pattern(), response);
    match csq_raw(m) {
        Some(raw) => if dbm_fits(raw) {
            Some(rssi_dbm(raw))
        } else {
            None
        },
        None => None,
    }
}

/// Reads the RSSI in dBm from an `AT+CSQ` reply.
pub fn parse_csq(response: &str) -> (r: Option<i32>)
    ensures
        match csq_reading(response@) {
            Some(d) => r == Some(d as i32),
            None => r is None,
        },
{
    let m = find_match(r"\+CSQ:\s*(\d+),", response);
    let raw = match &m {
        Some(g) => group_i32_of(g, 1),
        None => None,
    };
    match raw {
        Some(v) => {
            if v != 99 && (v > 1_073_741_823 || v < -1_073_741_767) {
                return None;
            }
        },
        None => {},
    }
    csq_from_captures(&m)
}

// ---------------------------------------------------------------------------
// +COPS
// ---------------------------------------------------------------------------

/// `+COPS: <mode>[,<format>,"<oper>"[,<act>]]`.
pub open spec fn cops_pattern() -> Seq<char> {
    r#"\+COPS:\s*\d+(?:,\d+,"([^"]*)"(?:,(\d+))?)?"#@
}

/// The technology of a 3GPP access technology code.
pub open spec fn act_technology(act: u32) -> Option<Technology> {
    if act == 0 || act == 1 || act == 3 {
        Some(Technology::Gen2)
    } else if act == 2 || act == 4 || act == 5 || act == 6 {
        Some(Technology::Gen3)
    } else if act == 7 || act == 8 || act == 9 {
        Some(Technology::Gen4)
    } else if 10 <= act <= 13 {
        Some(Technology::Gen5)
    } else {
        None
    }
}

fn act_technology_of(act: u32) -> (r: Option<Technology>)
    ensures
        r == act_technology(act),
{
    if act == 0 || act == 1 || act == 3 {
        Some(Technology::Gen2)
    } else if act == 2 || act == 4 || act == 5 || act == 6 {
        Some(Technology::Gen3)
    } else if act == 7 || act == 8 || act == 9 {
        Some(Technology::Gen4)
    } else if 10 <= act && act <= 13 {
        Some(Technology::Gen5)
    } else {
        None
    }
}

/// The operator and technology of a `+COPS` match.
pub open spec fn cops_reading(m: Option<Seq<Option<Seq<char>>>>) -> (Option<Seq<char>>, Option<Technology>) {
    match m {
        Some(c) => (
            group(c, 1),
            match group_u32(c, 2) {
                Some(act) => act_technology(act),
                None => None,
            },
        ),
        None => (None, None),
    }
}

/// The operator name (group 1) and the technology of the access technology
/// code (group 2) of a `+COPS` match.
pub fn cops_from_captures(m: &Option<Vec<Option<String>>>) -> (r: (Option<String>, Option<Technology>))
    ensures
        (opt_view(r.0), r.1) == cops_reading(match_view(*m)),
{
    match m {
        Some(g) => {
            let operator = group_text(g, 1);
            let tech = match group_u32_of(g, 2) {
                Some(act) => act_technology_of(act),
                None => None,
            };
            (operator, tech)
        },
        None => (None, None),
    }
}

/// Reads the operator and technology from an `AT+COPS?` reply.
pub fn parse_cops(response: &str) -> (r: (Option<String>, Option<Technology>))
    ensures
        (opt_view(r.0), r.1) == cops_reading(first_match(cops_pattern(), response@)),
{
    let m = find_match(r#"\+COPS:\s*\d+(?:,\d+,"([^"]*)"(?:,(\d+))?)?"#, response);
    cops_from_captures(&m)
}

// ---------------------------------------------------------------------------
// +CEREG
// ---------------------------------------------------------------------------

/// `+CEREG: <n>,<stat>` (also `+CREG`, `+C5GREG`, `+CGREG`).
pub open spec fn cereg_pattern() -> Seq<char> {
    r"\+C[E5G]?REG:\s*\d+,(\d+)"@
}

/// The registration state of a `<stat>` code.
pub open spec fn stat_state(stat: u32) -> RegistrationState {
    if stat == 0 {
        RegistrationState::NotRegistered
    } else if stat == 1 {
        RegistrationState::Registered { home: true }
    } else if stat == 2 {
        RegistrationState::Searching
    } else if stat == 3 {
        RegistrationState::Denied
    } else if stat == 5 {
        RegistrationState::Registered { home: false }
    } else {
        RegistrationState::Unknown
    }
}

/// The registration state of a `+CEREG` match.
pub open spec fn cereg_reading(m: Option<Seq<Option<Seq<char>>>>) -> RegistrationState {
    match m {
        Some(c) => match group_u32(c, 1) {
            Some(stat) => stat_state(stat),
            None => RegistrationState::Unknown,
        },
        None => RegistrationState::Unknown,
    }
}

/// The registration state of the `<stat>` code (group 1) of a `+CEREG`
/// match; `Unknown` without one.
pub fn cereg_from_captures(m: &Option<Vec<Option<String>>>) -> (r: RegistrationState)
    ensures
        r == cereg_reading(match_view(*m)),
{
    match m {
        Some(g) => match group_u32_of(g, 1) {
            Some(stat) => {
                if stat == 0 {
                    RegistrationState::NotRegistered
                } else if stat == 1 {
                    RegistrationState::Registered { home: true }
                } else if stat == 2 {
                    RegistrationState::Searching
                } else if stat == 3 {
                    RegistrationState::Denied
                } else if stat == 5 {
                    RegistrationState::Registered { home: false }
                } else {
                    RegistrationState::Unknown
                }
            },
            None => RegistrationState::Unknown,
        },
        None => RegistrationState::Unknown,
    }
}

/// Reads the registration state from an `AT+CEREG?` reply.
pub fn parse_cereg(response: &str) -> (r: RegistrationState)
    ensures
        r == cereg_reading(first_match(cereg_pattern(), response@)),
{
    let m = find_match(r"\+C[E5G]?REG:\s*\d+,(\d+)", response);
    cereg_from_captures(&m)
}

// ---------------------------------------------------------------------------
// +CGPADDR
// ---------------------------------------------------------------------------

/// `+CGPADDR: <cid>,"<address>"`.
pub open spec fn cgpaddr_pattern() -> Seq<char> {
    r#"\+CGPADDR:\s*\d+,"([^"]+)""#@
}

/// The address of a `+CGPADDR` match, IPv6 in colon-hex.
pub open spec fn cgpaddr_reading(m: Option<Seq<Option<Seq<char>>>>) -> Option<Seq<char>> {
    match m {
        Some(c) => match group(c, 1) {
            Some(a) => Some(cgpaddr_text(a)),
            None => None,
        },
        None => None,
    }
}

/// The address (group 1) of a `+CGPADDR` match, normalized with
/// [`normalize_cgpaddr_ip`].
pub fn cgpaddr_from_captures(m: &Option<Vec<Option<String>>>) -> (r: Option<String>)
    ensures
        opt_view(r) == cgpaddr_reading(match_view(*m)),
{
    match m {
        Some(g) => match group_text(g, 1) {
            Some(a) => Some(normalize_cgpaddr_ip(a.as_str())),
            None => None,
        },
        None => None,
    }
}

/// The address an optional `AT+CGPADDR=1` reply gives.
pub open spec fn ip_reading(reply: Option<Seq<char>>) -> Option<Seq<char>> {
    match reply {
        Some(t) => cgpaddr_reading(first_match(cgpaddr_pattern(), t)),
        None => None,
    }
}

fn ip_of(reply: Option<&str>) -> (r: Option<String>)
    ensures
        opt_view(r) == ip_reading(match reply {
            Some(t) => Some(t@),
            None => None,
        }),
{
    match reply {
        Some(t) => {
            let m = find_match(r#"\+CGPADDR:\s*\d+,"([^"]+)""#, t);
            cgpaddr_from_captures(&m)
        },
        None => None,
    }
}

// ---------------------------------------------------------------------------
// Connection status
// ---------------------------------------------------------------------------

/// Whether an `AT+CFUN?` reply reports flight mode (radio off).
pub open spec fn flight_mode(cfun: Seq<char>) -> bool {
    contains(cfun, "+CFUN: 4"@) || contains(cfun, "+CFUN: 0"@)
}

/// Whether an `AT+CFUN?` reply reports flight mode (`+CFUN: 4` or
/// `+CFUN: 0`); the status is then reported disconnected without asking
/// further.
pub fn in_flight_mode(cfun: &str) -> (b: bool)
    ensures
        b == flight_mode(cfun@),
{
    contains_str(cfun, "+CFUN: 4") || contains_str(cfun, "+CFUN: 0")
}

/// Whether an `AT+CGACT?` reply shows context 1 active.
pub open spec fn pdp_active(cgact: Seq<char>) -> bool {
    contains(cgact, "+CGACT: 1,1"@)
}

/// The signal strength (0-100) of an `AT+CSQ` reply; no reading counts as
/// 0 dBm.
pub open spec fn csq_signal(csq: Seq<char>) -> int {
    match csq_reading(csq) {
        Some(d) => signal_percent(d),
        None => signal_percent(0),
    }
}

fn signal_of(dbm: i32) -> (r: i32)
    ensures
        r == signal_percent(dbm as int),
{
    let n: i64 = dbm as i64 + 113;
    if n <= 0 {
        0
    } else if n * 100 / 62 > 100 {
        100
    } else {
        (n * 100 / 62) as i32
    }
}

/// The status of a modem that is not in flight mode, from its replies to
/// `AT+CSQ`, `AT+COPS?`, `AT+CGACT?` and (when it answered) `AT+CGPADDR=1`,
/// and whether its network interface is up: connected when context 1 is
/// active or the interface is up.
pub fn modem_status(csq: &str, cops: &str, cgact: &str, cgpaddr: Option<&str>, interface_up: bool) -> (r: ModemStatus)
    ensures
        r.connected == (pdp_active(cgact@) || interface_up),
        (opt_view(r.operator), r.technology) == cops_reading(first_match(cops_pattern(), cops@)),
        r.signal_strength == csq_signal(csq@),
        opt_view(r.ip_address) == ip_reading(match cgpaddr {
            Some(t) => Some(t@),
            None => None,
        }),
{
    let dbm = match parse_csq(csq) {
        Some(d) => d,
        None => 0,
    };
    let signal_strength = signal_of(dbm);
    let (operator, technology) = parse_cops(cops);
    let connected = contains_str(cgact, "+CGACT: 1,1") || interface_up;
    ModemStatus { connected, technology, operator, signal_strength, ip_address: ip_of(cgpaddr) }
}

/// The connection state of a modem that is not in flight mode, as
/// [`modem_status`] without the signal.
pub fn connection_status(cops: &str, cgact: &str, cgpaddr: Option<&str>, interface_up: bool) -> (r: ConnectionStatus)
    ensures
        r.connected == (pdp_active(cgact@) || interface_up),
        (opt_view(r.operator), r.technology) == cops_reading(first_match(cops_pattern(), cops@)),
        opt_view(r.ip_address) == ip_reading(match cgpaddr {
            Some(t) => Some(t@),
            None => None,
        }),
{
    let (operator, technology) = parse_cops(cops);
    let connected = contains_str(cgact, "+CGACT: 1,1") || interface_up;
    ConnectionStatus { connected, technology, operator, ip_address: ip_of(cgpaddr) }
}

// ---------------------------------------------------------------------------
// Network scan
// ---------------------------------------------------------------------------

/// One network of an `AT+COPS=?` reply:
/// `(<stat>,"<long>","<short>","<numeric>"[,<act>])`.
pub open spec fn scan_pattern() -> Seq<char> {
    r#"\((\d+),"([^"]*)","([^"]*)","(\d+)"(?:,(\d+))?\)"#@
}

/// The status of a scanned network's `<stat>` code; other codes drop it.
pub open spec fn scan_status(stat: u32) -> Option<NetworkStatus> {
    if stat == 1 {
        Some(NetworkStatus::Available)
    } else if stat == 2 {
        Some(NetworkStatus::Current)
    } else if stat == 3 {
        Some(NetworkStatus::Forbidden)
    } else {
        None
    }
}

/// The technology of a scanned network's `<act>` code (4G when absent or
/// unknown).
pub open spec fn scan_technology(act: Option<u32>) -> Technology {
    match act {
        Some(a) => if a == 0 {
            Technology::Gen2
        } else if a == 2 {
            Technology::Gen3
        } else if a == 12 {
            Technology::Gen5
        } else {
            Technology::Gen4
        },
        None => Technology::Gen4,
    }
}

/// A scanned network as values: name, numeric code, technology, status.
pub open spec fn network_view(n: AvailableNetwork) -> (Seq<char>, Seq<char>, Technology, NetworkStatus) {
    (n.operator_name@, n.operator_code@, n.technology, n.status)
}

/// The network of one match, if its status is one that is listed.
pub open spec fn network_of(c: Seq<Option<Seq<char>>>) -> Option<(Seq<char>, Seq<char>, Technology, NetworkStatus)> {
    match (group_u32(c, 1), group(c, 2), group(c, 4)) {
        (Some(stat), Some(name), Some(code)) => match scan_status(stat) {
            Some(st) => Some((name, code, scan_technology(group_u32(c, 5)), st)),
            None => None,
        },
        _ => None,
    }
}

/// The networks of successive matches, in order.
pub open spec fn networks_of(all: Seq<Seq<Option<Seq<char>>>>) -> Seq<(Seq<char>, Seq<char>, Technology, NetworkStatus)>
    decreases all.len(),
{
    if all.len() == 0 {
        Seq::empty()
    } else {
        let prev = networks_of(all.drop_last());
        match network_of(all.last()) {
            Some(n) => prev.push(n),
            None => prev,
        }
    }
}

pub open spec fn all_groups_view(all: Seq<Vec<Option<String>>>) -> Seq<Seq<Option<Seq<char>>>> {
    all.map_values(|g: Vec<Option<String>>| groups_view(g@))
}

/// The networks of the matches of an `AT+COPS=?` reply: for each match with
/// a `<stat>` (group 1), a long name (group 2) and a numeric code (group
/// 4), and a status of 1, 2 or 3, one network with the technology of its
/// `<act>` (group 5).
pub fn networks_from_captures(all: &Vec<Vec<Option<String>>>) -> (r: Vec<AvailableNetwork>)
    ensures
        r@.map_values(|n: AvailableNetwork| network_view(n)) == networks_of(all_groups_view(all@)),
{
    let ghost av = all_groups_view(all@);
    let mut out: Vec<AvailableNetwork> = Vec::new();
    let mut i: usize = 0;
    assert(av.take(0) =~= Seq::<Seq<Option<Seq<char>>>>::empty());
    assert(out@.map_values(|n: AvailableNetwork| network_view(n)) =~= Seq::<(Seq<char>, Seq<char>, Technology, NetworkStatus)>::empty());
    while i < all.len()
        invariant
            i <= all@.len(),
            av == all_groups_view(all@),
            out@.map_values(|n: AvailableNetwork| network_view(n)) == networks_of(av.take(i as int)),
        decreases all@.len() - i,
    {
        proof {
            assert(av.take(i + 1).drop_last() == av.take(i as int));
            assert(av.take(i + 1).last() == av[i as int]);
            assert(av[i as int] == groups_view(all@[i as int]@));
        }
        let g = &all[i];
        let stat = group_u32_of(g, 1);
        let name = group_text(g, 2);
        let code = group_text(g, 4);
        let act = group_u32_of(g, 5);
        match (stat, name, code) {
            (Some(st), Some(name), Some(code)) => {
                let status = if st == 1 {
                    Some(NetworkStatus::Available)
                } else if st == 2 {
                    Some(NetworkStatus::Current)
                } else if st == 3 {
                    Some(NetworkStatus::Forbidden)
                } else {
                    None
                };
                let technology = match act {
                    Some(0) => Technology::Gen2,
                    Some(2) => Technology::Gen3,
                    Some(12) => Technology::Gen5,
                    _ => Technology::Gen4,
                };
                match status {
                    Some(status) => {
                        let ghost before = out@;
                        let n = AvailableNetwork {
                            operator_name: name,
                            operator_code: code,
                            technology,
                            status,
                        };
                        out.push(n);
                        assert(out@.map_values(|n: AvailableNetwork| network_view(n)) =~= before.map_values(
                            |n: AvailableNetwork| network_view(n),
                        ).push(network_view(n)));
                    },
                    None => {},
                }
            },
            _ => {},
        }
        i = i + 1;
    }
    assert(av.take(i as int) == av);
    out
}

/// The networks an `AT+COPS=?` reply lists.
pub open spec fn scanned_networks(response: Seq<char>) -> Seq<(Seq<char>, Seq<char>, Technology, NetworkStatus)> {
    match regex_all_captures(scan_pattern(), response) {
        Some(all) => networks_of(all),
        None => Seq::empty(),
    }
}

/// Reads the networks of an `AT+COPS=?` reply.
pub fn parse_network_scan(response: &str) -> (r: Vec<AvailableNetwork>)
    ensures
        r@.map_values(|n: AvailableNetwork| network_view(n)) == scanned_networks(response@),
{
    match regex_captures_all(r#"\((\d+),"([^"]*)","([^"]*)","(\d+)"(?:,(\d+))?\)"#, response) {
        Some(all) => networks_from_captures(&all),
        None => {
            let out: Vec<AvailableNetwork> = Vec::new();
            assert(out@.map_values(|n: AvailableNetwork| network_view(n)) =~= Seq::<(Seq<char>, Seq<char>, Technology, NetworkStatus)>::empty());
            out
        },
    }
}

// ---------------------------------------------------------------------------
// Commands
// ---------------------------------------------------------------------------

/// Appends the characters of `t`.
fn append(v: &mut Vec<char>, t: &str)
    ensures
        final(v)@ == old(v)@ + t@,
{
    let c = chars_of(t);
    push_all(v, c.as_slice());
}

/// The command that selects a network: manual registration on the
/// numeric operator code, or automatic selection without one.
pub fn select_network_command(operator_code: Option<&str>) -> (r: String)
    ensures
        r@ == match operator_code {
            Some(c) => "AT+COPS=1,2,\""@ + c@ + "\""@,
            None => "AT+COPS=0"@,
        },
{
    match operator_code {
        Some(c) => {
            let mut v = chars_of("AT+COPS=1,2,\"");
            append(&mut v, c);
            append(&mut v, "\"");
            string_from_chars(v.as_slice())
        },
        None => "AT+COPS=0".to_string(),
    }
}

/// The command that changes the SIM PIN.
pub fn pin_change_command(old_pin: &str, new_pin: &str) -> (r: String)
    ensures
        r@ == "AT+CPWD=\"SC\",\""@ + old_pin@ + "\",\""@ + new_pin@ + "\""@,
{
    let mut v = chars_of("AT+CPWD=\"SC\",\"");
    append(&mut v, old_pin);
    append(&mut v, "\",\"");
    append(&mut v, new_pin);
    append(&mut v, "\"");
    string_from_chars(v.as_slice())
}

/// The command that turns the SIM PIN lock on (`enable`) or off.
pub fn pin_lock_command(enable: bool, pin: &str) -> (r: String)
    ensures
        r@ == "AT+CLCK=\"SC\","@ + (if enable { "1"@ } else { "0"@ }) + ",\""@ + pin@ + "\""@,
{
    let mut v = chars_of("AT+CLCK=\"SC\",");
    if enable {
        append(&mut v, "1");
    } else {
        append(&mut v, "0");
    }
    append(&mut v, ",\"");
    append(&mut v, pin);
    append(&mut v, "\"");
    string_from_chars(v.as_slice())
}

/// The outcome of a command whose reply only says whether it worked: the
/// given error when the reply contains `ERROR`, success otherwise.
pub fn reply_result(response: &str, on_error: HardwareError) -> (r: Result<(), HardwareError>)
    ensures
        contains(response@, "ERROR"@) ==> r == Err::<(), HardwareError>(on_error),
        !contains(response@, "ERROR"@) ==> r is Ok,
{
    if contains_str(response, "ERROR") {
        Err(on_error)
    } else {
        Ok(())
    }
}

/// The PDP type of an IP version, as `AT+CGDCONT` spells it.
pub open spec fn pdp_type(ip: IpType) -> Seq<char> {
    match ip {
        IpType::Ipv4 => "IP"@,
        IpType::Ipv6 => "IPV6"@,
        IpType::Ipv4v6 => "IPV4V6"@,
    }
}

/// The command that writes PDP context `cid` with the APN; refused (as
/// [`validate_at_quoted_arg`] refuses) when the APN holds a double quote or
/// a control character.
pub fn pdp_context_command(cid: u8, ip_type: IpType, apn: &str) -> (r: Result<String, HardwareError>)
    ensures
        first_byte_where(apn@, control_or_quote()) is None ==> (r matches Ok(c) && c@ == "AT+CGDCONT="@
            + decimal(cid as nat) + ",\""@ + pdp_type(ip_type) + "\",\""@ + apn@ + "\""@),
        first_byte_where(apn@, control_or_quote()) matches Some(b) ==> (r matches Err(
            HardwareError::CommandRejected(m),
        ) && m@ == "AT quoted argument contains forbidden byte 0x"@ + hex2(b) + ""@),
{
    match validate_at_quoted_arg(apn) {
        Ok(()) => {},
        Err(e) => return Err(e),
    }
    let mut v = chars_of("AT+CGDCONT=");
    push_decimal(&mut v, cid as u64);
    append(&mut v, ",\"");
    match ip_type {
        IpType::Ipv4 => append(&mut v, "IP"),
        IpType::Ipv6 => append(&mut v, "IPV6"),
        IpType::Ipv4v6 => append(&mut v, "IPV4V6"),
    }
    append(&mut v, "\",\"");
    append(&mut v, apn);
    append(&mut v, "\"");
    Ok(string_from_chars(v.as_slice()))
}

/// Whether the CME code is one of `codes`.
fn code_listed(codes: &[u32], c: u32) -> (b: bool)
    ensures
        b == codes@.contains(c),
{
    let mut i: usize = 0;
    while i < codes.len()
        invariant
            i <= codes@.len(),
            forall|k: int| 0 <= k < i ==> codes@[k] != c,
        decreases codes@.len() - i,
    {
        if codes[i] == c {
            assert(codes@[i as int] == c);
            return true;
        }
        i = i + 1;
    }
    false
}

/// `what` followed by the trimmed reply.
fn failure_text(what: &str, reply: &str) -> (r: String)
    ensures
        r@ == what@ + trim(reply@),
{
    let mut v = chars_of(what);
    let all = chars_of(reply);
    let (a, b) = trim_bounds(all.as_slice());
    push_all(&mut v, &all.as_slice()[a..b]);
    string_from_chars(v.as_slice())
}

/// Whether a GPS start or stop reply is acceptable: no `ERROR`, or a CME
/// code that the profile lists as harmless, or (start only, when the
/// profile says so) a bare `ERROR` without a code.
pub open spec fn gps_reply_ok(reply: Seq<char>, harmless: Seq<u32>, tolerate_bare: bool) -> bool {
    !contains(reply, "ERROR"@) || match first_some(lines(reply), line_cme_code_fn()) {
        Some(c) => harmless.contains(c),
        None => tolerate_bare,
    }
}

/// The outcome of the GPS engine's start command: success when
/// [`gps_reply_ok`] holds, else a protocol error naming the reply.
pub fn gps_start_result(reply: &str, already_running_codes: &[u32], tolerates_bare_error: bool) -> (r: Result<(), HardwareError>)
    ensures
        gps_reply_ok(reply@, already_running_codes@, tolerates_bare_error) ==> r is Ok,
        !gps_reply_ok(reply@, already_running_codes@, tolerates_bare_error) ==> (r matches Err(
            HardwareError::Protocol(m),
        ) && m@ == "Failed to enable GPS: "@ + trim(reply@)),
{
    if !contains_str(reply, "ERROR") {
        return Ok(());
    }
    let ok = match extract_cme_error_code(reply) {
        Some(c) => code_listed(already_running_codes, c),
        None => tolerates_bare_error,
    };
    if ok {
        Ok(())
    } else {
        Err(HardwareError::Protocol(failure_text("Failed to enable GPS: ", reply)))
    }
}

/// The outcome of the GPS engine's stop command: success when
/// [`gps_reply_ok`] holds (a bare `ERROR` is never harmless), else a
/// protocol error naming the reply.
pub fn gps_stop_result(reply: &str, already_stopped_codes: &[u32]) -> (r: Result<(), HardwareError>)
    ensures
        gps_reply_ok(reply@, already_stopped_codes@, false) ==> r is Ok,
        !gps_reply_ok(reply@, already_stopped_codes@, false) ==> (r matches Err(HardwareError::Protocol(m))
            && m@ == "Failed to stop GPS: "@ + trim(reply@)),
{
    if !contains_str(reply, "ERROR") {
        return Ok(());
    }
    let ok = match extract_cme_error_code(reply) {
        Some(c) => code_listed(already_stopped_codes, c),
        None => false,
    };
    if ok {
        Ok(())
    } else {
        Err(HardwareError::Protocol(failure_text("Failed to stop GPS: ", reply)))
    }
}

// ---------------------------------------------------------------------------
// Port verification
// ---------------------------------------------------------------------------

/// What one line read while verifying a port with `AT` means.
#[derive(Debug, Clone, PartialEq, Eq)]
pub enum VerifyLine {
    /// `OK`: the port answers.
    Answered,
    /// `ERROR`, `+CME ERROR...` or `+CMS ERROR...`: the modem refused; the
    /// trimmed line.
    Refused(String),
    /// Anything else: keep reading.
    Pending,
}

/// What a line read while verifying a port means.
pub open spec fn verify_line_meaning(line: Seq<char>) -> Option<Option<Seq<char>>> {
    let t = trim(line);
    if t == "OK"@ {
        Some(None)
    } else if t == "ERROR"@ || starts_with(t, "+CME ERROR"@) || starts_with(t, "+CMS ERROR"@) {
        Some(Some(t))
    } else {
        None
    }
}

/// Classifies a line read while verifying a port: trimmed `OK` answers,
/// trimmed `ERROR` or a `+CME ERROR`/`+CMS ERROR` line refuses, anything
/// else is not yet an answer.
pub fn classify_verify_line(line: &str) -> (r: VerifyLine)
    ensures
        match verify_line_meaning(line@) {
            Some(None) => r is Answered,
            Some(Some(t)) => r matches VerifyLine::Refused(s) && s@ == t,
            None => r is Pending,
        },
{
    let all = chars_of(line);
    let (a, b) = trim_bounds(all.as_slice());
    let t = &all.as_slice()[a..b];
    let ok = chars_of("OK");
    let err = chars_of("ERROR");
    let cme = chars_of("+CME ERROR");
    let cms = chars_of("+CMS ERROR");
    if slice_eq(t, ok.as_slice()) {
        VerifyLine::Answered
    } else if slice_eq(t, err.as_slice()) || has_prefix(t, cme.as_slice())
        || has_prefix(t, cms.as_slice()) {
        VerifyLine::Refused(string_from_chars(t))
    } else {
        VerifyLine::Pending
    }
}

// ---------------------------------------------------------------------------
// Device identity
// ---------------------------------------------------------------------------

pub open spec fn is_ascii_alpha(c: char) -> bool {
    ('a' <= c && c <= 'z') || ('A' <= c && c <= 'Z')
}

/// Whether `s` has an ASCII letter.
pub open spec fn any_alpha(s: Seq<char>) -> bool {
    exists|i: int| 0 <= i < s.len() && is_ascii_alpha(#[trigger] s[i])
}

/// Whether `s` has an ASCII letter or digit.
pub open spec fn any_alnum(s: Seq<char>) -> bool {
    exists|i: int| 0 <= i < s.len() && (is_ascii_alpha(#[trigger] s[i]) || is_digit(s[i]))
}

fn any_alpha_of(s: &[char]) -> (b: bool)
    ensures
        b == any_alpha(s@),
{
    let mut i: usize = 0;
    while i < s.len()
        invariant
            i <= s@.len(),
            forall|k: int| 0 <= k < i ==> !is_ascii_alpha(#[trigger] s@[k]),
        decreases s@.len() - i,
    {
        let c = s[i];
        if ('a' <= c && c <= 'z') || ('A' <= c && c <= 'Z') {
            return true;
        }
        i = i + 1;
    }
    false
}

fn any_alnum_of(s: &[char]) -> (b: bool)
    ensures
        b == any_alnum(s@),
{
    let mut i: usize = 0;
    while i < s.len()
        invariant
            i <= s@.len(),
            forall|k: int| 0 <= k < i ==> !(is_ascii_alpha(#[trigger] s@[k]) || is_digit(s@[k])),
        decreases s@.len() - i,
    {
        let c = s[i];
        if ('a' <= c && c <= 'z') || ('A' <= c && c <= 'Z') || ('0' <= c && c <= '9') {
            return true;
        }
        i = i + 1;
    }
    false
}

/// Whether a trimmed line of an `ATI` reply names the device: not the
/// echoed command, not blank, not `OK` or `ERROR`.
pub open spec fn ati_keep(l: Seq<char>) -> bool {
    !starts_with(l, "ATI"@) && l.len() > 0 && l != "OK"@ && l != "ERROR"@
}

/// The kept lines, trimmed, in order.
pub open spec fn kept_ati_lines(ls: Seq<Seq<char>>) -> Seq<Seq<char>>
    decreases ls.len(),
{
    if ls.len() == 0 {
        Seq::empty()
    } else {
        let prev = kept_ati_lines(ls.drop_last());
        if ati_keep(trim(ls.last())) {
            prev.push(trim(ls.last()))
        } else {
            prev
        }
    }
}

/// The identity lines of an `ATI` reply.
pub open spec fn ati_lines(ati: Seq<char>) -> Seq<Seq<char>> {
    kept_ati_lines(lines(ati))
}

/// The identity lines of an `ATI` reply: its lines trimmed, without the
/// echoed command, blank lines, `OK` and `ERROR`.
pub fn ati_identity_lines(ati: &str) -> (r: Vec<String>)
    ensures
        r@.map_values(|l: String| l@) == ati_lines(ati@),
{
    let all = chars_of(ati);
    let ranges = line_ranges(all.as_slice());
    let ghost ls = lines(all@);
    let mut out: Vec<String> = Vec::new();
    let mut i: usize = 0;
    assert(ls.take(0) =~= Seq::<Seq<char>>::empty());
    assert(out@.map_values(|l: String| l@) =~= Seq::<Seq<char>>::empty());
    while i < ranges.len()
        invariant
            i <= ranges@.len(),
            ls == lines(all@),
            all@ == ati@,
            all_bounds(all@, ranges@, ls),
            out@.map_values(|l: String| l@) == kept_ati_lines(ls.take(i as int)),
        decreases ranges@.len() - i,
    {
        let (a, e) = ranges[i];
        assert(bounds(all@, ranges@[i as int], ls[i as int]));
        let line = &all.as_slice()[a..e];
        let (ta, tb) = trim_bounds(line);
        let t = &line[ta..tb];
        proof {
            assert(ls.take(i + 1).drop_last() == ls.take(i as int));
            assert(ls.take(i + 1).last() == ls[i as int]);
            assert(line@ == ls[i as int]);
        }
        let atic = chars_of("ATI");
        let okc = chars_of("OK");
        let errc = chars_of("ERROR");
        if !has_prefix(t, atic.as_slice()) && t.len() > 0 && !slice_eq(t, okc.as_slice())
            && !slice_eq(t, errc.as_slice()) {
            let ghost before = out@;
            out.push(string_from_chars(t));
            assert(out@.map_values(|l: String| l@) =~= before.map_values(|l: String| l@).push(t@));
        }
        i = i + 1;
    }
    assert(ls.take(i as int) == ls);
    out
}

/// Element `i` of the identity lines, or "Unknown".
pub open spec fn line_or_unknown(ls: Seq<Seq<char>>, i: int) -> Seq<char> {
    if 0 <= i < ls.len() {
        ls[i]
    } else {
        "Unknown"@
    }
}

/// Whether the `ATI` identity needs the standard `AT+CGMI`/`AT+CGMM`
/// queries: the manufacturer or the model has no letter, or the model is
/// unknown (e.g. a modem that answers `ATI` with just a number).
pub open spec fn identity_needs_fallback(manufacturer: Seq<char>, model: Seq<char>) -> bool {
    !any_alpha(manufacturer) || !any_alpha(model) || model == "Unknown"@
}

/// Whether an `ATI` reply leaves the identity to `AT+CGMI`/`AT+CGMM`.
pub fn ati_needs_fallback(ati: &str) -> (b: bool)
    ensures
        b == identity_needs_fallback(line_or_unknown(ati_lines(ati@), 0), line_or_unknown(ati_lines(ati@), 1)),
{
    let ls = ati_identity_lines(ati);
    let m = if ls.len() > 0 { chars_of(ls[0].as_str()) } else { chars_of("Unknown") };
    let d = if ls.len() > 1 { chars_of(ls[1].as_str()) } else { chars_of("Unknown") };
    proof {
        assert(ls@.map_values(|l: String| l@).len() == ls@.len());
        if ls@.len() > 0 {
            assert(ls@.map_values(|l: String| l@)[0] == ls@[0]@);
        }
        if ls@.len() > 1 {
            assert(ls@.map_values(|l: String| l@)[1] == ls@[1]@);
        }
    }
    let unknown = chars_of("Unknown");
    !any_alpha_of(m.as_slice()) || !any_alpha_of(d.as_slice()) || slice_eq(d.as_slice(), unknown.as_slice())
}

/// A value line of an `AT+CGMI`/`AT+CGMM` reply, trimmed: not blank, not
/// `OK`, not an echo (`AT+...`), not a `+CME` error.
pub open spec fn info_value(line: Seq<char>) -> Option<Seq<char>> {
    let t = trim(line);
    if t.len() > 0 && t != "OK"@ && !starts_with(t, "AT+"@) && !starts_with(t, "+CME"@) {
        Some(t)
    } else {
        None
    }
}

pub open spec fn info_value_fn() -> spec_fn(Seq<char>) -> Option<Seq<char>> {
    |line: Seq<char>| info_value(line)
}

/// The first value line of an `AT+CGMI`/`AT+CGMM` reply.
pub open spec fn info_line(reply: Seq<char>) -> Option<Seq<char>> {
    first_some(lines(reply), info_value_fn())
}

fn info_value_of(line: &[char]) -> (r: Option<Vec<char>>)
    ensures
        match info_value(line@) {
            Some(t) => r matches Some(v) && v@ == t,
            None => r is None,
        },
{
    let (a, e) = trim_bounds(line);
    let t = &line[a..e];
    let okc = chars_of("OK");
    let atc = chars_of("AT+");
    let cmec = chars_of("+CME");
    if t.len() > 0 && !slice_eq(t, okc.as_slice()) && !has_prefix(t, atc.as_slice()) && !has_prefix(
        t,
        cmec.as_slice(),
    ) {
        let mut v: Vec<char> = Vec::new();
        push_all(&mut v, t);
        Some(v)
    } else {
        None
    }
}

/// The first value line of an `AT+CGMI`/`AT+CGMM` reply, trimmed.
pub fn info_line_of(reply: &str) -> (r: Option<String>)
    ensures
        opt_view(r) == info_line(reply@),
{
    let all = chars_of(reply);
    let ranges = line_ranges(all.as_slice());
    let ghost ls = lines(all@);
    let mut i: usize = 0;
    while i < ranges.len()
        invariant
            i <= ranges@.len(),
            ls == lines(all@),
            all@ == reply@,
            all_bounds(all@, ranges@, ls),
            forall|k: int| 0 <= k < i ==> (info_value_fn())(#[trigger] ls[k]) is None,
        decreases ranges@.len() - i,
    {
        let (a, e) = ranges[i];
        assert(bounds(all@, ranges@[i as int], ls[i as int]));
        let r = info_value_of(&all.as_slice()[a..e]);
        proof {
            assert(all@.subrange(a as int, e as int) == ls[i as int]);
            assert((info_value_fn())(ls[i as int]) == info_value(ls[i as int]));
            lemma_first_some_at(ls, info_value_fn(), i as int);
        }
        match r {
            Some(v) => {
                return Some(string_from_chars(v.as_slice()));
            },
            None => {},
        }
        i = i + 1;
    }
    proof {
        if ls.len() > 0 {
            lemma_first_some_at(ls, info_value_fn(), ls.len() - 1);
        }
    }
    None
}

/// `Some(s)` unless `s` is empty.
pub open spec fn nonblank(s: Seq<char>) -> Option<Seq<char>> {
    if s.len() > 0 {
        Some(s)
    } else {
        None
    }
}

/// A candidate firmware line: not empty, no `OK` in it, not starting with
/// `AT`; trimmed.
pub open spec fn firmware_candidate(line: Seq<char>) -> Option<Seq<char>> {
    if line.len() > 0 && !contains(line, "OK"@) && !starts_with(line, "AT"@) {
        Some(trim(line))
    } else {
        None
    }
}

pub open spec fn firmware_candidate_fn() -> spec_fn(Seq<char>) -> Option<Seq<char>> {
    |line: Seq<char>| firmware_candidate(line)
}

/// The firmware version a reply gives without a pattern: its first
/// candidate line, trimmed, if that is not blank.
pub open spec fn firmware_by_line(reply: Seq<char>) -> Option<Seq<char>> {
    match first_some(lines(reply), firmware_candidate_fn()) {
        Some(t) => nonblank(t),
        None => None,
    }
}

fn firmware_candidate_of(line: &[char]) -> (r: Option<Vec<char>>)
    ensures
        match firmware_candidate(line@) {
            Some(t) => r matches Some(v) && v@ == t,
            None => r is None,
        },
{
    let okc = chars_of("OK");
    let atc = chars_of("AT");
    if line.len() > 0 && !contains_seq(line, okc.as_slice()) && !has_prefix(line, atc.as_slice()) {
        let (a, e) = trim_bounds(line);
        let mut v: Vec<char> = Vec::new();
        push_all(&mut v, &line[a..e]);
        Some(v)
    } else {
        None
    }
}

fn firmware_by_line_of(reply: &str) -> (r: Option<String>)
    ensures
        opt_view(r) == firmware_by_line(reply@),
{
    let all = chars_of(reply);
    let ranges = line_ranges(all.as_slice());
    let ghost ls = lines(all@);
    let mut i: usize = 0;
    while i < ranges.len()
        invariant
            i <= ranges@.len(),
            ls == lines(all@),
            all@ == reply@,
            all_bounds(all@, ranges@, ls),
            forall|k: int| 0 <= k < i ==> (firmware_candidate_fn())(#[trigger] ls[k]) is None,
        decreases ranges@.len() - i,
    {
        let (a, e) = ranges[i];
        assert(bounds(all@, ranges@[i as int], ls[i as int]));
        let r = firmware_candidate_of(&all.as_slice()[a..e]);
        proof {
            assert(all@.subrange(a as int, e as int) == ls[i as int]);
            assert((firmware_candidate_fn())(ls[i as int]) == firmware_candidate(ls[i as int]));
            lemma_first_some_at(ls, firmware_candidate_fn(), i as int);
        }
        match r {
            Some(v) => {
                if v.len() > 0 {
                    return Some(string_from_chars(v.as_slice()));
                } else {
                    return None;
                }
            },
            None => {},
        }
        i = i + 1;
    }
    proof {
        if ls.len() > 0 {
            lemma_first_some_at(ls, firmware_candidate_fn(), ls.len() - 1);
        }
    }
    None
}

/// The firmware version of a match of the profile's firmware pattern:
/// group 1, trimmed, if not blank.
pub open spec fn firmware_of_match(m: Option<Seq<Option<Seq<char>>>>) -> Option<Seq<char>> {
    match m {
        Some(c) => match group(c, 1) {
            Some(g) => nonblank(trim(g)),
            None => None,
        },
        None => None,
    }
}

/// The firmware version (group 1, trimmed, if not blank) of a match of the
/// profile's firmware pattern.
pub fn firmware_from_captures(m: &Option<Vec<Option<String>>>) -> (r: Option<String>)
    ensures
        opt_view(r) == firmware_of_match(match_view(*m)),
{
    match m {
        Some(g) => match group_text(g, 1) {
            Some(t) => {
                let c = chars_of(t.as_str());
                let (a, e) = trim_bounds(c.as_slice());
                if e > a {
                    Some(string_from_chars(&c.as_slice()[a..e]))
                } else {
                    None
                }
            },
            None => None,
        },
        None => None,
    }
}

/// The firmware version a firmware command's reply gives: through the
/// profile's pattern when it has one that compiles, else by line.
pub open spec fn firmware_reading(reply: Seq<char>, pattern: Option<Seq<char>>) -> Option<Seq<char>> {
    match pattern {
        Some(p) => match regex_first_captures(p, reply) {
            Some(m) => firmware_of_match(m),
            None => firmware_by_line(reply),
        },
        None => firmware_by_line(reply),
    }
}

/// Reads the firmware version from the reply to the profile's firmware
/// command, with the profile's firmware pattern if it has one.
pub fn firmware_version(reply: &str, pattern: Option<&str>) -> (r: Option<String>)
    ensures
        opt_view(r) == firmware_reading(reply@, match pattern {
            Some(p) => Some(p@),
            None => None,
        }),
{
    match pattern {
        Some(p) => match regex_captures(p, reply) {
            Some(m) => firmware_from_captures(&m),
            None => firmware_by_line_of(reply),
        },
        None => firmware_by_line_of(reply),
    }
}

/// The text between the first `':'` of a line and the next `':'` (or the
/// end): `split(':').nth(1)`.
pub open spec fn second_field(l: Seq<char>) -> Seq<char> {
    let rest = l.skip(index_of(l, ':') + 1);
    rest.take(index_of(rest, ':'))
}

/// The revision a `Revision:` line gives, trimmed.
pub open spec fn revision_value(l: Seq<char>) -> Option<Seq<char>> {
    if contains(l, "Revision:"@) {
        Some(trim(second_field(l)))
    } else {
        None
    }
}

pub open spec fn revision_value_fn() -> spec_fn(Seq<char>) -> Option<Seq<char>> {
    |l: Seq<char>| revision_value(l)
}

/// The firmware revision of the `ATI` identity lines, or "Unknown".
pub open spec fn ati_revision(ls: Seq<Seq<char>>) -> Seq<char> {
    match first_some(ls, revision_value_fn()) {
        Some(v) => v,
        None => "Unknown"@,
    }
}

proof fn lemma_colon_found(l: Seq<char>)
    requires
        contains(l, "Revision:"@),
    ensures
        index_of(l, ':') < l.len(),
{
    reveal_strlit("Revision:");
    let i = choose|i: int| occurs_at(l, "Revision:"@, i);
    assert(l.subrange(i, i + 9)[8] == ':');
    assert(l[i + 8] == ':');
    lemma_index_of(l, ':');
}

fn revision_value_of(l: &[char]) -> (r: Option<Vec<char>>)
    ensures
        match revision_value(l@) {
            Some(t) => r matches Some(v) && v@ == t,
            None => r is None,
        },
{
    let key = chars_of("Revision:");
    if !contains_seq(l, key.as_slice()) {
        return None;
    }
    proof {
        lemma_colon_found(l@);
    }
    assert(l@.skip(0) == l@);
    let i = find_char(l, 0, ':');
    assert(i < l.len());
    let j = find_char(l, i + 1, ':');
    let piece = &l[i + 1..j];
    proof {
        let rest = l@.skip(i + 1);
        assert(piece@ == rest.take(index_of(rest, ':')));
    }
    let (a, e) = trim_bounds(piece);
    let mut v: Vec<char> = Vec::new();
    push_all(&mut v, &piece[a..e]);
    Some(v)
}

fn ati_revision_of(ls: &Vec<String>) -> (r: String)
    ensures
        r@ == ati_revision(ls@.map_values(|l: String| l@)),
{
    let ghost lv = ls@.map_values(|l: String| l@);
    let mut i: usize = 0;
    while i < ls.len()
        invariant
            i <= ls@.len(),
            lv == ls@.map_values(|l: String| l@),
            forall|k: int| 0 <= k < i ==> (revision_value_fn())(#[trigger] lv[k]) is None,
        decreases ls@.len() - i,
    {
        let c = chars_of(ls[i].as_str());
        let r = revision_value_of(c.as_slice());
        proof {
            assert(lv[i as int] == ls@[i as int]@);
            assert((revision_value_fn())(lv[i as int]) == revision_value(lv[i as int]));
            lemma_first_some_at(lv, revision_value_fn(), i as int);
        }
        match r {
            Some(v) => {
                return string_from_chars(v.as_slice());
            },
            None => {},
        }
        i = i + 1;
    }
    proof {
        if lv.len() > 0 {
            lemma_first_some_at(lv, revision_value_fn(), lv.len() - 1);
        }
    }
    "Unknown".to_string()
}

/// A line of an `AT+GSN` reply made of ASCII digits only (an empty line
/// counts).
pub open spec fn imei_value(l: Seq<char>) -> Option<Seq<char>> {
    if all_digits(l) {
        Some(l)
    } else {
        None
    }
}

pub open spec fn imei_value_fn() -> spec_fn(Seq<char>) -> Option<Seq<char>> {
    |l: Seq<char>| imei_value(l)
}

/// The IMEI of an `AT+GSN` reply: its first all-digit line, or "Unknown".
pub open spec fn imei_of(gsn: Seq<char>) -> Seq<char> {
    match first_some(lines(gsn), imei_value_fn()) {
        Some(v) => v,
        None => "Unknown"@,
    }
}

fn imei_of_reply(gsn: &str) -> (r: String)
    ensures
        r@ == imei_of(gsn@),
{
    let all = chars_of(gsn);
    let ranges = line_ranges(all.as_slice());
    let ghost ls = lines(all@);
    let mut i: usize = 0;
    while i < ranges.len()
        invariant
            i <= ranges@.len(),
            ls == lines(all@),
            all@ == gsn@,
            all_bounds(all@, ranges@, ls),
            forall|k: int| 0 <= k < i ==> (imei_value_fn())(#[trigger] ls[k]) is None,
        decreases ranges@.len() - i,
    {
        let (a, e) = ranges[i];
        assert(bounds(all@, ranges@[i as int], ls[i as int]));
        let line = &all.as_slice()[a..e];
        let mut k: usize = 0;
        while k < line.len() && '0' <= line[k] && line[k] <= '9'
            invariant
                k <= line@.len(),
                forall|q: int| 0 <= q < k ==> is_digit(#[trigger] line@[q]),
            decreases line@.len() - k,
        {
            k = k + 1;
        }
        proof {
            assert(all@.subrange(a as int, e as int) == ls[i as int]);
            assert((imei_value_fn())(ls[i as int]) == imei_value(ls[i as int]));
            lemma_first_some_at(ls, imei_value_fn(), i as int);
        }
        if k == line.len() {
            return string_from_chars(line);
        }
        i = i + 1;
    }
    proof {
        if ls.len() > 0 {
            lemma_first_some_at(ls, imei_value_fn(), ls.len() - 1);
        }
    }
    "Unknown".to_string()
}

/// The manufacturer and model: the first two `ATI` identity lines ("Unknown"
/// where missing), each replaced by the value line of its `AT+CGMI` /
/// `AT+CGMM` reply when the `ATI` identity needs it and that line has a
/// letter (manufacturer) or a letter or digit (model).
pub open spec fn device_identity(
    ati: Seq<char>,
    cgmi: Option<Seq<char>>,
    cgmm: Option<Seq<char>>,
) -> (Seq<char>, Seq<char>) {
    let ls = ati_lines(ati);
    let m = line_or_unknown(ls, 0);
    let d = line_or_unknown(ls, 1);
    if identity_needs_fallback(m, d) {
        (
            match cgmi {
                Some(t) => match info_line(t) {
                    Some(x) => if any_alpha(x) {
                        x
                    } else {
                        m
                    },
                    None => m,
                },
                None => m,
            },
            match cgmm {
                Some(t) => match info_line(t) {
                    Some(x) => if any_alnum(x) {
                        x
                    } else {
                        d
                    },
                    None => d,
                },
                None => d,
            },
        )
    } else {
        (m, d)
    }
}

pub open spec fn str_opt(o: Option<&str>) -> Option<Seq<char>> {
    match o {
        Some(t) => Some(t@),
        None => None,
    }
}

/// The device information from the replies to `ATI` and `AT+GSN`, the
/// replies to `AT+CGMI`/`AT+CGMM` where they were asked and answered, and
/// the firmware version the profile's firmware command gave, if any.
pub fn device_info(
    ati: &str,
    gsn: &str,
    cgmi: Option<&str>,
    cgmm: Option<&str>,
    firmware: Option<String>,
) -> (r: DeviceInfo)
    ensures
        (r.manufacturer@, r.model@) == device_identity(ati@, str_opt(cgmi), str_opt(cgmm)),
        r.firmware_version@ == match firmware {
            Some(f) => f@,
            None => ati_revision(ati_lines(ati@)),
        },
        r.imei@ == imei_of(gsn@),
        r.supported_protocols@.map_values(|p: String| p@) == seq!["at"@],
{
    let ls = ati_identity_lines(ati);
    let ghost lv = ls@.map_values(|l: String| l@);
    proof {
        assert(lv.len() == ls@.len());
        if ls@.len() > 0 {
            assert(lv[0] == ls@[0]@);
        }
        if ls@.len() > 1 {
            assert(lv[1] == ls@[1]@);
        }
    }
    let m0 = if ls.len() > 0 { ls[0].clone() } else { "Unknown".to_string() };
    let d0 = if ls.len() > 1 { ls[1].clone() } else { "Unknown".to_string() };
    let needs = ati_needs_fallback(ati);
    let mut manufacturer = m0;
    let mut model = d0;
    if needs {
        match cgmi {
            Some(t) => match info_line_of(t) {
                Some(x) => {
                    let xc = chars_of(x.as_str());
                    if any_alpha_of(xc.as_slice()) {
                        manufacturer = x;
                    }
                },
                None => {},
            },
            None => {},
        }
        match cgmm {
            Some(t) => match info_line_of(t) {
                Some(x) => {
                    let xc = chars_of(x.as_str());
                    if any_alnum_of(xc.as_slice()) {
                        model = x;
                    }
                },
                None => {},
            },
            None => {},
        }
    }
    let firmware_version = match firmware {
        Some(f) => f,
        None => ati_revision_of(&ls),
    };
    let mut protocols: Vec<String> = Vec::new();
    protocols.push("at".to_string());
    assert(protocols@.map_values(|p: String| p@) =~= seq!["at"@]);
    DeviceInfo {
        imei: imei_of_reply(gsn),
        manufacturer,
        model,
        firmware_version,
        supported_protocols: protocols,
    }
}

// ---------------------------------------------------------------------------
// SIM details
// ---------------------------------------------------------------------------

pub open spec fn is_iccid_char(c: char) -> bool {
    is_digit(c) || c == 'F' || c == 'f'
}

/// A line that is a raw ICCID: not empty, only digits and `F`/`f`.
pub open spec fn iccid_line(l: Seq<char>) -> Option<Seq<char>> {
    if l.len() > 0 && forall|i: int| 0 <= i < l.len() ==> is_iccid_char(#[trigger] l[i]) {
        Some(l)
    } else {
        None
    }
}

pub open spec fn iccid_line_fn() -> spec_fn(Seq<char>) -> Option<Seq<char>> {
    |l: Seq<char>| iccid_line(l)
}

/// A line that is an IMSI: not empty, only ASCII digits.
pub open spec fn imsi_line(l: Seq<char>) -> Option<Seq<char>> {
    if l.len() > 0 && all_digits(l) {
        Some(l)
    } else {
        None
    }
}

pub open spec fn imsi_line_fn() -> spec_fn(Seq<char>) -> Option<Seq<char>> {
    |l: Seq<char>| imsi_line(l)
}

fn first_line_where(reply: &str, iccid: bool) -> (r: Option<String>)
    ensures
        opt_view(r) == first_some(lines(reply@), if iccid { iccid_line_fn() } else { imsi_line_fn() }),
{
    let ghost f = if iccid { iccid_line_fn() } else { imsi_line_fn() };
    let all = chars_of(reply);
    let ranges = line_ranges(all.as_slice());
    let ghost ls = lines(all@);
    let mut i: usize = 0;
    while i < ranges.len()
        invariant
            i <= ranges@.len(),
            ls == lines(all@),
            all@ == reply@,
            f == (if iccid { iccid_line_fn() } else { imsi_line_fn() }),
            all_bounds(all@, ranges@, ls),
            forall|k: int| 0 <= k < i ==> f(#[trigger] ls[k]) is None,
        decreases ranges@.len() - i,
    {
        let (a, e) = ranges[i];
        assert(bounds(all@, ranges@[i as int], ls[i as int]));
        let line = &all.as_slice()[a..e];
        let mut k: usize = 0;
        while k < line.len() && (('0' <= line[k] && line[k] <= '9') || (iccid && (line[k] == 'F' || line[k]
            == 'f')))
            invariant
                k <= line@.len(),
                forall|q: int| 0 <= q < k ==> (if iccid { is_iccid_char(#[trigger] line@[q]) } else { is_digit(line@[q]) }),
            decreases line@.len() - k,
        {
            k = k + 1;
        }
        proof {
            assert(line@ == ls[i as int]);
            if iccid {
                assert(f(ls[i as int]) == iccid_line(ls[i as int]));
            } else {
                assert(f(ls[i as int]) == imsi_line(ls[i as int]));
            }
            lemma_first_some_at(ls, f, i as int);
        }
        if line.len() > 0 && k == line.len() {
            return Some(string_from_chars(line));
        }
        i = i + 1;
    }
    proof {
        if ls.len() > 0 {
            lemma_first_some_at(ls, f, ls.len() - 1);
        }
    }
    None
}

/// The ICCID a reply gives with the outcome of the profile's pattern on it:
/// group 1 of a match; else (no pattern, a pattern that does not compile,
/// or no match) the first raw-ICCID line.
pub open spec fn iccid_of(reply: Seq<char>, c: Option<Option<Seq<Option<Seq<char>>>>>) -> Option<Seq<char>> {
    match c {
        Some(Some(c)) => group(c, 1),
        _ => first_some(lines(reply), iccid_line_fn()),
    }
}

/// The ICCID of a reply: group 1 of the profile's pattern when that
/// compiles and matches; else the first raw-ICCID line.
pub open spec fn iccid_reading(reply: Seq<char>, pattern: Option<Seq<char>>) -> Option<Seq<char>> {
    match pattern {
        Some(p) => iccid_of(reply, regex_first_captures(p, reply)),
        None => iccid_of(reply, None),
    }
}

/// The ICCID of a reply given what the profile's pattern gave on it
/// (`None`: no pattern or one that does not compile; `Some(None)`: no
/// match).
pub fn iccid_from_captures(reply: &str, c: &Option<Option<Vec<Option<String>>>>) -> (r: Option<String>)
    ensures
        opt_view(r) == iccid_of(reply@, match c {
            Some(m) => Some(match_view(*m)),
            None => None,
        }),
{
    match c {
        Some(Some(g)) => group_text(g, 1),
        _ => first_line_where(reply, true),
    }
}

/// Reads the ICCID from the reply to the profile's ICCID command.
pub fn iccid_from_reply(reply: &str, pattern: Option<&str>) -> (r: Option<String>)
    ensures
        opt_view(r) == iccid_reading(reply@, str_opt(pattern)),
{
    match pattern {
        Some(p) => {
            let c = regex_captures(p, reply);
            iccid_from_captures(reply, &c)
        },
        None => iccid_from_captures(reply, &None),
    }
}

/// The IMSI of an `AT+CIMI` reply: its first non-empty all-digit line.
pub open spec fn imsi_reading(reply: Seq<char>) -> Option<Seq<char>> {
    first_some(lines(reply), imsi_line_fn())
}

/// Reads the IMSI from an `AT+CIMI` reply.
pub fn imsi_from_reply(reply: &str) -> (r: Option<String>)
    ensures
        opt_view(r) == imsi_reading(reply@),
{
    first_line_where(reply, false)
}

/// The operator name of a match: group 1, if not empty.
pub open spec fn operator_of_match(m: Option<Seq<Option<Seq<char>>>>) -> Option<Seq<char>> {
    match m {
        Some(c) => match group(c, 1) {
            Some(n) => nonblank(n),
            None => None,
        },
        None => None,
    }
}

/// The operator name a reply gives through a pattern: group 1 of its match,
/// if not empty; nothing when the pattern does not compile or match.
pub open spec fn operator_reading(reply: Seq<char>, pattern: Seq<char>) -> Option<Seq<char>> {
    operator_of_match(first_match(pattern, reply))
}

/// The operator name of a match of the operator-name pattern.
pub fn operator_from_captures(m: &Option<Vec<Option<String>>>) -> (r: Option<String>)
    ensures
        opt_view(r) == operator_of_match(match_view(*m)),
{
    match m {
        Some(g) => match group_text(g, 1) {
            Some(n) => {
                if n.as_str().is_empty() {
                    None
                } else {
                    Some(n)
                }
            },
            None => None,
        },
        None => None,
    }
}

/// Reads the operator name from the reply to an operator-name command with
/// the profile's pattern for it.
pub fn operator_from_reply(reply: &str, pattern: &str) -> (r: Option<String>)
    ensures
        opt_view(r) == operator_reading(reply@, pattern@),
{
    let m = find_match(pattern, reply);
    operator_from_captures(&m)
}

/// The SIM status from the `AT+CPIN?` reply and the details read: the SIM
/// is present unless the reply says it is not inserted, and the details
/// are kept only for a ready SIM.
pub fn sim_status(cpin: &str, iccid: Option<String>, imsi: Option<String>, operator_name: Option<String>) -> (r: SimStatus)
    ensures
        r.state == cpin_state(cpin@),
        r.present == (cpin_state(cpin@) != SimState::NotInserted),
        cpin_state(cpin@) == SimState::Ready ==> r.iccid == iccid && r.imsi == imsi && r.operator_name == operator_name,
        cpin_state(cpin@) != SimState::Ready ==> r.iccid is None && r.imsi is None && r.operator_name is None,
{
    let state = parse_cpin(cpin);
    let ready = match state {
        SimState::Ready => true,
        _ => false,
    };
    let present = match state {
        SimState::NotInserted => false,
        _ => true,
    };
    if ready {
        SimStatus { present, state, iccid, imsi, operator_name }
    } else {
        SimStatus { present, state, iccid: None, imsi: None, operator_name: None }
    }
}

// ---------------------------------------------------------------------------
// Port re-detection
// ---------------------------------------------------------------------------

/// Whether candidate `i` sits on USB interface `iface`.
pub open spec fn on_interface(ifs: Seq<Option<u32>>, iface: u32) -> spec_fn(int) -> bool {
    |i: int| 0 <= i < ifs.len() && ifs[i] == Some(iface)
}

/// For each preferred interface in turn, the first candidate on it, each
/// port once.
pub open spec fn preferred_ports(cands: Seq<Seq<char>>, ifs: Seq<Option<u32>>, prefs: Seq<u32>) -> Seq<Seq<char>>
    decreases prefs.len(),
{
    if prefs.len() == 0 {
        Seq::empty()
    } else {
        let prev = preferred_ports(cands, ifs, prefs.drop_last());
        match first_index(cands.len() as int, on_interface(ifs, prefs.last())) {
            Some(i) => if prev.contains(cands[i]) {
                prev
            } else {
                prev.push(cands[i])
            },
            None => prev,
        }
    }
}

/// `acc` followed by the candidates not in it yet, in order, each once.
pub open spec fn with_rest(acc: Seq<Seq<char>>, cands: Seq<Seq<char>>) -> Seq<Seq<char>>
    decreases cands.len(),
{
    if cands.len() == 0 {
        acc
    } else {
        let prev = with_rest(acc, cands.drop_last());
        if prev.contains(cands.last()) {
            prev
        } else {
            prev.push(cands.last())
        }
    }
}

/// The order in which re-detection probes the ports of a bus-port.
pub open spec fn probe_order(cands: Seq<Seq<char>>, ifs: Seq<Option<u32>>, prefs: Seq<u32>) -> Seq<Seq<char>> {
    with_rest(preferred_ports(cands, ifs, prefs), cands)
}

fn contains_str_in(v: &Vec<String>, x: &String) -> (b: bool)
    ensures
        b == strings_view(v@).contains(x@),
{
    let mut i: usize = 0;
    while i < v.len()
        invariant
            i <= v@.len(),
            forall|k: int| 0 <= k < i ==> v@[k]@ != x@,
        decreases v@.len() - i,
    {
        if v[i] == *x {
            assert(strings_view(v@)[i as int] == x@);
            return true;
        }
        i = i + 1;
    }
    proof {
        if strings_view(v@).contains(x@) {
            let k = choose|k: int| 0 <= k < strings_view(v@).len() && strings_view(v@)[k] == x@;
            assert(v@[k]@ == x@);
        }
    }
    false
}

/// The first of `n` candidates on interface `iface`.
fn first_on_interface(interfaces: &Vec<Option<u32>>, n: usize, iface: u32) -> (r: Option<usize>)
    ensures
        match r {
            Some(q) => q < n && first_index(n as int, on_interface(interfaces@, iface)) == Some(q as int),
            None => first_index(n as int, on_interface(interfaces@, iface)) is None,
        },
{
    let ghost f = on_interface(interfaces@, iface);
    let mut i: usize = 0;
    while i < n
        invariant
            i <= n,
            f == on_interface(interfaces@, iface),
            forall|k: int| 0 <= k < i ==> !#[trigger] f(k),
        decreases n - i,
    {
        if i < interfaces.len() && interfaces[i] == Some(iface) {
            proof {
                lemma_first_index(n as int, f, i as int);
            }
            return Some(i);
        }
        i = i + 1;
    }
    proof {
        lemma_first_index_none(n as int, f);
    }
    None
}

/// The order in which to probe the ttyUSB ports of a bus-port when the AT
/// port has to be found again: for each interface of `prefs` in turn, the
/// first candidate whose interface (`interfaces`, by position) it is; then
/// the remaining candidates in their order; each port once.
pub fn reopen_order(candidates: &Vec<String>, interfaces: &Vec<Option<u32>>, prefs: &Vec<u32>) -> (r: Vec<String>)
    ensures
        strings_view(r@) == probe_order(strings_view(candidates@), interfaces@, prefs@),
{
    let ghost cv = strings_view(candidates@);
    let mut ordered: Vec<String> = Vec::new();
    let mut j: usize = 0;
    assert(prefs@.take(0) =~= Seq::<u32>::empty());
    assert(strings_view(ordered@) =~= Seq::<Seq<char>>::empty());
    while j < prefs.len()
        invariant
            j <= prefs@.len(),
            cv == strings_view(candidates@),
            strings_view(ordered@) == preferred_ports(cv, interfaces@, prefs@.take(j as int)),
        decreases prefs@.len() - j,
    {
        let iface = prefs[j];
        proof {
            assert(prefs@.take(j + 1).drop_last() == prefs@.take(j as int));
            assert(prefs@.take(j + 1).last() == iface);
        }
        let found = first_on_interface(interfaces, candidates.len(), iface);
        match found {
            Some(q) => {
                if !contains_str_in(&ordered, &candidates[q]) {
                    let ghost before = ordered@;
                    ordered.push(candidates[q].clone());
                    assert(strings_view(ordered@) =~= strings_view(before).push(cv[q as int]));
                }
            },
            None => {},
        }
        j = j + 1;
    }
    assert(prefs@.take(j as int) == prefs@);
    let ghost acc = strings_view(ordered@);
    let mut i: usize = 0;
    assert(cv.take(0) =~= Seq::<Seq<char>>::empty());
    while i < candidates.len()
        invariant
            i <= candidates@.len(),
            cv == strings_view(candidates@),
            acc == preferred_ports(cv, interfaces@, prefs@),
            strings_view(ordered@) == with_rest(acc, cv.take(i as int)),
        decreases candidates@.len() - i,
    {
        proof {
            assert(cv.take(i + 1).drop_last() == cv.take(i as int));
            assert(cv.take(i + 1).last() == cv[i as int]);
        }
        if !contains_str_in(&ordered, &candidates[i]) {
            let ghost before = ordered@;
            ordered.push(candidates[i].clone());
            assert(strings_view(ordered@) =~= strings_view(before).push(cv[i as int]));
        }
        i = i + 1;
    }
    assert(cv.take(i as int) == cv);
    ordered
}

} // verus!
