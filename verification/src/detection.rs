//! The decisions of real-hardware modem detection.
//!
//! Detection reads sysfs and `/dev` (outside the library) into
//! [`DetectionFacts`] and hands them to [`plan_detection`], which decides the
//! modem list: first the QMI control devices bound to `qmi_wwan`, each with
//! the AT port of its bus-port; then the ttyUSB ports grouped by bus-port
//! (bus-ports already found through QMI are skipped); and, when nothing was
//! found, `/dev/ttyUSB2` as a last resort.

use vstd::prelude::*;
use crate::hardware::{
    chosen_at_port, choose_at_port, dev_path, strings_view, DetectedModem, ModemProtocol,
};
use crate::profiles::{is_generic_identity, ModemProfile};
use crate::registry::{match_result, profile_id_of, query_id, ProfileRegistry};
use crate::text::{
    opt_view,
    chars_of, first_index, lemma_first_index, lemma_first_index_none, lemma_first_index_some,
    push_all, starts_with_at,
    str_eq, string_from_chars,
};

verus! {

// ---------------------------------------------------------------------------
// Sorting strings
// ---------------------------------------------------------------------------

/// The order of `String` (byte order of UTF-8, which is code point order).
pub open spec fn seq_le(a: Seq<char>, b: Seq<char>) -> bool
    decreases a.len(),
{
    if a.len() == 0 {
        true
    } else if b.len() == 0 {
        false
    } else if a[0] != b[0] {
        (a[0] as u32) < (b[0] as u32)
    } else {
        seq_le(a.drop_first(), b.drop_first())
    }
}

/// `x` inserted after the leading elements that are not greater than it.
pub open spec fn insert_sorted(s: Seq<Seq<char>>, x: Seq<char>) -> Seq<Seq<char>>
    decreases s.len(),
{
    if s.len() == 0 {
        seq![x]
    } else if seq_le(s[0], x) {
        seq![s[0]] + insert_sorted(s.drop_first(), x)
    } else {
        seq![x] + s
    }
}

/// `s` in ascending order (insertion sort).
pub open spec fn sort_seqs(s: Seq<Seq<char>>) -> Seq<Seq<char>>
    decreases s.len(),
{
    if s.len() == 0 {
        Seq::empty()
    } else {
        insert_sorted(sort_seqs(s.drop_last()), s.last())
    }
}

/// Whether `a` comes before or equals `b`.
fn le_chars(a: &[char], b: &[char]) -> (r: bool)
    ensures
        r == seq_le(a@, b@),
{
    let mut i: usize = 0;
    assert(a@.skip(0) == a@ && b@.skip(0) == b@);
    while i < a.len() && i < b.len() && a[i] == b[i]
        invariant
            i <= a@.len(),
            i <= b@.len(),
            seq_le(a@, b@) == seq_le(a@.skip(i as int), b@.skip(i as int)),
        decreases a@.len() - i,
    {
        assert(a@.skip(i as int).drop_first() == a@.skip(i + 1));
        assert(b@.skip(i as int).drop_first() == b@.skip(i + 1));
        i = i + 1;
    }
    if i == a.len() {
        true
    } else if i == b.len() {
        false
    } else {
        (a[i] as u32) < (b[i] as u32)
    }
}

proof fn lemma_insert_at(s: Seq<Seq<char>>, x: Seq<char>, k: int)
    requires
        0 <= k <= s.len(),
        forall|j: int| 0 <= j < k ==> seq_le(#[trigger] s[j], x),
        k == s.len() || !seq_le(s[k], x),
    ensures
        insert_sorted(s, x) == s.take(k).push(x) + s.skip(k),
    decreases k,
{
    if k == 0 {
        assert(s.take(0).push(x) + s.skip(0) == seq![x] + s);
        if s.len() == 0 {
            assert(seq![x] + s == seq![x]);
        }
    } else {
        let t = s.drop_first();
        assert forall|j: int| 0 <= j < k - 1 implies seq_le(#[trigger] t[j], x) by {
            assert(t[j] == s[j + 1]);
        }
        if k < s.len() {
            assert(t[k - 1] == s[k]);
        }
        lemma_insert_at(t, x, k - 1);
        assert(s.take(k).push(x) + s.skip(k) == seq![s[0]] + (t.take(k - 1).push(x) + t.skip(k - 1)));
    }
}

/// The strings of `v` in ascending order.
pub fn sort_strings(v: &Vec<String>) -> (r: Vec<String>)
    ensures
        strings_view(r@) == sort_seqs(strings_view(v@)),
{
    let ghost sv = strings_view(v@);
    let mut out: Vec<String> = Vec::new();
    let mut i: usize = 0;
    assert(sv.take(0) == Seq::<Seq<char>>::empty());
    while i < v.len()
        invariant
            i <= v@.len(),
            sv == strings_view(v@),
            strings_view(out@) == sort_seqs(sv.take(i as int)),
        decreases v@.len() - i,
    {
        let x = v[i].clone();
        let xc = chars_of(x.as_str());
        let ghost so = strings_view(out@);
        let mut k: usize = 0;
        while k < out.len()
            invariant
                k <= out@.len(),
                so == strings_view(out@),
                xc@ == x@,
                forall|j: int| 0 <= j < k ==> seq_le(#[trigger] so[j], x@),
            ensures
                k <= out@.len(),
                forall|j: int| 0 <= j < k ==> seq_le(#[trigger] so[j], x@),
                k == out@.len() || !seq_le(so[k as int], x@),
            decreases out@.len() - k,
        {
            let oc = chars_of(out[k].as_str());
            if !le_chars(oc.as_slice(), xc.as_slice()) {
                break;
            }
            k = k + 1;
        }
        proof {
            lemma_insert_at(so, x@, k as int);
            assert(sv.take(i + 1).drop_last() == sv.take(i as int));
            assert(sv.take(i + 1).last() == x@);
        }
        out.insert(k, x);
        proof {
            assert(strings_view(out@) == so.take(k as int).push(sv[i as int]) + so.skip(k as int));
        }
        i = i + 1;
    }
    assert(sv.take(i as int) == sv);
    out
}

// ---------------------------------------------------------------------------
// What detection reads
// ---------------------------------------------------------------------------

/// A ttyUSB port on a QMI device's bus-port.
pub struct PortFacts {
    /// Device path, e.g. "/dev/ttyUSB2".
    pub path: String,
    /// Its USB interface number, if sysfs gives one.
    pub interface: Option<u32>,
}

/// What was read about one `/dev/cdc-wdm*` control device.
pub struct QmiDeviceFacts {
    /// Name of the driver bound to it (e.g. "qmi_wwan").
    pub driver: Option<String>,
    /// Its USB vendor and product IDs.
    pub identity: Option<(String, String)>,
    /// Its USB bus-port.
    pub bus_port: Option<String>,
    /// The ttyUSB ports on that bus-port.
    pub bus_ttys: Vec<PortFacts>,
}

/// What was read about one `/dev/ttyUSB*` port.
pub struct TtyFacts {
    pub path: String,
    pub bus_port: Option<String>,
    /// The USB IDs of its device.
    pub identity: Option<(String, String)>,
    /// Its USB interface number.
    pub interface: Option<u32>,
}

/// Everything modem detection reads.
pub struct DetectionFacts {
    pub qmi: Vec<QmiDeviceFacts>,
    pub ttys: Vec<TtyFacts>,
    /// `Some(identity)` when `/dev/ttyUSB2` exists.
    pub fallback: Option<Option<(String, String)>>,
}

// ---------------------------------------------------------------------------
// The decisions, as values
// ---------------------------------------------------------------------------

/// A detected modem, as values.
pub struct ModemRecord {
    pub device_path: Seq<char>,
    pub protocol: ModemProtocol,
    pub description: Seq<char>,
    pub vendor_id: Option<Seq<char>>,
    pub product_id: Option<Seq<char>>,
    pub profile_id: Option<Seq<char>>,
    pub has_profile: bool,
    pub bus_port: Option<Seq<char>>,
    pub all_ports: Seq<Seq<char>>,
}

/// The record of a detected modem.
pub open spec fn record_of(d: DetectedModem) -> ModemRecord {
    ModemRecord {
        device_path: d.device_path@,
        protocol: d.protocol,
        description: d.description@,
        vendor_id: opt_view(d.vendor_id),
        product_id: opt_view(d.product_id),
        profile_id: opt_view(d.profile_id),
        has_profile: d.has_profile,
        bus_port: opt_view(d.bus_port),
        all_ports: strings_view(d.all_ports@),
    }
}

/// The USB IDs read, or two empty strings.
pub open spec fn ids_view(identity: Option<(String, String)>) -> (Seq<char>, Seq<char>) {
    match identity {
        Some((v, p)) => (v@, p@),
        None => (Seq::empty(), Seq::empty()),
    }
}

/// `Some(s)` unless `s` is empty.
pub open spec fn nonempty(s: Seq<char>) -> Option<Seq<char>> {
    if s.len() == 0 {
        None
    } else {
        Some(s)
    }
}

/// The profile for read IDs: matched when a vendor ID was read, else the
/// generic one.
pub open spec fn profile_for(ps: Seq<ModemProfile>, g: ModemProfile, vid: Seq<char>, pid: Seq<char>) -> ModemProfile {
    if vid.len() > 0 {
        match_result(ps, g, query_id(vid), query_id(pid))
    } else {
        g
    }
}

/// "{manufacturer} {model}" for a specific profile; otherwise "Unknown Modem
/// ({vid}:{pid})" when IDs were read, else `unknown`.
pub open spec fn describe(p: ModemProfile, vid: Seq<char>, pid: Seq<char>, unknown: Seq<char>) -> Seq<char> {
    if !is_generic_identity(p.identity) {
        p.identity.manufacturer@ + seq![' '] + p.identity.model@
    } else if vid.len() > 0 {
        "Unknown Modem ("@ + vid + seq![':'] + pid + seq![')']
    } else {
        unknown
    }
}

/// The record for a modem found at `at` with profile `p`.
pub open spec fn modem_record(
    at: Seq<char>,
    p: ModemProfile,
    vid: Seq<char>,
    pid: Seq<char>,
    description: Seq<char>,
    bus_port: Option<Seq<char>>,
    all_ports: Seq<Seq<char>>,
) -> ModemRecord {
    ModemRecord {
        device_path: at,
        protocol: ModemProtocol::At,
        description,
        vendor_id: nonempty(vid),
        product_id: nonempty(pid),
        profile_id: Some(profile_id_of(p.identity)),
        has_profile: !is_generic_identity(p.identity),
        bus_port,
        all_ports,
    }
}

pub open spec fn port_paths(ports: Seq<PortFacts>) -> Seq<Seq<char>> {
    ports.map_values(|q: PortFacts| q.path@)
}

/// The interface number recorded for `path` (its first entry).
pub open spec fn port_interface(ports: Seq<PortFacts>, path: Seq<char>) -> Option<u32> {
    match first_index(ports.len() as int, |i: int| ports[i].path@ == path) {
        Some(i) => ports[i].interface,
        None => None,
    }
}

/// The modem a QMI control device gives, if any: it must be bound to
/// `qmi_wwan` and have a bus-port with an AT port on it.
pub open spec fn qmi_modem(ps: Seq<ModemProfile>, g: ModemProfile, f: QmiDeviceFacts) -> Option<ModemRecord> {
    let (vid, pid) = ids_view(f.identity);
    let p = profile_for(ps, g, vid, pid);
    let ports = sort_seqs(port_paths(f.bus_ttys@));
    let ifaces = Seq::new(ports.len(), |i: int| port_interface(f.bus_ttys@, ports[i]));
    if !(f.driver is Some && f.driver.unwrap()@ == "qmi_wwan"@) || f.bus_port is None {
        None
    } else {
        match chosen_at_port(
            ports,
            strings_view(p.port_mapping.at_port_preference@),
            p.port_mapping.at_interface_preference@,
            ifaces,
        ) {
            Some(at) => Some(
                modem_record(
                    at,
                    p,
                    vid,
                    pid,
                    describe(p, vid, pid, "Unknown Modem"@),
                    Some(f.bus_port.unwrap()@),
                    Seq::empty(),
                ),
            ),
            None => None,
        }
    }
}

/// The modems found through QMI, and their bus-ports.
pub open spec fn qmi_pass(ps: Seq<ModemProfile>, g: ModemProfile, fs: Seq<QmiDeviceFacts>) -> (Seq<ModemRecord>, Seq<Seq<char>>)
    decreases fs.len(),
{
    if fs.len() == 0 {
        (Seq::empty(), Seq::empty())
    } else {
        let (rs, found) = qmi_pass(ps, g, fs.drop_last());
        match qmi_modem(ps, g, fs.last()) {
            Some(r) => (rs.push(r), found.push(r.bus_port.unwrap())),
            None => (rs, found),
        }
    }
}

/// The distinct bus-ports of the ttyUSB ports, in order of appearance.
pub open spec fn tty_bus_ports(ts: Seq<TtyFacts>) -> Seq<Seq<char>>
    decreases ts.len(),
{
    if ts.len() == 0 {
        Seq::empty()
    } else {
        let prev = tty_bus_ports(ts.drop_last());
        match ts.last().bus_port {
            Some(b) => if prev.contains(b@) {
                prev
            } else {
                prev.push(b@)
            },
            None => prev,
        }
    }
}

/// The ttyUSB ports on bus-port `k`, in order of appearance.
pub open spec fn group_paths(ts: Seq<TtyFacts>, k: Seq<char>) -> Seq<Seq<char>>
    decreases ts.len(),
{
    if ts.len() == 0 {
        Seq::empty()
    } else {
        let prev = group_paths(ts.drop_last(), k);
        if ts.last().bus_port is Some && ts.last().bus_port.unwrap()@ == k {
            prev.push(ts.last().path@)
        } else {
            prev
        }
    }
}

/// Whether entry `i` of `ts` is the port `path`.
pub open spec fn path_is(ts: Seq<TtyFacts>, path: Seq<char>) -> spec_fn(int) -> bool {
    |i: int| ts[i].path@ == path
}

/// The facts recorded for the ttyUSB port `path` (its first entry).
pub open spec fn tty_entry(ts: Seq<TtyFacts>, path: Seq<char>) -> Option<int> {
    first_index(ts.len() as int, path_is(ts, path))
}

#[verifier::opaque]
pub open spec fn tty_identity(ts: Seq<TtyFacts>, path: Seq<char>) -> Option<(String, String)> {
    match tty_entry(ts, path) {
        Some(i) => ts[i].identity,
        None => None,
    }
}

#[verifier::opaque]
pub open spec fn tty_interface(ts: Seq<TtyFacts>, path: Seq<char>) -> Option<u32> {
    match tty_entry(ts, path) {
        Some(i) => ts[i].interface,
        None => None,
    }
}

/// Whether port `i` of `ports` has known USB IDs.
pub open spec fn has_ids(ts: Seq<TtyFacts>, ports: Seq<Seq<char>>) -> spec_fn(int) -> bool {
    |i: int| tty_identity(ts, ports[i]) is Some
}

/// The USB IDs of a group: those of its first port that has them.
pub open spec fn group_ids(ts: Seq<TtyFacts>, ports: Seq<Seq<char>>) -> (Seq<char>, Seq<char>) {
    match first_index(ports.len() as int, has_ids(ts, ports)) {
        Some(i) => ids_view(tty_identity(ts, ports[i])),
        None => (Seq::empty(), Seq::empty()),
    }
}

/// `s` ends with `p`.
pub open spec fn ends_with(s: Seq<char>, p: Seq<char>) -> bool {
    p.len() <= s.len() && s.skip(s.len() - p.len()) == p
}

/// Whether port `q` of `ports` ends with `name`.
pub open spec fn ends_in(ports: Seq<Seq<char>>, name: Seq<char>) -> spec_fn(int) -> bool {
    |q: int| ends_with(ports[q], name)
}

/// Whether port `q` of `ports` is on USB interface `iface`.
pub open spec fn on_iface(ts: Seq<TtyFacts>, ports: Seq<Seq<char>>, iface: u32) -> spec_fn(int) -> bool {
    |q: int| tty_interface(ts, ports[q]) == Some(iface)
}

/// Whether some port ends with preferred name `j`.
pub open spec fn name_found(ports: Seq<Seq<char>>, names: Seq<Seq<char>>) -> spec_fn(int) -> bool {
    |j: int| first_index(ports.len() as int, ends_in(ports, names[j])) is Some
}

/// Whether some port is on preferred interface `j`.
pub open spec fn iface_found(ts: Seq<TtyFacts>, ports: Seq<Seq<char>>, ifaces: Seq<u32>) -> spec_fn(int) -> bool {
    |j: int| first_index(ports.len() as int, on_iface(ts, ports, ifaces[j])) is Some
}

/// A group's AT port: the first port ending with the first preferred name
/// that some port ends with; else the first port on the first preferred
/// interface that has one; else the first port.
pub open spec fn group_at_port(ts: Seq<TtyFacts>, ports: Seq<Seq<char>>, names: Seq<Seq<char>>, ifaces: Seq<u32>) -> Option<Seq<char>> {
    let n = ports.len() as int;
    match first_index(names.len() as int, name_found(ports, names)) {
        Some(j) => Some(ports[first_index(n, ends_in(ports, names[j])).unwrap()]),
        None => match first_index(ifaces.len() as int, iface_found(ts, ports, ifaces)) {
            Some(j) => Some(ports[first_index(n, on_iface(ts, ports, ifaces[j])).unwrap()]),
            None => if n > 0 {
                Some(ports[0])
            } else {
                None
            },
        },
    }
}

/// The modem of the ttyUSB group on bus-port `k`.
pub open spec fn tty_modem(ps: Seq<ModemProfile>, g: ModemProfile, ts: Seq<TtyFacts>, k: Seq<char>) -> Option<ModemRecord> {
    let ports = sort_seqs(group_paths(ts, k));
    let (vid, pid) = group_ids(ts, ports);
    let p = profile_for(ps, g, vid, pid);
    match group_at_port(
        ts,
        ports,
        strings_view(p.port_mapping.at_port_preference@),
        p.port_mapping.at_interface_preference@,
    ) {
        Some(at) => Some(
            modem_record(
                at,
                p,
                vid,
                pid,
                describe(p, vid, pid, "Modem (bus "@ + k + seq![')']),
                Some(k),
                ports,
            ),
        ),
        None => None,
    }
}

/// The modems of the ttyUSB groups, by ascending bus-port, skipping
/// bus-ports in `found`.
pub open spec fn tty_pass(ps: Seq<ModemProfile>, g: ModemProfile, ts: Seq<TtyFacts>, keys: Seq<Seq<char>>, found: Seq<Seq<char>>) -> Seq<ModemRecord>
    decreases keys.len(),
{
    if keys.len() == 0 {
        Seq::empty()
    } else {
        let prev = tty_pass(ps, g, ts, keys.drop_last(), found);
        let k = keys.last();
        if found.contains(k) {
            prev
        } else {
            match tty_modem(ps, g, ts, k) {
                Some(r) => prev.push(r),
                None => prev,
            }
        }
    }
}

/// The last-resort modem at `/dev/ttyUSB2`.
pub open spec fn fallback_modem(ps: Seq<ModemProfile>, g: ModemProfile, identity: Option<(String, String)>) -> ModemRecord {
    let (vid, pid) = ids_view(identity);
    let p = profile_for(ps, g, vid, pid);
    modem_record(
        "/dev/ttyUSB2"@,
        p,
        vid,
        pid,
        if !is_generic_identity(p.identity) {
            p.identity.manufacturer@ + seq![' '] + p.identity.model@
        } else {
            "Modem (ttyUSB2)"@
        },
        None,
        Seq::empty(),
    )
}

/// The modems detection reports for what it read.
pub open spec fn detected(ps: Seq<ModemProfile>, g: ModemProfile, facts: DetectionFacts) -> Seq<ModemRecord> {
    let (qmi, found) = qmi_pass(ps, g, facts.qmi@);
    let ttys = facts.ttys@;
    let all = qmi + tty_pass(ps, g, ttys, sort_seqs(tty_bus_ports(ttys)), found);
    if all.len() == 0 && facts.fallback is Some {
        seq![fallback_modem(ps, g, facts.fallback.unwrap())]
    } else {
        all
    }
}

// ---------------------------------------------------------------------------
// The decisions, computed
// ---------------------------------------------------------------------------

fn ids_of(identity: &Option<(String, String)>) -> (r: (String, String))
    ensures
        (r.0@, r.1@) == ids_view(*identity),
{
    match identity {
        Some((v, p)) => (v.clone(), p.clone()),
        None => (String::new(), String::new()),
    }
}

fn profile_for_ids<'a>(reg: &'a ProfileRegistry, vid: &str, pid: &str) -> (r: &'a ModemProfile)
    ensures
        *r == profile_for(reg.profile_list(), reg.generic_profile(), vid@, pid@),
{
    if vid.is_empty() {
        reg.generic()
    } else {
        reg.match_profile(vid, pid)
    }
}

fn describe_profile(p: &ModemProfile, vid: &str, pid: &str, unknown: &str) -> (r: String)
    ensures
        r@ == describe(*p, vid@, pid@, unknown@),
{
    if !p.is_generic() {
        let mut v = chars_of(p.identity.manufacturer.as_str());
        v.push(' ');
        let m = chars_of(p.identity.model.as_str());
        push_all(&mut v, m.as_slice());
        string_from_chars(v.as_slice())
    } else if !vid.is_empty() {
        let mut v = chars_of("Unknown Modem (");
        let a = chars_of(vid);
        push_all(&mut v, a.as_slice());
        v.push(':');
        let b = chars_of(pid);
        push_all(&mut v, b.as_slice());
        v.push(')');
        string_from_chars(v.as_slice())
    } else {
        unknown.to_string()
    }
}

fn nonempty_string(s: &String) -> (r: Option<String>)
    ensures
        opt_view(r) == nonempty(s@),
{
    if s.as_str().is_empty() {
        None
    } else {
        Some(s.clone())
    }
}

fn make_record(
    at: String,
    p: &ModemProfile,
    vid: &String,
    pid: &String,
    description: String,
    bus_port: Option<String>,
    all_ports: Vec<String>,
) -> (r: DetectedModem)
    ensures
        record_of(r) == modem_record(
            at@,
            *p,
            vid@,
            pid@,
            description@,
            opt_view(bus_port),
            strings_view(all_ports@),
        ),
{
    DetectedModem {
        device_path: at,
        protocol: ModemProtocol::At,
        description,
        vendor_id: nonempty_string(vid),
        product_id: nonempty_string(pid),
        profile_id: Some(p.profile_id()),
        has_profile: !p.is_generic(),
        bus_port,
        all_ports,
    }
}

fn port_interface_of(ports: &Vec<PortFacts>, path: &String) -> (r: Option<u32>)
    ensures
        r == port_interface(ports@, path@),
{
    let ghost f = |i: int| ports@[i].path@ == path@;
    let mut i: usize = 0;
    while i < ports.len()
        invariant
            i <= ports@.len(),
            f == (|i: int| ports@[i].path@ == path@),
            forall|k: int| 0 <= k < i ==> !#[trigger] f(k),
        decreases ports@.len() - i,
    {
        if ports[i].path == *path {
            proof {
                lemma_first_index(ports@.len() as int, f, i as int);
            }
            return ports[i].interface;
        }
        i = i + 1;
    }
    proof {
        lemma_first_index_none(ports@.len() as int, f);
    }
    None
}

fn qmi_modem_of(reg: &ProfileRegistry, f: &QmiDeviceFacts) -> (r: Option<DetectedModem>)
    ensures
        match qmi_modem(reg.profile_list(), reg.generic_profile(), *f) {
            Some(m) => r matches Some(d) && record_of(d) == m,
            None => r is None,
        },
{
    let is_qmi = match &f.driver {
        Some(d) => str_eq(d.as_str(), "qmi_wwan"),
        None => false,
    };
    let bus_port = match &f.bus_port {
        Some(b) => b,
        None => return None,
    };
    if !is_qmi {
        return None;
    }
    let (vid, pid) = ids_of(&f.identity);
    let p = profile_for_ids(reg, vid.as_str(), pid.as_str());
    let mut paths: Vec<String> = Vec::new();
    let mut i: usize = 0;
    while i < f.bus_ttys.len()
        invariant
            i <= f.bus_ttys@.len(),
            paths@.len() == i,
            strings_view(paths@) == port_paths(f.bus_ttys@).take(i as int),
        decreases f.bus_ttys@.len() - i,
    {
        let ghost before = paths@;
        paths.push(f.bus_ttys[i].path.clone());
        proof {
            assert forall|k: int| 0 <= k < i + 1 implies strings_view(paths@)[k] == port_paths(
                f.bus_ttys@,
            ).take(i + 1)[k] by {
                if k < i {
                    assert(paths@[k] == before[k]);
                    assert(strings_view(before)[k] == port_paths(f.bus_ttys@).take(i as int)[k]);
                }
            }
            assert(strings_view(paths@) =~= port_paths(f.bus_ttys@).take(i + 1));
        }
        i = i + 1;
    }
    assert(port_paths(f.bus_ttys@).take(i as int) =~= port_paths(f.bus_ttys@));
    let ports = sort_strings(&paths);
    let ghost pv = strings_view(ports@);
    let mut ifaces: Vec<Option<u32>> = Vec::new();
    let mut j: usize = 0;
    while j < ports.len()
        invariant
            j <= ports@.len(),
            pv == strings_view(ports@),
            ifaces@ == Seq::new(j as nat, |q: int| port_interface(f.bus_ttys@, pv[q])),
        decreases ports@.len() - j,
    {
        let x = port_interface_of(&f.bus_ttys, &ports[j]);
        ifaces.push(x);
        j = j + 1;
        assert(ifaces@ =~= Seq::new(j as nat, |q: int| port_interface(f.bus_ttys@, pv[q])));
    }
    proof {
        assert(pv == sort_seqs(port_paths(f.bus_ttys@)));
        assert(ifaces@ =~= Seq::new(
            sort_seqs(port_paths(f.bus_ttys@)).len(),
            |q: int| port_interface(f.bus_ttys@, sort_seqs(port_paths(f.bus_ttys@))[q]),
        ));
    }
    match choose_at_port(
        ports.as_slice(),
        p.port_mapping.at_port_preference.as_slice(),
        p.port_mapping.at_interface_preference.as_slice(),
        ifaces.as_slice(),
    ) {
        Some(at) => {
            let d = describe_profile(p, vid.as_str(), pid.as_str(), "Unknown Modem");
            let none: Vec<String> = Vec::new();
            assert(strings_view(none@) =~= Seq::<Seq<char>>::empty());
            Some(make_record(at, p, &vid, &pid, d, Some(bus_port.clone()), none))
        },
        None => None,
    }
}

fn contains_string(v: &Vec<String>, x: &String) -> (b: bool)
    ensures
        b == strings_view(v@).contains(x@),
{
    let mut i: usize = 0;
    while i < v.len()
        invariant
            i <= v@.len(),
            forall|k: int| 0 <= k < i ==> v@[k]@ != x@,
        decreases v@.len() - i,
    {
        if v[i] == *x {
            assert(strings_view(v@)[i as int] == x@);
            return true;
        }
        i = i + 1;
    }
    proof {
        if strings_view(v@).contains(x@) {
            let k = choose|k: int| 0 <= k < strings_view(v@).len() && strings_view(v@)[k] == x@;
            assert(v@[k]@ == x@);
        }
    }
    false
}

fn tty_bus_ports_of(ts: &Vec<TtyFacts>) -> (r: Vec<String>)
    ensures
        strings_view(r@) == tty_bus_ports(ts@),
{
    let mut keys: Vec<String> = Vec::new();
    let mut i: usize = 0;
    assert(ts@.take(0) =~= Seq::<TtyFacts>::empty());
    while i < ts.len()
        invariant
            i <= ts@.len(),
            strings_view(keys@) == tty_bus_ports(ts@.take(i as int)),
        decreases ts@.len() - i,
    {
        proof {
            assert(ts@.take(i + 1).drop_last() == ts@.take(i as int));
            assert(ts@.take(i + 1).last() == ts@[i as int]);
        }
        match &ts[i].bus_port {
            Some(b) => {
                if !contains_string(&keys, b) {
                    let ghost before = keys@;
                    keys.push(b.clone());
                    assert(strings_view(keys@) =~= strings_view(before).push(b@));
                }
            },
            None => {},
        }
        i = i + 1;
    }
    assert(ts@.take(i as int) == ts@);
    keys
}

fn group_paths_of(ts: &Vec<TtyFacts>, k: &String) -> (r: Vec<String>)
    ensures
        strings_view(r@) == group_paths(ts@, k@),
{
    let mut out: Vec<String> = Vec::new();
    let mut i: usize = 0;
    assert(ts@.take(0) =~= Seq::<TtyFacts>::empty());
    while i < ts.len()
        invariant
            i <= ts@.len(),
            strings_view(out@) == group_paths(ts@.take(i as int), k@),
        decreases ts@.len() - i,
    {
        proof {
            assert(ts@.take(i + 1).drop_last() == ts@.take(i as int));
            assert(ts@.take(i + 1).last() == ts@[i as int]);
        }
        let on_bus = match &ts[i].bus_port {
            Some(b) => *b == *k,
            None => false,
        };
        if on_bus {
            let ghost before = out@;
            out.push(ts[i].path.clone());
            assert(strings_view(out@) =~= strings_view(before).push(ts@[i as int].path@));
        }
        i = i + 1;
    }
    assert(ts@.take(i as int) == ts@);
    out
}

fn tty_entry_of(ts: &Vec<TtyFacts>, path: &String) -> (r: Option<usize>)
    ensures
        match r {
            Some(i) => i < ts@.len() && tty_entry(ts@, path@) == Some(i as int),
            None => tty_entry(ts@, path@) is None,
        },
{
    let ghost f = path_is(ts@, path@);
    let mut i: usize = 0;
    while i < ts.len()
        invariant
            i <= ts@.len(),
            f == path_is(ts@, path@),
            forall|k: int| 0 <= k < i ==> !#[trigger] f(k),
        decreases ts@.len() - i,
    {
        if ts[i].path == *path {
            proof {
                lemma_first_index(ts@.len() as int, f, i as int);
            }
            return Some(i);
        }
        i = i + 1;
    }
    proof {
        lemma_first_index_none(ts@.len() as int, f);
    }
    None
}

fn tty_interface_of(ts: &Vec<TtyFacts>, path: &String) -> (r: Option<u32>)
    ensures
        r == tty_interface(ts@, path@),
{
    proof {
        reveal(tty_interface);
    }
    match tty_entry_of(ts, path) {
        Some(i) => ts[i].interface,
        None => None,
    }
}

fn group_ids_of(ts: &Vec<TtyFacts>, ports: &Vec<String>) -> (r: (String, String))
    ensures
        (r.0@, r.1@) == group_ids(ts@, strings_view(ports@)),
{
    let ghost pv = strings_view(ports@);
    let ghost f = has_ids(ts@, pv);
    let mut i: usize = 0;
    while i < ports.len()
        invariant
            i <= ports@.len(),
            pv == strings_view(ports@),
            f == has_ids(ts@, pv),
            forall|k: int| 0 <= k < i ==> !#[trigger] f(k),
        decreases ports@.len() - i,
    {
        proof {
            reveal(tty_identity);
        }
        match tty_entry_of(ts, &ports[i]) {
            Some(e) => {
                if ts[e].identity.is_some() {
                    proof {
                        assert(f(i as int));
                        lemma_first_index(pv.len() as int, f, i as int);
                    }
                    return ids_of(&ts[e].identity);
                }
            },
            None => {},
        }
        assert(!f(i as int));
        i = i + 1;
    }
    proof {
        lemma_first_index_none(pv.len() as int, f);
    }
    (String::new(), String::new())
}

fn ends_with_chars(s: &[char], p: &[char]) -> (b: bool)
    ensures
        b == ends_with(s@, p@),
{
    if p.len() > s.len() {
        return false;
    }
    let at = s.len() - p.len();
    let r = starts_with_at(s, at, p);
    assert(s@.skip(at as int).take(p@.len() as int) == s@.skip(at as int));
    r
}

fn string_ends_with(s: &String, p: &String) -> (b: bool)
    ensures
        b == ends_with(s@, p@),
{
    let a = chars_of(s.as_str());
    let b = chars_of(p.as_str());
    ends_with_chars(a.as_slice(), b.as_slice())
}

/// The first port ending with `name`, if any.
fn first_port_ending(ports: &Vec<String>, name: &String) -> (r: Option<usize>)
    ensures
        match r {
            Some(q) => q < ports@.len() && first_index(ports@.len() as int, ends_in(strings_view(ports@), name@)) == Some(q as int),
            None => first_index(ports@.len() as int, ends_in(strings_view(ports@), name@)) is None,
        },
{
    let ghost f = ends_in(strings_view(ports@), name@);
    let mut q: usize = 0;
    while q < ports.len()
        invariant
            q <= ports@.len(),
            f == ends_in(strings_view(ports@), name@),
            forall|k: int| 0 <= k < q ==> !#[trigger] f(k),
        decreases ports@.len() - q,
    {
        if string_ends_with(&ports[q], name) {
            proof {
                lemma_first_index(ports@.len() as int, f, q as int);
            }
            return Some(q);
        }
        q = q + 1;
    }
    proof {
        lemma_first_index_none(ports@.len() as int, f);
    }
    None
}

/// The first port on interface `iface`, if any.
fn first_port_on(ts: &Vec<TtyFacts>, ports: &Vec<String>, iface: u32) -> (r: Option<usize>)
    ensures
        match r {
            Some(q) => q < ports@.len() && first_index(ports@.len() as int, on_iface(ts@, strings_view(ports@), iface)) == Some(q as int),
            None => first_index(ports@.len() as int, on_iface(ts@, strings_view(ports@), iface)) is None,
        },
{
    let ghost f = on_iface(ts@, strings_view(ports@), iface);
    let mut q: usize = 0;
    while q < ports.len()
        invariant
            q <= ports@.len(),
            f == on_iface(ts@, strings_view(ports@), iface),
            forall|k: int| 0 <= k < q ==> !#[trigger] f(k),
        decreases ports@.len() - q,
    {
        if tty_interface_of(ts, &ports[q]) == Some(iface) {
            proof {
                lemma_first_index(ports@.len() as int, f, q as int);
            }
            return Some(q);
        }
        q = q + 1;
    }
    proof {
        lemma_first_index_none(ports@.len() as int, f);
    }
    None
}

fn group_at_port_of(ts: &Vec<TtyFacts>, ports: &Vec<String>, names: &Vec<String>, ifaces: &Vec<u32>) -> (r: Option<String>)
    ensures
        opt_view(r) == group_at_port(ts@, strings_view(ports@), strings_view(names@), ifaces@),
{
    let ghost pv = strings_view(ports@);
    let ghost nv = strings_view(names@);
    let ghost by_name = name_found(pv, nv);
    let mut j: usize = 0;
    while j < names.len()
        invariant
            j <= names@.len(),
            pv == strings_view(ports@),
            nv == strings_view(names@),
            by_name == name_found(pv, nv),
            forall|k: int| 0 <= k < j ==> !#[trigger] by_name(k),
        decreases names@.len() - j,
    {
        let found = first_port_ending(ports, &names[j]);
        assert(nv[j as int] == names@[j as int]@);
        match found {
            Some(q) => {
                proof {
                    lemma_first_index(nv.len() as int, by_name, j as int);
                }
                return Some(ports[q].clone());
            },
            None => {},
        }
        j = j + 1;
    }
    proof {
        lemma_first_index_none(nv.len() as int, by_name);
    }
    by_iface_of(ts, ports, ifaces)
}

/// The interface-preference step of [`group_at_port_of`] and its fallback.
fn by_iface_of(ts: &Vec<TtyFacts>, ports: &Vec<String>, ifaces: &Vec<u32>) -> (r: Option<String>)
    ensures
        opt_view(r) == match first_index(ifaces@.len() as int, iface_found(ts@, strings_view(ports@), ifaces@)) {
            Some(j) => Some(strings_view(ports@)[first_index(ports@.len() as int, on_iface(ts@, strings_view(ports@), ifaces@[j])).unwrap()]),
            None => if ports@.len() > 0 {
                Some(strings_view(ports@)[0])
            } else {
                None
            },
        },
{
    let ghost pv = strings_view(ports@);
    let ghost by_iface = iface_found(ts@, pv, ifaces@);
    let mut j: usize = 0;
    while j < ifaces.len()
        invariant
            j <= ifaces@.len(),
            pv == strings_view(ports@),
            by_iface == iface_found(ts@, pv, ifaces@),
            forall|k: int| 0 <= k < j ==> !#[trigger] by_iface(k),
        decreases ifaces@.len() - j,
    {
        let found = first_port_on(ts, ports, ifaces[j]);
        match found {
            Some(q) => {
                proof {
                    lemma_first_index(ifaces@.len() as int, by_iface, j as int);
                }
                return Some(ports[q].clone());
            },
            None => {},
        }
        j = j + 1;
    }
    proof {
        lemma_first_index_none(ifaces@.len() as int, by_iface);
    }
    if ports.len() > 0 {
        Some(ports[0].clone())
    } else {
        None
    }
}

fn tty_modem_of(reg: &ProfileRegistry, ts: &Vec<TtyFacts>, k: &String) -> (r: Option<DetectedModem>)
    ensures
        match tty_modem(reg.profile_list(), reg.generic_profile(), ts@, k@) {
            Some(m) => r matches Some(d) && record_of(d) == m,
            None => r is None,
        },
{
    let paths = group_paths_of(ts, k);
    let ports = sort_strings(&paths);
    let (vid, pid) = group_ids_of(ts, &ports);
    let p = profile_for_ids(reg, vid.as_str(), pid.as_str());
    match group_at_port_of(
        ts,
        &ports,
        &p.port_mapping.at_port_preference,
        &p.port_mapping.at_interface_preference,
    ) {
        Some(at) => {
            let mut u = chars_of("Modem (bus ");
            let kc = chars_of(k.as_str());
            push_all(&mut u, kc.as_slice());
            u.push(')');
            let unknown = string_from_chars(u.as_slice());
            assert(unknown@ =~= "Modem (bus "@ + k@ + seq![')']);
            let d = describe_profile(p, vid.as_str(), pid.as_str(), unknown.as_str());
            Some(make_record(at, p, &vid, &pid, d, Some(k.clone()), ports))
        },
        None => None,
    }
}

fn fallback_of(reg: &ProfileRegistry, identity: &Option<(String, String)>) -> (r: DetectedModem)
    ensures
        record_of(r) == fallback_modem(reg.profile_list(), reg.generic_profile(), *identity),
{
    let (vid, pid) = ids_of(identity);
    let p = profile_for_ids(reg, vid.as_str(), pid.as_str());
    proof {
        reveal_strlit("");
    }
    let d = describe_profile(p, "", "", "Modem (ttyUSB2)");
    let none: Vec<String> = Vec::new();
    assert(strings_view(none@) =~= Seq::<Seq<char>>::empty());
    make_record("/dev/ttyUSB2".to_string(), p, &vid, &pid, d, None, none)
}

/// The records of a list of detected modems.
pub open spec fn records_of(ms: Seq<DetectedModem>) -> Seq<ModemRecord> {
    ms.map_values(|d: DetectedModem| record_of(d))
}

/// Decides the modem list from what detection read: the QMI pass, then the
/// ttyUSB groups by ascending bus-port (skipping bus-ports the QMI pass
/// found), and `/dev/ttyUSB2` when nothing else was found and it exists.
pub fn plan_detection(reg: &ProfileRegistry, facts: &DetectionFacts) -> (r: Vec<DetectedModem>)
    ensures
        records_of(r@) == detected(reg.profile_list(), reg.generic_profile(), *facts),
{
    let ghost ps = reg.profile_list();
    let ghost g = reg.generic_profile();
    let mut modems: Vec<DetectedModem> = Vec::new();
    let mut found: Vec<String> = Vec::new();
    let mut i: usize = 0;
    assert(facts.qmi@.take(0) =~= Seq::<QmiDeviceFacts>::empty());
    assert(records_of(modems@) =~= Seq::<ModemRecord>::empty());
    while i < facts.qmi.len()
        invariant
            i <= facts.qmi@.len(),
            ps == reg.profile_list(),
            g == reg.generic_profile(),
            (records_of(modems@), strings_view(found@)) == qmi_pass(ps, g, facts.qmi@.take(i as int)),
        decreases facts.qmi@.len() - i,
    {
        proof {
            assert(facts.qmi@.take(i + 1).drop_last() == facts.qmi@.take(i as int));
            assert(facts.qmi@.take(i + 1).last() == facts.qmi@[i as int]);
        }
        match qmi_modem_of(reg, &facts.qmi[i]) {
            Some(d) => {
                let ghost before_m = modems@;
                let ghost before_f = found@;
                match &d.bus_port {
                    Some(b) => {
                        found.push(b.clone());
                    },
                    None => {},
                }
                modems.push(d);
                proof {
                    assert(records_of(modems@) =~= records_of(before_m).push(record_of(d)));
                    assert(strings_view(found@) =~= strings_view(before_f).push(record_of(d).bus_port.unwrap()));
                }
            },
            None => {},
        }
        i = i + 1;
    }
    assert(facts.qmi@.take(i as int) == facts.qmi@);
    let keys0 = tty_bus_ports_of(&facts.ttys);
    let keys = sort_strings(&keys0);
    let ghost qm = records_of(modems@);
    let ghost kv = strings_view(keys@);
    let mut t: usize = 0;
    assert(kv.take(0) =~= Seq::<Seq<char>>::empty());
    assert(qm + Seq::<ModemRecord>::empty() =~= qm);
    while t < keys.len()
        invariant
            t <= keys@.len(),
            ps == reg.profile_list(),
            g == reg.generic_profile(),
            kv == strings_view(keys@),
            records_of(modems@) == qm + tty_pass(ps, g, facts.ttys@, kv.take(t as int), strings_view(found@)),
        decreases keys@.len() - t,
    {
        proof {
            assert(kv.take(t + 1).drop_last() == kv.take(t as int));
            assert(kv.take(t + 1).last() == kv[t as int]);
        }
        if !contains_string(&found, &keys[t]) {
            match tty_modem_of(reg, &facts.ttys, &keys[t]) {
                Some(d) => {
                    let ghost before = modems@;
                    modems.push(d);
                    assert(records_of(modems@) =~= records_of(before).push(record_of(d)));
                },
                None => {},
            }
        }
        t = t + 1;
    }
    assert(kv.take(t as int) == kv);
    if modems.len() == 0 {
        match &facts.fallback {
            Some(identity) => {
                modems.push(fallback_of(reg, identity));
                assert(records_of(modems@) =~= seq![fallback_modem(ps, g, facts.fallback.unwrap())]);
            },
            None => {},
        }
    }
    modems
}

} // verus!
