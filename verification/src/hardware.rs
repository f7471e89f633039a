//! Hardware error type, detected-modem records and the modem detection
//! entry points of the default (mock-hardware) build, plus the pure sysfs
//! rules that real-hardware detection applies to what it reads.

use vstd::prelude::*;
use crate::registry::ProfileRegistry;
use crate::text::{
    all_bounds, bounds, chars_of, contains, find_char, index_of, lemma_first_some_at, lemma_index_of,
    line_ranges, lines, parse_u32, parse_u32_chars, push_all, split, split_ranges, starts_with,
    has_prefix, string_from_chars, to_lowercase, unicode_lowercase, first_some, utf8_len,
    utf8_len_of, first_index, lemma_first_index, lemma_first_index_none, join_sep, slice_eq,
    str_eq, trim, trim_bounds, opt_view,
};
use crate::at_channel::{hex2, push_hex2};

verus! {

/// Errors from hardware operations.
#[derive(Debug, Clone, PartialEq, Eq)]
pub enum HardwareError {
    NoModem,
    NotReady(String),
    DeviceNotFound(String),
    Protocol(String),
    Timeout,
    SimError(String),
    CommandRejected(String),
    PermissionDenied(String),
    Io(String),
    Internal(String),
}

/// Supported modem communication protocols.
#[derive(Debug, Clone, Copy, PartialEq, Eq, Structural)]
pub enum ModemProtocol {
    Qmi,
    Mbim,
    Mhi,
    At,
}

/// Information about a detected modem device.
#[derive(Debug, Clone)]
pub struct DetectedModem {
    /// Device path, e.g. "/dev/cdc-wdm0" or "/dev/ttyUSB2".
    pub device_path: String,
    pub protocol: ModemProtocol,
    /// Human-readable description.
    pub description: String,
    /// USB vendor ID, if read from sysfs.
    pub vendor_id: Option<String>,
    /// USB product ID, if read from sysfs.
    pub product_id: Option<String>,
    /// Matched profile ID, e.g. "quectel_rm551e_gl" or "generic".
    pub profile_id: Option<String>,
    /// Whether a specific (non-generic) profile was matched.
    pub has_profile: bool,
    /// USB bus-port identifier, e.g. "4-1".
    pub bus_port: Option<String>,
    /// All ttyUSB ports in this modem's bus-port group.
    pub all_ports: Vec<String>,
}

/// How chatty modem detection is: boot and operator rescans narrate, the
/// periodic hot-plug rescan stays quiet.
#[derive(Debug, Clone, Copy, PartialEq, Eq, Structural)]
pub enum DetectionVerbosity {
    Verbose,
    Quiet,
}

/// The string in `o`, or `default` when absent.
pub open spec fn or_default(o: Option<String>, default: Seq<char>) -> Seq<char> {
    match o {
        Some(s) => s@,
        None => default,
    }
}

/// `s` without hyphens and dots.
pub open spec fn without_dashes_dots(s: Seq<char>) -> Seq<char> {
    s.filter(|c: char| c != '-' && c != '.')
}

/// The identifier the default build gives a modem: `{vid}:{pid}:MOCK-{bus}`,
/// with "0000" for a missing ID, "unknown" for a missing bus-port, and the
/// bus-port's hyphens and dots removed.
pub open spec fn mock_modem_id(d: DetectedModem) -> Seq<char> {
    or_default(d.vendor_id, "0000"@) + seq![':'] + or_default(d.product_id, "0000"@) + ":MOCK-"@
        + without_dashes_dots(or_default(d.bus_port, "unknown"@))
}

/// Chars of `o`, or of `default` when absent.
fn chars_or(o: &Option<String>, default: &str) -> (v: Vec<char>)
    ensures
        v@ == or_default(*o, default@),
{
    match o {
        Some(s) => chars_of(s.as_str()),
        None => chars_of(default),
    }
}

/// Appends `s` to `v`, leaving out hyphens and dots.
fn push_without_dashes_dots(v: &mut Vec<char>, s: &[char])
    ensures
        final(v)@ == old(v)@ + without_dashes_dots(s@),
{
    let ghost keep = |c: char| c != '-' && c != '.';
    let mut i: usize = 0;
    proof {
        reveal(Seq::filter);
        assert(s@.take(0).filter(keep) =~= Seq::<char>::empty());
    }
    while i < s.len()
        invariant
            i <= s@.len(),
            keep == (|c: char| c != '-' && c != '.'),
            v@ == old(v)@ + s@.take(i as int).filter(keep),
        decreases s@.len() - i,
    {
        proof {
            reveal(Seq::filter);
            assert(s@.take(i + 1).drop_last() == s@.take(i as int));
            assert(s@.take(i + 1).last() == s@[i as int]);
        }
        let c = s[i];
        if c != '-' && c != '.' {
            v.push(c);
        }
        i = i + 1;
    }
    assert(s@.take(i as int) == s@);
}

/// Detects the modems on the system. The default build has no real-hardware
/// backend and reports none.
pub fn detect_modems(registry: &ProfileRegistry, verbosity: DetectionVerbosity) -> (v: Vec<
    DetectedModem,
>)
    ensures
        v@.len() == 0,
{
    Vec::new()
}

/// A stable identifier for a modem. The default build derives it from the
/// USB IDs and bus-port: `{vid}:{pid}:MOCK-{bus-port without '-' and '.'}`.
pub fn generate_modem_id(detected: &DetectedModem) -> (r: Result<String, HardwareError>)
    ensures
        r matches Ok(id) && id@ == mock_modem_id(*detected),
{
    let mut v = chars_or(&detected.vendor_id, "0000");
    v.push(':');
    let p = chars_or(&detected.product_id, "0000");
    push_all(&mut v, p.as_slice());
    let tag = chars_of(":MOCK-");
    push_all(&mut v, tag.as_slice());
    let b = chars_or(&detected.bus_port, "unknown");
    push_without_dashes_dots(&mut v, b.as_slice());
    Ok(string_from_chars(v.as_slice()))
}

/// The network device of a USB bus-port. The default build has no sysfs
/// backend and finds none.
pub fn find_net_device_for_bus_port(target_bus_port: &str) -> (r: Option<String>)
    ensures
        r is None,
{
    None
}

/// The QMI/MBIM control device (`/dev/cdc-wdmN`) of a USB bus-port. The
/// default build has no sysfs backend and finds none.
pub fn find_qmi_control_device_for_bus_port(target_bus_port: &str) -> (r: Option<String>)
    ensures
        r is None,
{
    None
}

/// The modem list of the mock backend: one Quectel RM520N-GL on QMI.
pub fn detect_mock_modems() -> (v: Vec<DetectedModem>)
    ensures
        v@.len() == 1,
        v@[0].device_path@ == "/dev/mock0"@,
        v@[0].protocol == ModemProtocol::Qmi,
        v@[0].description@ == "Mock Quectel RM520N-GL"@,
        v@[0].vendor_id matches Some(s) && s@ == "2c7c"@,
        v@[0].product_id matches Some(s) && s@ == "0801"@,
        v@[0].profile_id matches Some(s) && s@ == "generic"@,
        !v@[0].has_profile,
        v@[0].bus_port is None,
        v@[0].all_ports@.len() == 0,
{
    vec![
        DetectedModem {
            device_path: "/dev/mock0".to_string(),
            protocol: ModemProtocol::Qmi,
            description: "Mock Quectel RM520N-GL".to_string(),
            vendor_id: Some("2c7c".to_string()),
            product_id: Some("0801".to_string()),
            profile_id: Some("generic".to_string()),
            has_profile: false,
            bus_port: None,
            all_ports: Vec::new(),
        },
    ]
}


// ---------------------------------------------------------------------------
// sysfs rules of real-hardware detection
// ---------------------------------------------------------------------------

/// `s` with every leading copy of the non-empty `p` removed
/// (`str::trim_start_matches`).
pub open spec fn strip_all_prefixes(s: Seq<char>, p: Seq<char>) -> Seq<char>
    decreases s.len(),
{
    if p.len() > 0 && starts_with(s, p) {
        strip_all_prefixes(s.skip(p.len() as int), p)
    } else {
        s
    }
}

/// `format!("{:0>4}", s)`: left-padded with zeros to four characters.
pub open spec fn zero_pad4(s: Seq<char>) -> Seq<char> {
    if s.len() >= 4 {
        s
    } else {
        Seq::new((4 - s.len()) as nat, |i: int| '0') + s
    }
}

/// The USB IDs a uevent line carries: `PRODUCT=vid/pid/...`, the IDs
/// lowercased and zero-padded to four digits.
pub open spec fn product_ids(line: Seq<char>) -> Option<(Seq<char>, Seq<char>)> {
    if starts_with(line, "PRODUCT="@) {
        let parts = split(strip_all_prefixes(line, "PRODUCT="@), '/');
        if parts.len() >= 2 {
            Some((zero_pad4(unicode_lowercase(parts[0])), zero_pad4(unicode_lowercase(parts[1]))))
        } else {
            None
        }
    } else {
        None
    }
}

pub open spec fn product_ids_fn() -> spec_fn(Seq<char>) -> Option<(Seq<char>, Seq<char>)> {
    |line: Seq<char>| product_ids(line)
}

/// The USB IDs of the first uevent line that carries them.
pub open spec fn uevent_product(content: Seq<char>) -> Option<(Seq<char>, Seq<char>)> {
    first_some(lines(content), product_ids_fn())
}

fn zero_pad4_chars(s: &[char]) -> (r: Vec<char>)
    ensures
        r@ == zero_pad4(s@),
{
    let mut v: Vec<char> = Vec::new();
    if s.len() < 4 {
        let pad = 4 - s.len();
        let mut k: usize = 0;
        while k < pad
            invariant
                k <= pad,
                pad == 4 - s@.len(),
                v@ == Seq::new(k as nat, |i: int| '0'),
            decreases pad - k,
        {
            v.push('0');
            k = k + 1;
            assert(v@ =~= Seq::new(k as nat, |i: int| '0'));
        }
    }
    push_all(&mut v, s);
    v
}

fn product_ids_of_line(line: &[char]) -> (r: Option<(String, String)>)
    ensures
        match product_ids(line@) {
            Some((v, p)) => r matches Some(x) && x.0@ == v && x.1@ == p,
            None => r is None,
        },
{
    let prefix = chars_of("PRODUCT=");
    proof {
        reveal_strlit("PRODUCT=");
    }
    if !has_prefix(line, prefix.as_slice()) {
        return None;
    }
    let mut i: usize = 0;
    assert(line@.skip(0) == line@);
    while line.len() - i >= 8 && has_prefix(&line[i..line.len()], prefix.as_slice())
        invariant
            i <= line@.len(),
            prefix@ == "PRODUCT="@,
            prefix@.len() == 8,
            strip_all_prefixes(line@, prefix@) == strip_all_prefixes(line@.skip(i as int), prefix@),
        decreases line@.len() - i,
    {
        assert(line@.subrange(i as int, line@.len() as int) == line@.skip(i as int));
        assert(line@.skip(i as int).skip(8) == line@.skip(i + 8));
        i = i + 8;
    }
    proof {
        assert(line@.subrange(i as int, line@.len() as int) == line@.skip(i as int));
        if i + 8 > line@.len() {
            assert(!starts_with(line@.skip(i as int), prefix@));
        }
    }
    let product = &line[i..line.len()];
    assert(product@ == strip_all_prefixes(line@, "PRODUCT="@));
    let ranges = split_ranges(product, '/');
    if ranges.len() < 2 {
        return None;
    }
    assert(bounds(product@, ranges@[0], split(product@, '/')[0]));
    assert(bounds(product@, ranges@[1], split(product@, '/')[1]));
    let (a0, b0) = ranges[0];
    let (a1, b1) = ranges[1];
    let vs = string_from_chars(&product[a0..b0]);
    let ps = string_from_chars(&product[a1..b1]);
    let vl = to_lowercase(vs.as_str());
    let pl = to_lowercase(ps.as_str());
    let vc = chars_of(vl.as_str());
    let pc = chars_of(pl.as_str());
    let v = zero_pad4_chars(vc.as_slice());
    let p = zero_pad4_chars(pc.as_slice());
    Some((string_from_chars(v.as_slice()), string_from_chars(p.as_slice())))
}

/// Reads the USB vendor and product IDs from the contents of a sysfs uevent
/// file (`PRODUCT=vid/pid/bcdDevice`), lowercased and zero-padded to four
/// digits (sysfs drops leading zeros).
pub fn parse_product_from_uevent(content: &str) -> (r: Option<(String, String)>)
    ensures
        match uevent_product(content@) {
            Some((v, p)) => r matches Some(x) && x.0@ == v && x.1@ == p,
            None => r is None,
        },
{
    let all = chars_of(content);
    let ranges = line_ranges(all.as_slice());
    let ghost ls = lines(all@);
    let mut i: usize = 0;
    while i < ranges.len()
        invariant
            i <= ranges@.len(),
            ls == lines(all@),
            all == all,
            all@ == content@,
            all_bounds(all@, ranges@, ls),
            forall|k: int| 0 <= k < i ==> (product_ids_fn())(#[trigger] ls[k]) is None,
        decreases ranges@.len() - i,
    {
        let (a, e) = ranges[i];
        assert(bounds(all@, ranges@[i as int], ls[i as int]));
        let r = product_ids_of_line(&all.as_slice()[a..e]);
        proof {
            assert(all@.subrange(a as int, e as int) == ls[i as int]);
            assert((product_ids_fn())(ls[i as int]) == product_ids(ls[i as int]));
            lemma_first_some_at(ls, product_ids_fn(), i as int);
        }
        if r.is_some() {
            return r;
        }
        i = i + 1;
    }
    proof {
        if ls.len() > 0 {
            lemma_first_some_at(ls, product_ids_fn(), ls.len() - 1);
        }
    }
    None
}

/// `c` contains the character `x`.
pub open spec fn has_char(c: Seq<char>, x: char) -> bool {
    exists|i: int| 0 <= i < c.len() && c[i] == x
}

/// A path component naming a USB bus-port such as "4-1" or "4-1.2": it has a
/// hyphen, no colon, and splits on hyphens into a number and one more piece.
pub open spec fn is_bus_port_component(c: Seq<char>) -> bool {
    &&& has_char(c, '-')
    &&& !has_char(c, ':')
    &&& split(c, '-').len() == 2
    &&& parse_u32(split(c, '-')[0]) is Some
}

/// The bus-port component with the most bytes (the deepest hub level);
/// the first one among equals.
pub open spec fn longest_bus_port(comps: Seq<Seq<char>>) -> Option<Seq<char>>
    decreases comps.len(),
{
    if comps.len() == 0 {
        None
    } else {
        let prev = longest_bus_port(comps.drop_last());
        let c = comps.last();
        if is_bus_port_component(c) && (prev is None || utf8_len(c) > utf8_len(prev.unwrap())) {
            Some(c)
        } else {
            prev
        }
    }
}

fn has_char_exec(c: &[char], x: char) -> (b: bool)
    ensures
        b == has_char(c@, x),
{
    let mut i: usize = 0;
    while i < c.len()
        invariant
            i <= c@.len(),
            forall|k: int| 0 <= k < i ==> c@[k] != x,
        decreases c@.len() - i,
    {
        if c[i] == x {
            return true;
        }
        i = i + 1;
    }
    false
}

fn is_bus_port_component_exec(c: &[char]) -> (b: bool)
    ensures
        b == is_bus_port_component(c@),
{
    if !has_char_exec(c, '-') || has_char_exec(c, ':') {
        return false;
    }
    let parts = split_ranges(c, '-');
    if parts.len() != 2 {
        return false;
    }
    assert(bounds(c@, parts@[0], split(c@, '-')[0]));
    let (a, e) = parts[0];
    parse_u32_chars(&c[a..e]).is_some()
}

/// The USB bus-port of a resolved sysfs device path, e.g. "4-1.2" from
/// `/sys/devices/.../usb4/4-1/4-1.2/4-1.2:1.2/ttyUSB5`: the longest path
/// component that names a bus-port.
pub fn bus_port_from_path(path: &str) -> (r: Option<String>)
    ensures
        match longest_bus_port(split(path@, '/')) {
            Some(b) => r matches Some(s) && s@ == b,
            None => r is None,
        },
{
    let all = chars_of(path);
    let ranges = split_ranges(all.as_slice(), '/');
    let ghost comps = split(all@, '/');
    let mut best: Option<(usize, usize)> = None;
    let mut best_len: u128 = 0;
    let mut i: usize = 0;
    assert(comps.take(0) =~= Seq::<Seq<char>>::empty());
    while i < ranges.len()
        invariant
            i <= ranges@.len(),
            comps == split(all@, '/'),
            all@ == path@,
            all_bounds(all@, ranges@, comps),
            match longest_bus_port(comps.take(i as int)) {
                Some(b) => best matches Some(r) && r.0 <= r.1 <= all@.len() && all@.subrange(
                    r.0 as int,
                    r.1 as int,
                ) == b && best_len == utf8_len(b),
                None => best is None,
            },
        decreases ranges@.len() - i,
    {
        let (a, e) = ranges[i];
        assert(bounds(all@, ranges@[i as int], comps[i as int]));
        let c = &all.as_slice()[a..e];
        assert(comps.take(i + 1).drop_last() == comps.take(i as int));
        assert(comps.take(i + 1).last() == comps[i as int]);
        if is_bus_port_component_exec(c) {
            let n = utf8_len_of(c);
            if best.is_none() || n > best_len {
                best = Some((a, e));
                best_len = n;
            }
        }
        i = i + 1;
    }
    assert(comps.take(i as int) == comps);
    match best {
        Some((a, e)) => Some(string_from_chars(&all.as_slice()[a..e])),
        None => None,
    }
}

/// The interface number a path component carries: after its first ':' and
/// then the first '.', a decimal number ("4-1.2:1.2" gives 2).
pub open spec fn component_interface(c: Seq<char>) -> Option<u32> {
    if has_char(c, ':') {
        let after = c.skip(index_of(c, ':') + 1);
        if has_char(after, '.') {
            parse_u32(after.skip(index_of(after, '.') + 1))
        } else {
            None
        }
    } else {
        None
    }
}

pub open spec fn component_interface_fn() -> spec_fn(Seq<char>) -> Option<u32> {
    |c: Seq<char>| component_interface(c)
}

proof fn lemma_has_char_index(c: Seq<char>, x: char)
    ensures
        has_char(c, x) <==> index_of(c, x) < c.len(),
{
    lemma_index_of(c, x);
    if has_char(c, x) {
        let i = choose|i: int| 0 <= i < c.len() && c[i] == x;
        if index_of(c, x) >= c.len() {
            assert(c[i] != x);
        }
    }
}

fn component_interface_exec(c: &[char]) -> (r: Option<u32>)
    ensures
        r == component_interface(c@),
{
    let colon = find_char(c, 0, ':');
    proof {
        lemma_has_char_index(c@, ':');
        assert(c@.skip(0) == c@);
    }
    if colon >= c.len() {
        return None;
    }
    let after = &c[colon + 1..c.len()];
    assert(after@ == c@.skip(index_of(c@, ':') + 1));
    let dot = find_char(after, 0, '.');
    proof {
        lemma_has_char_index(after@, '.');
        assert(after@.skip(0) == after@);
    }
    if dot >= after.len() {
        return None;
    }
    assert(after@.subrange(dot + 1, after@.len() as int) == after@.skip(index_of(after@, '.') + 1));
    parse_u32_chars(&after[dot + 1..after.len()])
}

/// The USB interface number of a resolved sysfs device path: from the first
/// component of the form `bus-port:config.interface` that yields a number.
pub fn interface_number_from_path(path: &str) -> (r: Option<u32>)
    ensures
        r == first_some(split(path@, '/'), component_interface_fn()),
{
    let all = chars_of(path);
    let ranges = split_ranges(all.as_slice(), '/');
    let ghost comps = split(all@, '/');
    let mut i: usize = 0;
    while i < ranges.len()
        invariant
            i <= ranges@.len(),
            comps == split(all@, '/'),
            all@ == path@,
            all_bounds(all@, ranges@, comps),
            forall|k: int| 0 <= k < i ==> (component_interface_fn())(#[trigger] comps[k]) is None,
        decreases ranges@.len() - i,
    {
        let (a, e) = ranges[i];
        assert(bounds(all@, ranges@[i as int], comps[i as int]));
        let r = component_interface_exec(&all.as_slice()[a..e]);
        proof {
            assert(all@.subrange(a as int, e as int) == comps[i as int]);
            assert((component_interface_fn())(comps[i as int]) == component_interface(comps[i as int]));
            lemma_first_some_at(comps, component_interface_fn(), i as int);
        }
        if r.is_some() {
            return r;
        }
        i = i + 1;
    }
    proof {
        lemma_first_some_at(comps, component_interface_fn(), comps.len() - 1);
    }
    None
}

/// `/dev/{name}`.
pub open spec fn dev_path(name: Seq<char>) -> Seq<char> {
    "/dev/"@ + name
}

/// The AT port chosen among a modem's ttyUSB ports (`ports`, with the USB
/// interface number of each in `interfaces`): the first preferred port name
/// present, else the first port on the first preferred interface that has
/// one, else the first port.
pub open spec fn chosen_at_port(
    ports: Seq<Seq<char>>,
    names: Seq<Seq<char>>,
    iface_pref: Seq<u32>,
    interfaces: Seq<Option<u32>>,
) -> Option<Seq<char>> {
    let by_name = first_index(names.len() as int, |j: int| ports.contains(dev_path(names[j])));
    let by_iface = first_index(
        iface_pref.len() as int,
        |j: int| exists|p: int| 0 <= p < ports.len() && interfaces[p] == Some(iface_pref[j]),
    );
    if by_name is Some {
        Some(dev_path(names[by_name.unwrap()]))
    } else if by_iface is Some {
        let f = iface_pref[by_iface.unwrap()];
        let p = first_index(ports.len() as int, |p: int| interfaces[p] == Some(f));
        Some(ports[p.unwrap()])
    } else if ports.len() > 0 {
        Some(ports[0])
    } else {
        None
    }
}

pub open spec fn strings_view(v: Seq<String>) -> Seq<Seq<char>> {
    v.map_values(|s: String| s@)
}

fn index_of_string(v: &[String], x: &[char]) -> (r: Option<usize>)
    ensures
        match r {
            Some(i) => i < v@.len() && v@[i as int]@ == x@,
            None => !strings_view(v@).contains(x@),
        },
{
    let mut i: usize = 0;
    while i < v.len()
        invariant
            i <= v@.len(),
            forall|k: int| 0 <= k < i ==> v@[k]@ != x@,
        decreases v@.len() - i,
    {
        let c = chars_of(v[i].as_str());
        if slice_eq(c.as_slice(), x) {
            return Some(i);
        }
        i = i + 1;
    }
    proof {
        if strings_view(v@).contains(x@) {
            let k = choose|k: int| 0 <= k < strings_view(v@).len() && strings_view(v@)[k] == x@;
            assert(v@[k]@ == x@);
        }
    }
    None
}

/// Chooses the AT port among a modem's ttyUSB ports (see [`chosen_at_port`]).
pub fn choose_at_port(
    ports: &[String],
    port_preference: &[String],
    interface_preference: &[u32],
    port_interfaces: &[Option<u32>],
) -> (r: Option<String>)
    requires
        port_interfaces@.len() == ports@.len(),
    ensures
        match chosen_at_port(
            strings_view(ports@),
            strings_view(port_preference@),
            interface_preference@,
            port_interfaces@,
        ) {
            Some(p) => r matches Some(s) && s@ == p,
            None => r is None,
        },
{
    let ghost pv = strings_view(ports@);
    let ghost nv = strings_view(port_preference@);
    let ghost by_name = |j: int| pv.contains(dev_path(nv[j]));
    let mut j: usize = 0;
    while j < port_preference.len()
        invariant
            j <= port_preference@.len(),
            pv == strings_view(ports@),
            nv == strings_view(port_preference@),
            by_name == (|j: int| pv.contains(dev_path(nv[j]))),
            forall|k: int| 0 <= k < j ==> !#[trigger] by_name(k),
        decreases port_preference@.len() - j,
    {
        let mut path = chars_of("/dev/");
        let name = chars_of(port_preference[j].as_str());
        push_all(&mut path, name.as_slice());
        assert(nv[j as int] == port_preference@[j as int]@);
        match index_of_string(ports, path.as_slice()) {
            Some(i) => {
                proof {
                    assert(pv[i as int] == path@);
                    lemma_first_index(nv.len() as int, by_name, j as int);
                }
                return Some(string_from_chars(path.as_slice()));
            },
            None => {},
        }
        j = j + 1;
    }
    proof {
        lemma_first_index_none(nv.len() as int, by_name);
    }
    let ghost iv = port_interfaces@;
    let ghost ip = interface_preference@;
    let ghost by_iface = |j: int| exists|p: int| 0 <= p < pv.len() && iv[p] == Some(ip[j]);
    let mut j: usize = 0;
    while j < interface_preference.len()
        invariant
            j <= ip.len(),
            ip == interface_preference@,
            iv == port_interfaces@,
            iv.len() == pv.len(),
            pv == strings_view(ports@),
            by_iface == (|j: int| exists|p: int| 0 <= p < pv.len() && iv[p] == Some(ip[j])),
            forall|k: int| 0 <= k < j ==> !#[trigger] by_iface(k),
            nv == strings_view(port_preference@),
            by_name == (|j: int| pv.contains(dev_path(nv[j]))),
            first_index(nv.len() as int, by_name) is None,
        decreases ip.len() - j,
    {
        let f = interface_preference[j];
        let ghost on_f = |p: int| iv[p] == Some(f);
        let mut p: usize = 0;
        while p < ports.len()
            invariant
                p <= pv.len(),
                iv.len() == pv.len(),
                iv == port_interfaces@,
                pv == strings_view(ports@),
                on_f == (|p: int| iv[p] == Some(f)),
                forall|k: int| 0 <= k < p ==> !#[trigger] on_f(k),
                j < ip.len(),
                ip == interface_preference@,
                f == ip[j as int],
                by_iface == (|j: int| exists|p: int| 0 <= p < pv.len() && iv[p] == Some(ip[j])),
                forall|k: int| 0 <= k < j ==> !#[trigger] by_iface(k),
                nv == strings_view(port_preference@),
                by_name == (|j: int| pv.contains(dev_path(nv[j]))),
                first_index(nv.len() as int, by_name) is None,
            decreases pv.len() - p,
        {
            if port_interfaces[p] == Some(f) {
                proof {
                    lemma_first_index(pv.len() as int, on_f, p as int);
                    assert(iv[p as int] == Some(ip[j as int]));
                    assert(by_iface(j as int));
                    lemma_first_index(ip.len() as int, by_iface, j as int);
                }
                return Some(ports[p].clone());
            }
            p = p + 1;
        }
        proof {
            assert(!by_iface(j as int)) by {
                if by_iface(j as int) {
                    let q = choose|q: int| 0 <= q < pv.len() && iv[q] == Some(ip[j as int]);
                    assert(!on_f(q));
                }
            }
        }
        j = j + 1;
    }
    proof {
        lemma_first_index_none(ip.len() as int, by_iface);
    }
    if ports.len() > 0 {
        Some(ports[0].clone())
    } else {
        None
    }
}

/// The identifier of a real modem from its USB serial (when non-empty and
/// not "0000") or else its MAC address (colons removed), both read through
/// the bus-port: `{vid}:{pid}:{serial}` or `{vid}:{pid}:MAC-{mac}`.
/// `Err` carries the message when neither is available.
pub open spec fn real_modem_id(
    d: DetectedModem,
    serial: Option<Seq<char>>,
    mac: Option<Seq<char>>,
) -> Result<Seq<char>, Seq<char>> {
    let ids = or_default(d.vendor_id, "0000"@) + seq![':'] + or_default(d.product_id, "0000"@)
        + seq![':'];
    if d.bus_port is Some && serial is Some && serial.unwrap().len() > 0 && serial.unwrap()
        != "0000"@ {
        Ok(ids + serial.unwrap())
    } else if d.bus_port is Some && mac is Some {
        Ok(ids + "MAC-"@ + mac.unwrap().filter(|c: char| c != ':'))
    } else {
        Err("No stable identifier available for modem at bus-port "@ + or_default(
            d.bus_port,
            "unknown"@,
        ))
    }
}

/// Builds a real modem's stable identifier from what was read for its
/// bus-port: the USB serial and the network interface's MAC address (see
/// [`real_modem_id`]). Without a bus-port neither can be read.
pub fn modem_id_from_identifiers(
    detected: &DetectedModem,
    serial: Option<&str>,
    mac: Option<&str>,
) -> (r: Result<String, HardwareError>)
    ensures
        match real_modem_id(
            *detected,
            match serial {
                Some(s) => Some(s@),
                None => None,
            },
            match mac {
                Some(m) => Some(m@),
                None => None,
            },
        ) {
            Ok(id) => r matches Ok(s) && s@ == id,
            Err(msg) => r matches Err(HardwareError::Internal(m)) && m@ == msg,
        },
{
    let mut ids = chars_or(&detected.vendor_id, "0000");
    ids.push(':');
    let p = chars_or(&detected.product_id, "0000");
    push_all(&mut ids, p.as_slice());
    ids.push(':');
    if detected.bus_port.is_some() {
        if let Some(sr) = serial {
            let sc = chars_of(sr);
            let zeros = chars_of("0000");
            if sc.len() > 0 && !slice_eq(sc.as_slice(), zeros.as_slice()) {
                push_all(&mut ids, sc.as_slice());
                return Ok(string_from_chars(ids.as_slice()));
            }
        }
        if let Some(m) = mac {
            let tag = chars_of("MAC-");
            push_all(&mut ids, tag.as_slice());
            let mc = chars_of(m);
            let ghost keep = |c: char| c != ':';
            let ghost before = ids@;
            let mut i: usize = 0;
            proof {
                reveal(Seq::filter);
                assert(mc@.take(0).filter(keep) =~= Seq::<char>::empty());
            }
            while i < mc.len()
                invariant
                    i <= mc@.len(),
                    keep == (|c: char| c != ':'),
                    ids@ == before + mc@.take(i as int).filter(keep),
                decreases mc@.len() - i,
            {
                proof {
                    reveal(Seq::filter);
                    assert(mc@.take(i + 1).drop_last() == mc@.take(i as int));
                    assert(mc@.take(i + 1).last() == mc@[i as int]);
                }
                if mc[i] != ':' {
                    ids.push(mc[i]);
                }
                i = i + 1;
            }
            assert(mc@.take(i as int) == mc@);
            return Ok(string_from_chars(ids.as_slice()));
        }
    }
    let mut msg = chars_of("No stable identifier available for modem at bus-port ");
    let b = chars_or(&detected.bus_port, "unknown");
    push_all(&mut msg, b.as_slice());
    Err(HardwareError::Internal(string_from_chars(msg.as_slice())))
}

/// `s.parse::<u8>()`.
pub open spec fn parse_u8(s: Seq<char>) -> Option<u8> {
    match parse_u32(s) {
        Some(v) => if v <= 255 {
            Some(v as u8)
        } else {
            None
        },
        None => None,
    }
}

/// The colon-hex text of 16 octets: eight groups of two octets.
pub open spec fn ipv6_text(octets: Seq<u8>) -> Seq<char> {
    join_sep(
        Seq::new(8, |k: int| hex2(octets[2 * k]) + hex2(octets[2 * k + 1])),
        ':',
    )
}

/// A `+CGPADDR` address: 16 dot-separated octets become colon-hex IPv6;
/// anything else (an IPv4 address, or a part that is not an octet) is kept.
pub open spec fn cgpaddr_text(raw: Seq<char>) -> Seq<char> {
    let parts = split(raw, '.');
    if parts.len() == 16 && forall|i: int| 0 <= i < 16 ==> parse_u8(#[trigger] parts[i]) is Some {
        ipv6_text(Seq::new(16, |i: int| parse_u8(parts[i]).unwrap()))
    } else {
        raw
    }
}

/// Converts a 3GPP dotted-decimal IPv6 address (16 octets) to colon-hex
/// notation; other input is returned unchanged.
pub fn normalize_cgpaddr_ip(raw: &str) -> (r: String)
    ensures
        r@ == cgpaddr_text(raw@),
{
    let all = chars_of(raw);
    let ranges = split_ranges(all.as_slice(), '.');
    let ghost parts = split(all@, '.');
    if ranges.len() != 16 {
        return raw.to_string();
    }
    let mut octets: Vec<u8> = Vec::new();
    let mut i: usize = 0;
    while i < 16
        invariant
            i <= 16,
            ranges@.len() == 16,
            parts == split(all@, '.'),
            all@ == raw@,
            all_bounds(all@, ranges@, parts),
            octets@.len() == i,
            forall|k: int| 0 <= k < i ==> parse_u8(#[trigger] parts[k]) == Some(octets@[k]),
        decreases 16 - i,
    {
        let (a, e) = ranges[i];
        assert(bounds(all@, ranges@[i as int], parts[i as int]));
        match parse_u32_chars(&all.as_slice()[a..e]) {
            Some(v) => {
                if v > 255 {
                    return raw.to_string();
                }
                octets.push(v as u8);
            },
            None => {
                return raw.to_string();
            },
        }
        i = i + 1;
    }
    let ghost os = Seq::new(16, |i: int| parse_u8(parts[i]).unwrap());
    assert(octets@ =~= os);
    let ghost groups = Seq::new(8, |k: int| hex2(os[2 * k]) + hex2(os[2 * k + 1]));
    let mut out: Vec<char> = Vec::new();
    let mut g: usize = 0;
    while g < 8
        invariant
            g <= 8,
            octets@ == os,
            octets@.len() == 16,
            groups == Seq::new(8, |k: int| hex2(os[2 * k]) + hex2(os[2 * k + 1])),
            out@ == join_sep(groups.take(g as int), ':'),
        decreases 8 - g,
    {
        if g > 0 {
            out.push(':');
        }
        let hi = octets[2 * g];
        let lo = octets[2 * g + 1];
        push_hex2(&mut out, hi);
        push_hex2(&mut out, lo);
        proof {
            assert(groups.take(g + 1).drop_last() == groups.take(g as int));
            assert(groups.take(g + 1).last() == hex2(hi) + hex2(lo));
            if g == 0 {
                assert(groups.take(0).len() == 0);
            }
        }
        g = g + 1;
    }
    assert(groups.take(8) == groups);
    string_from_chars(out.as_slice())
}

// ---------------------------------------------------------------------------
// Sysfs readings
// ---------------------------------------------------------------------------

/// Whether a network interface can belong to a modem: loopback, `sit0`,
/// bridges (`br-*`) and Docker interfaces are skipped.
pub open spec fn candidate_net_iface(name: Seq<char>) -> bool {
    !(name == "lo"@ || name == "sit0"@ || starts_with(name, "br-"@) || starts_with(name, "docker"@))
}

/// Whether the interface `name` is worth checking for a modem's bus-port.
pub fn is_candidate_net_iface(name: &str) -> (b: bool)
    ensures
        b == candidate_net_iface(name@),
{
    let c = chars_of(name);
    let br = chars_of("br-");
    let docker = chars_of("docker");
    !(str_eq(name, "lo") || str_eq(name, "sit0") || has_prefix(c.as_slice(), br.as_slice()) || has_prefix(
        c.as_slice(),
        docker.as_slice(),
    ))
}

/// A sysfs value trimmed, or nothing when that leaves it empty.
pub open spec fn nonblank_trimmed(contents: Seq<char>) -> Option<Seq<char>> {
    if trim(contents).len() == 0 {
        None
    } else {
        Some(trim(contents))
    }
}

/// The USB serial number a sysfs `serial` file holds, if not blank.
pub fn usb_serial_from_file(contents: &str) -> (r: Option<String>)
    ensures
        opt_view(r) == nonblank_trimmed(contents@),
{
    let c = chars_of(contents);
    let (a, b) = trim_bounds(c.as_slice());
    if a == b {
        None
    } else {
        Some(string_from_chars(&c.as_slice()[a..b]))
    }
}

/// The MAC a sysfs `address` file holds: trimmed and lowercased, unless it
/// is empty or all zeros (unset).
pub open spec fn modem_mac(contents: Seq<char>) -> Option<Seq<char>> {
    let m = unicode_lowercase(trim(contents));
    if m.len() == 0 || m == "00:00:00:00:00:00"@ {
        None
    } else {
        Some(m)
    }
}

/// The MAC address of a modem's network device from its sysfs `address`
/// file.
pub fn modem_mac_from_file(contents: &str) -> (r: Option<String>)
    ensures
        opt_view(r) == modem_mac(contents@),
{
    let c = chars_of(contents);
    let (a, b) = trim_bounds(c.as_slice());
    let t = string_from_chars(&c.as_slice()[a..b]);
    let m = to_lowercase(t.as_str());
    if m.as_str().is_empty() || str_eq(m.as_str(), "00:00:00:00:00:00") {
        None
    } else {
        Some(m)
    }
}

} // verus!
