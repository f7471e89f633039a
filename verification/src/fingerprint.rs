//! Device token derived from the router's hardware fingerprint.
//!
//! The token is the unpadded Base32 encoding of the SHA-256 hash of the
//! hardware identifiers, sorted by name and joined as `name=value` with ":".
//! A token persisted by an earlier run wins; without a primary MAC address
//! the fixed development token is used.
//!
//! Reading the identifiers (files, `ip link`, `blkid`) happens outside the
//! library, which receives what was read as a [`FingerprintInputs`].

use vstd::prelude::*;
use sha2::Digest;
use crate::text::{
    opt_view,
    chars_of, find, lines, line_ranges, occurs_at, parse_hex_u32, parse_hex_u32_chars, push_all,
    split, split_ranges, starts_with, string_from_chars, trim, trim_bounds, first_some, all_bounds,
    bounds, has_prefix, is_ws, is_ws_char, lemma_first_some_at, lemma_trim_idempotent,
    lemma_trim_no_ws,
};

verus! {

/// The token used when the hardware offers no primary MAC address.
pub open spec fn mock_token() -> Seq<char> {
    "MOCK-DEV-TOKEN-NOT-FOR-PRODUCTION"@
}

// ---------------------------------------------------------------------------
// Hashing and encoding
// ---------------------------------------------------------------------------

/// The SHA-256 digest of a byte string.
pub uninterp spec fn sha256_digest(data: Seq<u8>) -> Seq<u8>;

/// `sha2::Sha256::digest`: the result is named `sha256_digest` of the input,
/// and is 32 bytes long (the output size of SHA-256).
#[verifier::external_body]
fn sha256(data: &[u8]) -> (r: Vec<u8>)
    ensures
        r@ == sha256_digest(data@),
        r@.len() == 32,
{
    sha2::Sha256::digest(data).to_vec()
}

/// The unpadded RFC 4648 Base32 encoding of a byte string.
pub uninterp spec fn base32_nopad(data: Seq<u8>) -> Seq<char>;

/// A Base32 symbol: `A`-`Z` or `2`-`7`.
pub open spec fn is_base32_symbol(c: char) -> bool {
    ('A' <= c && c <= 'Z') || ('2' <= c && c <= '7')
}

/// `data_encoding::BASE32_NOPAD.encode`: the result is named `base32_nopad`
/// of the input; it has `ceil(8n/5)` characters, each one of the 32 symbols
/// `A`-`Z`, `2`-`7`. Inputs are kept below the length the crate documents as
/// safe from overflow.
#[verifier::external_body]
fn base32_encode(data: &[u8]) -> (r: String)
    requires
        data@.len() <= 8_388_607,
    ensures
        r@ == base32_nopad(data@),
        r@.len() == (8 * data@.len() + 4) / 5,
        forall|i: int| 0 <= i < r@.len() ==> is_base32_symbol(#[trigger] r@[i]),
{
    data_encoding::BASE32_NOPAD.encode(data)
}

// ---------------------------------------------------------------------------
// MAC addresses
// ---------------------------------------------------------------------------

/// A MAC is globally unique (factory-assigned) when, trimmed, it is not empty
/// or all zeros, and its first octet parses as hexadecimal with the U/L bit
/// (bit 1) clear.
pub open spec fn globally_unique_mac(mac: Seq<char>) -> bool {
    let m = trim(mac);
    if m.len() == 0 || m == "00:00:00:00:00:00"@ {
        false
    } else {
        match parse_hex_u32(split(m, ':')[0]) {
            Some(v) => v <= 255 && (v / 2) % 2 == 0,
            None => false,
        }
    }
}

/// Whether a MAC address is globally unique (factory-assigned).
pub fn is_globally_unique_mac(mac: &str) -> (b: bool)
    ensures
        b == globally_unique_mac(mac@),
{
    let all = chars_of(mac);
    let (a, e) = trim_bounds(all.as_slice());
    let m = &all.as_slice()[a..e];
    let zeros = chars_of("00:00:00:00:00:00");
    if m.len() == 0 || crate::text::slice_eq(m, zeros.as_slice()) {
        return false;
    }
    let ranges = split_ranges(m, ':');
    assert(bounds(m@, ranges@[0], split(m@, ':')[0]));
    let (f0, f1) = ranges[0];
    match parse_hex_u32_chars(&m[f0..f1]) {
        Some(v) => v <= 255 && (v / 2) % 2 == 0,
        None => false,
    }
}

/// The primary MAC chosen from the candidates, in priority order: `br-lan`,
/// `eth0`, the WiFi PHYs, then the interfaces with a permanent address (each
/// only if globally unique); finally `br-lan` whatever it is. Each choice
/// comes with the label of its source.
pub open spec fn primary_mac(
    br_lan: Option<Seq<char>>,
    eth0: Option<Seq<char>>,
    wifi: Seq<(Seq<char>, Seq<char>)>,
    permanent: Seq<(Seq<char>, Seq<char>)>,
) -> Option<(Seq<char>, Seq<char>)> {
    if br_lan is Some && globally_unique_mac(br_lan.unwrap()) {
        Some(("br-lan"@, br_lan.unwrap()))
    } else if eth0 is Some && globally_unique_mac(eth0.unwrap()) {
        Some(("eth0"@, eth0.unwrap()))
    } else if exists|i: int| 0 <= i < wifi.len() && globally_unique_mac(#[trigger] wifi[i].1) {
        let i = choose|i: int|
            0 <= i < wifi.len() && globally_unique_mac(wifi[i].1) && forall|k: int|
                0 <= k < i ==> !globally_unique_mac(#[trigger] wifi[k].1);
        Some(("wifi/"@ + wifi[i].0, wifi[i].1))
    } else if exists|i: int| 0 <= i < permanent.len() && globally_unique_mac(#[trigger] permanent[i].1) {
        let i = choose|i: int|
            0 <= i < permanent.len() && globally_unique_mac(permanent[i].1) && forall|k: int|
                0 <= k < i ==> !globally_unique_mac(#[trigger] permanent[k].1);
        Some((permanent[i].0, permanent[i].1))
    } else if br_lan is Some {
        Some(("br-lan"@, br_lan.unwrap()))
    } else {
        None
    }
}

pub open spec fn pairs_view(v: Seq<(String, String)>) -> Seq<(Seq<char>, Seq<char>)> {
    v.map_values(|p: (String, String)| (p.0@, p.1@))
}

proof fn lemma_first_unique_mac(s: Seq<(Seq<char>, Seq<char>)>, i: int, j: int)
    requires
        0 <= i < s.len(),
        0 <= j < s.len(),
        globally_unique_mac(s[i].1),
        globally_unique_mac(s[j].1),
        forall|k: int| 0 <= k < i ==> !globally_unique_mac(#[trigger] s[k].1),
        forall|k: int| 0 <= k < j ==> !globally_unique_mac(#[trigger] s[k].1),
    ensures
        i == j,
{
    if i < j {
        assert(!globally_unique_mac(s[i].1));
    } else if j < i {
        assert(!globally_unique_mac(s[j].1));
    }
}

/// Index of the first pair whose MAC is globally unique, if any.
fn first_unique_mac(v: &[(String, String)]) -> (r: Option<usize>)
    ensures
        match r {
            Some(i) => i < v@.len() && globally_unique_mac(v@[i as int].1@) && forall|k: int|
                0 <= k < i ==> !globally_unique_mac(#[trigger] v@[k].1@),
            None => forall|k: int| 0 <= k < v@.len() ==> !globally_unique_mac(#[trigger] v@[k].1@),
        },
{
    let mut i: usize = 0;
    while i < v.len()
        invariant
            i <= v@.len(),
            forall|k: int| 0 <= k < i ==> !globally_unique_mac(#[trigger] v@[k].1@),
        decreases v@.len() - i,
    {
        if is_globally_unique_mac(v[i].1.as_str()) {
            return Some(i);
        }
        i = i + 1;
    }
    None
}

/// Selects the primary MAC address from the candidates read from the system
/// (see [`primary_mac`]), with the label of its source.
pub fn select_primary_mac(
    br_lan: Option<String>,
    eth0: Option<String>,
    wifi: Vec<(String, String)>,
    permanent: Vec<(String, String)>,
) -> (r: Option<(String, String)>)
    ensures
        match primary_mac(opt_view(br_lan), opt_view(eth0), pairs_view(wifi@), pairs_view(permanent@)) {
            Some((label, mac)) => r matches Some(p) && p.0@ == label && p.1@ == mac,
            None => r is None,
        },
{
    let ghost wv = pairs_view(wifi@);
    let ghost pv = pairs_view(permanent@);
    if let Some(m) = &br_lan {
        if is_globally_unique_mac(m.as_str()) {
            return Some(("br-lan".to_string(), m.clone()));
        }
    }
    if let Some(m) = &eth0 {
        if is_globally_unique_mac(m.as_str()) {
            return Some(("eth0".to_string(), m.clone()));
        }
    }
    match first_unique_mac(wifi.as_slice()) {
        Some(i) => {
            proof {
                assert(wv[i as int] == (wifi@[i as int].0@, wifi@[i as int].1@));
                assert forall|k: int| 0 <= k < i implies !globally_unique_mac(#[trigger] wv[k].1) by {
                    assert(wv[k].1 == wifi@[k].1@);
                }
                let j = choose|j: int|
                    0 <= j < wv.len() && globally_unique_mac(wv[j].1) && forall|k: int|
                        0 <= k < j ==> !globally_unique_mac(#[trigger] wv[k].1);
                lemma_first_unique_mac(wv, i as int, j);
            }
            let mut label = chars_of("wifi/");
            let name = chars_of(wifi[i].0.as_str());
            push_all(&mut label, name.as_slice());
            return Some((string_from_chars(label.as_slice()), wifi[i].1.clone()));
        },
        None => {
            assert forall|k: int| 0 <= k < wv.len() implies !globally_unique_mac(#[trigger] wv[k].1) by {
                assert(wv[k].1 == wifi@[k].1@);
            }
        },
    }
    match first_unique_mac(permanent.as_slice()) {
        Some(i) => {
            proof {
                assert(pv[i as int] == (permanent@[i as int].0@, permanent@[i as int].1@));
                assert forall|k: int| 0 <= k < i implies !globally_unique_mac(#[trigger] pv[k].1) by {
                    assert(pv[k].1 == permanent@[k].1@);
                }
                let j = choose|j: int|
                    0 <= j < pv.len() && globally_unique_mac(pv[j].1) && forall|k: int|
                        0 <= k < j ==> !globally_unique_mac(#[trigger] pv[k].1);
                lemma_first_unique_mac(pv, i as int, j);
            }
            return Some((permanent[i].0.clone(), permanent[i].1.clone()));
        },
        None => {
            assert forall|k: int| 0 <= k < pv.len() implies !globally_unique_mac(#[trigger] pv[k].1) by {
                assert(pv[k].1 == permanent@[k].1@);
            }
        },
    }
    match br_lan {
        Some(m) => Some(("br-lan".to_string(), m)),
        None => None,
    }
}

// ---------------------------------------------------------------------------
// Persisted token
// ---------------------------------------------------------------------------

/// ASCII letter or digit.
pub open spec fn is_ascii_alnum(c: char) -> bool {
    ('0' <= c && c <= '9') || ('a' <= c && c <= 'z') || ('A' <= c && c <= 'Z')
}

/// Trimmed, the contents are 40 to 60 ASCII letters and digits. (Such a
/// string has as many bytes as characters.)
pub open spec fn valid_persisted_token(contents: Seq<char>) -> bool {
    let t = trim(contents);
    40 <= t.len() <= 60 && forall|i: int| 0 <= i < t.len() ==> is_ascii_alnum(#[trigger] t[i])
}

fn all_alnum(s: &[char]) -> (b: bool)
    ensures
        b == forall|i: int| 0 <= i < s@.len() ==> is_ascii_alnum(#[trigger] s@[i]),
{
    let mut i: usize = 0;
    while i < s.len()
        invariant
            i <= s@.len(),
            forall|k: int| 0 <= k < i ==> is_ascii_alnum(#[trigger] s@[k]),
        decreases s@.len() - i,
    {
        let c = s[i];
        if !(('0' <= c && c <= '9') || ('a' <= c && c <= 'z') || ('A' <= c && c <= 'Z')) {
            assert(!is_ascii_alnum(s@[i as int]));
            return false;
        }
        i = i + 1;
    }
    true
}

/// Whether the contents of the persisted token file are a usable token.
pub fn is_valid_persisted_token(contents: &str) -> (b: bool)
    ensures
        b == valid_persisted_token(contents@),
{
    let all = chars_of(contents);
    let (a, e) = trim_bounds(all.as_slice());
    let t = &all.as_slice()[a..e];
    40 <= t.len() && t.len() <= 60 && all_alnum(t)
}

// ---------------------------------------------------------------------------
// Fingerprint sources
// ---------------------------------------------------------------------------

/// What was read from the system for the fingerprint. Each field is `None`
/// when the source could not be read.
pub struct FingerprintInputs {
    /// Contents of the persisted token file.
    pub persisted_token: Option<String>,
    /// Contents of the board name file.
    pub board_name: Option<String>,
    /// Contents of the board model file.
    pub board_model: Option<String>,
    /// Contents of `/proc/cpuinfo`.
    pub cpuinfo: Option<String>,
    /// The selected primary MAC address.
    pub primary_mac: Option<String>,
    /// Contents of the machine-id file.
    pub machine_id: Option<String>,
    /// Output of `blkid` for the root partition.
    pub blkid_output: Option<String>,
}

/// The trimmed contents, if any remain.
pub open spec fn trimmed_value(o: Option<String>) -> Option<Seq<char>> {
    match o {
        Some(s) => if trim(s@).len() > 0 {
            Some(trim(s@))
        } else {
            None
        },
        None => None,
    }
}

/// `s` without leading colons and whitespace.
pub open spec fn skip_colon_ws(s: Seq<char>) -> Seq<char>
    decreases s.len(),
{
    if s.len() > 0 && (s[0] == ':' || is_ws(s[0])) {
        skip_colon_ws(s.drop_first())
    } else {
        s
    }
}

/// The serial a cpuinfo line carries: after the "Serial" prefix and any
/// colons and whitespace, if anything remains.
pub open spec fn line_serial(line: Seq<char>) -> Option<Seq<char>> {
    if starts_with(line, "Serial"@) && skip_colon_ws(line.skip(6)).len() > 0 {
        Some(skip_colon_ws(line.skip(6)))
    } else {
        None
    }
}

pub open spec fn line_serial_fn() -> spec_fn(Seq<char>) -> Option<Seq<char>> {
    |line: Seq<char>| line_serial(line)
}

/// The CPU serial: the first cpuinfo line with a serial.
pub open spec fn cpu_serial(cpuinfo: Option<String>) -> Option<Seq<char>> {
    match cpuinfo {
        Some(s) => first_some(lines(s@), line_serial_fn()),
        None => None,
    }
}

/// The leftmost position of `p` in `s`.
pub open spec fn first_occurrence(s: Seq<char>, p: Seq<char>) -> int {
    choose|i: int| occurs_at(s, p, i) && forall|j: int| 0 <= j < i ==> !occurs_at(s, p, j)
}

/// The root UUID: the value of the first `UUID="…"` of the blkid output, if
/// it is closed and not empty.
pub open spec fn root_uuid(blkid: Option<String>) -> Option<Seq<char>> {
    match blkid {
        Some(s) => {
            let o = s@;
            let marker = "UUID=\""@;
            if exists|i: int| occurs_at(o, marker, i) {
                let rest = o.skip(first_occurrence(o, marker) + 6);
                if exists|j: int| 0 <= j < rest.len() && rest[j] == '"' {
                    let end = choose|j: int|
                        0 <= j < rest.len() && rest[j] == '"' && forall|k: int|
                            0 <= k < j ==> rest[k] != '"';
                    if end > 0 {
                        Some(rest.take(end))
                    } else {
                        None
                    }
                } else {
                    None
                }
            } else {
                None
            }
        },
        None => None,
    }
}

/// `name=value` for a present value.
pub open spec fn entry(name: Seq<char>, value: Option<Seq<char>>) -> Seq<Seq<char>> {
    match value {
        Some(v) => seq![name + seq!['='] + v],
        None => Seq::empty(),
    }
}

/// The fingerprint entries, sorted by name.
pub open spec fn fingerprint_entries(inputs: FingerprintInputs) -> Seq<Seq<char>> {
    entry("board_model"@, trimmed_value(inputs.board_model)) + entry(
        "board_name"@,
        trimmed_value(inputs.board_name),
    ) + entry("cpu_serial"@, cpu_serial(inputs.cpuinfo)) + entry(
        "machine_id"@,
        trimmed_value(inputs.machine_id),
    ) + entry("primary_mac"@, opt_view(inputs.primary_mac)) + entry(
        "root_uuid"@,
        root_uuid(inputs.blkid_output),
    )
}

/// Pieces joined with ":" between them.
pub open spec fn join_colon(pieces: Seq<Seq<char>>) -> Seq<char>
    decreases pieces.len(),
{
    if pieces.len() == 0 {
        Seq::empty()
    } else if pieces.len() == 1 {
        pieces[0]
    } else {
        join_colon(pieces.drop_last()) + seq![':'] + pieces.last()
    }
}

/// The device token for the inputs: a valid persisted token (trimmed) wins;
/// without a primary MAC the development token is used; otherwise the Base32
/// of the SHA-256 of the UTF-8 of the joined entries.
pub open spec fn device_token(inputs: FingerprintInputs) -> Seq<char> {
    if inputs.persisted_token is Some && valid_persisted_token(inputs.persisted_token.unwrap()@) {
        trim(inputs.persisted_token.unwrap()@)
    } else if inputs.primary_mac is None {
        mock_token()
    } else {
        base32_nopad(sha256_digest(vstd::utf8::encode_utf8(join_colon(fingerprint_entries(inputs)))))
    }
}

fn trimmed_of(o: &Option<String>) -> (r: Option<Vec<char>>)
    ensures
        match trimmed_value(*o) {
            Some(v) => r matches Some(x) && x@ == v,
            None => r is None,
        },
{
    match o {
        Some(s) => {
            let all = chars_of(s.as_str());
            let (a, e) = trim_bounds(all.as_slice());
            if e > a {
                let mut v: Vec<char> = Vec::new();
                push_all(&mut v, &all.as_slice()[a..e]);
                Some(v)
            } else {
                None
            }
        },
        None => None,
    }
}

proof fn lemma_skip_colon_ws(s: Seq<char>, i: int)
    requires
        0 <= i <= s.len(),
        forall|k: int| 0 <= k < i ==> (#[trigger] s[k] == ':' || is_ws(s[k])),
        i == s.len() || !(s[i] == ':' || is_ws(s[i])),
    ensures
        skip_colon_ws(s) == s.skip(i),
    decreases i,
{
    if i > 0 {
        lemma_skip_colon_ws(s.drop_first(), i - 1);
        assert(s.drop_first().skip(i - 1) == s.skip(i));
    } else {
        assert(s.skip(0) == s);
    }
}

fn serial_of_line(line: &[char]) -> (r: Option<Vec<char>>)
    ensures
        match line_serial(line@) {
            Some(v) => r matches Some(x) && x@ == v,
            None => r is None,
        },
{
    let serial = chars_of("Serial");
    proof {
        reveal_strlit("Serial");
    }
    if !has_prefix(line, serial.as_slice()) {
        return None;
    }
    let mut i: usize = 6;
    while i < line.len() && (line[i] == ':' || is_ws_char(line[i]))
        invariant
            6 <= i <= line@.len(),
            forall|k: int| 6 <= k < i ==> (#[trigger] line@[k] == ':' || is_ws(line@[k])),
        decreases line@.len() - i,
    {
        i = i + 1;
    }
    proof {
        let t = line@.skip(6);
        assert forall|k: int| 0 <= k < i - 6 implies (#[trigger] t[k] == ':' || is_ws(t[k])) by {
            assert(t[k] == line@[k + 6]);
        }
        lemma_skip_colon_ws(t, i - 6);
        assert(t.skip(i - 6) == line@.skip(i as int));
    }
    if i < line.len() {
        let mut v: Vec<char> = Vec::new();
        push_all(&mut v, &line[i..line.len()]);
        Some(v)
    } else {
        None
    }
}

fn cpu_serial_of(cpuinfo: &Option<String>) -> (r: Option<Vec<char>>)
    ensures
        match cpu_serial(*cpuinfo) {
            Some(v) => r matches Some(x) && x@ == v,
            None => r is None,
        },
{
    match cpuinfo {
        Some(s) => {
            let all = chars_of(s.as_str());
            let ranges = line_ranges(all.as_slice());
            let ghost ls = lines(all@);
            assert(cpu_serial(*cpuinfo) == first_some(ls, line_serial_fn()));
            let mut i: usize = 0;
            while i < ranges.len()
                invariant
                    i <= ranges@.len(),
                    ls == lines(all@),
                    cpu_serial(*cpuinfo) == first_some(ls, line_serial_fn()),
                    all_bounds(all@, ranges@, ls),
                    forall|k: int| 0 <= k < i ==> (line_serial_fn())(#[trigger] ls[k]) is None,
                decreases ranges@.len() - i,
            {
                let (a, e) = ranges[i];
                assert(bounds(all@, ranges@[i as int], ls[i as int]));
                let r = serial_of_line(&all.as_slice()[a..e]);
                proof {
                    assert(all@.subrange(a as int, e as int) == ls[i as int]);
                    assert((line_serial_fn())(ls[i as int]) == line_serial(ls[i as int]));
                    lemma_first_some_at(ls, line_serial_fn(), i as int);
                }
                if r.is_some() {
                    return r;
                }
                i = i + 1;
            }
            proof {
                if ls.len() > 0 {
                    lemma_first_some_at(ls, line_serial_fn(), ls.len() - 1);
                }
            }
            None
        },
        None => None,
    }
}

fn root_uuid_of(blkid: &Option<String>) -> (r: Option<Vec<char>>)
    ensures
        match root_uuid(*blkid) {
            Some(v) => r matches Some(x) && x@ == v,
            None => r is None,
        },
{
    match blkid {
        Some(s) => {
            let o = chars_of(s.as_str());
            let marker = chars_of("UUID=\"");
            proof {
                reveal_strlit("UUID=\"");
                assert(marker@.len() == 6);
            }
            match find(o.as_slice(), marker.as_slice()) {
                Some(start) => {
                    proof {
                        let f = first_occurrence(o@, marker@);
                        assert(occurs_at(o@, marker@, start as int));
                        if f != start {
                            if f < start {
                                assert(!occurs_at(o@, marker@, f));
                            } else {
                                assert(!occurs_at(o@, marker@, start as int));
                            }
                        }
                    }
                    let n = o.len();
                    assert(start + 6 <= n);
                    let from = start + 6;
                    let rest = &o.as_slice()[from..n];
                    assert(rest@ == o@.skip(from as int));
                    let mut j: usize = 0;
                    while j < rest.len() && rest[j] != '"'
                        invariant
                            j <= rest@.len(),
                            forall|k: int| 0 <= k < j ==> rest@[k] != '"',
                        decreases rest@.len() - j,
                    {
                        j = j + 1;
                    }
                    if j < rest.len() {
                        proof {
                            let end = choose|e: int|
                                0 <= e < rest@.len() && rest@[e] == '"' && forall|k: int|
                                    0 <= k < e ==> rest@[k] != '"';
                            if end < j {
                                assert(rest@[end] != '"');
                            } else if j < end {
                                assert(rest@[j as int] != '"');
                            }
                        }
                        if j > 0 {
                            let mut v: Vec<char> = Vec::new();
                            push_all(&mut v, &rest[0..j]);
                            return Some(v);
                        }
                    }
                    None
                },
                None => None,
            }
        },
        None => None,
    }
}

/// Appends `name=value` (after a ':' unless it is the first entry) when the
/// value is present.
fn push_entry(
    out: &mut Vec<char>,
    count: &mut usize,
    name: &str,
    value: &Option<Vec<char>>,
    Ghost(done): Ghost<Seq<Seq<char>>>,
) -> (r: Ghost<Seq<Seq<char>>>)
    requires
        old(out)@ == join_colon(done),
        *old(count) == done.len(),
        done.len() < 6,
    ensures
        r@ == done + entry(
            name@,
            match value {
                Some(v) => Some(v@),
                None => None,
            },
        ),
        final(out)@ == join_colon(r@),
        *final(count) == r@.len(),
        r@.len() <= done.len() + 1,
{
    match value {
        Some(v) => {
            let ghost piece = name@ + seq!['='] + v@;
            if *count > 0 {
                out.push(':');
            }
            let n = chars_of(name);
            push_all(out, n.as_slice());
            out.push('=');
            push_all(out, v.as_slice());
            *count = *count + 1;
            let ghost next = done.push(piece);
            proof {
                assert(next.drop_last() == done);
                assert(seq![piece] == entry(name@, Some(v@)));
                assert(done + seq![piece] == next);
            }
            Ghost(next)
        },
        None => {
            assert(done + Seq::<Seq<char>>::empty() == done);
            Ghost(done)
        },
    }
}

/// Computes the device token from what was read from the system (see
/// [`device_token`]).
pub fn generate_device_token(inputs: &FingerprintInputs) -> (r: String)
    ensures
        r@ == device_token(*inputs),
        r@ == mock_token() || (valid_persisted_token(r@) && trim(r@) == r@),
        !(inputs.persisted_token matches Some(t) && valid_persisted_token(t@)) && inputs.primary_mac is Some
            ==> r@.len() == 52 && valid_persisted_token(r@) && forall|i: int|
            0 <= i < r@.len() ==> is_base32_symbol(#[trigger] r@[i]),
{
    if let Some(p) = &inputs.persisted_token {
        if is_valid_persisted_token(p.as_str()) {
            let all = chars_of(p.as_str());
            let (a, e) = trim_bounds(all.as_slice());
            proof {
                lemma_trim_idempotent(p@);
            }
            return string_from_chars(&all.as_slice()[a..e]);
        }
    }
    let mac = match &inputs.primary_mac {
        Some(m) => Some(chars_of(m.as_str())),
        None => {
            return "MOCK-DEV-TOKEN-NOT-FOR-PRODUCTION".to_string();
        },
    };
    let board_model = trimmed_of(&inputs.board_model);
    let board_name = trimmed_of(&inputs.board_name);
    let serial = cpu_serial_of(&inputs.cpuinfo);
    let machine_id = trimmed_of(&inputs.machine_id);
    let uuid = root_uuid_of(&inputs.blkid_output);
    let mut out: Vec<char> = Vec::new();
    let mut count: usize = 0;
    let ghost e0: Seq<Seq<char>> = Seq::empty();
    let Ghost(e1) = push_entry(&mut out, &mut count, "board_model", &board_model, Ghost(e0));
    let Ghost(e2) = push_entry(&mut out, &mut count, "board_name", &board_name, Ghost(e1));
    let Ghost(e3) = push_entry(&mut out, &mut count, "cpu_serial", &serial, Ghost(e2));
    let Ghost(e4) = push_entry(&mut out, &mut count, "machine_id", &machine_id, Ghost(e3));
    let Ghost(e5) = push_entry(&mut out, &mut count, "primary_mac", &mac, Ghost(e4));
    let Ghost(e6) = push_entry(&mut out, &mut count, "root_uuid", &uuid, Ghost(e5));
    proof {
        assert(e6 == fingerprint_entries(*inputs));
    }
    let joined = string_from_chars(out.as_slice());
    let bytes = joined.as_str().as_bytes();
    let hash = sha256(bytes);
    let token = base32_encode(hash.as_slice());
    proof {
        assert(token@.len() == 52);
        assert forall|i: int| 0 <= i < token@.len() implies !is_ws(#[trigger] token@[i]) && is_ascii_alnum(token@[i]) by {
            assert(is_base32_symbol(token@[i]));
        }
        lemma_trim_no_ws(token@);
    }
    token
}

} // verus!
