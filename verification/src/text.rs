//! Character-level text model shared by the parsers.
//!
//! Every parser of the library reads modem output as a sequence of `char`s.
//! This module gives the mathematical meaning of the handful of `str`
//! operations the parsers rely on (trimming, line splitting, field splitting,
//! prefix tests and decimal integer parsing) together with executable
//! versions proved against them.

use vstd::prelude::*;

verus! {

/// Collect the characters of a string slice.
pub fn chars_of(s: &str) -> (v: Vec<char>)
    ensures
        v@ == s@,
{
    let mut v: Vec<char> = Vec::new();
    for c in it: s.chars()
        invariant
            v@ == it.seq().take(it.index() as int),
    {
        v.push(c);
    }
    v
}

// ---------------------------------------------------------------------------
// Whitespace
// ---------------------------------------------------------------------------

/// Unicode `White_Space` property, the set `char::is_whitespace` accepts.
pub open spec fn is_ws(c: char) -> bool {
    ||| c == ' '
    ||| ('\t' <= c && c <= '\r')
    ||| c == '\u{85}'
    ||| c == '\u{a0}'
    ||| c == '\u{1680}'
    ||| ('\u{2000}' <= c && c <= '\u{200a}')
    ||| c == '\u{2028}'
    ||| c == '\u{2029}'
    ||| c == '\u{202f}'
    ||| c == '\u{205f}'
    ||| c == '\u{3000}'
}

pub fn is_ws_char(c: char) -> (b: bool)
    ensures
        b == is_ws(c),
{
    c == ' ' || ('\t' <= c && c <= '\r') || c == '\u{85}' || c == '\u{a0}' || c == '\u{1680}' || (
    '\u{2000}' <= c && c <= '\u{200a}') || c == '\u{2028}' || c == '\u{2029}' || c == '\u{202f}'
        || c == '\u{205f}' || c == '\u{3000}'
}

/// `str::trim_start`.
pub open spec fn trim_start(s: Seq<char>) -> Seq<char>
    decreases s.len(),
{
    if s.len() > 0 && is_ws(s[0]) {
        trim_start(s.drop_first())
    } else {
        s
    }
}

/// `str::trim_end`.
pub open spec fn trim_end(s: Seq<char>) -> Seq<char>
    decreases s.len(),
{
    if s.len() > 0 && is_ws(s.last()) {
        trim_end(s.drop_last())
    } else {
        s
    }
}

/// `str::trim`.
pub open spec fn trim(s: Seq<char>) -> Seq<char> {
    trim_end(trim_start(s))
}

pub proof fn lemma_trim_start_skip(s: Seq<char>, i: int)
    requires
        0 <= i <= s.len(),
        forall|k: int| 0 <= k < i ==> is_ws(#[trigger] s[k]),
    ensures
        trim_start(s) == trim_start(s.skip(i)),
    decreases i,
{
    if i > 0 {
        assert(s.skip(1) == s.drop_first());
        lemma_trim_start_skip(s.drop_first(), i - 1);
        assert(s.drop_first().skip(i - 1) == s.skip(i));
    } else {
        assert(s.skip(0) == s);
    }
}

pub proof fn lemma_trim_end_take(s: Seq<char>, j: int)
    requires
        0 <= j <= s.len(),
        forall|k: int| j <= k < s.len() ==> is_ws(#[trigger] s[k]),
    ensures
        trim_end(s) == trim_end(s.take(j)),
    decreases s.len() - j,
{
    if j < s.len() {
        lemma_trim_end_take(s.drop_last(), j);
        assert(s.drop_last().take(j) == s.take(j));
    } else {
        assert(s.take(j) == s);
    }
}

/// A string without whitespace is its own trim.
pub proof fn lemma_trim_no_ws(s: Seq<char>)
    requires
        forall|i: int| 0 <= i < s.len() ==> !is_ws(#[trigger] s[i]),
    ensures
        trim(s) == s,
{
    assert(trim_start(s) == s);
    if s.len() > 0 {
        assert(!is_ws(s.last()));
    }
}

proof fn lemma_trim_start_first(s: Seq<char>)
    ensures
        trim_start(s).len() > 0 ==> !is_ws(trim_start(s)[0]),
    decreases s.len(),
{
    if s.len() > 0 && is_ws(s[0]) {
        lemma_trim_start_first(s.drop_first());
    }
}

proof fn lemma_trim_end_prefix(s: Seq<char>)
    ensures
        trim_end(s).len() <= s.len(),
        trim_end(s) == s.take(trim_end(s).len() as int),
        trim_end(s).len() > 0 ==> !is_ws(trim_end(s).last()),
    decreases s.len(),
{
    if s.len() > 0 && is_ws(s.last()) {
        lemma_trim_end_prefix(s.drop_last());
        let t = trim_end(s.drop_last());
        assert(s.drop_last().take(t.len() as int) == s.take(t.len() as int));
    } else {
        assert(s.take(s.len() as int) == s);
    }
}

/// Trimming twice is trimming once.
pub proof fn lemma_trim_idempotent(s: Seq<char>)
    ensures
        trim(trim(s)) == trim(s),
{
    let u = trim_start(s);
    let t = trim_end(u);
    lemma_trim_start_first(s);
    lemma_trim_end_prefix(u);
    if t.len() > 0 {
        assert(t[0] == u[0]);
        assert(trim_start(t) == t);
        assert(trim_end(t) == t);
    } else {
        assert(trim_start(t) == t);
    }
}

/// The bounds `(a, b)` with `s.subrange(a, b) == trim(s)`.
pub fn trim_bounds(s: &[char]) -> (r: (usize, usize))
    ensures
        r.0 <= r.1 <= s@.len(),
        s@.subrange(r.0 as int, r.1 as int) == trim(s@),
        trim_start(s@) == s@.skip(r.0 as int),
{
    let n = s.len();
    let mut a: usize = 0;
    while a < n && is_ws_char(s[a])
        invariant
            a <= n,
            n == s@.len(),
            forall|k: int| 0 <= k < a ==> is_ws(#[trigger] s@[k]),
        decreases n - a,
    {
        a = a + 1;
    }
    proof {
        lemma_trim_start_skip(s@, a as int);
    }
    let mut b: usize = n;
    while b > a && is_ws_char(s[b - 1])
        invariant
            a <= b <= n,
            n == s@.len(),
            forall|k: int| b <= k < n ==> is_ws(#[trigger] s@[k]),
        decreases b,
    {
        b = b - 1;
    }
    proof {
        let t = s@.skip(a as int);
        assert(trim_start(t) == t);
        lemma_trim_end_take(t, (b - a) as int);
        assert(t.take((b - a) as int) == s@.subrange(a as int, b as int));
        let u = s@.subrange(a as int, b as int);
        assert(trim_end(u) == u);
    }
    (a, b)
}

// ---------------------------------------------------------------------------
// Searching
// ---------------------------------------------------------------------------

/// `s` begins with `p`.
pub open spec fn starts_with(s: Seq<char>, p: Seq<char>) -> bool {
    p.len() <= s.len() && s.take(p.len() as int) == p
}

/// `p` occurs in `s` at position `i`.
pub open spec fn occurs_at(s: Seq<char>, p: Seq<char>, i: int) -> bool {
    0 <= i && i + p.len() <= s.len() && s.subrange(i, i + p.len()) == p
}

/// `str::contains` with a string pattern.
pub open spec fn contains(s: Seq<char>, p: Seq<char>) -> bool {
    exists|i: int| occurs_at(s, p, i)
}

pub fn starts_with_at(s: &[char], i: usize, p: &[char]) -> (b: bool)
    requires
        i <= s@.len(),
    ensures
        b == occurs_at(s@, p@, i as int),
        b == starts_with(s@.skip(i as int), p@),
{
    let n = s.len();
    if p.len() > n - i {
        return false;
    }
    let mut k: usize = 0;
    while k < p.len()
        invariant
            n == s@.len(),
            i + p@.len() <= s@.len(),
            i <= s@.len(),
            k <= p@.len(),
            forall|j: int| 0 <= j < k ==> s@[i + j] == p@[j],
        decreases p@.len() - k,
    {
        assert(i + k < s@.len());
        if s[i + k] != p[k] {
            assert(s@.subrange(i as int, i + p@.len())[k as int] != p@[k as int]);
            assert(s@.skip(i as int).take(p@.len() as int)[k as int] != p@[k as int]);
            return false;
        }
        k = k + 1;
    }
    assert(s@.subrange(i as int, i + p@.len()) == p@);
    assert(s@.skip(i as int).take(p@.len() as int) == p@);
    true
}

pub fn has_prefix(s: &[char], p: &[char]) -> (b: bool)
    ensures
        b == starts_with(s@, p@),
{
    let b = starts_with_at(s, 0, p);
    assert(s@.skip(0) == s@);
    b
}

/// Leftmost position of `p` in `s`, if any.
pub fn find(s: &[char], p: &[char]) -> (r: Option<usize>)
    ensures
        r is None <==> !contains(s@, p@),
        r matches Some(i) ==> occurs_at(s@, p@, i as int) && forall|j: int|
            0 <= j < i ==> !occurs_at(s@, p@, j),
{
    if p.len() > s.len() {
        assert forall|j: int| !occurs_at(s@, p@, j) by {}
        return None;
    }
    let last = s.len() - p.len();
    let mut i: usize = 0;
    loop
        invariant
            last + p@.len() == s@.len(),
            i <= last,
            forall|j: int| 0 <= j < i ==> !occurs_at(s@, p@, j),
        decreases last - i,
    {
        if starts_with_at(s, i, p) {
            return Some(i);
        }
        if i == last {
            assert forall|j: int| !occurs_at(s@, p@, j) by {
                if 0 <= j && j < i {
                }
            }
            return None;
        }
        i = i + 1;
    }
}

pub fn contains_seq(s: &[char], p: &[char]) -> (b: bool)
    ensures
        b == contains(s@, p@),
{
    find(s, p).is_some()
}

/// Index of the first occurrence of `c` in `s`, or `s.len()`.
pub open spec fn index_of(s: Seq<char>, c: char) -> int
    decreases s.len(),
{
    if s.len() == 0 {
        0
    } else if s[0] == c {
        0
    } else {
        1 + index_of(s.drop_first(), c)
    }
}

pub proof fn lemma_index_of(s: Seq<char>, c: char)
    ensures
        0 <= index_of(s, c) <= s.len(),
        forall|k: int| 0 <= k < index_of(s, c) ==> s[k] != c,
        index_of(s, c) < s.len() ==> s[index_of(s, c)] == c,
    decreases s.len(),
{
    if s.len() > 0 && s[0] != c {
        lemma_index_of(s.drop_first(), c);
        assert forall|k: int| 0 <= k < index_of(s, c) implies s[k] != c by {
            if k > 0 {
                assert(s[k] == s.drop_first()[k - 1]);
            }
        }
    }
}

pub proof fn lemma_index_of_unique(s: Seq<char>, c: char, i: int)
    requires
        0 <= i <= s.len(),
        forall|k: int| 0 <= k < i ==> s[k] != c,
        i < s.len() ==> s[i] == c,
    ensures
        index_of(s, c) == i,
    decreases i,
{
    if i > 0 {
        lemma_index_of_unique(s.drop_first(), c, i - 1);
    }
}

pub fn find_char(s: &[char], start: usize, c: char) -> (r: usize)
    requires
        start <= s@.len(),
    ensures
        r == start + index_of(s@.skip(start as int), c),
        start <= r <= s@.len(),
{
    let mut i = start;
    while i < s.len() && s[i] != c
        invariant
            start <= i <= s@.len(),
            forall|k: int| start <= k < i ==> s@[k] != c,
        decreases s@.len() - i,
    {
        i = i + 1;
    }
    proof {
        lemma_index_of_unique(s@.skip(start as int), c, (i - start) as int);
    }
    i
}

// ---------------------------------------------------------------------------
// Line and field splitting
// ---------------------------------------------------------------------------

/// Removes one trailing `'\r'`.
pub open spec fn strip_cr(s: Seq<char>) -> Seq<char> {
    if s.len() > 0 && s.last() == '\r' {
        s.drop_last()
    } else {
        s
    }
}

/// `str::lines`: pieces ended by `'\n'` (a `'\r'` right before it is
/// dropped too); a final piece without `'\n'` keeps any `'\r'`; no empty
/// piece after a final `'\n'`.
pub open spec fn lines(s: Seq<char>) -> Seq<Seq<char>>
    decreases s.len(),
{
    if s.len() == 0 {
        seq![]
    } else {
        let i = index_of(s, '\n');
        proof {
            lemma_index_of_bounds(s, '\n');
        }
        if i < s.len() {
            seq![strip_cr(s.take(i))] + lines(s.skip(i + 1))
        } else {
            seq![s]
        }
    }
}

/// `str::split` on one character: always at least one piece.
pub open spec fn split(s: Seq<char>, c: char) -> Seq<Seq<char>>
    decreases s.len(),
{
    let i = index_of(s, c);
    proof {
        lemma_index_of_bounds(s, c);
    }
    if i < s.len() {
        seq![s.take(i)] + split(s.skip(i + 1), c)
    } else {
        seq![s]
    }
}

pub proof fn lemma_index_of_bounds(s: Seq<char>, c: char)
    ensures
        0 <= index_of(s, c) <= s.len(),
{
    lemma_index_of(s, c);
}

/// `r` bounds a piece of `s` equal to `x`.
pub open spec fn bounds(s: Seq<char>, r: (usize, usize), x: Seq<char>) -> bool {
    r.0 <= r.1 <= s.len() && s.subrange(r.0 as int, r.1 as int) == x
}

/// Every range of `r` bounds the matching piece of `pieces`.
pub open spec fn all_bounds(s: Seq<char>, r: Seq<(usize, usize)>, pieces: Seq<Seq<char>>) -> bool {
    r.len() == pieces.len() && forall|k: int| 0 <= k < r.len() ==> bounds(s, #[trigger] r[k], pieces[k])
}

proof fn lemma_all_bounds_push(
    s: Seq<char>,
    r: Seq<(usize, usize)>,
    pieces: Seq<Seq<char>>,
    x: (usize, usize),
    p: Seq<char>,
)
    requires
        all_bounds(s, r, pieces),
        bounds(s, x, p),
    ensures
        all_bounds(s, r.push(x), pieces.push(p)),
{
    assert forall|k: int| 0 <= k < r.len() + 1 implies bounds(s, #[trigger] r.push(x)[k], pieces.push(p)[k]) by {
        if k < r.len() {
            assert(r.push(x)[k] == r[k]);
            assert(pieces.push(p)[k] == pieces[k]);
        }
    }
}

/// Line boundaries of `s` as `(start, end)` pairs.
pub fn line_ranges(s: &[char]) -> (r: Vec<(usize, usize)>)
    ensures
        all_bounds(s@, r@, lines(s@)),
{
    let mut r: Vec<(usize, usize)> = Vec::new();
    let mut pos: usize = 0;
    let n = s.len();
    let ghost done: Seq<Seq<char>> = seq![];
    assert(s@.skip(0) == s@);
    assert(lines(s@) == done + lines(s@.skip(0)));
    while pos < n
        invariant
            pos <= n,
            n == s@.len(),
            all_bounds(s@, r@, done),
            lines(s@) == done + lines(s@.skip(pos as int)),
        decreases n - pos,
    {
        let ghost t = s@.skip(pos as int);
        let e = find_char(s, pos, '\n');
        proof {
            lemma_index_of_bounds(t, '\n');
        }
        if e < n {
            let mut end = e;
            if end > pos && s[end - 1] == '\r' {
                end = end - 1;
            }
            proof {
                let i = index_of(t, '\n');
                assert(lines(t) == seq![strip_cr(t.take(i))] + lines(t.skip(i + 1)));
                assert(t.skip(i + 1) == s@.skip(e + 1));
                assert(s@.subrange(pos as int, end as int) == strip_cr(t.take(i)));
                lemma_all_bounds_push(s@, r@, done, (pos, end), strip_cr(t.take(i)));
                assert(done + lines(t) == done.push(strip_cr(t.take(i))) + lines(s@.skip(e + 1)));
                done = done.push(strip_cr(t.take(i)));
            }
            r.push((pos, end));
            pos = e + 1;
        } else {
            proof {
                assert(lines(t) == seq![t]);
                assert(s@.subrange(pos as int, n as int) == t);
                lemma_all_bounds_push(s@, r@, done, (pos, n), t);
                assert(s@.skip(n as int).len() == 0);
                assert(lines(s@.skip(n as int)) == Seq::<Seq<char>>::empty());
                assert(done + lines(t) == done.push(t) + lines(s@.skip(n as int)));
                done = done.push(t);
            }
            r.push((pos, n));
            pos = n;
        }
    }
    proof {
        assert(s@.skip(pos as int).len() == 0);
        assert(lines(s@.skip(pos as int)) == Seq::<Seq<char>>::empty());
        assert(lines(s@) == done);
    }
    r
}

/// Field boundaries of `s` split on `c`.
pub fn split_ranges(s: &[char], c: char) -> (r: Vec<(usize, usize)>)
    ensures
        all_bounds(s@, r@, split(s@, c)),
{
    let mut r: Vec<(usize, usize)> = Vec::new();
    let mut pos: usize = 0;
    let n = s.len();
    let ghost done: Seq<Seq<char>> = seq![];
    assert(s@.skip(0) == s@);
    assert(split(s@, c) == done + split(s@.skip(0), c));
    loop
        invariant
            pos <= n,
            n == s@.len(),
            all_bounds(s@, r@, done),
            split(s@, c) == done + split(s@.skip(pos as int), c),
        decreases n - pos,
    {
        let ghost t = s@.skip(pos as int);
        let e = find_char(s, pos, c);
        proof {
            lemma_index_of_bounds(t, c);
        }
        if e < n {
            proof {
                let i = index_of(t, c);
                assert(split(t, c) == seq![t.take(i)] + split(t.skip(i + 1), c));
                assert(t.skip(i + 1) == s@.skip(e + 1));
                assert(s@.subrange(pos as int, e as int) == t.take(i));
                lemma_all_bounds_push(s@, r@, done, (pos, e), t.take(i));
                assert(done + split(t, c) == done.push(t.take(i)) + split(s@.skip(e + 1), c));
                done = done.push(t.take(i));
            }
            r.push((pos, e));
            pos = e + 1;
        } else {
            proof {
                assert(split(t, c) == seq![t]);
                assert(s@.subrange(pos as int, n as int) == t);
                lemma_all_bounds_push(s@, r@, done, (pos, n), t);
                assert(split(s@, c) == done.push(t));
            }
            r.push((pos, n));
            return r;
        }
    }
}


// ---------------------------------------------------------------------------
// Decimal integers
// ---------------------------------------------------------------------------

pub open spec fn is_digit(c: char) -> bool {
    '0' <= c && c <= '9'
}

pub open spec fn all_digits(s: Seq<char>) -> bool {
    forall|i: int| 0 <= i < s.len() ==> is_digit(#[trigger] s[i])
}

pub open spec fn digit_value(c: char) -> int {
    (c as int) - ('0' as int)
}

/// Value of a run of decimal digits.
pub open spec fn digits_value(s: Seq<char>) -> int
    decreases s.len(),
{
    if s.len() == 0 {
        0
    } else {
        10 * digits_value(s.drop_last()) + digit_value(s.last())
    }
}

/// A non-empty run of ASCII digits, read as a number.
pub open spec fn digits_number(s: Seq<char>) -> Option<int> {
    if s.len() > 0 && all_digits(s) {
        Some(digits_value(s))
    } else {
        None
    }
}

/// What `FromStr` of an unsigned integer type reads, before the range check:
/// an optional `'+'`, then one or more ASCII digits.
pub open spec fn parse_unsigned(s: Seq<char>) -> Option<int> {
    if s.len() > 0 && s[0] == '+' {
        digits_number(s.drop_first())
    } else {
        digits_number(s)
    }
}

/// What `FromStr` of a signed integer type reads, before the range check:
/// an optional `'+'` or `'-'`, then one or more ASCII digits.
pub open spec fn parse_signed(s: Seq<char>) -> Option<int> {
    if s.len() > 0 && s[0] == '-' {
        match digits_number(s.drop_first()) {
            Some(v) => Some(-v),
            None => None,
        }
    } else {
        parse_unsigned(s)
    }
}

/// `s.parse::<u32>()`.
pub open spec fn parse_u32(s: Seq<char>) -> Option<u32> {
    match parse_unsigned(s) {
        Some(v) => if v <= u32::MAX {
            Some(v as u32)
        } else {
            None
        },
        None => None,
    }
}

/// `s.parse::<i32>()`.
pub open spec fn parse_i32(s: Seq<char>) -> Option<i32> {
    match parse_signed(s) {
        Some(v) => if i32::MIN <= v <= i32::MAX {
            Some(v as i32)
        } else {
            None
        },
        None => None,
    }
}

pub proof fn lemma_digits_value_nonneg(s: Seq<char>)
    requires
        all_digits(s),
    ensures
        digits_value(s) >= 0,
    decreases s.len(),
{
    if s.len() > 0 {
        lemma_digits_value_nonneg(s.drop_last());
    }
}

/// A longer run of digits never reads as a smaller number.
pub proof fn lemma_digits_value_prefix(s: Seq<char>, i: int)
    requires
        all_digits(s),
        0 <= i <= s.len(),
    ensures
        digits_value(s.take(i)) <= digits_value(s),
    decreases s.len() - i,
{
    if i < s.len() {
        lemma_digits_value_prefix(s.drop_last(), i);
        assert(s.drop_last().take(i) == s.take(i));
        lemma_digits_value_nonneg(s.drop_last());
    } else {
        assert(s.take(i) == s);
    }
}

/// Reads a run of ASCII digits, giving up once the value exceeds `2^32`.
fn digits_bounded(s: &[char]) -> (r: Option<u64>)
    ensures
        match r {
            Some(v) => digits_number(s@) == Some(v as int) && v <= 0x1_0000_0000,
            None => digits_number(s@) is None || digits_value(s@) > 0x1_0000_0000,
        },
{
    if s.len() == 0 {
        return None;
    }
    let mut acc: u64 = 0;
    let mut i: usize = 0;
    while i < s.len()
        invariant
            i <= s@.len(),
            acc <= 0x1_0000_0000,
            all_digits(s@.take(i as int)),
            acc == digits_value(s@.take(i as int)),
        decreases s@.len() - i,
    {
        let c = s[i];
        if !('0' <= c && c <= '9') {
            return None;
        }
        let d = (c as u32 - '0' as u32) as u64;
        proof {
            assert(s@.take(i + 1).drop_last() == s@.take(i as int));
            assert(s@.take(i + 1).last() == c);
            assert forall|k: int| 0 <= k < i + 1 implies is_digit(#[trigger] s@.take(i + 1)[k]) by {
                if k < i {
                    assert(s@.take(i + 1)[k] == s@.take(i as int)[k]);
                }
            }
        }
        if acc > 429496729 {
            proof {
                assert(digits_value(s@.take(i + 1)) > 0x1_0000_0000);
                if all_digits(s@) {
                    lemma_digits_value_prefix(s@, i + 1);
                }
            }
            return None;
        }
        acc = acc * 10 + d;
        i = i + 1;
        if acc > 0x1_0000_0000 {
            proof {
                if all_digits(s@) {
                    lemma_digits_value_prefix(s@, i as int);
                }
            }
            return None;
        }
    }
    assert(s@.take(i as int) == s@);
    Some(acc)
}

/// `s.parse::<u32>()` on a slice of chars.
pub fn parse_u32_chars(s: &[char]) -> (r: Option<u32>)
    ensures
        r == parse_u32(s@),
{
    let body = if s.len() > 0 && s[0] == '+' {
        assert(s@.subrange(1, s@.len() as int) == s@.drop_first());
        &s[1..s.len()]
    } else {
        s
    };
    match digits_bounded(body) {
        Some(v) => {
            if v <= 0xffff_ffff {
                Some(v as u32)
            } else {
                None
            }
        },
        None => None,
    }
}

/// `s.parse::<u64>()`.
pub open spec fn parse_u64(s: Seq<char>) -> Option<u64> {
    match parse_unsigned(s) {
        Some(v) => if v <= u64::MAX {
            Some(v as u64)
        } else {
            None
        },
        None => None,
    }
}

/// `s.parse::<u64>()` on a slice of chars.
pub fn parse_u64_chars(s: &[char]) -> (r: Option<u64>)
    ensures
        r == parse_u64(s@),
{
    let body = if s.len() > 0 && s[0] == '+' {
        assert(s@.subrange(1, s@.len() as int) == s@.drop_first());
        &s[1..s.len()]
    } else {
        s
    };
    if body.len() == 0 {
        return None;
    }
    let mut acc: u128 = 0;
    let mut i: usize = 0;
    while i < body.len()
        invariant
            i <= body@.len(),
            body@.len() > 0,
            body@ == (if s@.len() > 0 && s@[0] == '+' {
                s@.drop_first()
            } else {
                s@
            }),
            acc <= u64::MAX,
            all_digits(body@.take(i as int)),
            acc == digits_value(body@.take(i as int)),
        decreases body@.len() - i,
    {
        let c = body[i];
        proof {
            assert(body@.take(i + 1).drop_last() == body@.take(i as int));
            assert(body@.take(i + 1).last() == c);
        }
        if !('0' <= c && c <= '9') {
            return None;
        }
        proof {
            assert forall|k: int| 0 <= k < i + 1 implies is_digit(#[trigger] body@.take(i + 1)[k]) by {
                if k < i {
                    assert(body@.take(i + 1)[k] == body@.take(i as int)[k]);
                }
            }
        }
        acc = acc * 10 + (c as u32 - '0' as u32) as u128;
        i = i + 1;
        if acc > 0xffff_ffff_ffff_ffff {
            proof {
                if all_digits(body@) {
                    lemma_digits_value_prefix(body@, i as int);
                }
            }
            return None;
        }
    }
    assert(body@.take(i as int) == body@);
    Some(acc as u64)
}

/// `s.parse::<i32>()` on a slice of chars.
pub fn parse_i32_chars(s: &[char]) -> (r: Option<i32>)
    ensures
        r == parse_i32(s@),
{
    if s.len() > 0 && s[0] == '-' {
        assert(s@.subrange(1, s@.len() as int) == s@.drop_first());
        match digits_bounded(&s[1..s.len()]) {
            Some(v) => {
                if v <= 0x8000_0000 {
                    Some((0 - (v as i64)) as i32)
                } else {
                    None
                }
            },
            None => None,
        }
    } else {
        let body = if s.len() > 0 && s[0] == '+' {
            assert(s@.subrange(1, s@.len() as int) == s@.drop_first());
            &s[1..s.len()]
        } else {
            s
        };
        match digits_bounded(body) {
            Some(v) => {
                if v <= 0x7fff_ffff {
                    Some(v as i32)
                } else {
                    None
                }
            },
            None => None,
        }
    }
}

// ---------------------------------------------------------------------------
// Hexadecimal integers
// ---------------------------------------------------------------------------

/// Value of one hexadecimal digit (`char::to_digit(16)`).
pub open spec fn hex_digit_value(c: char) -> Option<int> {
    if '0' <= c && c <= '9' {
        Some((c as int) - ('0' as int))
    } else if 'a' <= c && c <= 'f' {
        Some((c as int) - ('a' as int) + 10)
    } else if 'A' <= c && c <= 'F' {
        Some((c as int) - ('A' as int) + 10)
    } else {
        None
    }
}

/// Value of a run of hexadecimal digits; `None` if any character is not one.
pub open spec fn hex_value(s: Seq<char>) -> Option<int>
    decreases s.len(),
{
    if s.len() == 0 {
        Some(0)
    } else {
        match (hex_value(s.drop_last()), hex_digit_value(s.last())) {
            (Some(v), Some(d)) => Some(16 * v + d),
            _ => None,
        }
    }
}

/// `u32::from_str_radix(s, 16)`: an optional `'+'`, then one or more
/// hexadecimal digits whose value fits in a `u32`.
pub open spec fn parse_hex_u32(s: Seq<char>) -> Option<u32> {
    let digits = if s.len() > 0 && s[0] == '+' {
        s.drop_first()
    } else {
        s
    };
    if digits.len() == 0 {
        None
    } else {
        match hex_value(digits) {
            Some(v) => if v <= u32::MAX {
                Some(v as u32)
            } else {
                None
            },
            None => None,
        }
    }
}

pub proof fn lemma_hex_value_nonneg(s: Seq<char>)
    requires
        hex_value(s) is Some,
    ensures
        hex_value(s).unwrap() >= 0,
    decreases s.len(),
{
    if s.len() > 0 {
        lemma_hex_value_nonneg(s.drop_last());
    }
}

/// A prefix of a valid hexadecimal run is valid and never reads larger.
pub proof fn lemma_hex_value_prefix(s: Seq<char>, i: int)
    requires
        hex_value(s) is Some,
        0 <= i <= s.len(),
    ensures
        hex_value(s.take(i)) is Some,
        hex_value(s.take(i)).unwrap() <= hex_value(s).unwrap(),
    decreases s.len() - i,
{
    if i < s.len() {
        lemma_hex_value_prefix(s.drop_last(), i);
        assert(s.drop_last().take(i) == s.take(i));
        lemma_hex_value_nonneg(s.drop_last());
    } else {
        assert(s.take(i) == s);
    }
}

/// A leading zero does not change the value of a hexadecimal run.
pub proof fn lemma_hex_value_leading_zero(s: Seq<char>)
    ensures
        hex_value(seq!['0'] + s) == hex_value(s),
    decreases s.len(),
{
    if s.len() == 0 {
        assert((seq!['0'] + s).drop_last() =~= Seq::<char>::empty());
        assert(hex_value(Seq::<char>::empty()) == Some(0int));
        assert(hex_digit_value('0') == Some(0int));
        assert((seq!['0'] + s).last() == '0');
    } else {
        lemma_hex_value_leading_zero(s.drop_last());
        assert((seq!['0'] + s).drop_last() =~= seq!['0'] + s.drop_last());
        assert((seq!['0'] + s).last() == s.last());
    }
}

/// `u32::from_str_radix(s, 16)` on a slice of chars.
pub fn parse_hex_u32_chars(s: &[char]) -> (r: Option<u32>)
    ensures
        r == parse_hex_u32(s@),
{
    let digits = if s.len() > 0 && s[0] == '+' {
        assert(s@.subrange(1, s@.len() as int) == s@.drop_first());
        &s[1..s.len()]
    } else {
        s
    };
    if digits.len() == 0 {
        return None;
    }
    let mut acc: u64 = 0;
    let mut i: usize = 0;
    while i < digits.len()
        invariant
            i <= digits@.len(),
            digits@.len() > 0,
            digits@ == (if s@.len() > 0 && s@[0] == '+' {
                s@.drop_first()
            } else {
                s@
            }),
            acc <= u32::MAX,
            hex_value(digits@.take(i as int)) == Some(acc as int),
        decreases digits@.len() - i,
    {
        let c = digits[i];
        let d: u64 = if '0' <= c && c <= '9' {
            (c as u32 - '0' as u32) as u64
        } else if 'a' <= c && c <= 'f' {
            (c as u32 - 'a' as u32 + 10) as u64
        } else if 'A' <= c && c <= 'F' {
            (c as u32 - 'A' as u32 + 10) as u64
        } else {
            proof {
                assert(digits@.take(i + 1).drop_last() == digits@.take(i as int));
                assert(digits@.take(i + 1).last() == c);
                if hex_value(digits@) is Some {
                    lemma_hex_value_prefix(digits@, i + 1);
                }
            }
            return None;
        };
        proof {
            assert(digits@.take(i + 1).drop_last() == digits@.take(i as int));
            assert(digits@.take(i + 1).last() == c);
        }
        acc = acc * 16 + d;
        i = i + 1;
        if acc > 0xffff_ffff {
            proof {
                if hex_value(digits@) is Some {
                    lemma_hex_value_prefix(digits@, i as int);
                }
            }
            return None;
        }
    }
    assert(digits@.take(i as int) == digits@);
    Some(acc as u32)
}

// ---------------------------------------------------------------------------
// Building strings
// ---------------------------------------------------------------------------

/// What `str::to_lowercase` returns for a string (Unicode lowercase mapping).
pub uninterp spec fn unicode_lowercase(s: Seq<char>) -> Seq<char>;

/// `str::to_lowercase`. Its result is named `unicode_lowercase` of the input;
/// the Unicode case tables themselves are left unstated.
#[verifier::external_body]
pub(crate) fn to_lowercase(s: &str) -> (r: String)
    ensures
        r@ == unicode_lowercase(s@),
{
    s.to_lowercase()
}

/// Number of UTF-8 bytes of a character.
pub open spec fn utf8_width(c: char) -> int {
    if (c as u32) < 0x80 {
        1
    } else if (c as u32) < 0x800 {
        2
    } else if (c as u32) < 0x10000 {
        3
    } else {
        4
    }
}

/// Number of UTF-8 bytes of a character sequence (`str::len`).
pub open spec fn utf8_len(s: Seq<char>) -> int
    decreases s.len(),
{
    if s.len() == 0 {
        0
    } else {
        utf8_len(s.drop_last()) + utf8_width(s.last())
    }
}

/// The UTF-8 byte length of a slice of characters.
pub fn utf8_len_of(s: &[char]) -> (n: u128)
    ensures
        n == utf8_len(s@),
{
    let mut n: u128 = 0;
    let mut i: usize = 0;
    while i < s.len()
        invariant
            i <= s@.len(),
            n == utf8_len(s@.take(i as int)),
            n <= 4 * i,
        decreases s@.len() - i,
    {
        let c = s[i] as u32;
        let w: u128 = if c < 0x80 {
            1
        } else if c < 0x800 {
            2
        } else if c < 0x10000 {
            3
        } else {
            4
        };
        assert(s@.take(i + 1).drop_last() == s@.take(i as int));
        assert(s@.take(i + 1).last() == s@[i as int]);
        n = n + w;
        i = i + 1;
    }
    assert(s@.take(i as int) == s@);
    n
}

/// The first index below `n` satisfying `p`, if any.
pub open spec fn first_index(n: int, p: spec_fn(int) -> bool) -> Option<int> {
    if exists|i: int| 0 <= i < n && #[trigger] p(i) {
        Some(choose|i: int| 0 <= i < n && #[trigger] p(i) && forall|k: int| 0 <= k < i ==> !#[trigger] p(k))
    } else {
        None
    }
}

pub proof fn lemma_first_index(n: int, p: spec_fn(int) -> bool, i: int)
    requires
        0 <= i < n,
        p(i),
        forall|k: int| 0 <= k < i ==> !#[trigger] p(k),
    ensures
        first_index(n, p) == Some(i),
{
    let j = choose|j: int| 0 <= j < n && #[trigger] p(j) && forall|k: int| 0 <= k < j ==> !#[trigger] p(k);
    assert(0 <= j < n && p(j) && forall|k: int| 0 <= k < j ==> !#[trigger] p(k));
    if j < i {
        assert(!p(j));
    } else if i < j {
        assert(!p(i));
    }
}

/// When some index satisfies `p`, the first one exists.
pub proof fn lemma_first_index_some(n: int, p: spec_fn(int) -> bool, w: int)
    requires
        0 <= w < n,
        p(w),
    ensures
        first_index(n, p) is Some,
        0 <= first_index(n, p).unwrap() < n,
        p(first_index(n, p).unwrap()),
    decreases w,
{
    if exists|k: int| 0 <= k < w && #[trigger] p(k) {
        let k = choose|k: int| 0 <= k < w && #[trigger] p(k);
        lemma_first_index_some(n, p, k);
    } else {
        lemma_first_index(n, p, w);
    }
}

pub proof fn lemma_first_index_none(n: int, p: spec_fn(int) -> bool)
    requires
        forall|k: int| 0 <= k < n ==> !#[trigger] p(k),
    ensures
        first_index(n, p) is None,
{
}

/// The view of an optional string.
pub open spec fn opt_view(o: Option<String>) -> Option<Seq<char>> {
    match o {
        Some(s) => Some(s@),
        None => None,
    }
}

/// Pieces joined with `sep` between them.
pub open spec fn join_sep(pieces: Seq<Seq<char>>, sep: char) -> Seq<char>
    decreases pieces.len(),
{
    if pieces.len() == 0 {
        Seq::empty()
    } else if pieces.len() == 1 {
        pieces[0]
    } else {
        join_sep(pieces.drop_last(), sep) + seq![sep] + pieces.last()
    }
}

/// What `str::to_uppercase` returns for a string (Unicode uppercase mapping).
pub uninterp spec fn unicode_uppercase(s: Seq<char>) -> Seq<char>;

/// `str::to_uppercase`. Its result is named `unicode_uppercase` of the input;
/// the Unicode case tables themselves are left unstated.
#[verifier::external_body]
pub(crate) fn to_uppercase(s: &str) -> (r: String)
    ensures
        r@ == unicode_uppercase(s@),
{
    s.to_uppercase()
}

/// Builds a `String` from a slice of characters (`FromIterator<char>`).
#[verifier::external_body]
pub(crate) fn string_from_chars(v: &[char]) -> (r: String)
    ensures
        r@ == v@,
{
    v.iter().collect()
}


// ---------------------------------------------------------------------------
// Scanning lines
// ---------------------------------------------------------------------------

/// The first `f(x)` that is `Some`, scanning `s` from the front.
pub open spec fn first_some<T>(s: Seq<Seq<char>>, f: spec_fn(Seq<char>) -> Option<T>) -> Option<T>
    decreases s.len(),
{
    if s.len() == 0 {
        None
    } else {
        match f(s[0]) {
            Some(x) => Some(x),
            None => first_some(s.drop_first(), f),
        }
    }
}

pub proof fn lemma_first_some_skip<T>(s: Seq<Seq<char>>, f: spec_fn(Seq<char>) -> Option<T>, i: int)
    requires
        0 <= i <= s.len(),
        forall|k: int| 0 <= k < i ==> f(#[trigger] s[k]) is None,
    ensures
        first_some(s, f) == first_some(s.skip(i), f),
    decreases i,
{
    if i > 0 {
        assert(f(s[0]) is None);
        lemma_first_some_skip(s.drop_first(), f, i - 1);
        assert(s.drop_first().skip(i - 1) == s.skip(i));
    } else {
        assert(s.skip(0) == s);
    }
}

pub proof fn lemma_first_some_at<T>(s: Seq<Seq<char>>, f: spec_fn(Seq<char>) -> Option<T>, i: int)
    requires
        0 <= i < s.len(),
        forall|k: int| 0 <= k < i ==> f(#[trigger] s[k]) is None,
    ensures
        f(s[i]) is Some ==> first_some(s, f) == f(s[i]),
        i + 1 == s.len() && f(s[i]) is None ==> first_some(s, f) is None,
{
    lemma_first_some_skip(s, f, i);
    let t = s.skip(i);
    assert(t[0] == s[i]);
    if i + 1 == s.len() {
        assert(t.drop_first().len() == 0);
        assert(first_some(t.drop_first(), f) is None);
    }
}

/// Exact string comparison.
pub fn str_eq(a: &str, b: &str) -> (r: bool)
    ensures
        r == (a@ == b@),
{
    let x = chars_of(a);
    let y = chars_of(b);
    slice_eq(x.as_slice(), y.as_slice())
}

/// Exact comparison of two character slices.
pub fn slice_eq(x: &[char], y: &[char]) -> (r: bool)
    ensures
        r == (x@ == y@),
{
    if x.len() != y.len() {
        return false;
    }
    let r = has_prefix(x, y);
    assert(x@.take(y@.len() as int) == x@);
    r
}


/// Appends the characters of `s` to `v`.
pub fn push_all(v: &mut Vec<char>, s: &[char])
    ensures
        final(v)@ == old(v)@ + s@,
{
    let mut i: usize = 0;
    while i < s.len()
        invariant
            i <= s@.len(),
            v@ == old(v)@ + s@.take(i as int),
        decreases s@.len() - i,
    {
        v.push(s[i]);
        i = i + 1;
        assert(v@ == old(v)@ + s@.take(i as int));
    }
    assert(s@.take(i as int) == s@);
}

// ---------------------------------------------------------------------------
// Decimal formatting
// ---------------------------------------------------------------------------

/// The ASCII digit for `d` (`0 <= d < 10`).
pub open spec fn digit_char(d: int) -> char {
    if d == 0 {
        '0'
    } else if d == 1 {
        '1'
    } else if d == 2 {
        '2'
    } else if d == 3 {
        '3'
    } else if d == 4 {
        '4'
    } else if d == 5 {
        '5'
    } else if d == 6 {
        '6'
    } else if d == 7 {
        '7'
    } else if d == 8 {
        '8'
    } else {
        '9'
    }
}

/// Decimal representation of `n` without leading zeros (`Display` of an
/// unsigned integer).
pub open spec fn decimal(n: nat) -> Seq<char>
    decreases n,
{
    if n < 10 {
        seq![digit_char(n as int)]
    } else {
        decimal(n / 10) + seq![digit_char((n % 10) as int)]
    }
}

fn digit_of(d: u64) -> (c: char)
    requires
        d < 10,
    ensures
        c == digit_char(d as int),
{
    match d {
        0 => '0',
        1 => '1',
        2 => '2',
        3 => '3',
        4 => '4',
        5 => '5',
        6 => '6',
        7 => '7',
        8 => '8',
        _ => '9',
    }
}

/// Appends the decimal representation of `n` to `v`.
pub fn push_decimal(v: &mut Vec<char>, n: u64)
    ensures
        final(v)@ == old(v)@ + decimal(n as nat),
    decreases n,
{
    if n < 10 {
        v.push(digit_of(n));
    } else {
        push_decimal(v, n / 10);
        v.push(digit_of(n % 10));
    }
}

} // verus!
