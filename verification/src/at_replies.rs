//! Readings of standard 3GPP AT replies that need no pattern matching:
//! the SIM state of `AT+CPIN?` and the code of a `+CME ERROR`.

use vstd::prelude::*;
use crate::text::{
    all_bounds, bounds, chars_of, contains, contains_seq, first_some, has_prefix,
    lemma_first_some_at, line_ranges, lines, parse_u32, parse_u32_chars, starts_with, trim,
    trim_bounds,
};
use crate::types::SimState;

verus! {

/// The SIM state an `AT+CPIN?` reply reports.
pub open spec fn cpin_state(response: Seq<char>) -> SimState {
    if contains(response, "READY"@) {
        SimState::Ready
    } else if contains(response, "SIM PIN"@) {
        SimState::PinRequired
    } else if contains(response, "SIM PUK"@) {
        SimState::PukRequired
    } else if contains(response, "ERROR"@) {
        SimState::NotInserted
    } else {
        SimState::Error
    }
}

fn contains_text(s: &[char], p: &str) -> (b: bool)
    ensures
        b == contains(s@, p@),
{
    let pc = chars_of(p);
    contains_seq(s, pc.as_slice())
}

/// Reads the SIM state from an `AT+CPIN?` reply.
pub fn parse_cpin(response: &str) -> (r: SimState)
    ensures
        r == cpin_state(response@),
{
    let s = chars_of(response);
    if contains_text(s.as_slice(), "READY") {
        SimState::Ready
    } else if contains_text(s.as_slice(), "SIM PIN") {
        SimState::PinRequired
    } else if contains_text(s.as_slice(), "SIM PUK") {
        SimState::PukRequired
    } else if contains_text(s.as_slice(), "ERROR") {
        SimState::NotInserted
    } else {
        SimState::Error
    }
}

/// The code a line carries: trimmed, it starts with `+CME ERROR:` and the
/// rest, trimmed, is a number.
pub open spec fn line_cme_code(line: Seq<char>) -> Option<u32> {
    let t = trim(line);
    if starts_with(t, "+CME ERROR:"@) {
        parse_u32(trim(t.skip(11)))
    } else {
        None
    }
}

pub open spec fn line_cme_code_fn() -> spec_fn(Seq<char>) -> Option<u32> {
    |line: Seq<char>| line_cme_code(line)
}

fn cme_code_of_line(line: &[char]) -> (r: Option<u32>)
    ensures
        r == line_cme_code(line@),
{
    let (a, e) = trim_bounds(line);
    let t = &line[a..e];
    let prefix = chars_of("+CME ERROR:");
    proof {
        reveal_strlit("+CME ERROR:");
    }
    if !has_prefix(t, prefix.as_slice()) {
        return None;
    }
    assert(prefix@.len() == 11);
    let rest = &t[11..t.len()];
    assert(rest@ == t@.skip(11));
    let (ra, re) = trim_bounds(rest);
    parse_u32_chars(&rest[ra..re])
}

/// The numeric code of the first `+CME ERROR: <code>` line of a reply.
pub fn extract_cme_error_code(response: &str) -> (r: Option<u32>)
    ensures
        r == first_some(lines(response@), line_cme_code_fn()),
{
    let all = chars_of(response);
    let ranges = line_ranges(all.as_slice());
    let ghost ls = lines(all@);
    let mut i: usize = 0;
    while i < ranges.len()
        invariant
            i <= ranges@.len(),
            ls == lines(all@),
            all@ == response@,
            all_bounds(all@, ranges@, ls),
            forall|k: int| 0 <= k < i ==> (line_cme_code_fn())(#[trigger] ls[k]) is None,
        decreases ranges@.len() - i,
    {
        let (a, e) = ranges[i];
        assert(bounds(all@, ranges@[i as int], ls[i as int]));
        let r = cme_code_of_line(&all.as_slice()[a..e]);
        proof {
            assert(all@.subrange(a as int, e as int) == ls[i as int]);
            assert((line_cme_code_fn())(ls[i as int]) == line_cme_code(ls[i as int]));
            lemma_first_some_at(ls, line_cme_code_fn(), i as int);
        }
        if r.is_some() {
            return r;
        }
        i = i + 1;
    }
    proof {
        if ls.len() > 0 {
            lemma_first_some_at(ls, line_cme_code_fn(), ls.len() - 1);
        }
    }
    None
}

} // verus!
