//! Safe rendering of AT traffic for diagnostics: UTF-8-safe truncation and
//! redaction of the PDP password carried by `AT+QICSGP` writes and
//! `+QICSGP:` responses.

use vstd::prelude::*;
use vstd::string::StringSliceAdditionalSpecFns;
use vstd::utf8::{encode_utf8_valid_utf8, is_char_boundary};
use crate::text::{
    all_bounds, bounds, chars_of, contains, contains_seq, has_prefix, push_all, split, split_ranges,
    starts_with, string_from_chars, trim_bounds, trim_start,
};

verus! {

// ---------------------------------------------------------------------------
// Truncation
// ---------------------------------------------------------------------------

/// The largest character boundary of `bytes` that is at most `max`.
pub open spec fn boundary_at_most(bytes: Seq<u8>, max: int) -> int
    decreases max,
{
    if max <= 0 {
        0
    } else if is_char_boundary(bytes, max) {
        max
    } else {
        boundary_at_most(bytes, max - 1)
    }
}

/// The byte length `truncate_on_char_boundary` keeps.
pub open spec fn kept_bytes(bytes: Seq<u8>, max: int) -> int {
    if bytes.len() <= max {
        bytes.len() as int
    } else {
        boundary_at_most(bytes, max)
    }
}

/// The longest prefix of `s` that is at most `max_bytes` long and ends on a
/// character boundary; the whole string when it already fits.
pub fn truncate_on_char_boundary(s: &str, max_bytes: usize) -> (r: &str)
    ensures
        r.spec_bytes() == s.spec_bytes().take(kept_bytes(s.spec_bytes(), max_bytes as int)),
        s.spec_bytes().len() <= max_bytes ==> r@ == s@,
{
    let n = s.as_bytes().len();
    if n <= max_bytes {
        assert(s.spec_bytes().take(s.spec_bytes().len() as int) == s.spec_bytes());
        return s;
    }
    proof {
        encode_utf8_valid_utf8(s@);
    }
    let mut end = max_bytes;
    while end > 0 && !s.is_char_boundary(end)
        invariant
            end <= max_bytes,
            boundary_at_most(s.spec_bytes(), max_bytes as int) == boundary_at_most(
                s.spec_bytes(),
                end as int,
            ),
        decreases end,
    {
        end = end - 1;
    }
    proof {
        assert(is_char_boundary(s.spec_bytes(), 0));
        assert(boundary_at_most(s.spec_bytes(), end as int) == end);
    }
    let (head, _tail) = s.split_at(end);
    head
}

// ---------------------------------------------------------------------------
// QICSGP password redaction
// ---------------------------------------------------------------------------

/// What `regex::Regex::new(pattern)` followed by `replace(haystack,
/// replacement)` gives: `None` when the pattern does not compile, else the
/// haystack with its leftmost-first match replaced.
pub uninterp spec fn regex_replace_first(
    pattern: Seq<char>,
    haystack: Seq<char>,
    replacement: Seq<char>,
) -> Option<Seq<char>>;

/// `regex::Regex::new` then `Regex::replace`. The result is named
/// `regex_replace_first` of the three arguments; the matching rules of the
/// regex crate are left unstated.
#[verifier::external_body]
fn regex_replace(pattern: &str, haystack: &str, replacement: &str) -> (r: Option<String>)
    ensures
        match r {
            Some(s) => regex_replace_first(pattern@, haystack@, replacement@) == Some(s@),
            None => regex_replace_first(pattern@, haystack@, replacement@) is None,
        },
{
    match regex::Regex::new(pattern) {
        Ok(re) => Some(re.replace(haystack, replacement).into_owned()),
        Err(_) => None,
    }
}

/// The password field of an `AT+QICSGP=` write: group 1 is everything up to
/// the password, group 2 the `,<auth>` suffix.
pub open spec fn qicsgp_write_pattern() -> Seq<char> {
    r#"(?i)(AT\+QICSGP=\d+,\d+,"[^"]*","[^"]*",)"[^"]*"(,\d+)"#@
}

/// The password field of a `+QICSGP:` response line.
pub open spec fn qicsgp_response_pattern() -> Seq<char> {
    r#"(?i)(\+QICSGP:\s*\d+,"[^"]*","[^"]*",)"[^"]*"(,\d+)"#@
}

/// The replacement: the password value becomes `"<redacted>"`.
pub open spec fn qicsgp_replacement() -> Seq<char> {
    r#"${1}"<redacted>"${2}"#@
}

/// ASCII letters uppercased (`str::to_ascii_uppercase`).
pub open spec fn ascii_upper(s: Seq<char>) -> Seq<char> {
    s.map_values(|c: char| if 'a' <= c && c <= 'z' { ((c as u32) - 32) as char } else { c })
}

/// `s` without its trailing carriage returns (`trim_end_matches('\r')`).
pub open spec fn trim_end_cr(s: Seq<char>) -> Seq<char>
    decreases s.len(),
{
    if s.len() > 0 && s.last() == '\r' {
        trim_end_cr(s.drop_last())
    } else {
        s
    }
}

/// The redacted line when the pattern compiled; otherwise the whole line is
/// replaced by the marker.
pub open spec fn replaced_or_marker(r: Option<Seq<char>>) -> Seq<char> {
    match r {
        Some(x) => x,
        None => "<redacted>"@,
    }
}

/// Whether a line (trailing `'\r'` removed) is a `+QICSGP:` response: its
/// first token, ignoring case and leading whitespace, is `+QICSGP:`.
pub open spec fn is_qicsgp_response(stripped: Seq<char>) -> bool {
    starts_with(trim_start(ascii_upper(stripped)), "+QICSGP:"@)
}

/// One line (split on `'\n'`) after redaction: a line led by `+QICSGP:` is a
/// response and goes through the response pattern; any other line holding
/// `AT+QICSGP=` is a write command; any other line holding `+QICSGP:` is
/// read as a response. The password is replaced and a trailing `'\r'` kept;
/// every other line is unchanged.
pub open spec fn redact_line(line: Seq<char>) -> Seq<char> {
    let stripped = trim_end_cr(line);
    let upper = ascii_upper(stripped);
    let cr: Seq<char> = if line.len() > 0 && line.last() == '\r' {
        seq!['\r']
    } else {
        Seq::empty()
    };
    if is_qicsgp_response(stripped) {
        replaced_or_marker(
            regex_replace_first(qicsgp_response_pattern(), stripped, qicsgp_replacement()),
        ) + cr
    } else if contains(upper, "AT+QICSGP="@) {
        replaced_or_marker(
            regex_replace_first(qicsgp_write_pattern(), stripped, qicsgp_replacement()),
        ) + cr
    } else if contains(upper, "+QICSGP:"@) {
        replaced_or_marker(
            regex_replace_first(qicsgp_response_pattern(), stripped, qicsgp_replacement()),
        ) + cr
    } else {
        line
    }
}

/// Pieces joined with `'\n'` between them.
pub open spec fn join_lines(pieces: Seq<Seq<char>>) -> Seq<char>
    decreases pieces.len(),
{
    if pieces.len() == 0 {
        Seq::empty()
    } else if pieces.len() == 1 {
        pieces[0]
    } else {
        join_lines(pieces.drop_last()) + seq!['\n'] + pieces.last()
    }
}

/// What `redact_qicsgp` returns for `input`.
pub open spec fn redacted(input: Seq<char>) -> Seq<char> {
    let upper = ascii_upper(input);
    if !contains(upper, "AT+QICSGP"@) && !contains(upper, "+QICSGP:"@) {
        input
    } else {
        join_lines(split(input, '\n').map_values(|l: Seq<char>| redact_line(l)))
    }
}

fn ascii_upper_chars(s: &[char]) -> (r: Vec<char>)
    ensures
        r@ == ascii_upper(s@),
{
    let mut r: Vec<char> = Vec::new();
    let mut i: usize = 0;
    while i < s.len()
        invariant
            i <= s@.len(),
            r@ == ascii_upper(s@).take(i as int),
        decreases s@.len() - i,
    {
        let c = s[i];
        let u = if 'a' <= c && c <= 'z' {
            ((c as u32) - 32) as u8 as char
        } else {
            c
        };
        assert(u == ascii_upper(s@)[i as int]);
        r.push(u);
        i = i + 1;
        assert(r@ == ascii_upper(s@).take(i as int));
    }
    assert(ascii_upper(s@).take(i as int) == ascii_upper(s@));
    r
}

proof fn lemma_trim_end_cr_take(s: Seq<char>, j: int)
    requires
        0 <= j <= s.len(),
        forall|k: int| j <= k < s.len() ==> #[trigger] s[k] == '\r',
        j == 0 || s[j - 1] != '\r',
    ensures
        trim_end_cr(s) == s.take(j),
    decreases s.len() - j,
{
    if j < s.len() {
        lemma_trim_end_cr_take(s.drop_last(), j);
        assert(s.drop_last().take(j) == s.take(j));
    } else {
        assert(s.take(j) == s);
    }
}

/// One line with a `QICSGP` password masked (see [`redact_line`]).
pub fn redact_line_chars(line: &[char]) -> (r: Vec<char>)
    ensures
        r@ == redact_line(line@),
{
    let mut end = line.len();
    while end > 0 && line[end - 1] == '\r'
        invariant
            end <= line@.len(),
            forall|k: int| end <= k < line@.len() ==> #[trigger] line@[k] == '\r',
        decreases end,
    {
        end = end - 1;
    }
    proof {
        lemma_trim_end_cr_take(line@, end as int);
    }
    let stripped = &line[0..end];
    assert(stripped@ == trim_end_cr(line@));
    let upper = ascii_upper_chars(stripped);
    let ends_cr = line.len() > 0 && line[line.len() - 1] == '\r';
    let write_marker = chars_of("AT+QICSGP=");
    let resp_marker = chars_of("+QICSGP:");
    let (lead, _) = trim_bounds(upper.as_slice());
    let leading_response = has_prefix(&upper.as_slice()[lead..upper.len()], resp_marker.as_slice());
    proof {
        assert(upper@.skip(lead as int) == upper@.subrange(lead as int, upper@.len() as int));
    }
    let pattern = if leading_response {
        r#"(?i)(\+QICSGP:\s*\d+,"[^"]*","[^"]*",)"[^"]*"(,\d+)"#
    } else if contains_seq(upper.as_slice(), write_marker.as_slice()) {
        r#"(?i)(AT\+QICSGP=\d+,\d+,"[^"]*","[^"]*",)"[^"]*"(,\d+)"#
    } else if contains_seq(upper.as_slice(), resp_marker.as_slice()) {
        r#"(?i)(\+QICSGP:\s*\d+,"[^"]*","[^"]*",)"[^"]*"(,\d+)"#
    } else {
        let mut same: Vec<char> = Vec::new();
        push_all(&mut same, line);
        return same;
    };
    let haystack = string_from_chars(stripped);
    let mut out = match regex_replace(pattern, haystack.as_str(), r#"${1}"<redacted>"${2}"#) {
        Some(s) => chars_of(s.as_str()),
        None => chars_of("<redacted>"),
    };
    if ends_cr {
        out.push('\r');
    }
    out
}

/// Redacts the PDP password from an `AT+QICSGP` write command or a
/// `+QICSGP:` response before it is logged. Other fields are kept, and
/// lines without a QICSGP marker pass through unchanged.
pub fn redact_qicsgp(input: &str) -> (r: String)
    ensures
        r@ == redacted(input@),
{
    let s = chars_of(input);
    let upper = ascii_upper_chars(s.as_slice());
    let m1 = chars_of("AT+QICSGP");
    let m2 = chars_of("+QICSGP:");
    if !contains_seq(upper.as_slice(), m1.as_slice()) && !contains_seq(
        upper.as_slice(),
        m2.as_slice(),
    ) {
        return string_from_chars(s.as_slice());
    }
    let ranges = split_ranges(s.as_slice(), '\n');
    let ghost pieces = split(s@, '\n');
    let ghost mapped = pieces.map_values(|l: Seq<char>| redact_line(l));
    let mut out: Vec<char> = Vec::new();
    let mut i: usize = 0;
    while i < ranges.len()
        invariant
            i <= ranges@.len(),
            pieces == split(s@, '\n'),
            mapped == pieces.map_values(|l: Seq<char>| redact_line(l)),
            ranges@.len() == pieces.len(),
            all_bounds(s@, ranges@, pieces),
            out@ == join_lines(mapped.take(i as int)),
        decreases ranges@.len() - i,
    {
        let (a, b) = ranges[i];
        assert(bounds(s@, ranges@[i as int], pieces[i as int]));
        let piece = redact_line_chars(&s.as_slice()[a..b]);
        proof {
            assert(mapped.take(i + 1).drop_last() == mapped.take(i as int));
            assert(mapped.take(i + 1).last() == piece@);
        }
        if i > 0 {
            out.push('\n');
        } else {
            assert(mapped.take(0).len() == 0);
        }
        push_all(&mut out, piece.as_slice());
        i = i + 1;
    }
    assert(mapped.take(i as int) == mapped);
    string_from_chars(out.as_slice())
}

} // verus!
