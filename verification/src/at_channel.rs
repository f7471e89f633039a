//! Rules of the AT serial channel.
//!
//! - Which I/O failures mean "the serial fd is dead, reopen it" and the
//!   reopen-at-most-once decision of a command run.
//! - The command guard: a command body carrying a control character is
//!   rejected before anything is written.
//! - Read framing: the lines read after a command are folded one at a time
//!   into the command's response (echo anchoring, stale-carryover discard,
//!   URC filtering), until a terminal line completes it.
//!
//! The serial reads and writes themselves happen outside the library, which
//! hands each line read to [`FramingState::feed_line`] and each exchange
//! outcome to [`reopen_decision`].

use vstd::prelude::*;
use crate::hardware::HardwareError;
use crate::text::{
    chars_of, has_prefix, push_all, slice_eq, starts_with, string_from_chars, trim, trim_bounds,
    utf8_width,
};

verus! {

// ---------------------------------------------------------------------------
// I/O failure classification
// ---------------------------------------------------------------------------

/// The kinds of I/O failure the serial channel distinguishes (the kinds of
/// `std::io::ErrorKind`).
#[derive(Debug, Clone, Copy, PartialEq, Eq, Structural)]
pub enum IoErrorKind {
    NotFound,
    PermissionDenied,
    ConnectionRefused,
    ConnectionReset,
    ConnectionAborted,
    NotConnected,
    AddrInUse,
    AddrNotAvailable,
    BrokenPipe,
    AlreadyExists,
    WouldBlock,
    InvalidInput,
    InvalidData,
    TimedOut,
    WriteZero,
    Interrupted,
    Unsupported,
    UnexpectedEof,
    OutOfMemory,
    Other,
}

/// The fd-dead kinds: a re-enumerated USB port surfaces as one of these.
pub open spec fn is_fd_dead_kind(kind: IoErrorKind) -> bool {
    kind == IoErrorKind::BrokenPipe || kind == IoErrorKind::NotConnected || kind
        == IoErrorKind::UnexpectedEof
}

/// Whether an I/O failure of this kind warrants reopening the serial port.
/// Only the fd-dead kinds do; `TimedOut` is the read loop's ordinary "no data
/// yet" and `Interrupted` is transient on a live fd.
pub fn should_reopen_after_io_error(kind: IoErrorKind) -> (b: bool)
    ensures
        b == is_fd_dead_kind(kind),
{
    match kind {
        IoErrorKind::BrokenPipe | IoErrorKind::NotConnected | IoErrorKind::UnexpectedEof => true,
        _ => false,
    }
}

/// Linux errno: I/O error.
pub const ERRNO_EIO: i32 = 5;

/// Linux errno: no such device or address.
pub const ERRNO_ENXIO: i32 = 6;

/// Linux errno: no such device.
pub const ERRNO_ENODEV: i32 = 19;

/// The raw errno says the device is physically gone.
pub open spec fn is_gone_errno(raw: Option<i32>) -> bool {
    raw == Some(ERRNO_EIO) || raw == Some(ERRNO_ENXIO) || raw == Some(ERRNO_ENODEV)
}

/// True when an I/O error's raw OS errno says the device is gone
/// (EIO, ENXIO or ENODEV).
pub fn is_device_gone_errno(raw: Option<i32>) -> (b: bool)
    ensures
        b == is_gone_errno(raw),
{
    match raw {
        Some(e) => e == ERRNO_EIO || e == ERRNO_ENXIO || e == ERRNO_ENODEV,
        None => false,
    }
}

/// Outcome of a failed AT exchange, as the reopen driver sees it.
#[derive(Debug, Clone, PartialEq, Eq)]
pub enum AtExchangeError {
    /// The read loop ran to the command timeout without a terminal response.
    Timeout,
    /// An fd-dead I/O failure: worth one reopen and retry.
    Reopenable(String),
    /// An I/O failure on a live fd: propagated as is.
    Fatal(String),
    /// The command body held a control character; nothing was written.
    Rejected(String),
}

/// `"{ctx}: {detail}"`.
pub open spec fn io_message(ctx: Seq<char>, detail: Seq<char>) -> Seq<char> {
    ctx + seq![':', ' '] + detail
}

/// Maps an I/O failure (its kind, raw errno and rendered text) to reopen or
/// propagate, with the message `"{ctx}: {detail}"`.
pub fn classify_io(kind: IoErrorKind, raw_os_error: Option<i32>, ctx: &str, detail: &str) -> (r:
    AtExchangeError)
    ensures
        is_fd_dead_kind(kind) || is_gone_errno(raw_os_error) ==> (r matches
            AtExchangeError::Reopenable(m) && m@ == io_message(ctx@, detail@)),
        !(is_fd_dead_kind(kind) || is_gone_errno(raw_os_error)) ==> (r matches
            AtExchangeError::Fatal(m) && m@ == io_message(ctx@, detail@)),
{
    let mut v = chars_of(ctx);
    v.push(':');
    v.push(' ');
    let d = chars_of(detail);
    push_all(&mut v, d.as_slice());
    let msg = string_from_chars(v.as_slice());
    if should_reopen_after_io_error(kind) || is_device_gone_errno(raw_os_error) {
        AtExchangeError::Reopenable(msg)
    } else {
        AtExchangeError::Fatal(msg)
    }
}

// ---------------------------------------------------------------------------
// Reopen-at-most-once
// ---------------------------------------------------------------------------

/// What the command driver does after one exchange.
#[derive(Debug)]
pub enum ReopenStep {
    /// The command is over, with this result.
    Finish(Result<String, HardwareError>),
    /// Reopen the port and run the exchange once more.
    Reopen,
}

/// The driver's decision for an exchange outcome, given whether it has
/// already reopened the port during this command.
pub open spec fn reopen_step(reopened: bool, outcome: Result<String, AtExchangeError>) -> ReopenStep {
    match outcome {
        Ok(resp) => ReopenStep::Finish(Ok(resp)),
        Err(AtExchangeError::Timeout) => ReopenStep::Finish(Err(HardwareError::Timeout)),
        Err(AtExchangeError::Rejected(m)) => ReopenStep::Finish(Err(HardwareError::CommandRejected(m))),
        Err(AtExchangeError::Fatal(m)) => ReopenStep::Finish(Err(HardwareError::Io(m))),
        Err(AtExchangeError::Reopenable(m)) => if reopened {
            ReopenStep::Finish(Err(HardwareError::Io(m)))
        } else {
            ReopenStep::Reopen
        },
    }
}

/// Decides what to do after one AT exchange: a response, timeout, rejection
/// or live-fd failure ends the command; an fd-dead failure asks for a reopen
/// unless the port was already reopened once during this command.
pub fn reopen_decision(reopened: bool, outcome: Result<String, AtExchangeError>) -> (r: ReopenStep)
    ensures
        r == reopen_step(reopened, outcome),
{
    match outcome {
        Ok(resp) => ReopenStep::Finish(Ok(resp)),
        Err(AtExchangeError::Timeout) => ReopenStep::Finish(Err(HardwareError::Timeout)),
        Err(AtExchangeError::Rejected(m)) => ReopenStep::Finish(Err(HardwareError::CommandRejected(m))),
        Err(AtExchangeError::Fatal(m)) => ReopenStep::Finish(Err(HardwareError::Io(m))),
        Err(AtExchangeError::Reopenable(m)) => {
            if reopened {
                ReopenStep::Finish(Err(HardwareError::Io(m)))
            } else {
                ReopenStep::Reopen
            }
        },
    }
}

/// One command run: the exchanges' outcomes in order, and for each reopen,
/// whether opening the fresh port succeeded. The result and the number of
/// reopens the driver asks for, or `None` if the outcomes run out first.
pub open spec fn run_command(
    reopened: bool,
    outcomes: Seq<Result<String, AtExchangeError>>,
    opens: Seq<Result<(), HardwareError>>,
) -> Option<(Result<String, HardwareError>, nat)>
    decreases outcomes.len(),
{
    if outcomes.len() == 0 {
        None
    } else {
        match reopen_step(reopened, outcomes[0]) {
            ReopenStep::Finish(r) => Some((r, 0nat)),
            ReopenStep::Reopen => if opens.len() == 0 {
                None
            } else {
                match opens[0] {
                    Err(e) => Some((Err(e), 1nat)),
                    Ok(_) => match run_command(true, outcomes.drop_first(), opens.drop_first()) {
                        Some((r, n)) => Some((r, n + 1)),
                        None => None,
                    },
                }
            },
        }
    }
}

// ---------------------------------------------------------------------------
// Command guard
// ---------------------------------------------------------------------------

/// ASCII control character (`u8::is_ascii_control`): 0x00..=0x1F and 0x7F.
pub open spec fn is_ascii_control(c: char) -> bool {
    (c as u32) < 0x20 || (c as u32) == 0x7f
}

/// `i` is the first position of `s` whose character satisfies `bad`.
pub open spec fn first_at(s: Seq<char>, bad: spec_fn(char) -> bool, i: int) -> bool {
    &&& 0 <= i < s.len()
    &&& bad(s[i])
    &&& forall|k: int| 0 <= k < i ==> !bad(#[trigger] s[k])
}

/// The first character of `s` satisfying `bad`, as its byte value, or `None`.
///
/// Control characters and `"` are single UTF-8 bytes and no byte of a
/// multi-byte character is below 0x80, so scanning characters finds the same
/// byte as scanning the string's bytes.
pub open spec fn first_byte_where(s: Seq<char>, bad: spec_fn(char) -> bool) -> Option<u8> {
    if exists|i: int| first_at(s, bad, i) {
        Some((s[choose|i: int| first_at(s, bad, i)] as u32) as u8)
    } else {
        None
    }
}

pub open spec fn control_char() -> spec_fn(char) -> bool {
    |c: char| is_ascii_control(c)
}

pub open spec fn control_or_quote() -> spec_fn(char) -> bool {
    |c: char| is_ascii_control(c) || c == '"'
}

proof fn lemma_first_at_unique(s: Seq<char>, bad: spec_fn(char) -> bool, i: int, j: int)
    requires
        first_at(s, bad, i),
        first_at(s, bad, j),
    ensures
        i == j,
{
    if i < j {
        assert(!bad(s[i]));
    } else if j < i {
        assert(!bad(s[j]));
    }
}

/// Scans for the first character that is a control character (and, if
/// `quote`, a double quote).
fn find_first_bad(s: &[char], quote: bool) -> (r: Option<u8>)
    ensures
        r == first_byte_where(s@, if quote { control_or_quote() } else { control_char() }),
{
    let ghost bad = if quote {
        control_or_quote()
    } else {
        control_char()
    };
    let mut i: usize = 0;
    while i < s.len()
        invariant
            i <= s@.len(),
            bad == (if quote {
                control_or_quote()
            } else {
                control_char()
            }),
            forall|k: int| 0 <= k < i ==> !bad(#[trigger] s@[k]),
        decreases s@.len() - i,
    {
        let c = s[i];
        let code = c as u32;
        if code < 0x20 || code == 0x7f || (quote && c == '"') {
            proof {
                assert(first_at(s@, bad, i as int));
                let j = choose|j: int| first_at(s@, bad, j);
                lemma_first_at_unique(s@, bad, i as int, j);
            }
            return Some(code as u8);
        }
        i = i + 1;
    }
    proof {
        if exists|j: int| first_at(s@, bad, j) {
            let j = choose|j: int| first_at(s@, bad, j);
            assert(!bad(s@[j]));
        }
    }
    None
}

/// The first ASCII control byte of a command body, or `None` if it is clean.
/// The writer appends its own `\r`; a control character inside the body
/// could otherwise smuggle a second command onto the wire.
pub fn find_control_char(cmd: &str) -> (r: Option<u8>)
    ensures
        r == first_byte_where(cmd@, control_char()),
{
    let v = chars_of(cmd);
    find_first_bad(v.as_slice(), false)
}

/// The lowercase hexadecimal digit for `d` in `0..16`.
pub open spec fn hex_digit_char(d: int) -> char {
    if d < 10 {
        ((d + 48) as u32) as char
    } else {
        ((d + 87) as u32) as char
    }
}

/// `format!("{b:02x}")`.
pub open spec fn hex2(b: u8) -> Seq<char> {
    seq![hex_digit_char((b / 16) as int), hex_digit_char((b % 16) as int)]
}

fn hex_digit_of(d: u8) -> (c: char)
    requires
        d < 16,
    ensures
        c == hex_digit_char(d as int),
{
    if d < 10 {
        (d + 48) as char
    } else {
        (d + 87) as char
    }
}

/// Appends the two lowercase hexadecimal digits of `b` (`{:02x}`).
pub fn push_hex2(v: &mut Vec<char>, b: u8)
    ensures
        final(v)@ == old(v)@ + hex2(b),
{
    v.push(hex_digit_of(b / 16));
    v.push(hex_digit_of(b % 16));
}

/// `prefix + hex2(b) + suffix` as a `String`.
fn message_with_byte(prefix: &str, b: u8, suffix: &str) -> (r: String)
    ensures
        r@ == prefix@ + hex2(b) + suffix@,
{
    let mut v = chars_of(prefix);
    push_hex2(&mut v, b);
    let s = chars_of(suffix);
    push_all(&mut v, s.as_slice());
    string_from_chars(v.as_slice())
}

/// Validates a string that will be interpolated into a quoted AT argument
/// (e.g. the APN of `AT+CGDCONT`): a double quote or a control character is
/// rejected.
pub fn validate_at_quoted_arg(value: &str) -> (r: Result<(), HardwareError>)
    ensures
        first_byte_where(value@, control_or_quote()) is None ==> r is Ok,
        first_byte_where(value@, control_or_quote()) matches Some(b) ==> (r matches Err(
            HardwareError::CommandRejected(m),
        ) && m@ == "AT quoted argument contains forbidden byte 0x"@ + hex2(b) + ""@),
{
    let v = chars_of(value);
    match find_first_bad(v.as_slice(), true) {
        Some(b) => Err(
            HardwareError::CommandRejected(
                message_with_byte("AT quoted argument contains forbidden byte 0x", b, ""),
            ),
        ),
        None => Ok(()),
    }
}

/// What goes on the wire for a command: the body and a single `\r`, or the
/// rejection when the body holds a control character.
pub fn prepare_command(cmd: &str) -> (r: Result<String, AtExchangeError>)
    ensures
        first_byte_where(cmd@, control_char()) is None ==> (r matches Ok(w) && w@ == cmd@.push(
            '\r',
        )),
        first_byte_where(cmd@, control_char()) matches Some(b) ==> (r matches Err(
            AtExchangeError::Rejected(m),
        ) && m@ == "AT command contains forbidden control byte 0x"@ + hex2(b)
            + " (possible multi-command injection)"@),
{
    match find_control_char(cmd) {
        Some(b) => Err(
            AtExchangeError::Rejected(
                message_with_byte(
                    "AT command contains forbidden control byte 0x",
                    b,
                    " (possible multi-command injection)",
                ),
            ),
        ),
        None => {
            let mut v = chars_of(cmd);
            v.push('\r');
            Ok(string_from_chars(v.as_slice()))
        },
    }
}

// ---------------------------------------------------------------------------
// Response families and URCs
// ---------------------------------------------------------------------------

/// `s` with a leading "AT" or "at" removed (exact case, as `strip_prefix`).
pub open spec fn strip_at(s: Seq<char>) -> Seq<char> {
    if starts_with(s, seq!['A', 'T']) || starts_with(s, seq!['a', 't']) {
        s.skip(2)
    } else {
        s
    }
}

/// `s` with its leading CR and LF characters removed.
pub open spec fn skip_crlf(s: Seq<char>) -> Seq<char>
    decreases s.len(),
{
    if s.len() > 0 && (s[0] == '\r' || s[0] == '\n') {
        skip_crlf(s.drop_first())
    } else {
        s
    }
}

/// The longest prefix of `s` without '=' or '?'.
pub open spec fn command_name(s: Seq<char>) -> Seq<char>
    decreases s.len(),
{
    if s.len() == 0 || s[0] == '=' || s[0] == '?' {
        Seq::empty()
    } else {
        seq![s[0]] + command_name(s.drop_first())
    }
}

/// The response-line prefix a command's own answer starts with: `AT+CPIN?`
/// gives `+CPIN:`; `None` for commands without a `+` name.
pub open spec fn expected_prefix(cmd: Seq<char>) -> Option<Seq<char>> {
    let body = skip_crlf(strip_at(trim(cmd)));
    if body.len() == 0 || body[0] != '+' {
        None
    } else {
        let name = trim(command_name(body));
        if name.len() <= 1 {
            None
        } else {
            Some(name.push(':'))
        }
    }
}

proof fn lemma_command_name_take(s: Seq<char>, i: int)
    requires
        0 <= i <= s.len(),
        forall|k: int| 0 <= k < i ==> (#[trigger] s[k] != '=' && s[k] != '?'),
        i == s.len() || s[i] == '=' || s[i] == '?',
    ensures
        command_name(s) == s.take(i),
    decreases i,
{
    if i > 0 {
        lemma_command_name_take(s.drop_first(), i - 1);
        assert(s.take(i) == seq![s[0]] + s.drop_first().take(i - 1));
    } else {
        assert(s.take(0) =~= Seq::<char>::empty());
    }
}

/// Derives the response-line prefix of an AT command (see
/// [`expected_prefix`]).
pub fn expected_response_prefix(cmd: &str) -> (r: Option<String>)
    ensures
        match expected_prefix(cmd@) {
            Some(p) => r matches Some(s) && s@ == p,
            None => r is None,
        },
{
    let all = chars_of(cmd);
    let (a, b) = trim_bounds(all.as_slice());
    let c = &all.as_slice()[a..b];
    let at_upper = chars_of("AT");
    let at_lower = chars_of("at");
    proof {
        reveal_strlit("AT");
        reveal_strlit("at");
        assert(at_upper@ == seq!['A', 'T']);
        assert(at_lower@ == seq!['a', 't']);
    }
    let i0: usize = if has_prefix(c, at_upper.as_slice()) || has_prefix(c, at_lower.as_slice()) {
        2
    } else {
        0
    };
    assert(c@.skip(i0 as int) == strip_at(c@));
    let mut i = i0;
    while i < c.len() && (c[i] == '\r' || c[i] == '\n')
        invariant
            i0 <= i <= c@.len(),
            c@.skip(i0 as int) == strip_at(c@),
            skip_crlf(c@.skip(i0 as int)) == skip_crlf(c@.skip(i as int)),
        decreases c@.len() - i,
    {
        proof {
            let t = c@.skip(i as int);
            assert(t[0] == c@[i as int]);
            assert(t.drop_first() == c@.skip(i + 1));
        }
        i = i + 1;
    }
    let ghost body = c@.skip(i as int);
    assert(skip_crlf(body) == body);
    if i >= c.len() || c[i] != '+' {
        return None;
    }
    let start = i;
    let mut j = i;
    while j < c.len() && c[j] != '=' && c[j] != '?'
        invariant
            start <= j <= c@.len(),
            body == c@.skip(start as int),
            forall|k: int| start <= k < j ==> (#[trigger] c@[k] != '=' && c@[k] != '?'),
        decreases c@.len() - j,
    {
        j = j + 1;
    }
    proof {
        assert forall|k: int| 0 <= k < j - start implies (#[trigger] body[k] != '=' && body[k] != '?') by {
            assert(body[k] == c@[start + k]);
        }
        lemma_command_name_take(body, j - start);
        assert(body.take(j - start) == c@.subrange(start as int, j as int));
    }
    let name_all = &c[start..j];
    let (na, nb) = trim_bounds(name_all);
    if nb - na <= 1 {
        return None;
    }
    let mut v: Vec<char> = Vec::new();
    push_all(&mut v, &name_all[na..nb]);
    v.push(':');
    Some(string_from_chars(v.as_slice()))
}

/// URC line prefixes filtered from command output (3GPP and Quectel).
pub open spec fn urc_prefixes() -> Seq<Seq<char>> {
    seq![
        "+CREG:"@, "+CGREG:"@, "+CEREG:"@, "+CGEV:"@, "+CMTI:"@, "+CMT:"@, "+CMGS:"@, "+CDS:"@,
        "+CBM:"@, "+CUSD:"@, "+CRING:"@, "+CLIP:"@, "+CCWA:"@, "+CPIN:"@, "+QUSIM:"@, "+QIND:"@,
        "+QUSIM"@, "+QMBN:"@, "+QNETDEVSTATUS:"@,
    ]
}

/// Bare URC lines that arrive on their own.
pub open spec fn urc_bare_lines() -> Seq<Seq<char>> {
    seq!["RDY"@, "POWERED DOWN"@, "NORMAL POWER DOWN"@, "+CPIN: READY"@]
}

/// A trimmed line is a URC to filter: it is a known URC form and not the
/// issued command's own response family.
pub open spec fn is_urc(line: Seq<char>, expected: Option<Seq<char>>) -> bool {
    if expected matches Some(e) && starts_with(line, e) {
        false
    } else {
        (exists|i: int| 0 <= i < urc_prefixes().len() && starts_with(line, #[trigger] urc_prefixes()[i]))
            || urc_bare_lines().contains(line)
    }
}

fn urc_prefix_list() -> (v: Vec<&'static str>)
    ensures
        v@.len() == urc_prefixes().len(),
        forall|i: int| 0 <= i < v@.len() ==> (#[trigger] v@[i])@ == urc_prefixes()[i],
{
    vec![
        "+CREG:",
        "+CGREG:",
        "+CEREG:",
        "+CGEV:",
        "+CMTI:",
        "+CMT:",
        "+CMGS:",
        "+CDS:",
        "+CBM:",
        "+CUSD:",
        "+CRING:",
        "+CLIP:",
        "+CCWA:",
        "+CPIN:",
        "+QUSIM:",
        "+QIND:",
        "+QUSIM",
        "+QMBN:",
        "+QNETDEVSTATUS:",
    ]
}

fn urc_bare_list() -> (v: Vec<&'static str>)
    ensures
        v@.len() == urc_bare_lines().len(),
        forall|i: int| 0 <= i < v@.len() ==> (#[trigger] v@[i])@ == urc_bare_lines()[i],
{
    vec!["RDY", "POWERED DOWN", "NORMAL POWER DOWN", "+CPIN: READY"]
}

fn is_urc_chars(line: &[char], expected: &Option<Vec<char>>) -> (b: bool)
    ensures
        b == is_urc(line@, match expected {
            Some(e) => Some(e@),
            None => None,
        }),
{
    let ghost exp = match expected {
        Some(e) => Some(e@),
        None => None,
    };
    if let Some(e) = expected {
        if has_prefix(line, e.as_slice()) {
            return false;
        }
    }
    let prefixes = urc_prefix_list();
    let mut i: usize = 0;
    while i < prefixes.len()
        invariant
            i <= prefixes@.len(),
            prefixes@.len() == urc_prefixes().len(),
            forall|k: int| 0 <= k < prefixes@.len() ==> (#[trigger] prefixes@[k])@ == urc_prefixes()[k],
            forall|k: int| 0 <= k < i ==> !starts_with(line@, #[trigger] urc_prefixes()[k]),
            !(exp matches Some(e) && starts_with(line@, e)),
            exp == (match expected {
                Some(e) => Some(e@),
                None => None,
            }),
        decreases prefixes@.len() - i,
    {
        let p = chars_of(prefixes[i]);
        if has_prefix(line, p.as_slice()) {
            assert(starts_with(line@, urc_prefixes()[i as int]));
            return true;
        }
        i = i + 1;
    }
    let bare = urc_bare_list();
    let mut j: usize = 0;
    while j < bare.len()
        invariant
            j <= bare@.len(),
            bare@.len() == urc_bare_lines().len(),
            forall|k: int| 0 <= k < bare@.len() ==> (#[trigger] bare@[k])@ == urc_bare_lines()[k],
            forall|k: int| 0 <= k < j ==> urc_bare_lines()[k] != line@,
            !(exp matches Some(e) && starts_with(line@, e)),
            exp == (match expected {
                Some(e) => Some(e@),
                None => None,
            }),
        decreases bare@.len() - j,
    {
        let p = chars_of(bare[j]);
        if slice_eq(line, p.as_slice()) {
            assert(urc_bare_lines()[j as int] == line@);
            return true;
        }
        j = j + 1;
    }
    false
}

/// Whether an (already trimmed) line is a URC to filter from a response,
/// given the issued command's response prefix (the dual-use guard keeps a
/// command's own response family).
pub fn is_urc_line(trimmed_line: &str, expected_prefix: Option<&str>) -> (b: bool)
    ensures
        b == is_urc(trimmed_line@, match expected_prefix {
            Some(e) => Some(e@),
            None => None,
        }),
{
    let line = chars_of(trimmed_line);
    let exp = match expected_prefix {
        Some(e) => Some(chars_of(e)),
        None => None,
    };
    is_urc_chars(line.as_slice(), &exp)
}

// ---------------------------------------------------------------------------
// Read framing
// ---------------------------------------------------------------------------

/// A final result line: `OK`, `ERROR`, `+CME ERROR…` or `+CMS ERROR…`.
pub open spec fn is_terminal(t: Seq<char>) -> bool {
    t == "OK"@ || t == "ERROR"@ || starts_with(t, "+CME ERROR"@) || starts_with(t, "+CMS ERROR"@)
}

/// A pre-echo line that looks like a (stale) command echo: its first two
/// bytes are "AT" in any case.
pub open spec fn looks_like_echo(t: Seq<char>) -> bool {
    t.len() >= 2 && (t[0] == 'A' || t[0] == 'a') && (t[1] == 'T' || t[1] == 't')
}

/// Byte offset 2 of `t` is a character boundary, or `t` is shorter than two
/// bytes: taking its first two bytes is defined.
pub open spec fn first_two_bytes_sliceable(t: Seq<char>) -> bool {
    t.len() == 0 || utf8_width(t[0]) == 2 || (utf8_width(t[0]) == 1 && (t.len() == 1 || utf8_width(
        t[1],
    ) == 1))
}

fn char_width(c: char) -> (w: u32)
    ensures
        w == utf8_width(c),
{
    let v = c as u32;
    if v < 0x80 {
        1
    } else if v < 0x800 {
        2
    } else if v < 0x10000 {
        3
    } else {
        4
    }
}

/// The framing state of one exchange, as values.
pub struct FramingView {
    /// The trimmed command: its echo anchors the response.
    pub echo: Seq<char>,
    /// The command's own response-line prefix.
    pub expected: Option<Seq<char>>,
    pub echo_seen: bool,
    /// Stale content from an earlier exchange was seen before our echo.
    pub pre_echo_noise: bool,
    /// The response captured so far (raw lines).
    pub response: Seq<char>,
}

/// The framing state at the start of an exchange for `cmd`.
pub open spec fn framing_start(cmd: Seq<char>) -> FramingView {
    FramingView {
        echo: trim(cmd),
        expected: expected_prefix(cmd),
        echo_seen: false,
        pre_echo_noise: false,
        response: Seq::empty(),
    }
}

/// Whether reading `line` in state `v` is defined: before the echo, a line
/// whose first two bytes are examined must not split a character there.
pub open spec fn line_acceptable(v: FramingView, line: Seq<char>) -> bool {
    !v.echo_seen && trim(line) != v.echo ==> first_two_bytes_sliceable(trim(line))
}

/// One line read: the next state, and whether the response is complete.
pub open spec fn frame_step(v: FramingView, line: Seq<char>) -> (FramingView, bool) {
    let t = trim(line);
    if !v.echo_seen && t == v.echo {
        (FramingView { echo_seen: true, ..v }, false)
    } else if !v.echo_seen {
        if looks_like_echo(t) {
            (FramingView { pre_echo_noise: true, ..v }, false)
        } else if is_urc(t, v.expected) {
            (v, false)
        } else if is_terminal(t) {
            if v.pre_echo_noise {
                (FramingView { pre_echo_noise: false, ..v }, false)
            } else {
                (FramingView { response: v.response + line, ..v }, true)
            }
        } else if t.len() > 0 {
            (FramingView { response: v.response + line, ..v }, false)
        } else {
            (v, false)
        }
    } else if is_urc(t, v.expected) {
        (v, false)
    } else {
        (FramingView { response: v.response + line, ..v }, is_terminal(t))
    }
}

/// Feeding `lines` in turn from state `v` never reads an unacceptable line
/// before the response completes.
pub open spec fn lines_acceptable(v: FramingView, lines: Seq<Seq<char>>) -> bool
    decreases lines.len(),
{
    lines.len() == 0 || (line_acceptable(v, lines[0]) && (frame_step(v, lines[0]).1
        || lines_acceptable(frame_step(v, lines[0]).0, lines.drop_first())))
}

/// The response framed from `lines` read in turn from state `v`, or `None`
/// if the lines run out before a terminal line completes it.
pub open spec fn frame_lines(v: FramingView, lines: Seq<Seq<char>>) -> Option<Seq<char>>
    decreases lines.len(),
{
    if lines.len() == 0 {
        None
    } else {
        let (next, done) = frame_step(v, lines[0]);
        if done {
            Some(next.response)
        } else {
            frame_lines(next, lines.drop_first())
        }
    }
}

/// The framing state of one AT exchange.
pub struct FramingState {
    echo: Vec<char>,
    expected: Option<Vec<char>>,
    echo_seen: bool,
    pre_echo_noise: bool,
    response: Vec<char>,
}

impl FramingState {
    /// The state as values.
    pub closed spec fn view(&self) -> FramingView {
        FramingView {
            echo: self.echo@,
            expected: match self.expected {
                Some(e) => Some(e@),
                None => None,
            },
            echo_seen: self.echo_seen,
            pre_echo_noise: self.pre_echo_noise,
            response: self.response@,
        }
    }

    /// The framing state at the start of an exchange for `cmd`.
    pub fn new(cmd: &str) -> (s: Self)
        ensures
            s.view() == framing_start(cmd@),
    {
        let all = chars_of(cmd);
        let (a, b) = trim_bounds(all.as_slice());
        let mut echo: Vec<char> = Vec::new();
        push_all(&mut echo, &all.as_slice()[a..b]);
        let expected = match expected_response_prefix(cmd) {
            Some(p) => Some(chars_of(p.as_str())),
            None => None,
        };
        FramingState { echo, expected, echo_seen: false, pre_echo_noise: false, response: Vec::new() }
    }

    /// Folds one line read from the port (with its line ending) into the
    /// response; `true` when a terminal line completed it.
    pub fn feed_line(&mut self, line: &str) -> (done: bool)
        requires
            line_acceptable(old(self).view(), line@),
        ensures
            (final(self).view(), done) == frame_step(old(self).view(), line@),
    {
        let raw = chars_of(line);
        let (a, b) = trim_bounds(raw.as_slice());
        let t = &raw.as_slice()[a..b];
        let ghost v = self.view();
        if !self.echo_seen && slice_eq(t, self.echo.as_slice()) {
            self.echo_seen = true;
            return false;
        }
        let ok = chars_of("OK");
        let error = chars_of("ERROR");
        let cme = chars_of("+CME ERROR");
        let cms = chars_of("+CMS ERROR");
        let terminal = slice_eq(t, ok.as_slice()) || slice_eq(t, error.as_slice()) || has_prefix(
            t,
            cme.as_slice(),
        ) || has_prefix(t, cms.as_slice());
        assert(terminal == is_terminal(t@));
        let urc = is_urc_chars(t, &self.expected);
        if !self.echo_seen {
            let echo_like = t.len() >= 2 && (t[0] == 'A' || t[0] == 'a') && (t[1] == 'T' || t[1]
                == 't');
            if echo_like {
                self.pre_echo_noise = true;
                return false;
            }
            if urc {
                return false;
            }
            if terminal {
                if self.pre_echo_noise {
                    self.pre_echo_noise = false;
                    return false;
                }
                push_all(&mut self.response, raw.as_slice());
                return true;
            }
            if t.len() > 0 {
                push_all(&mut self.response, raw.as_slice());
            }
            return false;
        }
        if urc {
            return false;
        }
        push_all(&mut self.response, raw.as_slice());
        terminal
    }

    /// Whether `line` can be read in this state: before the echo, a line
    /// whose first two bytes get examined must not split a character there
    /// (reading it anyway would slice a `str` inside a character).
    pub fn accepts(&self, line: &str) -> (b: bool)
        ensures
            b == line_acceptable(self.view(), line@),
    {
        let raw = chars_of(line);
        let (a, b) = trim_bounds(raw.as_slice());
        let t = &raw.as_slice()[a..b];
        if self.echo_seen || slice_eq(t, self.echo.as_slice()) {
            return true;
        }
        if t.len() == 0 {
            return true;
        }
        let w0 = char_width(t[0]);
        if w0 == 2 {
            return true;
        }
        w0 == 1 && (t.len() == 1 || char_width(t[1]) == 1)
    }

    /// The response captured so far.
    pub fn response(&self) -> (r: String)
        ensures
            r@ == self.view().response,
    {
        string_from_chars(self.response.as_slice())
    }
}

/// Frames the response of `cmd` from the lines read after it, in order:
/// `Some(response)` once a terminal line completes it, `None` if the lines
/// run out first (the exchange then times out).
pub fn frame_response(cmd: &str, lines: &[String]) -> (r: Option<String>)
    requires
        lines_acceptable(framing_start(cmd@), lines@.map_values(|l: String| l@)),
    ensures
        match frame_lines(framing_start(cmd@), lines@.map_values(|l: String| l@)) {
            Some(resp) => r matches Some(s) && s@ == resp,
            None => r is None,
        },
{
    let ghost all = lines@.map_values(|l: String| l@);
    let mut state = FramingState::new(cmd);
    let mut i: usize = 0;
    assert(all.skip(0) == all);
    while i < lines.len()
        invariant
            i <= lines@.len(),
            all == lines@.map_values(|l: String| l@),
            lines_acceptable(state.view(), all.skip(i as int)),
            frame_lines(state.view(), all.skip(i as int)) == frame_lines(
                framing_start(cmd@),
                all,
            ),
        decreases lines@.len() - i,
    {
        let ghost rest = all.skip(i as int);
        assert(rest[0] == lines@[i as int]@);
        assert(rest.drop_first() == all.skip(i + 1));
        let done = state.feed_line(lines[i].as_str());
        if done {
            return Some(state.response());
        }
        i = i + 1;
    }
    proof {
        assert(all.skip(i as int).len() == 0);
    }
    None
}

} // verus!
