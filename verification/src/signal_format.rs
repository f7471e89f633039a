//! The signal-format variants of a profile: which variant reads a
//! serving-cell reply, and the fields its named groups capture. The first
//! variant whose required substring is present and whose pattern matches
//! wins; the decimal readings are handed on as the modem wrote them.

use vstd::prelude::*;
use crate::at_status::{contains_str, group, group_text, groups_view, match_view};
use crate::hardware::strings_view;
use crate::profiles::SignalFormatVariant;
use crate::text::{chars_of, contains, opt_view, push_all, str_eq, string_from_chars};
use crate::types::Technology;

verus! {

/// What `regex::Regex::new(pattern)`, `captures(haystack)` and then
/// `Captures::name` for each of `names` give: `None` when the pattern does
/// not compile, `Some(None)` when it does not match, else the text of each
/// named group in the order of `names` (`None` for a group that took no part
/// in the match or that the pattern lacks).
pub uninterp spec fn regex_named_captures(
    pattern: Seq<char>,
    haystack: Seq<char>,
    names: Seq<Seq<char>>,
) -> Option<Option<Seq<Option<Seq<char>>>>>;

/// `regex::Regex::new`, `Regex::captures` and `Captures::name` for each
/// name, each group's text copied out. The result is named
/// `regex_named_captures` of the three arguments, with one entry per name;
/// the regex crate's matching rules are left unstated.
#[verifier::external_body]
fn regex_named(pattern: &str, haystack: &str, names: &Vec<String>) -> (r: Option<Option<Vec<Option<String>>>>)
    ensures
        regex_named_captures(pattern@, haystack@, strings_view(names@)) == match r {
            Some(m) => Some(match_view(m)),
            None => None,
        },
        r matches Some(Some(g)) ==> g@.len() == names@.len(),
{
    match regex::Regex::new(pattern) {
        Ok(re) => Some(
            re.captures(haystack).map(|c| names.iter().map(|n| c.name(n).map(|m| m.as_str().to_string())).collect()),
        ),
        Err(_) => None,
    }
}

/// The named groups a signal-format variant may capture, in this order.
pub open spec fn signal_group_names() -> Seq<Seq<char>> {
    seq!["rsrp"@, "rsrq"@, "rssi"@, "sinr"@, "band"@, "cellid"@]
}

fn signal_group_names_vec() -> (v: Vec<String>)
    ensures
        strings_view(v@) == signal_group_names(),
{
    let v = vec![
        "rsrp".to_string(),
        "rsrq".to_string(),
        "rssi".to_string(),
        "sinr".to_string(),
        "band".to_string(),
        "cellid".to_string(),
    ];
    assert(strings_view(v@) == signal_group_names());
    v
}

/// A serving-cell reading: the decimal fields as captured, the band with
/// the variant's prefix, the cell id and the technology.
#[derive(Debug, Clone, PartialEq, Eq)]
pub struct SignalReading {
    pub rsrp: Option<String>,
    pub rsrq: Option<String>,
    pub rssi: Option<String>,
    pub sinr: Option<String>,
    /// Band prefix and number, e.g. "B14" or "n78"; empty without a band.
    pub band: String,
    /// Cell id as captured; empty without one.
    pub cell_id: String,
    pub technology: Technology,
}

/// A reading as values.
pub type SignalReadingView = (
    Option<Seq<char>>,
    Option<Seq<char>>,
    Option<Seq<char>>,
    Option<Seq<char>>,
    Seq<char>,
    Seq<char>,
    Technology,
);

pub open spec fn reading_view(r: SignalReading) -> SignalReadingView {
    (opt_view(r.rsrp), opt_view(r.rsrq), opt_view(r.rssi), opt_view(r.sinr), r.band@, r.cell_id@, r.technology)
}

/// The reading a variant gives from its groups: "5G" variants report 5G,
/// all others 4G.
pub open spec fn variant_reading(v: SignalFormatVariant, g: Seq<Option<Seq<char>>>) -> SignalReadingView {
    (
        group(g, 0),
        group(g, 1),
        group(g, 2),
        group(g, 3),
        match group(g, 4) {
            Some(b) => v.band_prefix@ + b,
            None => Seq::empty(),
        },
        match group(g, 5) {
            Some(c) => c,
            None => Seq::empty(),
        },
        if v.technology@ == "5G"@ {
            Technology::Gen5
        } else {
            Technology::Gen4
        },
    )
}

/// The groups of a variant's match, when the variant applies to the reply
/// (its required substring, if any, is present) and its pattern matches.
pub open spec fn variant_groups(v: SignalFormatVariant, response: Seq<char>) -> Option<Seq<Option<Seq<char>>>> {
    if v.requires_substring@.len() > 0 && !contains(response, v.requires_substring@) {
        None
    } else {
        match regex_named_captures(v.regex@, response, signal_group_names()) {
            Some(Some(g)) => Some(g),
            _ => None,
        }
    }
}

/// The reading of the first variant that reads the reply.
pub open spec fn signal_reading(vs: Seq<SignalFormatVariant>, response: Seq<char>) -> Option<SignalReadingView>
    decreases vs.len(),
{
    if vs.len() == 0 {
        None
    } else {
        match variant_groups(vs[0], response) {
            Some(g) => Some(variant_reading(vs[0], g)),
            None => signal_reading(vs.drop_first(), response),
        }
    }
}

/// The reading a variant's match gives.
pub fn reading_of(v: &SignalFormatVariant, g: &Vec<Option<String>>) -> (r: SignalReading)
    ensures
        reading_view(r) == variant_reading(*v, groups_view(g@)),
{
    let band = match group_text(g, 4) {
        Some(b) => {
            let mut c = chars_of(v.band_prefix.as_str());
            let bc = chars_of(b.as_str());
            push_all(&mut c, bc.as_slice());
            string_from_chars(c.as_slice())
        },
        None => String::new(),
    };
    let cell_id = match group_text(g, 5) {
        Some(c) => c,
        None => String::new(),
    };
    let technology = if str_eq(v.technology.as_str(), "5G") {
        Technology::Gen5
    } else {
        Technology::Gen4
    };
    SignalReading {
        rsrp: group_text(g, 0),
        rsrq: group_text(g, 1),
        rssi: group_text(g, 2),
        sinr: group_text(g, 3),
        band,
        cell_id,
        technology,
    }
}

/// Reads a serving-cell reply with the first variant that applies and
/// matches; `None` when none does (the caller then falls back to `+CSQ`).
pub fn read_signal_variants(response: &str, variants: &[SignalFormatVariant]) -> (r: Option<SignalReading>)
    ensures
        match signal_reading(variants@, response@) {
            Some(v) => r matches Some(x) && reading_view(x) == v,
            None => r is None,
        },
{
    let names = signal_group_names_vec();
    let mut i: usize = 0;
    assert(variants@.skip(0) == variants@);
    while i < variants.len()
        invariant
            i <= variants@.len(),
            strings_view(names@) == signal_group_names(),
            signal_reading(variants@, response@) == signal_reading(variants@.skip(i as int), response@),
        decreases variants@.len() - i,
    {
        let v = &variants[i];
        assert(variants@.skip(i as int)[0] == *v);
        assert(variants@.skip(i as int).drop_first() == variants@.skip(i + 1));
        let applies = v.requires_substring.as_str().is_empty() || contains_str(response, v.requires_substring.as_str());
        if applies {
            match regex_named(v.regex.as_str(), response, &names) {
                Some(Some(g)) => {
                    return Some(reading_of(v, &g));
                },
                _ => {},
            }
        }
        i = i + 1;
    }
    None
}

} // verus!
