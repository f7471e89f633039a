//! Profile identifiers and the registry that matches detected modems to
//! profiles.
//!
//! Matching is numeric: USB IDs are read as hexadecimal, so `"122"`,
//! `"0122"` and `" 0122 "` all select the same profile.

use vstd::prelude::*;
use crate::builtin::{
    builtin_profiles, fn990_profile, generic_modem, generic_modem_profile, has_identity, is_generic_modem,
    rm500q_gl_profile, rm520n_gl_profile, rm551e_gl_profile,
};
use crate::profiles::{is_generic_identity, ModemIdentity, ModemProfile};
use crate::text::{
    chars_of, first_index, lemma_first_index, lemma_first_index_none, parse_hex_u32,
    parse_hex_u32_chars, push_all, str_eq, string_from_chars, to_lowercase, trim, trim_bounds,
    unicode_lowercase,
};

verus! {

// ---------------------------------------------------------------------------
// Profile identifiers
// ---------------------------------------------------------------------------

/// Spaces replaced by underscores.
pub open spec fn underscore_spaces(s: Seq<char>) -> Seq<char> {
    s.map_values(|c: char| if c == ' ' { '_' } else { c })
}

/// Spaces and hyphens replaced by underscores.
pub open spec fn underscore_separators(s: Seq<char>) -> Seq<char> {
    s.map_values(|c: char| if c == ' ' || c == '-' { '_' } else { c })
}

/// The short identifier of a profile, e.g. `quectel_rm551e_gl`; the generic
/// fallback profile is `generic`.
pub open spec fn profile_id_of(id: ModemIdentity) -> Seq<char> {
    if is_generic_identity(id) {
        "generic"@
    } else {
        underscore_spaces(unicode_lowercase(id.manufacturer@)) + seq!['_'] + underscore_separators(
            unicode_lowercase(id.model@),
        )
    }
}

/// Appends `s` to `v` with spaces (and, if `hyphens`, hyphens) turned into
/// underscores.
fn push_underscored(v: &mut Vec<char>, s: &[char], hyphens: bool)
    ensures
        final(v)@ == old(v)@ + (if hyphens {
            underscore_separators(s@)
        } else {
            underscore_spaces(s@)
        }),
{
    let ghost mapped = if hyphens {
        underscore_separators(s@)
    } else {
        underscore_spaces(s@)
    };
    let mut i: usize = 0;
    while i < s.len()
        invariant
            i <= s@.len(),
            mapped == (if hyphens {
                underscore_separators(s@)
            } else {
                underscore_spaces(s@)
            }),
            mapped.len() == s@.len(),
            v@ == old(v)@ + mapped.take(i as int),
        decreases s@.len() - i,
    {
        let c = s[i];
        let d = if c == ' ' || (hyphens && c == '-') {
            '_'
        } else {
            c
        };
        assert(mapped[i as int] == d);
        v.push(d);
        i = i + 1;
        assert(mapped.take(i as int) == mapped.take(i - 1).push(d));
    }
    assert(mapped.take(i as int) == mapped);
}

impl ModemProfile {
    /// A short identifier string for this profile, e.g. `quectel_rm551e_gl`.
    pub fn profile_id(&self) -> (r: String)
        ensures
            r@ == profile_id_of(self.identity),
    {
        if self.is_generic() {
            "generic".to_string()
        } else {
            let manufacturer = to_lowercase(self.identity.manufacturer.as_str());
            let model = to_lowercase(self.identity.model.as_str());
            let mc = chars_of(manufacturer.as_str());
            let dc = chars_of(model.as_str());
            let mut v: Vec<char> = Vec::new();
            push_underscored(&mut v, mc.as_slice(), false);
            v.push('_');
            push_underscored(&mut v, dc.as_slice(), true);
            string_from_chars(v.as_slice())
        }
    }
}

// ---------------------------------------------------------------------------
// Matching by USB ID
// ---------------------------------------------------------------------------

/// A hexadecimal USB ID read as a number, or `default` if it does not parse.
pub open spec fn hex_or(s: Seq<char>, default: u32) -> u32 {
    match parse_hex_u32(s) {
        Some(n) => n,
        None => default,
    }
}

/// The profile's own IDs read as numbers equal `(vid, pid)`. An ID that does
/// not parse reads as `u32::MAX`.
pub open spec fn matches_ids(p: ModemProfile, vid: u32, pid: u32) -> bool {
    hex_or(p.identity.vendor_id@, u32::MAX) == vid && hex_or(p.identity.product_id@, u32::MAX)
        == pid
}

/// Some profile of `ps` matches `(vid, pid)`.
pub open spec fn has_match(ps: Seq<ModemProfile>, vid: u32, pid: u32) -> bool {
    exists|i: int| 0 <= i < ps.len() && matches_ids(#[trigger] ps[i], vid, pid)
}

/// `i` is the first profile of `ps` that matches `(vid, pid)`.
pub open spec fn is_first_match(ps: Seq<ModemProfile>, vid: u32, pid: u32, i: int) -> bool {
    &&& 0 <= i < ps.len()
    &&& matches_ids(ps[i], vid, pid)
    &&& forall|k: int| 0 <= k < i ==> !matches_ids(#[trigger] ps[k], vid, pid)
}

/// Profile `i` of `ps` matches `(vid, pid)`.
pub open spec fn match_at(ps: Seq<ModemProfile>, vid: u32, pid: u32) -> spec_fn(int) -> bool {
    |i: int| matches_ids(ps[i], vid, pid)
}

/// The profile chosen for `(vid, pid)`: the first match, else `generic`.
pub open spec fn match_result(ps: Seq<ModemProfile>, generic: ModemProfile, vid: u32, pid: u32) -> ModemProfile {
    match first_index(ps.len() as int, match_at(ps, vid, pid)) {
        Some(i) => ps[i],
        None => generic,
    }
}

/// The numeric value of a queried USB ID: surrounding whitespace is ignored,
/// and an ID that does not parse reads as 0.
pub open spec fn query_id(s: Seq<char>) -> u32 {
    hex_or(trim(s), 0)
}

/// `ps` without the profiles whose ID strings are exactly `(vid, pid)`.
pub open spec fn without_ids(ps: Seq<ModemProfile>, vid: Seq<char>, pid: Seq<char>) -> Seq<
    ModemProfile,
> {
    ps.filter(other_ids(vid, pid))
}

/// The profile's ID strings are not exactly `(vid, pid)`.
pub open spec fn other_ids(vid: Seq<char>, pid: Seq<char>) -> spec_fn(ModemProfile) -> bool {
    |q: ModemProfile| !(q.identity.vendor_id@ == vid && q.identity.product_id@ == pid)
}

/// Two profiles carry the same vendor and product ID strings.
pub open spec fn same_ids(a: ModemProfile, b: ModemProfile) -> bool {
    a.identity.vendor_id@ == b.identity.vendor_id@ && a.identity.product_id@ == b.identity.product_id@
}

/// No two profiles of `ps` carry the same vendor and product ID strings.
pub open spec fn distinct_ids(ps: Seq<ModemProfile>) -> bool {
    forall|i: int, j: int| 0 <= i < j < ps.len() ==> !same_ids(#[trigger] ps[i], #[trigger] ps[j])
}

/// Profile `i` of `ps` has identifier `id`.
pub open spec fn id_at(ps: Seq<ModemProfile>, id: Seq<char>) -> spec_fn(int) -> bool {
    |i: int| profile_id_of(ps[i].identity) == id
}

/// The profile an identifier names: `generic` names the fallback, any other
/// identifier the first profile that carries it.
pub open spec fn lookup(ps: Seq<ModemProfile>, generic: ModemProfile, id: Seq<char>) -> Option<ModemProfile> {
    if id == "generic"@ {
        Some(generic)
    } else {
        match first_index(ps.len() as int, id_at(ps, id)) {
            Some(i) => Some(ps[i]),
            None => None,
        }
    }
}

/// `u32::from_str_radix(s, 16).unwrap_or(default)`.
fn hex_id(s: &[char], default: u32) -> (r: u32)
    ensures
        r == hex_or(s@, default),
{
    match parse_hex_u32_chars(s) {
        Some(n) => n,
        None => default,
    }
}

/// Registry of all known modem profiles: built-in ones plus overrides.
pub struct ProfileRegistry {
    profiles: Vec<ModemProfile>,
    generic: ModemProfile,
}

impl ProfileRegistry {
    /// The specific (non-fallback) profiles, in matching order.
    pub closed spec fn profile_list(&self) -> Seq<ModemProfile> {
        self.profiles@
    }

    /// The generic fallback profile.
    pub closed spec fn generic_profile(&self) -> ModemProfile {
        self.generic
    }

    /// The fallback of every registry is the generic modem, every field as
    /// `generic_modem` sets it.
    #[verifier::type_invariant]
    spec fn fallback_is_generic(self) -> bool {
        generic_modem_profile(self.generic)
    }

    /// A registry holding the built-in profiles and the generic fallback.
    pub fn new() -> (r: Self)
        ensures
            r.profile_list().len() == 4,
            has_identity(r.profile_list()[0], "2c7c"@, "0122"@, "Quectel"@, "RM551E-GL"@),
            has_identity(r.profile_list()[1], "2c7c"@, "0801"@, "Quectel"@, "RM520N-GL"@),
            has_identity(r.profile_list()[2], "2c7c"@, "0800"@, "Quectel"@, "RM500Q-GL"@),
            has_identity(r.profile_list()[3], "1bc7"@, "1073"@, "Telit"@, "FN990"@),
            has_identity(r.generic_profile(), "0000"@, "0000"@, "Generic"@, "Unknown Modem"@),
            is_generic_identity(r.generic_profile().identity),
            distinct_ids(r.profile_list()),
            rm551e_gl_profile(r.profile_list()[0]),
            rm520n_gl_profile(r.profile_list()[1]),
            rm500q_gl_profile(r.profile_list()[2]),
            fn990_profile(r.profile_list()[3]),
            generic_modem_profile(r.generic_profile()),
    {
        proof {
            reveal_strlit("0122");
            reveal_strlit("0801");
            reveal_strlit("0800");
            reveal_strlit("2c7c");
            reveal_strlit("1bc7");
        }
        let profiles = builtin_profiles();
        proof {
            let ps = profiles@;
            assert("0122"@[1] != "0801"@[1] && "0122"@[1] != "0800"@[1] && "0801"@[3] != "0800"@[3]);
            assert("2c7c"@[0] != "1bc7"@[0]);
            assert forall|i: int, j: int| 0 <= i < j < ps.len() implies !same_ids(#[trigger] ps[i], #[trigger] ps[j]) by {
                if j == 3 {
                    assert(ps[i].identity.vendor_id@[0] != ps[j].identity.vendor_id@[0]);
                } else if i == 0 {
                    assert(ps[i].identity.product_id@[1] != ps[j].identity.product_id@[1]);
                } else {
                    assert(ps[i].identity.product_id@[3] != ps[j].identity.product_id@[3]);
                }
            }
        }
        ProfileRegistry { profiles, generic: generic_modem() }
    }

    /// Adds a profile override: any profile with exactly the same vendor and
    /// product ID strings is removed, and the override is appended.
    pub fn apply_override(&mut self, profile: ModemProfile)
        ensures
            final(self).profile_list() == without_ids(
                old(self).profile_list(),
                profile.identity.vendor_id@,
                profile.identity.product_id@,
            ).push(profile),
            final(self).generic_profile() == old(self).generic_profile(),
    {
        proof {
            use_type_invariant(&*self);
        }
        let mut profiles: Vec<ModemProfile> = Vec::new();
        std::mem::swap(&mut profiles, &mut self.profiles);
        let ghost orig = profiles@;
        let ghost vid = profile.identity.vendor_id@;
        let ghost pid = profile.identity.product_id@;
        let ghost keep = other_ids(vid, pid);
        proof {
            reveal(Seq::filter);
            assert(orig.take(0).filter(keep) == Seq::<ModemProfile>::empty());
        }
        let n0 = profiles.len();
        assert(orig.len() == n0);
        let mut i: usize = 0;
        let mut j: usize = 0;
        while i < profiles.len()
            invariant
                j <= orig.len(),
                i <= profiles@.len(),
                vid == profile.identity.vendor_id@,
                pid == profile.identity.product_id@,
                keep == other_ids(vid, pid),
                profiles@.len() - i == orig.len() - j,
                orig.len() <= usize::MAX,
                profiles@.take(i as int) == orig.take(j as int).filter(keep),
                profiles@.skip(i as int) == orig.skip(j as int),
                self.generic == old(self).generic,
                orig == old(self).profiles@,
            decreases profiles@.len() - i,
        {
            let ghost before = profiles@;
            assert(before[i as int] == orig[j as int]) by {
                assert(before.skip(i as int)[0] == orig.skip(j as int)[0]);
            }
            assert(j < orig.len());
            assert(orig.take(j + 1).drop_last() == orig.take(j as int));
            assert(orig.take(j + 1).last() == orig[j as int]);
            reveal(Seq::filter);
            let same = str_eq(profiles[i].identity.vendor_id.as_str(), profile.identity.vendor_id.as_str())
                && str_eq(profiles[i].identity.product_id.as_str(), profile.identity.product_id.as_str());
            if same {
                let _removed = profiles.remove(i);
                assert(profiles@.take(i as int) == before.take(i as int));
                assert(profiles@.skip(i as int) == before.skip(i + 1));
                assert(before.skip(i + 1) == orig.skip(j + 1)) by {
                    assert(before.skip(i + 1) == before.skip(i as int).drop_first());
                    assert(orig.skip(j + 1) == orig.skip(j as int).drop_first());
                }
            } else {
                i = i + 1;
                assert(profiles@.take(i as int) == before.take(i - 1).push(before[i - 1]));
                assert(profiles@.skip(i as int) == before.skip(i - 1).drop_first());
                assert(orig.skip(j + 1) == orig.skip(j as int).drop_first());
            }
            j = j + 1;
        }
        proof {
            assert(profiles@.skip(i as int).len() == 0);
            assert(orig.skip(j as int).len() == 0);
            assert(orig.take(j as int) == orig);
            assert(profiles@.take(i as int) == profiles@);
        }
        profiles.push(profile);
        self.profiles = profiles;
    }

    /// Finds the profile for a modem by vendor and product ID.
    ///
    /// IDs are compared as hexadecimal numbers (sysfs may omit leading
    /// zeros); the first matching profile wins, and the generic fallback is
    /// returned when none matches.
    pub fn match_profile(&self, vendor_id: &str, product_id: &str) -> (r: &ModemProfile)
        ensures
            has_match(self.profile_list(), query_id(vendor_id@), query_id(product_id@)) ==> exists|
                i: int,
            |
                is_first_match(self.profile_list(), query_id(vendor_id@), query_id(product_id@), i)
                    && *r == #[trigger] self.profile_list()[i],
            !has_match(self.profile_list(), query_id(vendor_id@), query_id(product_id@)) ==> *r
                == self.generic_profile(),
            *r == match_result(
                self.profile_list(),
                self.generic_profile(),
                query_id(vendor_id@),
                query_id(product_id@),
            ),
    {
        let vc = chars_of(vendor_id);
        let (va, vb) = trim_bounds(vc.as_slice());
        let vid_num = hex_id(&vc.as_slice()[va..vb], 0);
        let pc = chars_of(product_id);
        let (pa, pb) = trim_bounds(pc.as_slice());
        let pid_num = hex_id(&pc.as_slice()[pa..pb], 0);
        let mut i: usize = 0;
        while i < self.profiles.len()
            invariant
                i <= self.profiles@.len(),
                vid_num == query_id(vendor_id@),
                pid_num == query_id(product_id@),
                forall|k: int| 0 <= k < i ==> !matches_ids(#[trigger] self.profiles@[k], vid_num, pid_num),
            decreases self.profiles@.len() - i,
        {
            let p = &self.profiles[i];
            let pv = chars_of(p.identity.vendor_id.as_str());
            let pp = chars_of(p.identity.product_id.as_str());
            let p_vid = hex_id(pv.as_slice(), u32::MAX);
            let p_pid = hex_id(pp.as_slice(), u32::MAX);
            if p_vid == vid_num && p_pid == pid_num {
                assert(is_first_match(self.profiles@, vid_num, pid_num, i as int));
                proof {
                    let f = match_at(self.profiles@, vid_num, pid_num);
                    assert forall|k: int| 0 <= k < i implies !#[trigger] f(k) by {
                        assert(!matches_ids(self.profiles@[k], vid_num, pid_num));
                    }
                    lemma_first_index(self.profiles@.len() as int, f, i as int);
                }
                return p;
            }
            i = i + 1;
        }
        proof {
            let f = match_at(self.profiles@, vid_num, pid_num);
            assert forall|k: int| 0 <= k < self.profiles@.len() implies !#[trigger] f(k) by {
                assert(!matches_ids(self.profiles@[k], vid_num, pid_num));
            }
            lemma_first_index_none(self.profiles@.len() as int, f);
        }
        &self.generic
    }

    /// Finds a profile by its identifier, e.g. `quectel_rm551e_gl`;
    /// `generic` names the fallback profile.
    pub fn find_by_id(&self, profile_id: &str) -> (r: Option<&ModemProfile>)
        ensures
            profile_id@ == "generic"@ ==> (r matches Some(p) && *p == self.generic_profile()),
            profile_id@ != "generic"@ ==> match r {
                Some(p) => exists|i: int|
                    0 <= i < self.profile_list().len() && *p == #[trigger] self.profile_list()[i]
                        && profile_id_of(p.identity) == profile_id@ && forall|k: int|
                        0 <= k < i ==> profile_id_of(#[trigger] self.profile_list()[k].identity)
                            != profile_id@,
                None => forall|k: int|
                    0 <= k < self.profile_list().len() ==> profile_id_of(
                        #[trigger] self.profile_list()[k].identity,
                    ) != profile_id@,
            },
            match r {
                Some(p) => lookup(self.profile_list(), self.generic_profile(), profile_id@) == Some(*p),
                None => lookup(self.profile_list(), self.generic_profile(), profile_id@) is None,
            },
    {
        if str_eq(profile_id, "generic") {
            return Some(&self.generic);
        }
        let mut i: usize = 0;
        while i < self.profiles.len()
            invariant
                i <= self.profiles@.len(),
                profile_id@ != "generic"@,
                forall|k: int|
                    0 <= k < i ==> profile_id_of(#[trigger] self.profiles@[k].identity)
                        != profile_id@,
            decreases self.profiles@.len() - i,
        {
            let id = self.profiles[i].profile_id();
            if str_eq(id.as_str(), profile_id) {
                proof {
                    let f = id_at(self.profiles@, profile_id@);
                    assert forall|k: int| 0 <= k < i implies !#[trigger] f(k) by {
                        assert(profile_id_of(self.profiles@[k].identity) != profile_id@);
                    }
                    lemma_first_index(self.profiles@.len() as int, f, i as int);
                }
                return Some(&self.profiles[i]);
            }
            i = i + 1;
        }
        proof {
            let f = id_at(self.profiles@, profile_id@);
            assert forall|k: int| 0 <= k < self.profiles@.len() implies !#[trigger] f(k) by {
                assert(profile_id_of(self.profiles@[k].identity) != profile_id@);
            }
            lemma_first_index_none(self.profiles@.len() as int, f);
        }
        None
    }

    /// The generic fallback profile.
    pub fn generic(&self) -> (r: &ModemProfile)
        ensures
            *r == self.generic_profile(),
            generic_modem_profile(*r),
            is_generic_modem(*r),
            profile_id_of(r.identity) == "generic"@,
    {
        proof {
            use_type_invariant(self);
        }
        &self.generic
    }

    /// All specific (non-generic) profiles.
    pub fn all_profiles(&self) -> (r: &[ModemProfile])
        ensures
            r@ == self.profile_list(),
    {
        self.profiles.as_slice()
    }
}

} // verus!
