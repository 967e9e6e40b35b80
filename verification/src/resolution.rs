//! Resolution tiers and their fixed mapping to an index into the
//! quality-ordered candidate list (index 0 is the highest quality the
//! site publishes).

use vstd::prelude::*;
use crate::chars::char_code;
use crate::chars::chars_of;
use crate::error::Error;
use vstd::string::StrSliceExecFns;
use vstd::string::StringExecFns;

verus! {

/// A video quality tier, ordered from highest to lowest.
#[derive(Debug, Copy, Clone, PartialEq, Eq, Structural)]
pub enum Resolution {
    FullHD,
    HD,
    SD,
}

/// `a` equals `b` after lowering an ASCII capital letter; `b` is
/// expected to be lowercase already.
pub open spec fn char_lower_eq(a: char, b: char) -> bool {
    a == b || (65 <= a as int <= 90 && a as int + 32 == b as int)
}

/// `s` equals the lowercase keyword `k` up to ASCII case.
pub open spec fn lower_matches(s: Seq<char>, k: Seq<char>) -> bool {
    s.len() == k.len() && forall|i: int| 0 <= i < s.len() ==> char_lower_eq(s[i], #[trigger] k[i])
}

/// What parsing a tier name yields, matching the accepted keywords up
/// to ASCII case.
pub open spec fn spec_parse_resolution(s: Seq<char>) -> Option<Resolution> {
    if lower_matches(s, "fullhd"@) || lower_matches(s, "1080p"@) {
        Some(Resolution::FullHD)
    } else if lower_matches(s, "hd"@) || lower_matches(s, "720p"@) {
        Some(Resolution::HD)
    } else if lower_matches(s, "sd"@) || lower_matches(s, "480p"@) {
        Some(Resolution::SD)
    } else {
        None
    }
}

/// Whether `v` matches the lowercase keyword `k` up to ASCII case.
fn matches_keyword(v: &Vec<char>, k: &str) -> (b: bool)
    ensures
        b == lower_matches(v@, k@),
{
    let m = k.unicode_len();
    if v.len() != m {
        return false;
    }
    let mut j: usize = 0;
    while j < m
        invariant
            j <= m,
            m == k@.len() == v@.len(),
            forall|t: int| 0 <= t < j ==> char_lower_eq(v@[t], #[trigger] k@[t]),
        decreases m - j,
    {
        let a = char_code(v[j]);
        let b = char_code(k.get_char(j));
        if !(a == b || (65 <= a && a <= 90 && a + 32 == b)) {
            assert(!char_lower_eq(v@[j as int], k@[j as int]));
            return false;
        }
        j = j + 1;
    }
    true
}

impl Resolution {
    /// The tier's position in the quality-ordered candidate list: a
    /// total function of the tier alone.
    pub open spec fn spec_index(self) -> int {
        match self {
            Resolution::FullHD => 0,
            Resolution::HD => 1,
            Resolution::SD => 2,
        }
    }

    /// The index into the candidate URL list for this tier.
    pub fn index(self) -> (i: usize)
        ensures
            i == self.spec_index(),
    {
        match self {
            Resolution::FullHD => 0,
            Resolution::HD => 1,
            Resolution::SD => 2,
        }
    }

    /// Parse a tier name, accepting the fixed keyword set up to ASCII
    /// case.
    pub fn from_str(s: &str) -> (r: Result<Resolution, Error>)
        ensures
            match r {
                Ok(t) => spec_parse_resolution(s@) == Some(t),
                Err(e) => spec_parse_resolution(s@) is None && e matches
                    Error::InvalidResolutionFormat(_),
            },
    {
        let v = chars_of(s);
        if matches_keyword(&v, "fullhd") || matches_keyword(&v, "1080p") {
            Ok(Resolution::FullHD)
        } else if matches_keyword(&v, "hd") || matches_keyword(&v, "720p") {
            Ok(Resolution::HD)
        } else if matches_keyword(&v, "sd") || matches_keyword(&v, "480p") {
            Ok(Resolution::SD)
        } else {
            Err(Error::InvalidResolutionFormat(String::from_str(
                "expected one of: 'fullhd', 'hd', 'sd', '1080p', '720p', '480p'",
            )))
        }
    }

    /// The tier's canonical lowercase name.
    pub fn text(self) -> (r: String)
        ensures
            r@ == (match self {
                Resolution::FullHD => "fullhd"@,
                Resolution::HD => "hd"@,
                Resolution::SD => "sd"@,
            }),
    {
        match self {
            Resolution::FullHD => String::from_str("fullhd"),
            Resolution::HD => String::from_str("hd"),
            Resolution::SD => String::from_str("sd"),
        }
    }
}

} // verus!
