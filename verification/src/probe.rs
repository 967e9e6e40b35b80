//! The existence prober's page test: a fetched page body means "no
//! such episode" exactly when it contains the site's fixed marker.

use vstd::prelude::*;
use crate::chars::chars_of;

verus! {

/// The site's fixed "page does not exist" marker.
pub open spec fn missing_marker() -> Seq<char> {
    "Страницы не существует или она была удалена."@
}

/// `p` occurs in `h` starting at position `i`.
pub open spec fn contains_at(h: Seq<char>, p: Seq<char>, i: int) -> bool {
    0 <= i && i + p.len() <= h.len() && h.subrange(i, i + p.len()) == p
}

/// `p` occurs somewhere in `h`.
pub open spec fn contains_seq(h: Seq<char>, p: Seq<char>) -> bool {
    exists|i: int| contains_at(h, p, i)
}

/// Whether `p` occurs in `h` starting at `i`.
fn match_at(h: &Vec<char>, p: &Vec<char>, i: usize) -> (r: bool)
    requires
        i + p@.len() <= h@.len(),
    ensures
        r == contains_at(h@, p@, i as int),
{
    let hn = h.len();
    let m = p.len();
    let mut j: usize = 0;
    while j < m
        invariant
            j <= m,
            m == p@.len(),
            hn == h@.len(),
            i + m <= h@.len(),
            forall|t: int| 0 <= t < j ==> h@[i + t] == p@[t],
        decreases m - j,
    {
        if h[i + j] != p[j] {
            proof {
                assert(h@.subrange(i as int, i + m)[j as int] == h@[i + j]);
            }
            return false;
        }
        j = j + 1;
    }
    proof {
        assert(h@.subrange(i as int, i + m) =~= p@);
    }
    true
}

/// Whether the pattern occurs anywhere in the haystack.
fn contains_chars(h: &Vec<char>, p: &Vec<char>) -> (r: bool)
    ensures
        r == contains_seq(h@, p@),
{
    let n = h.len();
    let m = p.len();
    if m > n {
        assert forall|i: int| !contains_at(h@, p@, i) by {}
        return false;
    }
    if m == 0 {
        proof {
            assert(h@.subrange(0, 0) =~= p@);
            assert(contains_at(h@, p@, 0));
        }
        return true;
    }
    let mut i: usize = 0;
    while i <= n - m
        invariant
            0 < m <= n,
            n == h@.len(),
            m == p@.len(),
            i <= n - m + 1,
            forall|k: int| 0 <= k < i ==> !contains_at(h@, p@, k),
        decreases n - i,
    {
        if match_at(h, p, i) {
            return true;
        }
        i = i + 1;
    }
    proof {
        assert forall|k: int| !contains_at(h@, p@, k) by {
            if 0 <= k < i {
                assert(!contains_at(h@, p@, k));
            }
        }
    }
    false
}

/// Whether `pat` occurs in `body` as a contiguous substring.
pub fn contains_str(body: &str, pat: &str) -> (r: bool)
    ensures
        r == contains_seq(body@, pat@),
{
    let h = chars_of(body);
    let p = chars_of(pat);
    contains_chars(&h, &p)
}

/// The existence test: a page body describes a real episode exactly
/// when the site's "page does not exist" marker is absent, whatever
/// else the body holds.
pub fn episode_page_exists(body: &str) -> (r: bool)
    ensures
        r == !contains_seq(body@, missing_marker()),
{
    !contains_str(body, "Страницы не существует или она была удалена.")
}

} // verus!
