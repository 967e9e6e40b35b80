//! Episode selection and the episode sequencer: either every episode
//! from the first onward, or a closed inclusive range, yielded in
//! ascending order with step one.

use vstd::prelude::*;
use crate::chars::chars_of;
use crate::chars::sub_chars;
use crate::digits::spec_parse_usize;
use crate::digits::parse_usize_chars;
use crate::digits::dec_chars;
use crate::digits::usize_string;
use crate::error::Error;
use vstd::string::StringExecFns;

verus! {

/// Which episodes a run attempts: all of them, or a closed range.
///
/// A range is normalized at construction: its bounds are at least one
/// and the start does not exceed the end.
#[derive(Debug, Copy, Clone, PartialEq, Eq, Structural)]
pub enum Episodes {
    AllEpisodes,
    Range(usize, usize),
}

impl Episodes {
    /// The construction invariant: range bounds start at one and are
    /// ordered.
    pub open spec fn wf(self) -> bool {
        match self {
            Episodes::AllEpisodes => true,
            Episodes::Range(s, e) => 1 <= s <= e,
        }
    }

    /// The first episode number of the sequence.
    pub open spec fn first(self) -> int {
        match self {
            Episodes::AllEpisodes => 1,
            Episodes::Range(s, _) => s as int,
        }
    }

    /// The last episode number the sequence can reach. The unbounded
    /// mode is capped only by the machine's integer size; its end is
    /// found by probing, not by the sequencer.
    pub open spec fn last_bound(self) -> int {
        match self {
            Episodes::AllEpisodes => usize::MAX as int,
            Episodes::Range(_, e) => e as int,
        }
    }

    /// The `k`-th episode number of the sequence, if the sequence is
    /// that long.
    pub open spec fn episode_at(self, k: nat) -> Option<int> {
        if self.first() + k <= self.last_bound() {
            Some(self.first() + k)
        } else {
            None
        }
    }

    /// A normalized closed range: reversed bounds are swapped.
    pub fn range(a: usize, b: usize) -> (e: Episodes)
        requires
            1 <= a,
            1 <= b,
        ensures
            e == (if a <= b {
                Episodes::Range(a, b)
            } else {
                Episodes::Range(b, a)
            }),
            e.wf(),
    {
        if a <= b {
            Episodes::Range(a, b)
        } else {
            Episodes::Range(b, a)
        }
    }

    /// Runtime test of the construction invariant, for callers outside
    /// the verified world.
    pub fn is_normalized(&self) -> (r: bool)
        ensures
            r == self.wf(),
    {
        match self {
            Episodes::AllEpisodes => true,
            Episodes::Range(s, e) => 1 <= *s && *s <= *e,
        }
    }

    /// The sequencer for this selection, positioned at the first
    /// episode.
    pub fn iter(&self) -> (it: EpisodesIter)
        requires
            self.wf(),
        ensures
            it.wf(),
            it.source@ == *self,
            it.emitted@ == 0,
    {
        match self {
            Episodes::AllEpisodes => EpisodesIter {
                live: true,
                upcoming: 1,
                last: None,
                source: Ghost(*self),
                emitted: Ghost(0),
            },
            Episodes::Range(s, e) => EpisodesIter {
                live: true,
                upcoming: *s,
                last: Some(*e),
                source: Ghost(*self),
                emitted: Ghost(0),
            },
        }
    }

    /// Parse an episode selection, either the word `all` or an
    /// inclusive `start-end` range of positive numbers, split at the
    /// first dash.
    pub fn from_str(s: &str) -> (r: Result<Episodes, Error>)
        ensures
            match r {
                Ok(e) => spec_parse_episodes(s@) == Some(e) && e.wf(),
                Err(err) => spec_parse_episodes(s@) is None && err matches
                    Error::InvalidEpisodesFormat(_),
            },
    {
        let v = chars_of(s);
        let n = v.len();
        if n == 3 {
            proof {
                reveal_strlit("all");
            }
            if v[0] == 'a' && v[1] == 'l' && v[2] == 'l' {
                proof {
                    assert(s@ =~= "all"@);
                }
                return Ok(Episodes::AllEpisodes);
            }
        }
        assert(s@ != "all"@) by {
            reveal_strlit("all");
        }
        let i = match find_dash(&v) {
            Some(i) => i,
            None => {
                return Err(Error::InvalidEpisodesFormat(String::from_str(
                    "expected 'all' or 'start-end'",
                )));
            },
        };
        proof {
            assert(dash_at(s@, i as int));
            lemma_dash_at_unique(s@, i as int);
            assert(has_dash(s@));
            let t = choose|t: int| dash_at(s@, t);
            assert(dash_at(s@, t));
            assert(t == i as int);
            assert(spec_parse_episodes(s@) == spec_parse_range_at(s@, i as int));
        }
        let left = sub_chars(&v, 0, i);
        let right = sub_chars(&v, i + 1, n);
        let start = parse_usize_chars(&left);
        let end = parse_usize_chars(&right);
        proof {
            assert(s@.subrange(0, i as int) == left@);
            assert(s@.subrange(i + 1, n as int) == right@);
        }
        match (start, end) {
            (Some(a), Some(b)) => {
                if a >= 1 && b >= 1 {
                    Ok(Episodes::range(a, b))
                } else {
                    Err(Error::InvalidEpisodesFormat(String::from_str(
                        "episode numbers start at 1",
                    )))
                }
            },
            _ => Err(Error::InvalidEpisodesFormat(String::from_str(
                "range bounds must be plain decimal numbers",
            ))),
        }
    }

    /// The selection's canonical text: `all`, or `start-end`.
    pub fn text(&self) -> (r: String)
        ensures
            r@ == (match *self {
                Episodes::AllEpisodes => "all"@,
                Episodes::Range(s, e) => dec_chars(s as nat) + "-"@ + dec_chars(e as nat),
            }),
    {
        match self {
            Episodes::AllEpisodes => String::from_str("all"),
            Episodes::Range(s, e) => {
                let mut out = usize_string(*s);
                out.append("-");
                let end_text = usize_string(*e);
                out.append(end_text.as_str());
                proof {
                    assert(out@ =~= dec_chars(*s as nat) + "-"@ + dec_chars(*e as nat));
                }
                out
            },
        }
    }
}

/// The sequence starts at a positive number, is defined on a prefix of
/// indices, and each later episode number is exactly one greater than
/// the one before: never below one, strictly increasing, no gaps.
pub proof fn lemma_sequence_positive_gapless(e: Episodes, k: nat)
    requires
        e.wf(),
    ensures
        e.episode_at(k) matches Some(n) ==> 1 <= n,
        e.episode_at(k) is None ==> e.episode_at(k + 1) is None,
        e.episode_at(k + 1) matches Some(n2) ==> (e.episode_at(k) matches Some(n1) && n2 == n1
            + 1),
{
}

/// The position of the first dash, if any.
fn find_dash(v: &Vec<char>) -> (r: Option<usize>)
    ensures
        match r {
            Some(i) => i < v@.len() && dash_at(v@, i as int),
            None => !has_dash(v@),
        },
{
    let n = v.len();
    let mut i: usize = 0;
    while i < n
        invariant
            i <= n,
            n == v@.len(),
            forall|j: int| 0 <= j < i ==> v@[j] != '-',
        decreases n - i,
    {
        if v[i] == '-' {
            return Some(i);
        }
        i = i + 1;
    }
    None
}

/// `s` has a dash somewhere.
pub open spec fn has_dash(s: Seq<char>) -> bool {
    exists|i: int| 0 <= i < s.len() && s[i] == '-'
}

/// `i` is the position of the first dash of `s`.
pub open spec fn dash_at(s: Seq<char>, i: int) -> bool {
    &&& 0 <= i < s.len()
    &&& s[i] == '-'
    &&& forall|j: int| 0 <= j < i ==> s[j] != '-'
}

/// At most one position is the first dash.
proof fn lemma_dash_at_unique(s: Seq<char>, i: int)
    requires
        dash_at(s, i),
    ensures
        forall|j: int| dash_at(s, j) ==> j == i,
{
    assert forall|j: int| dash_at(s, j) implies j == i by {
        if j < i {
            assert(s[j] != '-');
        }
        if i < j {
            assert(s[i] != '-');
        }
    }
}

/// What parsing a `start-end` range split at dash position `i` yields:
/// both sides must be positive numbers; a reversed range is normalized.
pub open spec fn spec_parse_range_at(s: Seq<char>, i: int) -> Option<Episodes> {
    match (spec_parse_usize(s.subrange(0, i)), spec_parse_usize(s.subrange(i + 1, s.len() as int))) {
        (Some(a), Some(b)) => if a >= 1 && b >= 1 {
            if a <= b {
                Some(Episodes::Range(a, b))
            } else {
                Some(Episodes::Range(b, a))
            }
        } else {
            None
        },
        _ => None,
    }
}

/// What parsing an episode selection yields: the word `all`, or a
/// range split at the first dash.
pub open spec fn spec_parse_episodes(s: Seq<char>) -> Option<Episodes> {
    if s == "all"@ {
        Some(Episodes::AllEpisodes)
    } else if has_dash(s) {
        spec_parse_range_at(s, choose|i: int| dash_at(s, i))
    } else {
        None
    }
}

/// The episode sequencer: yields the selection's episode numbers in
/// order, one per call.
pub struct EpisodesIter {
    /// Whether the sequence has more to yield.
    pub live: bool,
    /// The next number to yield, when live.
    pub upcoming: usize,
    /// The inclusive upper bound, if the selection has one.
    pub last: Option<usize>,
    /// The selection this sequencer came from.
    pub source: Ghost<Episodes>,
    /// How many numbers have been yielded.
    pub emitted: Ghost<nat>,
}

impl EpisodesIter {
    /// The sequencer tracks its source: when live, the next number is
    /// the source's next episode; otherwise the sequence is exhausted.
    pub open spec fn wf(self) -> bool {
        &&& self.source@.wf()
        &&& (match self.source@ {
            Episodes::AllEpisodes => self.last is None,
            Episodes::Range(_, e) => self.last == Some(e),
        })
        &&& (self.live ==> self.source@.episode_at(self.emitted@) == Some(self.upcoming as int))
        &&& (!self.live ==> self.source@.episode_at(self.emitted@) is None)
    }

    /// Yield the next episode number, in ascending order; `None` once
    /// the selection is exhausted.
    pub fn next(&mut self) -> (r: Option<usize>)
        requires
            old(self).wf(),
        ensures
            final(self).wf(),
            final(self).source == old(self).source,
            (r matches Some(n) ==> old(self).source@.episode_at(old(self).emitted@)
                == Some(n as int) && final(self).emitted@ == old(self).emitted@ + 1),
            (r is None ==> old(self).source@.episode_at(old(self).emitted@) is None
                && final(self).emitted@ == old(self).emitted@),
    {
        if !self.live {
            return None;
        }
        let n = self.upcoming;
        let stop = match self.last {
            Some(e) => n >= e,
            None => n == usize::MAX,
        };
        if stop {
            self.live = false;
        } else {
            self.upcoming = n + 1;
        }
        proof {
            self.emitted@ = self.emitted@ + 1;
        }
        Some(n)
    }
}

} // verus!
