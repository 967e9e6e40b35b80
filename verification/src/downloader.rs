//! The downloader's configuration and the per-run decisions: page and
//! output-path construction, the per-episode plan (locate media, pick
//! the tier's candidate), and first-error-wins aggregation of the
//! episode tasks' outcomes.

use vstd::prelude::*;
use crate::digits::dec_chars;
use crate::digits::lemma_dec_chars_value;
use crate::digits::usize_string;
use crate::episodes::Episodes;
use crate::error::Error;
use crate::media::locate_media;
use crate::media::media_candidates;
use crate::media::select_media;
use crate::media::HTML_CHAR_LIMIT;
use crate::probe::contains_seq;
use crate::probe::episode_page_exists;
use crate::probe::missing_marker;
use crate::resolution::Resolution;
use vstd::string::StringExecFns;

verus! {

/// One run's immutable configuration: the anime identifier (also the
/// output directory name), the episode selection, and the requested
/// quality tier.
pub struct Downloader {
    /// The anime identifier, used as URL path segment and directory.
    pub anime: String,
    /// Which episodes to attempt.
    pub episodes: Episodes,
    /// The requested quality tier.
    pub resolution: Resolution,
}

/// The work for one confirmed episode: where its chosen media lives.
pub struct DownloadJob {
    /// The anime identifier.
    pub anime: String,
    /// The episode number.
    pub episode: usize,
    /// The media URL chosen for the requested tier.
    pub url: String,
}

/// What a successful run reports.
#[derive(Debug)]
pub struct Summary {
    /// The anime identifier.
    pub anime: String,
    /// How many episodes were downloaded.
    pub episodes: usize,
}

/// The episode page's address: `https://jut.su/{anime}/episode-{n}.html`.
pub open spec fn page_url_spec(anime: Seq<char>, n: nat) -> Seq<char> {
    "https://jut.su/"@ + anime + "/episode-"@ + dec_chars(n) + ".html"@
}

/// The output file's path: `{anime}/episode-{n}.mp4`.
pub open spec fn file_path_spec(anime: Seq<char>, n: nat) -> Seq<char> {
    anime + "/episode-"@ + dec_chars(n) + ".mp4"@
}

impl Downloader {
    /// The configuration invariant: the episode selection is
    /// normalized.
    pub open spec fn wf(self) -> bool {
        self.episodes.wf()
    }

    /// A run's configuration, fixed for the run's lifetime.
    pub fn new(anime: String, episodes: Episodes, resolution: Resolution) -> (d: Downloader)
        requires
            episodes.wf(),
        ensures
            d.anime == anime,
            d.episodes == episodes,
            d.resolution == resolution,
            d.wf(),
    {
        Downloader { anime, episodes, resolution }
    }

    /// The URL of an episode's page.
    pub fn construct_url(&self, episode: usize) -> (u: String)
        ensures
            u@ == page_url_spec(self.anime@, episode as nat),
    {
        let mut u = String::from_str("https://jut.su/");
        u.append(self.anime.as_str());
        u.append("/episode-");
        let num = usize_string(episode);
        u.append(num.as_str());
        u.append(".html");
        proof {
            assert(u@ =~= page_url_spec(self.anime@, episode as nat));
        }
        u
    }

    /// The path the episode's media is persisted to. Re-running writes
    /// the same path again: the file is overwritten, never merged.
    pub fn output_path(&self, episode: usize) -> (p: String)
        ensures
            p@ == file_path_spec(self.anime@, episode as nat),
    {
        let mut p = self.anime.clone();
        p.append("/episode-");
        let num = usize_string(episode);
        p.append(num.as_str());
        p.append(".mp4");
        proof {
            assert(p@ =~= file_path_spec(self.anime@, episode as nat));
        }
        p
    }

    /// What planning an episode from its page yields, as plain values:
    /// the chosen candidate's characters, or the exact error. No
    /// candidates is `NoVideoLinksFound`; a tier index past the
    /// candidate list is `ResolutionUnavailable` — never a silent
    /// fallback.
    pub open spec fn spec_plan(self, episode: usize, html: Seq<char>) -> Result<Seq<char>, Error> {
        let cands = media_candidates(html);
        if cands.len() == 0 {
            Err(Error::NoVideoLinksFound(episode))
        } else if self.resolution.spec_index() < cands.len() {
            Ok(cands[self.resolution.spec_index()])
        } else {
            Err(Error::ResolutionUnavailable(episode, self.resolution))
        }
    }

    /// `r` is exactly what `spec_plan` says for this episode and page.
    pub open spec fn plan_matches(
        self,
        episode: usize,
        html: Seq<char>,
        r: Result<DownloadJob, Error>,
    ) -> bool {
        match self.spec_plan(episode, html) {
            Ok(u) => r matches Ok(job) && job.anime@ == self.anime@ && job.episode == episode
                && job.url@ == u,
            Err(e) => r == Result::<DownloadJob, Error>::Err(e),
        }
    }

    /// Plan one confirmed episode from its fetched page: locate the
    /// candidate media URLs and pick the one at the requested tier's
    /// index, exactly as `spec_plan` says. The page must fit the HTML
    /// parser's buffers.
    pub fn plan_episode(&self, episode: usize, page_html: &str) -> (r: Result<DownloadJob, Error>)
        requires
            page_html@.len() < HTML_CHAR_LIMIT,
        ensures
            self.plan_matches(episode, page_html@, r),
    {
        let urls = locate_media(page_html);
        let url = match select_media(&urls, episode, self.resolution) {
            Ok(u) => u,
            Err(e) => {
                return Err(e);
            },
        };
        Ok(DownloadJob { anime: self.anime.clone(), episode, url })
    }

    /// Aggregate the episode tasks' outcomes once all have finished:
    /// all successes make a summary; otherwise the first error, in
    /// task order, is the run's result. Nothing is rolled back.
    pub fn summarize(&self, outcomes: Vec<Result<(), Error>>) -> (r: Result<Summary, Error>)
        ensures
            (forall|i: int| 0 <= i < outcomes@.len() ==> outcomes@[i] is Ok) ==> (r matches Ok(s)
                && s.anime@ == self.anime@ && s.episodes == outcomes@.len()),
            (exists|i: int| 0 <= i < outcomes@.len() && outcomes@[i] is Err) ==> (r matches Err(e)
                && exists|j: int|
                {
                    &&& 0 <= j < outcomes@.len()
                    &&& outcomes@[j] == Result::<(), Error>::Err(e)
                    &&& forall|k: int| 0 <= k < j ==> (#[trigger] outcomes@[k]) is Ok
                }),
    {
        let n = outcomes.len();
        let mut v = outcomes;
        let mut i: usize = 0;
        while i < n
            invariant
                i <= n,
                n == v@.len(),
                v@ == outcomes@,
                forall|k: int| 0 <= k < i ==> outcomes@[k] is Ok,
            decreases n - i,
        {
            let current = &v[i];
            if current.is_err() {
                let failed = v.remove(i);
                match failed {
                    Err(e) => {
                        return Err(e);
                    },
                    Ok(_) => {
                        return vstd::pervasive::unreached();
                    },
                }
            }
            i = i + 1;
        }
        Ok(Summary { anime: self.anime.clone(), episodes: n })
    }

    /// `probed` and `plans` are exactly what one run decides over the
    /// prepared pages: episodes are probed in the selection's order
    /// from its first; a plan is made for every probed episode whose
    /// page exists; and the run ends either at the first missing page
    /// (probed once, planned never, nothing probed past it) or when
    /// the selection is exhausted with every probe succeeding.
    pub open spec fn run_plan_ok(
        self,
        pages: Seq<Seq<char>>,
        probed: Seq<usize>,
        plans: Seq<Result<DownloadJob, Error>>,
    ) -> bool {
        let m = probed.len() as int;
        &&& forall|t: int|
            0 <= t < m ==> self.episodes.episode_at(t as nat) == Some((#[trigger] probed[t]) as int)
        &&& forall|t: int|
            0 <= t < plans.len() ==> spec_page_exists(pages, (#[trigger] probed[t]) as int)
        &&& forall|t: int|
            0 <= t < plans.len() ==> self.plan_matches(
                probed[t],
                pages[probed[t] - 1],
                #[trigger] plans[t],
            )
        &&& if plans.len() < m {
            // the last probe found no page: the run stopped there
            &&& plans.len() == m - 1
            &&& !spec_page_exists(pages, probed[m - 1] as int)
        } else {
            // the selection ran out with every probe succeeding
            &&& plans.len() == m
            &&& self.episodes.episode_at(m as nat) is None
        }
    }

    /// The run's decision core as one function: given the page body
    /// prepared for each episode (entry `k` is episode `k + 1`'s
    /// body; an episode with no prepared body counts as missing),
    /// probe the selection's episodes in order, stop at the first
    /// missing page, and plan every confirmed episode. What the
    /// asynchronous run performs between these decisions — fetching
    /// each probed page, downloading and persisting each plan — is
    /// the caller's.
    pub fn plan_run(&self, pages: &Vec<String>) -> (r: (Vec<usize>, Vec<
        Result<DownloadJob, Error>,
    >))
        requires
            self.wf(),
            forall|k: int|
                0 <= k < pages.deep_view().len() ==> #[trigger] pages.deep_view()[k].len()
                    < HTML_CHAR_LIMIT,
        ensures
            self.run_plan_ok(pages.deep_view(), r.0@, r.1@),
    {
        let mut probed: Vec<usize> = Vec::new();
        let mut plans: Vec<Result<DownloadJob, Error>> = Vec::new();
        let mut it = self.episodes.iter();
        loop
            invariant
                self.wf(),
                it.wf(),
                it.source@ == self.episodes,
                it.emitted@ == probed@.len(),
                self.episodes.first() + it.emitted@ <= self.episodes.last_bound() + 1,
                forall|k: int|
                    0 <= k < pages.deep_view().len() ==> #[trigger] pages.deep_view()[k].len()
                        < HTML_CHAR_LIMIT,
                forall|t: int|
                    0 <= t < probed@.len() ==> self.episodes.episode_at(t as nat) == Some(
                        (#[trigger] probed@[t]) as int,
                    ),
                forall|t: int|
                    0 <= t < probed@.len() ==> spec_page_exists(
                        pages.deep_view(),
                        (#[trigger] probed@[t]) as int,
                    ),
                forall|t: int|
                    0 <= t < plans@.len() ==> self.plan_matches(
                        probed@[t],
                        pages.deep_view()[probed@[t] - 1],
                        #[trigger] plans@[t],
                    ),
                plans@.len() == probed@.len(),
            decreases self.episodes.last_bound() + 1 - self.episodes.first() - it.emitted@,
        {
            let ep = match it.next() {
                Some(ep) => ep,
                None => {
                    // the selection is exhausted; every probe succeeded
                    return (probed, plans);
                },
            };
            probed.push(ep);
            let exists = ep <= pages.len() && episode_page_exists(pages[ep - 1].as_str());
            proof {
                assert(exists == spec_page_exists(pages.deep_view(), ep as int));
            }
            if !exists {
                // the first missing page ends the run: probed, never planned
                return (probed, plans);
            }
            plans.push(self.plan_episode(ep, pages[ep - 1].as_str()));
        }
    }
}

/// Episode `ep` has a live page among the prepared bodies: a body is
/// prepared for it and lacks the missing-page marker.
pub open spec fn spec_page_exists(pages: Seq<Seq<char>>, ep: int) -> bool {
    &&& 1 <= ep <= pages.len()
    &&& !contains_seq(pages[ep - 1], missing_marker())
}

/// No run probes further than another over the same pages: probing
/// further would mean planning past a missing page, or drawing from an
/// exhausted selection.
proof fn lemma_run_plan_not_longer(
    cfg: Downloader,
    pages: Seq<Seq<char>>,
    a: Seq<usize>,
    la: Seq<Result<DownloadJob, Error>>,
    b: Seq<usize>,
    lb: Seq<Result<DownloadJob, Error>>,
)
    requires
        cfg.run_plan_ok(pages, a, la),
        cfg.run_plan_ok(pages, b, lb),
    ensures
        b.len() <= a.len(),
{
    let ma = a.len() as int;
    let mb = b.len() as int;
    if ma < mb {
        if la.len() < ma {
            // `a` stopped at a missing page, which `b` probed and planned.
            assert(cfg.episodes.episode_at((ma - 1) as nat) == Some(a[ma - 1] as int));
            assert(cfg.episodes.episode_at((ma - 1) as nat) == Some(b[ma - 1] as int));
            assert(lb.len() >= mb - 1);
            assert(spec_page_exists(pages, b[ma - 1] as int));
            assert(!spec_page_exists(pages, a[ma - 1] as int));
        } else {
            // `a` exhausted the selection, yet `b` drew one more episode.
            assert(cfg.episodes.episode_at(ma as nat) is None);
            assert(cfg.episodes.episode_at(ma as nat) == Some(b[ma] as int));
        }
        assert(false);
    }
}

/// The run's decisions are a function of the configuration and the
/// pages alone: two runs over the same pages probe the same episodes
/// and make plans of the same meaning (each matching `spec_plan` of
/// the same episode and page). With `lemma_output_path_per_episode`,
/// a re-run therefore targets exactly the paths of the first run, with
/// the same chosen URLs; the overwrite itself is the filesystem's.
pub proof fn lemma_run_plan_deterministic(
    cfg: Downloader,
    pages: Seq<Seq<char>>,
    a: Seq<usize>,
    la: Seq<Result<DownloadJob, Error>>,
    b: Seq<usize>,
    lb: Seq<Result<DownloadJob, Error>>,
)
    requires
        cfg.run_plan_ok(pages, a, la),
        cfg.run_plan_ok(pages, b, lb),
    ensures
        a == b,
        la.len() == lb.len(),
{
    lemma_run_plan_not_longer(cfg, pages, a, la, b, lb);
    lemma_run_plan_not_longer(cfg, pages, b, lb, a, la);
    let m = a.len() as int;
    assert forall|t: int| 0 <= t < m implies a[t] == b[t] by {
        assert(cfg.episodes.episode_at(t as nat) == Some(a[t] as int));
        assert(cfg.episodes.episode_at(t as nat) == Some(b[t] as int));
    }
    assert(a =~= b);
    if la.len() < m && lb.len() == m {
        assert(!spec_page_exists(pages, a[m - 1] as int));
        assert(spec_page_exists(pages, b[m - 1] as int));
    }
    if lb.len() < m && la.len() == m {
        assert(!spec_page_exists(pages, b[m - 1] as int));
        assert(spec_page_exists(pages, a[m - 1] as int));
    }
}

/// Output paths are deterministic per (anime, episode) — re-running
/// overwrites the same path — and distinct episodes of one run target
/// distinct paths, so no two episode tasks share a file.
pub proof fn lemma_output_path_per_episode(anime: Seq<char>, e1: nat, e2: nat)
    ensures
        e1 == e2 ==> file_path_spec(anime, e1) == file_path_spec(anime, e2),
        e1 != e2 ==> file_path_spec(anime, e1) != file_path_spec(anime, e2),
{
    let p = anime + "/episode-"@;
    let s = ".mp4"@;
    let d1 = dec_chars(e1);
    let d2 = dec_chars(e2);
    if e1 != e2 && file_path_spec(anime, e1) == file_path_spec(anime, e2) {
        assert(file_path_spec(anime, e1) =~= p + d1 + s);
        assert(file_path_spec(anime, e2) =~= p + d2 + s);
        assert((p + d1 + s).len() == p.len() + d1.len() + s.len());
        assert((p + d2 + s).len() == p.len() + d2.len() + s.len());
        assert(d1.len() == d2.len());
        assert forall|t: int| 0 <= t < d1.len() implies d1[t] == d2[t] by {
            assert((p + d1 + s)[p.len() + t] == d1[t]);
            assert((p + d2 + s)[p.len() + t] == d2[t]);
        }
        assert(d1 =~= d2);
        lemma_dec_chars_value(e1);
        lemma_dec_chars_value(e2);
    }
}

} // verus!
