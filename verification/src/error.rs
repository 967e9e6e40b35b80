//! The run's error kinds. Each per-episode kind carries the episode
//! number; causes from the network or the filesystem arrive as plain
//! strings.

use vstd::prelude::*;
use crate::resolution::Resolution;

verus! {

/// Everything that can go wrong in a run.
#[derive(Debug)]
pub enum Error {
    /// The episode selection did not parse.
    InvalidEpisodesFormat(String),
    /// The resolution tier did not parse.
    InvalidResolutionFormat(String),
    /// An existence probe's request failed; fatal to the run.
    EpisodeProbeFailed(usize, String),
    /// The output directory could not be created.
    DirectoryCreateFailed(String),
    /// The episode's page has no usable media URL.
    NoVideoLinksFound(usize),
    /// The candidate list has no entry at the tier's index.
    ResolutionUnavailable(usize, Resolution),
    /// Downloading the selected media URL failed.
    FetchFailed(usize, String),
    /// Writing the downloaded bytes to disk failed.
    PersistFailed(usize, String),
}

} // verus!
