//! A verified core for a site-specific episode downloader.
//!
//! The library holds the logic of the downloader: the episode sequencer,
//! the parsers for episode ranges and resolution tiers, the existence
//! prober's page test, the media locator and resolution selector, URL and
//! file-path construction, and the aggregation of per-episode results.
//! Network and filesystem plumbing live outside the library.

pub mod chars;
pub mod digits;
pub mod downloader;
pub mod episodes;
pub mod error;
pub mod media;
pub mod probe;
pub mod resolution;
