//! What a run is configured with: the podcasts of one set.

use vstd::prelude::*;

verus! {

/// One podcast feed and how many of its newest episodes are kept.
///
/// The playback speed of a podcast is a floating-point setting that only the
/// transcoder's command line reads; it stays with the caller, who finds it by
/// the podcast's position in the set.
#[derive(Clone, Debug, PartialEq, Eq)]
pub struct Podcast {
    pub name: String,
    pub url: String,
    pub keep_latest: usize,
}

/// A podcast as contracts see it.
pub ghost struct PodcastView {
    pub name: Seq<char>,
    pub url: Seq<char>,
    pub keep_latest: nat,
}

impl View for Podcast {
    type V = PodcastView;

    open spec fn view(&self) -> PodcastView {
        PodcastView { name: self.name@, url: self.url@, keep_latest: self.keep_latest as nat }
    }
}

impl DeepView for Podcast {
    type V = PodcastView;

    open spec fn deep_view(&self) -> PodcastView {
        self@
    }
}

/// A named group of podcasts that share one output directory.
#[derive(Clone, Debug, PartialEq, Eq)]
pub struct PodcastSet {
    pub name: String,
    pub podcasts: Vec<Podcast>,
}

} // verus!
