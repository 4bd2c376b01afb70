//! Which episodes of a feed are already there, and which are to be fetched.

use vstd::prelude::*;
use crate::config::{Podcast, PodcastView};
use crate::error::{SyncError, SyncErrorView};
use crate::feed::{examine_item, examined, Episode, EpisodeView, FeedItem, FeedItemView};
use crate::local::LocalState;
use crate::sanitize::{episode_file_name, podcast_file_name};

verus! {

/// How an episode stands against the local files.
#[derive(Clone, Copy, Debug, PartialEq, Eq, Structural)]
pub enum Freshness {
    /// No file of the episode's name exists.
    Missing,
    /// A file of that name exists, last modified at another second than the
    /// episode was published.
    Stale,
    /// A file of that name exists, last modified at the second the episode was
    /// published.
    UpToDate,
}

impl Freshness {
    /// An episode is fetched unless its file is up to date.
    pub open spec fn needs_download(self) -> bool {
        self != Freshness::UpToDate
    }

    /// Tells whether the episode is to be fetched.
    pub fn must_download(self) -> (needed: bool)
        ensures
            needed == self.needs_download(),
    {
        match self {
            Freshness::UpToDate => false,
            Freshness::Missing => true,
            Freshness::Stale => true,
        }
    }
}

/// The freshness rule: a file counts as the episode's own exactly when it has
/// the episode's file name and was last modified at the second the episode was
/// published.
pub open spec fn freshness_of(
    local: Map<Seq<char>, i64>,
    file_name: Seq<char>,
    pub_time: i64,
) -> Freshness {
    if !local.contains_key(file_name) {
        Freshness::Missing
    } else if local[file_name] == pub_time {
        Freshness::UpToDate
    } else {
        Freshness::Stale
    }
}

/// Applies the freshness rule to one file name.
pub fn classify(local: &LocalState, file_name: &str, pub_time: i64) -> (freshness: Freshness)
    ensures
        freshness == freshness_of(local@, file_name@, pub_time),
{
    match local.lookup(file_name) {
        None => Freshness::Missing,
        Some(mtime) => if mtime == pub_time {
            Freshness::UpToDate
        } else {
            Freshness::Stale
        },
    }
}

/// An episode of the window with its file name and how it stands.
#[derive(Clone, Debug, PartialEq, Eq)]
pub struct Verdict {
    pub episode: Episode,
    pub file_name: String,
    pub freshness: Freshness,
}

/// A verdict as contracts see it.
pub ghost struct VerdictView {
    pub episode: EpisodeView,
    pub file_name: Seq<char>,
    pub freshness: Freshness,
}

impl View for Verdict {
    type V = VerdictView;

    open spec fn view(&self) -> VerdictView {
        VerdictView {
            episode: self.episode@,
            file_name: self.file_name@,
            freshness: self.freshness,
        }
    }
}

impl DeepView for Verdict {
    type V = VerdictView;

    open spec fn deep_view(&self) -> VerdictView {
        self@
    }
}

/// The verdict on an episode of `podcast`: its canonical file name, and the
/// freshness rule applied to that name and the episode's publication second.
pub open spec fn verdict_of(
    podcast: Seq<char>,
    episode: EpisodeView,
    local: Map<Seq<char>, i64>,
) -> VerdictView {
    let file_name = episode_file_name(podcast, episode.title);
    VerdictView {
        episode,
        file_name,
        freshness: freshness_of(local, file_name, episode.pub_time),
    }
}

/// Names an episode's file and classifies it.
pub fn judge(podcast: &str, episode: Episode, local: &LocalState) -> (verdict: Verdict)
    ensures
        verdict@ == verdict_of(podcast@, episode@, local@),
{
    let file_name = podcast_file_name(podcast, episode.title.as_str());
    let freshness = classify(local, file_name.as_str(), episode.pub_time);
    Verdict { episode, file_name, freshness }
}

/// What is to be done for one podcast: a verdict for each episode of the
/// window up to the first entry that is not a valid episode, and the error of
/// that entry if there is one.
#[derive(Clone, Debug, PartialEq, Eq)]
pub struct Plan {
    pub verdicts: Vec<Verdict>,
    pub error: Option<SyncError>,
}

/// A plan as contracts see it.
pub ghost struct PlanView {
    pub verdicts: Seq<VerdictView>,
    pub error: Option<SyncErrorView>,
}

impl View for Plan {
    type V = PlanView;

    open spec fn view(&self) -> PlanView {
        PlanView { verdicts: self.verdicts.deep_view(), error: self.error.deep_view() }
    }
}

/// The window of a feed: its first `keep_latest` entries, or all of them where
/// it has fewer. Entries behind the window are never looked at.
pub open spec fn window(items: Seq<FeedItemView>, keep_latest: nat) -> Seq<FeedItemView> {
    if keep_latest < items.len() {
        items.take(keep_latest as int)
    } else {
        items
    }
}

/// The position, at or behind `from`, of the first entry that is not a valid
/// episode; the length of the sequence where every entry from `from` on is
/// valid.
pub open spec fn first_invalid(podcast: Seq<char>, entries: Seq<FeedItemView>, from: int) -> int
    decreases entries.len() - from,
{
    if from < 0 || from >= entries.len() || examined(podcast, entries[from]) is Err {
        from
    } else {
        first_invalid(podcast, entries, from + 1)
    }
}

/// The plan for a podcast, given its feed and the local files.
pub open spec fn plan_of(
    podcast: PodcastView,
    items: Seq<FeedItemView>,
    local: Map<Seq<char>, i64>,
) -> PlanView {
    let entries = window(items, podcast.keep_latest);
    let valid = first_invalid(podcast.name, entries, 0);
    PlanView {
        verdicts: Seq::new(
            valid as nat,
            |i: int| verdict_of(podcast.name, examined(podcast.name, entries[i])->Ok_0, local),
        ),
        error: if valid < entries.len() {
            Some(examined(podcast.name, entries[valid])->Err_0)
        } else {
            None
        },
    }
}

/// What `first_invalid` finds: every entry from `from` up to the position it
/// gives is a valid episode, and the entry at that position, if there is one,
/// is not.
pub proof fn lemma_first_invalid(podcast: Seq<char>, entries: Seq<FeedItemView>, from: int)
    requires
        0 <= from <= entries.len(),
    ensures
        from <= first_invalid(podcast, entries, from) <= entries.len(),
        forall|i: int|
            from <= i < first_invalid(podcast, entries, from) ==> examined(
                podcast,
                #[trigger] entries[i],
            ) is Ok,
        first_invalid(podcast, entries, from) < entries.len() ==> examined(
            podcast,
            entries[first_invalid(podcast, entries, from)],
        ) is Err,
    decreases entries.len() - from,
{
    if from < entries.len() && examined(podcast, entries[from]) is Ok {
        lemma_first_invalid(podcast, entries, from + 1);
    }
}

/// Goes through the window of a feed in feed order: checks each entry, names
/// its file and classifies it against the local files, and stops at the first
/// entry that is not a valid episode.
pub fn reconcile(podcast: &Podcast, items: &Vec<FeedItem>, local: &LocalState) -> (plan: Plan)
    ensures
        plan@ == plan_of(podcast@, items.deep_view(), local@),
{
    let limit = if podcast.keep_latest < items.len() {
        podcast.keep_latest
    } else {
        items.len()
    };
    let ghost entries = window(items.deep_view(), podcast.keep_latest as nat);
    let ghost name = podcast.name@;
    let mut verdicts: Vec<Verdict> = Vec::new();
    let mut i: usize = 0;
    while i < limit
        invariant
            i <= limit,
            limit == entries.len(),
            limit <= items.len(),
            name == podcast.name@,
            entries == window(items.deep_view(), podcast.keep_latest as nat),
            first_invalid(name, entries, 0) == first_invalid(name, entries, i as int),
            verdicts.len() == i,
            forall|j: int|
                0 <= j < i ==> (#[trigger] verdicts[j])@ == verdict_of(
                    name,
                    examined(name, entries[j])->Ok_0,
                    local@,
                ),
        decreases limit - i,
    {
        assert(entries[i as int] == items[i as int]@);
        match examine_item(podcast.name.as_str(), &items[i]) {
            Ok(episode) => {
                let verdict = judge(podcast.name.as_str(), episode, local);
                verdicts.push(verdict);
            },
            Err(error) => {
                let plan = Plan { verdicts, error: Some(error) };
                assert(plan@.verdicts =~= plan_of(podcast@, items.deep_view(), local@).verdicts);
                return plan;
            },
        }
        i += 1;
    }
    let plan = Plan { verdicts, error: None };
    assert(plan@.verdicts =~= plan_of(podcast@, items.deep_view(), local@).verdicts);
    plan
}

/// A file that carries an episode's name and publication second makes the
/// episode up to date, and nothing else does: such an episode is never
/// fetched again.
pub proof fn law_same_second_is_kept(
    local: Map<Seq<char>, i64>,
    file_name: Seq<char>,
    pub_time: i64,
)
    ensures
        freshness_of(local, file_name, pub_time).needs_download() <==> !(local.contains_key(
            file_name,
        ) && local[file_name] == pub_time),
        !local.contains_key(file_name) <==> freshness_of(local, file_name, pub_time)
            == Freshness::Missing,
{
}

/// Once an episode's file is there with the episode's publication second as
/// its modification time, the episode is up to date, whatever was there
/// before; the verdicts on files of other names are as they were.
pub proof fn law_stamped_file_is_fresh(
    local: Map<Seq<char>, i64>,
    file_name: Seq<char>,
    pub_time: i64,
    other: Seq<char>,
    other_time: i64,
)
    ensures
        freshness_of(local.insert(file_name, pub_time), file_name, pub_time)
            == Freshness::UpToDate,
        other != file_name ==> freshness_of(
            local.insert(file_name, pub_time),
            other,
            other_time,
        ) == freshness_of(local, other, other_time),
{
}

/// A plan looks at the window only: it holds at most `keep_latest` verdicts,
/// one for each entry of the window in feed order up to the first entry that
/// is not a valid episode, and it reports an error exactly when there is such
/// an entry.
pub proof fn law_plan_covers_window(
    podcast: PodcastView,
    items: Seq<FeedItemView>,
    local: Map<Seq<char>, i64>,
)
    ensures
        plan_of(podcast, items, local).verdicts.len() <= podcast.keep_latest,
        plan_of(podcast, items, local).verdicts.len() <= items.len(),
        forall|i: int|
            0 <= i < plan_of(podcast, items, local).verdicts.len() ==> examined(
                podcast.name,
                #[trigger] items[i],
            ) == Ok::<EpisodeView, SyncErrorView>(
                plan_of(podcast, items, local).verdicts[i].episode,
            ),
        forall|i: int|
            0 <= i < plan_of(podcast, items, local).verdicts.len() ==> #[trigger] plan_of(
                podcast,
                items,
                local,
            ).verdicts[i] == verdict_of(
                podcast.name,
                plan_of(podcast, items, local).verdicts[i].episode,
                local,
            ),
        plan_of(podcast, items, local).error is None <==> plan_of(
            podcast,
            items,
            local,
        ).verdicts.len() == window(items, podcast.keep_latest).len(),
        plan_of(podcast, items, local).error matches Some(error) ==> examined(
            podcast.name,
            items[plan_of(podcast, items, local).verdicts.len() as int],
        ) == Err::<EpisodeView, SyncErrorView>(error),
{
    let entries = window(items, podcast.keep_latest);
    lemma_first_invalid(podcast.name, entries, 0);
}

/// Entries behind the window change nothing: two feeds with the same first
/// `keep_latest` entries have the same plan.
pub proof fn law_plan_ignores_rest(
    podcast: PodcastView,
    items: Seq<FeedItemView>,
    rest: Seq<FeedItemView>,
    local: Map<Seq<char>, i64>,
)
    requires
        podcast.keep_latest <= items.len(),
    ensures
        plan_of(podcast, items + rest, local) == plan_of(podcast, items, local),
{
    assert(window(items + rest, podcast.keep_latest) =~= window(items, podcast.keep_latest));
}

/// Where every entry of the window is a valid episode whose file is there
/// with the episode's publication second, the plan holds no error and no
/// episode to fetch: a second run right after a first does nothing.
pub proof fn law_rerun_fetches_nothing(
    podcast: PodcastView,
    items: Seq<FeedItemView>,
    local: Map<Seq<char>, i64>,
)
    requires
        forall|i: int|
            0 <= i < window(items, podcast.keep_latest).len() ==> (examined(
                podcast.name,
                #[trigger] items[i],
            ) matches Ok(episode) && local.contains_key(
                episode_file_name(podcast.name, episode.title),
            ) && local[episode_file_name(podcast.name, episode.title)] == episode.pub_time),
    ensures
        plan_of(podcast, items, local).error is None,
        plan_of(podcast, items, local).verdicts.len() == window(items, podcast.keep_latest).len(),
        forall|i: int|
            0 <= i < plan_of(podcast, items, local).verdicts.len() ==> !(#[trigger] plan_of(
                podcast,
                items,
                local,
            ).verdicts[i]).freshness.needs_download(),
{
    let entries = window(items, podcast.keep_latest);
    lemma_first_invalid(podcast.name, entries, 0);
    let valid = first_invalid(podcast.name, entries, 0);
    if valid < entries.len() {
        assert(entries[valid] == items[valid]);
    }
    assert forall|i: int| 0 <= i < plan_of(podcast, items, local).verdicts.len() implies !(
    #[trigger] plan_of(podcast, items, local).verdicts[i]).freshness.needs_download() by {
        assert(entries[i] == items[i]);
    }
}

} // verus!
