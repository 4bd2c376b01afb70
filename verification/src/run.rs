//! The run over one podcast set, as a machine that the caller drives: the run
//! names the next action, the caller performs it and reports how it ended.
//!
//! Podcasts are gone through in the order of the set, and the episodes of a
//! podcast in feed order, one at a time. A failure never ends the run. A feed
//! that cannot be fetched or read ends the work on its podcast; an entry of
//! the window that is no valid episode ends it once the episodes before that
//! entry are done; a failed download, transcoding or stamp ends the work on
//! its episode. Each is recorded, and the run goes on with what comes next.

use vstd::prelude::*;
use crate::config::{Podcast, PodcastSet, PodcastView};
use crate::error::{SyncError, SyncErrorView};
use crate::feed::{channel_items, parse_feed, FeedItem, FeedItemView};
use crate::local::{stale_files, stale_names, texts, ExpectedFiles, LocalState};
use crate::sanitize::episode_file_name;
use crate::reconcile::{
    lemma_first_invalid, plan_of, reconcile, verdict_of, window, PlanView, Verdict, VerdictView,
};

verus! {

/// What the run is waiting for.
#[derive(Clone, Copy, Debug, PartialEq, Eq, Structural)]
pub enum Stage {
    /// The feed of the current podcast.
    Fetching,
    /// The caller's note that the current episode is up to date.
    Keeping,
    /// The download of the current episode's media.
    Downloading,
    /// The transcoding of the downloaded media.
    Transcoding,
    /// The setting of the finished file's modification time.
    Stamping,
    /// Nothing: every podcast has been gone through.
    Finished,
}

/// What the caller is asked to do next.
#[derive(Clone, Debug, PartialEq, Eq)]
pub enum Action {
    /// Fetch the feed document at `url` and answer with `Event::Feed`,
    /// `Event::Unreadable` or `Event::FetchFailed`.
    Fetch { podcast: usize, url: String },
    /// Nothing to do for this episode: its file is there and was last
    /// modified at `seconds`. Answer with `Event::Done`.
    Keep { podcast: usize, file_name: String, seconds: i64 },
    /// Download the media at `url` to a temporary file named `file_name`.
    Download { podcast: usize, file_name: String, url: String },
    /// Transcode the temporary file named `file_name`, at the playback speed
    /// of the podcast, into the output directory under the same name.
    Transcode { podcast: usize, file_name: String },
    /// Set the modification time of the output file to `seconds`.
    Stamp { podcast: usize, file_name: String, seconds: i64 },
    /// The run is over.
    Finish,
}

/// An action as contracts see it.
pub ghost enum ActionView {
    Fetch { podcast: nat, url: Seq<char> },
    Keep { podcast: nat, file_name: Seq<char>, seconds: i64 },
    Download { podcast: nat, file_name: Seq<char>, url: Seq<char> },
    Transcode { podcast: nat, file_name: Seq<char> },
    Stamp { podcast: nat, file_name: Seq<char>, seconds: i64 },
    Finish,
}

impl View for Action {
    type V = ActionView;

    open spec fn view(&self) -> ActionView {
        match self {
            Action::Fetch { podcast, url } => ActionView::Fetch {
                podcast: *podcast as nat,
                url: url@,
            },
            Action::Keep { podcast, file_name, seconds } => ActionView::Keep {
                podcast: *podcast as nat,
                file_name: file_name@,
                seconds: *seconds,
            },
            Action::Download { podcast, file_name, url } => ActionView::Download {
                podcast: *podcast as nat,
                file_name: file_name@,
                url: url@,
            },
            Action::Transcode { podcast, file_name } => ActionView::Transcode {
                podcast: *podcast as nat,
                file_name: file_name@,
            },
            Action::Stamp { podcast, file_name, seconds } => ActionView::Stamp {
                podcast: *podcast as nat,
                file_name: file_name@,
                seconds: *seconds,
            },
            Action::Finish => ActionView::Finish,
        }
    }
}

/// How the action that the run asked for ended.
#[derive(Clone, Debug, PartialEq, Eq)]
pub enum Event {
    /// The feed was fetched and holds these entries, in feed order.
    Feed(Vec<FeedItem>),
    /// A document was fetched, but it is not a feed.
    Unreadable,
    /// The feed could not be fetched.
    FetchFailed,
    /// The action succeeded.
    Done,
    /// The action failed.
    Failed,
}

/// An event as contracts see it.
pub ghost enum EventView {
    Feed(Seq<FeedItemView>),
    Unreadable,
    FetchFailed,
    Done,
    Failed,
}

impl View for Event {
    type V = EventView;

    open spec fn view(&self) -> EventView {
        match self {
            Event::Feed(items) => EventView::Feed(items.deep_view()),
            Event::Unreadable => EventView::Unreadable,
            Event::FetchFailed => EventView::FetchFailed,
            Event::Done => EventView::Done,
            Event::Failed => EventView::Failed,
        }
    }
}

/// The event that a fetched document stands for, given what it reads as.
pub open spec fn document_event(items: Option<Seq<FeedItemView>>) -> EventView {
    match items {
        Some(items) => EventView::Feed(items),
        None => EventView::Unreadable,
    }
}

impl Event {
    /// The event for a document that was fetched, given what it reads as.
    pub fn of_feed(feed: Option<Vec<FeedItem>>) -> (event: Event)
        ensures
            event@ == document_event(feed.deep_view()),
    {
        match feed {
            Some(items) => Event::Feed(items),
            None => Event::Unreadable,
        }
    }

    /// Reads a fetched document as a feed.
    pub fn of_document(bytes: &[u8]) -> (event: Event)
        ensures
            event@ == document_event(channel_items(bytes@)),
    {
        Event::of_feed(parse_feed(bytes))
    }
}

/// The file names of a sequence of verdicts, in their order.
pub open spec fn file_names(verdicts: Seq<VerdictView>) -> Seq<Seq<char>> {
    verdicts.map_values(|verdict: VerdictView| verdict.file_name)
}

/// The state of a run as contracts see it.
pub ghost struct RunView {
    /// The podcasts of the set, in the order in which they are gone through.
    pub podcasts: Seq<PodcastView>,
    /// The local files: name to modification second, as the scan found them.
    pub local: Map<Seq<char>, i64>,
    /// The names of the local files, in the order of the scan.
    pub scanned: Seq<Seq<char>>,
    /// The file names that should exist once the run is over.
    pub expected: Set<Seq<char>>,
    /// What went wrong so far, in the order in which it happened.
    pub failures: Seq<SyncErrorView>,
    pub stage: Stage,
    /// The position of the current podcast.
    pub podcast: nat,
    /// The verdicts on the current podcast's window.
    pub verdicts: Seq<VerdictView>,
    /// The error that cut the current podcast's window short, if any.
    pub pending: Option<SyncErrorView>,
    /// The position of the current episode among the verdicts.
    pub cursor: nat,
}

impl RunView {
    /// The state before anything was done.
    pub open spec fn start(
        podcasts: Seq<PodcastView>,
        local: Map<Seq<char>, i64>,
        scanned: Seq<Seq<char>>,
    ) -> RunView {
        RunView {
            podcasts,
            local,
            scanned,
            expected: Set::empty(),
            failures: Seq::empty(),
            stage: if podcasts.len() == 0 {
                Stage::Finished
            } else {
                Stage::Fetching
            },
            podcast: 0,
            verdicts: Seq::empty(),
            pending: None,
            cursor: 0,
        }
    }

    /// Tells whether the run is at work on an episode.
    pub open spec fn on_episode(self) -> bool {
        self.stage != Stage::Fetching && self.stage != Stage::Finished
    }

    /// What holds of every state that a run goes through.
    pub open spec fn wf(self) -> bool {
        &&& self.podcast <= self.podcasts.len()
        &&& self.stage != Stage::Finished ==> self.podcast < self.podcasts.len()
        &&& self.on_episode() ==> self.cursor < self.verdicts.len() && (self.stage
            != Stage::Keeping <==> self.verdicts[self.cursor as int].freshness.needs_download())
        &&& self.verdicts.len() > 0 ==> self.podcast < self.podcasts.len()
        &&& self.verdicts.len() > 0 ==> self.verdicts.len()
            <= self.podcasts[self.podcast as int].keep_latest
        &&& forall|i: int|
            0 <= i < self.verdicts.len() ==> #[trigger] self.verdicts[i] == verdict_of(
                self.podcasts[self.podcast as int].name,
                self.verdicts[i].episode,
                self.local,
            )
        &&& forall|i: int|
            0 <= i < self.verdicts.len() ==> self.expected.contains(
                #[trigger] self.verdicts[i].file_name,
            )
    }

    /// The action that the run is waiting on.
    pub open spec fn pending_action(self) -> ActionView {
        let verdict = self.verdicts[self.cursor as int];
        match self.stage {
            Stage::Fetching => ActionView::Fetch {
                podcast: self.podcast,
                url: self.podcasts[self.podcast as int].url,
            },
            Stage::Keeping => ActionView::Keep {
                podcast: self.podcast,
                file_name: verdict.file_name,
                seconds: verdict.episode.pub_time,
            },
            Stage::Downloading => ActionView::Download {
                podcast: self.podcast,
                file_name: verdict.file_name,
                url: verdict.episode.url,
            },
            Stage::Transcoding => ActionView::Transcode {
                podcast: self.podcast,
                file_name: verdict.file_name,
            },
            Stage::Stamping => ActionView::Stamp {
                podcast: self.podcast,
                file_name: verdict.file_name,
                seconds: verdict.episode.pub_time,
            },
            Stage::Finished => ActionView::Finish,
        }
    }

    /// Turns to the podcast at `position`, or ends the run where there is
    /// none.
    pub open spec fn enter_podcast(self, position: nat) -> RunView {
        RunView {
            stage: if position < self.podcasts.len() {
                Stage::Fetching
            } else {
                Stage::Finished
            },
            podcast: position,
            verdicts: Seq::empty(),
            pending: None,
            cursor: 0,
            ..self
        }
    }

    /// Adds a failure to those recorded.
    pub open spec fn record(self, error: SyncErrorView) -> RunView {
        RunView { failures: self.failures.push(error), ..self }
    }

    /// Leaves the current podcast: records the error that cut its window
    /// short, if any, and turns to the next podcast.
    pub open spec fn leave_podcast(self) -> RunView {
        let closed = match self.pending {
            Some(error) => self.record(error),
            None => self,
        };
        closed.enter_podcast(self.podcast + 1)
    }

    /// Turns to the verdict at `position`: an episode that needs it is
    /// downloaded, another is kept. Behind the last verdict the podcast is
    /// left.
    pub open spec fn enter_episode(self, position: nat) -> RunView {
        if position < self.verdicts.len() {
            RunView {
                stage: if self.verdicts[position as int].freshness.needs_download() {
                    Stage::Downloading
                } else {
                    Stage::Keeping
                },
                cursor: position,
                ..self
            }
        } else {
            self.leave_podcast()
        }
    }

    /// Takes up the plan for the current podcast: every verdict's file name
    /// becomes expected, whatever the verdict says and however its download
    /// will end.
    pub open spec fn take_plan(self, plan: PlanView) -> RunView {
        RunView {
            verdicts: plan.verdicts,
            pending: plan.error,
            expected: self.expected.union(file_names(plan.verdicts).to_set()),
            ..self
        }
    }

    /// The state after `event`. An event that does not answer the pending
    /// action changes nothing.
    pub open spec fn next(self, event: EventView) -> RunView {
        let podcast = self.podcasts[self.podcast as int];
        let file_name = self.verdicts[self.cursor as int].file_name;
        match self.stage {
            Stage::Fetching => match event {
                EventView::Feed(items) => self.take_plan(
                    plan_of(podcast, items, self.local),
                ).enter_episode(0),
                EventView::Unreadable => self.record(
                    SyncErrorView::Parse { podcast: podcast.name },
                ).enter_podcast(self.podcast + 1),
                EventView::FetchFailed => self.record(
                    SyncErrorView::Fetch { podcast: podcast.name, url: podcast.url },
                ).enter_podcast(self.podcast + 1),
                _ => self,
            },
            Stage::Keeping => match event {
                EventView::Done => self.enter_episode(self.cursor + 1),
                _ => self,
            },
            Stage::Downloading => match event {
                EventView::Done => RunView { stage: Stage::Transcoding, ..self },
                EventView::Failed => self.record(
                    SyncErrorView::Download { file_name },
                ).enter_episode(self.cursor + 1),
                _ => self,
            },
            Stage::Transcoding => match event {
                EventView::Done => RunView { stage: Stage::Stamping, ..self },
                EventView::Failed => self.record(
                    SyncErrorView::Transcode { file_name },
                ).enter_episode(self.cursor + 1),
                _ => self,
            },
            Stage::Stamping => match event {
                EventView::Done => self.enter_episode(self.cursor + 1),
                EventView::Failed => self.record(
                    SyncErrorView::Stamp { file_name },
                ).enter_episode(self.cursor + 1),
                _ => self,
            },
            Stage::Finished => self,
        }
    }
}

/// How far a run has come: the podcast, then the episode within it, then the
/// step of the episode's pipeline.
pub open spec fn progress(run: RunView) -> (nat, nat, nat) {
    (
        run.podcast,
        if run.on_episode() {
            run.cursor + 1
        } else {
            0
        },
        match run.stage {
            Stage::Transcoding => 1,
            Stage::Stamping => 2,
            _ => 0,
        },
    )
}

/// The order of progress: by podcast first, by episode next, by step last.
pub open spec fn earlier(a: (nat, nat, nat), b: (nat, nat, nat)) -> bool {
    a.0 < b.0 || (a.0 == b.0 && (a.1 < b.1 || (a.1 == b.1 && a.2 < b.2)))
}

/// A run starts in a state that `wf` accepts.
pub proof fn law_start_is_well_formed(
    podcasts: Seq<PodcastView>,
    local: Map<Seq<char>, i64>,
    scanned: Seq<Seq<char>>,
)
    ensures
        RunView::start(podcasts, local, scanned).wf(),
{
}

/// Every event leaves a run in a state that `wf` accepts.
pub proof fn law_next_is_well_formed(run: RunView, event: EventView)
    requires
        run.wf(),
    ensures
        run.next(event).wf(),
{
    if run.stage == Stage::Fetching {
        if let EventView::Feed(items) = event {
            let podcast = run.podcasts[run.podcast as int];
            let plan = plan_of(podcast, items, run.local);
            lemma_first_invalid(podcast.name, window(items, podcast.keep_latest), 0);
            let taken = run.take_plan(plan);
            assert forall|i: int| 0 <= i < taken.verdicts.len() implies taken.expected.contains(
                #[trigger] taken.verdicts[i].file_name,
            ) by {
                assert(file_names(plan.verdicts)[i] == plan.verdicts[i].file_name);
                assert(file_names(plan.verdicts).to_set().contains(file_names(plan.verdicts)[i]));
            }
            assert(taken.wf());
        }
    }
}

/// An event either changes nothing or moves the run forward, so a run ends
/// after finitely many events, and no episode is taken up twice.
pub proof fn law_every_step_advances(run: RunView, event: EventView)
    requires
        run.wf(),
    ensures
        run.next(event) == run || earlier(progress(run), progress(run.next(event))),
        run.next(event).podcast <= run.podcasts.len(),
{
}

/// Episodes are taken up in feed order, and none is passed over. An event
/// that moves a run at work on an episode leaves it on the same episode,
/// turns it to the next one, or, from the last one, takes it to the next
/// podcast.
pub proof fn law_episodes_in_feed_order(run: RunView, event: EventView)
    requires
        run.wf(),
        run.on_episode(),
        run.next(event) != run,
    ensures
        ({
            let next = run.next(event);
            if next.on_episode() && next.podcast == run.podcast {
                &&& next.verdicts == run.verdicts
                &&& next.cursor == run.cursor || next.cursor == run.cursor + 1
            } else {
                &&& run.cursor + 1 == run.verdicts.len()
                &&& next.podcast == run.podcast + 1
                &&& !next.on_episode()
            }
        }),
{
}

/// A feed that arrives puts the plan for the current podcast in place: the
/// run turns to the plan's first verdict, or, where the plan holds none, to
/// the next podcast with the plan's error recorded.
pub proof fn law_feed_sets_the_plan(run: RunView, items: Seq<FeedItemView>)
    requires
        run.wf(),
        run.stage == Stage::Fetching,
    ensures
        ({
            let plan = plan_of(run.podcasts[run.podcast as int], items, run.local);
            let next = run.next(EventView::Feed(items));
            if plan.verdicts.len() > 0 {
                &&& next.on_episode()
                &&& next.podcast == run.podcast
                &&& next.cursor == 0
                &&& next.verdicts == plan.verdicts
                &&& next.failures == run.failures
            } else {
                &&& next.podcast == run.podcast + 1
                &&& next.failures == match plan.error {
                    Some(error) => run.failures.push(error),
                    None => run.failures,
                }
            }
        }),
{
}

/// An event changes neither the podcasts nor the record of the local files,
/// and it forgets neither a failure nor an expected file name.
pub proof fn law_nothing_is_forgotten(run: RunView, event: EventView)
    requires
        run.wf(),
    ensures
        run.next(event).podcasts == run.podcasts,
        run.next(event).local == run.local,
        run.next(event).scanned == run.scanned,
        run.failures.is_prefix_of(run.next(event).failures),
        run.expected.subset_of(run.next(event).expected),
{
}

/// What a run asks for on an episode is decided by the freshness rule alone:
/// it asks to keep an episode exactly when a local file has the episode's
/// canonical name and publication second, and it asks to download, transcode
/// or stamp only an episode for which there is no such file.
pub proof fn law_actions_follow_freshness(run: RunView)
    requires
        run.wf(),
        run.on_episode(),
    ensures
        ({
            let podcast = run.podcasts[run.podcast as int];
            let verdict = run.verdicts[run.cursor as int];
            let same_second = run.local.contains_key(verdict.file_name)
                && run.local[verdict.file_name] == verdict.episode.pub_time;
            &&& verdict.file_name == episode_file_name(podcast.name, verdict.episode.title)
            &&& run.expected.contains(verdict.file_name)
            &&& run.cursor < podcast.keep_latest
            &&& run.pending_action() is Keep <==> same_second
            &&& (run.pending_action() is Download || run.pending_action() is Transcode
                || run.pending_action() is Stamp) <==> !same_second
        }),
{
}

/// An episode whose file name no local file has is downloaded, under its
/// canonical name and from its enclosure, when its turn comes.
pub proof fn law_new_episode_is_downloaded(run: RunView, position: nat)
    requires
        run.wf(),
        position < run.verdicts.len(),
        !run.local.contains_key(run.verdicts[position as int].file_name),
    ensures
        run.enter_episode(position).pending_action() == (ActionView::Download {
            podcast: run.podcast,
            file_name: episode_file_name(
                run.podcasts[run.podcast as int].name,
                run.verdicts[position as int].episode.title,
            ),
            url: run.verdicts[position as int].episode.url,
        }),
{
}

/// A download that succeeds is followed by the transcoding of the same file,
/// and that by the stamping of the same file with the episode's publication
/// second; then the run turns to the next episode.
pub proof fn law_download_runs_through(run: RunView)
    requires
        run.wf(),
        run.stage == Stage::Downloading,
    ensures
        ({
            let verdict = run.verdicts[run.cursor as int];
            let downloaded = run.next(EventView::Done);
            let transcoded = downloaded.next(EventView::Done);
            let stamped = transcoded.next(EventView::Done);
            &&& run.pending_action() == ActionView::Download {
                podcast: run.podcast,
                file_name: verdict.file_name,
                url: verdict.episode.url,
            }
            &&& downloaded.pending_action() == ActionView::Transcode {
                podcast: run.podcast,
                file_name: verdict.file_name,
            }
            &&& transcoded.pending_action() == ActionView::Stamp {
                podcast: run.podcast,
                file_name: verdict.file_name,
                seconds: verdict.episode.pub_time,
            }
            &&& stamped == run.enter_episode(run.cursor + 1)
        }),
{
}

/// A run over one podcast set.
pub struct SyncRun {
    podcasts: Vec<Podcast>,
    local: LocalState,
    expected: ExpectedFiles,
    failures: Vec<SyncError>,
    stage: Stage,
    podcast: usize,
    verdicts: Vec<Verdict>,
    pending: Option<SyncError>,
    cursor: usize,
}

impl View for SyncRun {
    type V = RunView;

    closed spec fn view(&self) -> RunView {
        RunView {
            podcasts: self.podcasts.deep_view(),
            local: self.local@,
            scanned: self.local.names(),
            expected: self.expected@,
            failures: self.failures.deep_view(),
            stage: self.stage,
            podcast: self.podcast as nat,
            verdicts: self.verdicts.deep_view(),
            pending: self.pending.deep_view(),
            cursor: self.cursor as nat,
        }
    }
}

impl SyncRun {
    /// Every run is in a state that `RunView::wf` accepts.
    #[verifier::type_invariant]
    pub closed spec fn wf(&self) -> bool {
        self@.wf()
    }

    /// A run over the podcasts of `set`, against the files that a scan of the
    /// set's output directory found.
    pub fn new(set: PodcastSet, local: LocalState) -> (run: SyncRun)
        ensures
            run@ == RunView::start(set.podcasts.deep_view(), local@, local.names()),
            run@.wf(),
    {
        let stage = if set.podcasts.len() == 0 {
            Stage::Finished
        } else {
            Stage::Fetching
        };
        let run = SyncRun {
            podcasts: set.podcasts,
            local,
            expected: ExpectedFiles::new(),
            failures: Vec::new(),
            stage,
            podcast: 0,
            verdicts: Vec::new(),
            pending: None,
            cursor: 0,
        };
        assert(run@.failures =~= Seq::<SyncErrorView>::empty());
        assert(run@.verdicts =~= Seq::<VerdictView>::empty());
        run
    }

    /// The action that the run is waiting on.
    pub fn action(&self) -> (action: Action)
        ensures
            self@.wf(),
            action@ == self@.pending_action(),
    {
        proof {
            use_type_invariant(self);
        }
        match self.stage {
            Stage::Fetching => Action::Fetch {
                podcast: self.podcast,
                url: self.podcasts[self.podcast].url.clone(),
            },
            Stage::Keeping => Action::Keep {
                podcast: self.podcast,
                file_name: self.verdicts[self.cursor].file_name.clone(),
                seconds: self.verdicts[self.cursor].episode.pub_time,
            },
            Stage::Downloading => Action::Download {
                podcast: self.podcast,
                file_name: self.verdicts[self.cursor].file_name.clone(),
                url: self.verdicts[self.cursor].episode.url.clone(),
            },
            Stage::Transcoding => Action::Transcode {
                podcast: self.podcast,
                file_name: self.verdicts[self.cursor].file_name.clone(),
            },
            Stage::Stamping => Action::Stamp {
                podcast: self.podcast,
                file_name: self.verdicts[self.cursor].file_name.clone(),
                seconds: self.verdicts[self.cursor].episode.pub_time,
            },
            Stage::Finished => Action::Finish,
        }
    }

    fn enter_podcast(self, position: usize) -> (next: SyncRun)
        requires
            position <= self@.podcasts.len(),
        ensures
            next@ == self@.enter_podcast(position as nat),
    {
        proof {
            use_type_invariant(&self);
        }
        let SyncRun { podcasts, local, expected, failures, .. } = self;
        let stage = if position < podcasts.len() {
            Stage::Fetching
        } else {
            Stage::Finished
        };
        let next = SyncRun {
            podcasts,
            local,
            expected,
            failures,
            stage,
            podcast: position,
            verdicts: Vec::new(),
            pending: None,
            cursor: 0,
        };
        assert(next@.verdicts =~= Seq::<VerdictView>::empty());
        next
    }

    fn record(self, error: SyncError) -> (next: SyncRun)
        ensures
            next@ == self@.record(error@),
    {
        proof {
            use_type_invariant(&self);
        }
        let SyncRun {
            podcasts,
            local,
            expected,
            mut failures,
            stage,
            podcast,
            verdicts,
            pending,
            cursor,
        } = self;
        let ghost before = failures.deep_view();
        failures.push(error);
        assert(failures.deep_view() =~= before.push(error@));
        SyncRun { podcasts, local, expected, failures, stage, podcast, verdicts, pending, cursor }
    }

    fn leave_podcast(self) -> (next: SyncRun)
        requires
            self@.podcast < self@.podcasts.len(),
        ensures
            next@ == self@.leave_podcast(),
    {
        proof {
            use_type_invariant(&self);
        }
        let SyncRun { podcasts, local, expected, mut failures, podcast, pending, .. } = self;
        assert(podcasts.deep_view().len() == podcasts.len());
        let ghost before = failures.deep_view();
        match pending {
            Some(error) => {
                failures.push(error);
                assert(failures.deep_view() =~= before.push(error@));
            },
            None => {},
        }
        let position = podcast + 1;
        let stage = if position < podcasts.len() {
            Stage::Fetching
        } else {
            Stage::Finished
        };
        let next = SyncRun {
            podcasts,
            local,
            expected,
            failures,
            stage,
            podcast: position,
            verdicts: Vec::new(),
            pending: None,
            cursor: 0,
        };
        assert(next@.verdicts =~= Seq::<VerdictView>::empty());
        next
    }

    fn enter_episode(self, position: usize) -> (next: SyncRun)
        requires
            self@.podcast < self@.podcasts.len(),
        ensures
            next@ == self@.enter_episode(position as nat),
    {
        proof {
            use_type_invariant(&self);
        }
        if position < self.verdicts.len() {
            let stage = if self.verdicts[position].freshness.must_download() {
                Stage::Downloading
            } else {
                Stage::Keeping
            };
            let SyncRun { podcasts, local, expected, failures, podcast, verdicts, pending, .. } =
                self;
            SyncRun {
                podcasts,
                local,
                expected,
                failures,
                stage,
                podcast,
                verdicts,
                pending,
                cursor: position,
            }
        } else {
            self.leave_podcast()
        }
    }

    fn take_plan(self, verdicts: Vec<Verdict>, pending: Option<SyncError>) -> (next: SyncRun)
        requires
            self@.podcast < self@.podcasts.len(),
            self@.stage == Stage::Fetching,
            verdicts.len() <= self@.podcasts[self@.podcast as int].keep_latest,
            forall|i: int|
                0 <= i < verdicts.len() ==> (#[trigger] verdicts[i])@ == verdict_of(
                    self@.podcasts[self@.podcast as int].name,
                    verdicts[i]@.episode,
                    self@.local,
                ),
        ensures
            next@ == self@.take_plan(
                PlanView { verdicts: verdicts.deep_view(), error: pending.deep_view() },
            ),
    {
        proof {
            use_type_invariant(&self);
        }
        let SyncRun { podcasts, local, mut expected, failures, stage, podcast, cursor, .. } =
            self;
        let ghost names = file_names(verdicts.deep_view());
        let ghost before = expected@;
        let mut i: usize = 0;
        while i < verdicts.len()
            invariant
                i <= verdicts.len(),
                names == file_names(verdicts.deep_view()),
                expected@ == before.union(names.take(i as int).to_set()),
            decreases verdicts.len() - i,
        {
            proof {
                let name = verdicts[i as int]@.file_name;
                assert(names.take(i + 1) =~= names.take(i as int).push(name));
                names.take(i as int).lemma_push_to_set_commute(name);
            }
            expected.insert(verdicts[i].file_name.clone());
            i += 1;
        }
        proof {
            assert(names.take(verdicts.len() as int) =~= names);
            assert forall|j: int| 0 <= j < verdicts.len() implies expected@.contains(
                #[trigger] verdicts.deep_view()[j].file_name,
            ) by {
                assert(names[j] == verdicts.deep_view()[j].file_name);
                assert(names.to_set().contains(names[j]));
            }
        }
        SyncRun { podcasts, local, expected, failures, stage, podcast, verdicts, pending, cursor }
    }

    fn advance(self, event: Event) -> (next: SyncRun)
        ensures
            next@ == self@.next(event@),
    {
        proof {
            use_type_invariant(&self);
            assert(self.podcasts.deep_view().len() == self.podcasts.len());
        }
        match self.stage {
            Stage::Fetching => match event {
                Event::Feed(items) => {
                    let plan = reconcile(&self.podcasts[self.podcast], &items, &self.local);
                    proof {
                        let podcast = self@.podcasts[self@.podcast as int];
                        assert(podcast == self.podcasts[self.podcast as int]@);
                        let entries = window(items.deep_view(), podcast.keep_latest);
                        lemma_first_invalid(podcast.name, entries, 0);
                        assert forall|i: int| 0 <= i < plan.verdicts.len() implies (
                        #[trigger] plan.verdicts[i])@ == verdict_of(
                            podcast.name,
                            plan.verdicts[i]@.episode,
                            self@.local,
                        ) by {
                            assert(plan.verdicts[i]@ == plan@.verdicts[i]);
                        }
                    }
                    self.take_plan(plan.verdicts, plan.error).enter_episode(0)
                },
                Event::Unreadable => {
                    let error = SyncError::Parse {
                        podcast: self.podcasts[self.podcast].name.clone(),
                    };
                    let position = self.podcast + 1;
                    self.record(error).enter_podcast(position)
                },
                Event::FetchFailed => {
                    let error = SyncError::Fetch {
                        podcast: self.podcasts[self.podcast].name.clone(),
                        url: self.podcasts[self.podcast].url.clone(),
                    };
                    let position = self.podcast + 1;
                    self.record(error).enter_podcast(position)
                },
                _ => self,
            },
            Stage::Keeping => match event {
                Event::Done => {
                    let position = self.cursor + 1;
                    self.enter_episode(position)
                },
                _ => self,
            },
            Stage::Downloading => match event {
                Event::Done => self.turn_to(Stage::Transcoding),
                Event::Failed => {
                    let error = SyncError::Download {
                        file_name: self.verdicts[self.cursor].file_name.clone(),
                    };
                    let position = self.cursor + 1;
                    self.record(error).enter_episode(position)
                },
                _ => self,
            },
            Stage::Transcoding => match event {
                Event::Done => self.turn_to(Stage::Stamping),
                Event::Failed => {
                    let error = SyncError::Transcode {
                        file_name: self.verdicts[self.cursor].file_name.clone(),
                    };
                    let position = self.cursor + 1;
                    self.record(error).enter_episode(position)
                },
                _ => self,
            },
            Stage::Stamping => match event {
                Event::Done => {
                    let position = self.cursor + 1;
                    self.enter_episode(position)
                },
                Event::Failed => {
                    let error = SyncError::Stamp {
                        file_name: self.verdicts[self.cursor].file_name.clone(),
                    };
                    let position = self.cursor + 1;
                    self.record(error).enter_episode(position)
                },
                _ => self,
            },
            Stage::Finished => self,
        }
    }

    fn turn_to(self, stage: Stage) -> (next: SyncRun)
        requires
            self@.stage == Stage::Downloading || self@.stage == Stage::Transcoding,
            stage == Stage::Transcoding || stage == Stage::Stamping,
        ensures
            next@ == (RunView { stage, ..self@ }),
    {
        proof {
            use_type_invariant(&self);
        }
        let SyncRun {
            podcasts,
            local,
            expected,
            failures,
            podcast,
            verdicts,
            pending,
            cursor,
            ..
        } = self;
        SyncRun { podcasts, local, expected, failures, stage, podcast, verdicts, pending, cursor }
    }

    /// Takes in how the pending action ended and names the next action.
    pub fn step(self, event: Event) -> (next: (SyncRun, Action))
        ensures
            next.0@ == self@.next(event@),
            next.0@.wf(),
            next.1@ == next.0@.pending_action(),
    {
        let run = self.advance(event);
        let action = run.action();
        (run, action)
    }

    /// What the run is waiting for.
    pub fn stage(&self) -> (stage: Stage)
        ensures
            stage == self@.stage,
    {
        self.stage
    }

    /// Tells whether every podcast has been gone through.
    pub fn is_finished(&self) -> (finished: bool)
        ensures
            finished == (self@.stage == Stage::Finished),
    {
        self.stage == Stage::Finished
    }

    /// What went wrong so far, in the order in which it happened.
    pub fn failures(&self) -> (failures: &Vec<SyncError>)
        ensures
            failures.deep_view() == self@.failures,
    {
        &self.failures
    }

    /// Tells whether a file of that name should exist once the run is over.
    pub fn expects(&self, file_name: &str) -> (expected: bool)
        ensures
            expected == self@.expected.contains(file_name@),
    {
        self.expected.contains(file_name)
    }

    /// The local files that no episode in any window accounts for so far, in
    /// the order of the scan. After the last podcast these are the candidates
    /// for deletion; the run deletes nothing.
    pub fn stale_files(&self) -> (stale: Vec<String>)
        ensures
            texts(stale@) == stale_names(self@.scanned, self@.expected),
    {
        stale_files(&self.local, &self.expected)
    }
}

} // verus!
