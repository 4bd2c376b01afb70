use media_sync::config::{Podcast, PodcastSet};
use media_sync::error::SyncError;
use media_sync::feed::FeedItem;
use media_sync::local::LocalState;
use media_sync::run::{Action, Event, Stage, SyncRun};

const JAN_1: i64 = 1704067200;
const JAN_2: i64 = 1704153600;

fn podcast(name: &str, keep_latest: usize) -> Podcast {
    Podcast { name: name.to_string(), url: format!("http://example.com/{}.xml", name), keep_latest }
}

fn set_of(podcasts: Vec<Podcast>) -> PodcastSet {
    PodcastSet { name: "Podcasts".to_string(), podcasts }
}

fn episode(title: &str, date: &str) -> FeedItem {
    FeedItem {
        title: Some(title.to_string()),
        pub_date: Some(date.to_string()),
        enclosure_url: Some(format!("http://example.com/{}.mp3", title)),
    }
}

fn numbered(count: u32) -> Vec<FeedItem> {
    (1..=count)
        .map(|n| episode(&format!("Ep{}", n), &format!("{:02} Jan 2024 00:00:00 GMT", 31 - n)))
        .collect()
}

/// What a scripted caller did while it drove a run to its end.
struct Trace {
    fetched: Vec<String>,
    kept: Vec<String>,
    downloaded: Vec<String>,
    transcoded: Vec<String>,
    stamped: Vec<(String, i64)>,
}

/// Drives a run to its end. Each podcast's feed is answered from `feeds`, by
/// position; the download of a file named in `failing` fails.
fn drive(run: SyncRun, feeds: &[Event], failing: &[&str]) -> (SyncRun, Trace) {
    let mut trace = Trace {
        fetched: vec![],
        kept: vec![],
        downloaded: vec![],
        transcoded: vec![],
        stamped: vec![],
    };
    let mut action = run.action();
    let mut run = run;
    for _ in 0..1000 {
        let event = match action {
            Action::Fetch { podcast, url } => {
                trace.fetched.push(url);
                feeds[podcast].clone()
            }
            Action::Keep { file_name, .. } => {
                trace.kept.push(file_name);
                Event::Done
            }
            Action::Download { file_name, .. } => {
                if failing.contains(&file_name.as_str()) {
                    Event::Failed
                } else {
                    trace.downloaded.push(file_name);
                    Event::Done
                }
            }
            Action::Transcode { file_name, .. } => {
                trace.transcoded.push(file_name);
                Event::Done
            }
            Action::Stamp { file_name, seconds, .. } => {
                trace.stamped.push((file_name, seconds));
                Event::Done
            }
            Action::Finish => return (run, trace),
        };
        let next = run.step(event);
        run = next.0;
        action = next.1;
    }
    panic!("the run did not end");
}

#[test]
fn five_episodes_keep_two_downloads_the_first_two() {
    let run = SyncRun::new(set_of(vec![podcast("My Show", 2)]), LocalState::new());
    let (run, trace) = drive(run, &[Event::Feed(numbered(5))], &[]);
    assert_eq!(trace.fetched, vec!["http://example.com/My Show.xml"]);
    assert_eq!(trace.downloaded, vec!["My Show - Ep1.mp3", "My Show - Ep2.mp3"]);
    assert_eq!(trace.transcoded, vec!["My Show - Ep1.mp3", "My Show - Ep2.mp3"]);
    assert_eq!(
        trace.stamped,
        vec![
            ("My Show - Ep1.mp3".to_string(), JAN_1 + 29 * 86400),
            ("My Show - Ep2.mp3".to_string(), JAN_1 + 28 * 86400),
        ]
    );
    assert!(trace.kept.is_empty());
    assert!(run.is_finished());
    assert!(run.failures().is_empty());
    assert!(run.expects("My Show - Ep1.mp3"));
    assert!(run.expects("My Show - Ep2.mp3"));
    assert!(!run.expects("My Show - Ep3.mp3"));
    assert!(!run.expects("My Show - Ep4.mp3"));
    assert!(!run.expects("My Show - Ep5.mp3"));
}

#[test]
fn a_file_of_the_same_second_is_not_downloaded() {
    let local = LocalState::new().record("My Show - Ep1.mp3".to_string(), JAN_1);
    let run = SyncRun::new(set_of(vec![podcast("My Show", 3)]), local);
    let feed = Event::Feed(vec![episode("Ep1", "Mon, 01 Jan 2024 00:00:00 GMT")]);
    let (run, trace) = drive(run, &[feed], &[]);
    assert!(trace.downloaded.is_empty());
    assert!(trace.transcoded.is_empty());
    assert!(trace.stamped.is_empty());
    assert_eq!(trace.kept, vec!["My Show - Ep1.mp3"]);
    assert!(run.failures().is_empty());
    assert!(run.expects("My Show - Ep1.mp3"));
    assert!(run.stale_files().is_empty());
}

#[test]
fn a_file_of_another_second_is_downloaded_again() {
    let local = LocalState::new().record("My Show - Ep1.mp3".to_string(), JAN_1);
    let run = SyncRun::new(set_of(vec![podcast("My Show", 3)]), local);
    let feed = Event::Feed(vec![episode("Ep1", "Tue, 02 Jan 2024 00:00:00 GMT")]);
    let (run, trace) = drive(run, &[feed], &[]);
    assert_eq!(trace.downloaded, vec!["My Show - Ep1.mp3"]);
    assert_eq!(trace.transcoded, vec!["My Show - Ep1.mp3"]);
    assert_eq!(trace.stamped, vec![("My Show - Ep1.mp3".to_string(), JAN_2)]);
    assert!(trace.kept.is_empty());
    assert!(run.failures().is_empty());
}

#[test]
fn a_missing_date_fails_one_podcast_and_not_its_sibling() {
    let mut undated = episode("Ep1", "");
    undated.pub_date = None;
    let set = set_of(vec![podcast("Broken", 2), podcast("Sound", 2)]);
    let run = SyncRun::new(set, LocalState::new());
    let feeds = [
        Event::Feed(vec![undated]),
        Event::Feed(vec![episode("Ep1", "Mon, 01 Jan 2024 00:00:00 GMT")]),
    ];
    let (run, trace) = drive(run, &feeds, &[]);
    assert_eq!(
        run.failures(),
        &vec![SyncError::MissingPubDate {
            podcast: "Broken".to_string(),
            title: "Ep1".to_string(),
        }]
    );
    assert_eq!(
        run.failures()[0].message(),
        "Podcast Broken episode Ep1 doesn't have pub date"
    );
    assert_eq!(
        trace.fetched,
        vec!["http://example.com/Broken.xml", "http://example.com/Sound.xml"]
    );
    assert_eq!(trace.downloaded, vec!["Sound - Ep1.mp3"]);
    assert_eq!(trace.stamped, vec![("Sound - Ep1.mp3".to_string(), JAN_1)]);
    assert!(run.is_finished());
}

#[test]
fn a_new_episode_is_downloaded_once_under_its_canonical_name() {
    let local = LocalState::new().record("My Show - Old.mp3".to_string(), JAN_1);
    let run = SyncRun::new(set_of(vec![podcast("My Show", 1)]), local);
    let feed = Event::Feed(vec![episode("New: One!", "Tue, 02 Jan 2024 00:00:00 GMT")]);
    let (run, trace) = drive(run, &[feed], &[]);
    assert_eq!(trace.downloaded, vec!["My Show - New One.mp3"]);
    assert_eq!(trace.stamped, vec![("My Show - New One.mp3".to_string(), JAN_2)]);
    assert_eq!(run.stale_files(), vec!["My Show - Old.mp3".to_string()]);
}

#[test]
fn a_second_run_after_the_stamps_downloads_nothing() {
    let set = set_of(vec![podcast("A", 2), podcast("B", 1)]);
    let feeds = [Event::Feed(numbered(3)), Event::Feed(numbered(2))];
    let (_, first) = drive(SyncRun::new(set.clone(), LocalState::new()), &feeds, &[]);
    assert_eq!(first.downloaded, vec!["A - Ep1.mp3", "A - Ep2.mp3", "B - Ep1.mp3"]);
    let mut local = LocalState::new();
    for (file_name, seconds) in &first.stamped {
        local = local.record(file_name.clone(), *seconds);
    }
    let (run, second) = drive(SyncRun::new(set, local), &feeds, &[]);
    assert!(second.downloaded.is_empty());
    assert!(second.transcoded.is_empty());
    assert!(second.stamped.is_empty());
    assert_eq!(second.kept, vec!["A - Ep1.mp3", "A - Ep2.mp3", "B - Ep1.mp3"]);
    assert!(run.failures().is_empty());
    assert!(run.stale_files().is_empty());
}

#[test]
fn a_run_over_no_podcast_is_over_at_once() {
    let run = SyncRun::new(set_of(vec![]), LocalState::new());
    assert_eq!(run.stage(), Stage::Finished);
    assert_eq!(run.action(), Action::Finish);
    let (run, action) = run.step(Event::Done);
    assert_eq!(action, Action::Finish);
    assert!(run.is_finished());
}

#[test]
fn the_first_action_fetches_the_first_feed() {
    let run = SyncRun::new(set_of(vec![podcast("A", 1), podcast("B", 1)]), LocalState::new());
    assert_eq!(run.stage(), Stage::Fetching);
    assert_eq!(
        run.action(),
        Action::Fetch { podcast: 0, url: "http://example.com/A.xml".to_string() }
    );
}

#[test]
fn the_pipeline_goes_download_transcode_stamp() {
    let run = SyncRun::new(set_of(vec![podcast("A", 1)]), LocalState::new());
    let feed = Event::Feed(vec![episode("Ep1", "Mon, 01 Jan 2024 00:00:00 GMT")]);
    let (run, action) = run.step(feed);
    assert_eq!(run.stage(), Stage::Downloading);
    assert_eq!(
        action,
        Action::Download {
            podcast: 0,
            file_name: "A - Ep1.mp3".to_string(),
            url: "http://example.com/Ep1.mp3".to_string(),
        }
    );
    let (run, action) = run.step(Event::Done);
    assert_eq!(run.stage(), Stage::Transcoding);
    assert_eq!(action, Action::Transcode { podcast: 0, file_name: "A - Ep1.mp3".to_string() });
    let (run, action) = run.step(Event::Done);
    assert_eq!(run.stage(), Stage::Stamping);
    assert_eq!(
        action,
        Action::Stamp { podcast: 0, file_name: "A - Ep1.mp3".to_string(), seconds: JAN_1 }
    );
    let (run, action) = run.step(Event::Done);
    assert_eq!(run.stage(), Stage::Finished);
    assert_eq!(action, Action::Finish);
}

#[test]
fn an_up_to_date_episode_is_kept() {
    let local = LocalState::new().record("A - Ep1.mp3".to_string(), JAN_1);
    let run = SyncRun::new(set_of(vec![podcast("A", 1)]), local);
    let feed = Event::Feed(vec![episode("Ep1", "Mon, 01 Jan 2024 00:00:00 GMT")]);
    let (run, action) = run.step(feed);
    assert_eq!(run.stage(), Stage::Keeping);
    assert_eq!(
        action,
        Action::Keep { podcast: 0, file_name: "A - Ep1.mp3".to_string(), seconds: JAN_1 }
    );
    let (run, action) = run.step(Event::Done);
    assert_eq!(action, Action::Finish);
    assert!(run.is_finished());
}

#[test]
fn a_failed_download_is_recorded_and_the_next_episode_goes_on() {
    let run = SyncRun::new(set_of(vec![podcast("A", 3)]), LocalState::new());
    let (run, trace) = drive(run, &[Event::Feed(numbered(3))], &["A - Ep2.mp3"]);
    assert_eq!(trace.downloaded, vec!["A - Ep1.mp3", "A - Ep3.mp3"]);
    assert_eq!(trace.transcoded, vec!["A - Ep1.mp3", "A - Ep3.mp3"]);
    assert_eq!(
        run.failures(),
        &vec![SyncError::Download { file_name: "A - Ep2.mp3".to_string() }]
    );
    assert!(run.expects("A - Ep2.mp3"));
}

#[test]
fn a_failed_transcoding_is_recorded_and_nothing_is_stamped() {
    let run = SyncRun::new(set_of(vec![podcast("A", 1)]), LocalState::new());
    let feed = Event::Feed(vec![episode("Ep1", "Mon, 01 Jan 2024 00:00:00 GMT")]);
    let (run, _) = run.step(feed);
    let (run, _) = run.step(Event::Done);
    let (run, action) = run.step(Event::Failed);
    assert_eq!(action, Action::Finish);
    assert_eq!(
        run.failures(),
        &vec![SyncError::Transcode { file_name: "A - Ep1.mp3".to_string() }]
    );
}

#[test]
fn a_failed_stamp_is_recorded() {
    let run = SyncRun::new(set_of(vec![podcast("A", 1)]), LocalState::new());
    let feed = Event::Feed(vec![episode("Ep1", "Mon, 01 Jan 2024 00:00:00 GMT")]);
    let (run, _) = run.step(feed);
    let (run, _) = run.step(Event::Done);
    let (run, _) = run.step(Event::Done);
    let (run, action) = run.step(Event::Failed);
    assert_eq!(action, Action::Finish);
    assert_eq!(run.failures(), &vec![SyncError::Stamp { file_name: "A - Ep1.mp3".to_string() }]);
}

#[test]
fn a_feed_that_cannot_be_fetched_fails_its_podcast_only() {
    let run = SyncRun::new(set_of(vec![podcast("A", 1), podcast("B", 1)]), LocalState::new());
    let feeds = [Event::FetchFailed, Event::Feed(numbered(1))];
    let (run, trace) = drive(run, &feeds, &[]);
    assert_eq!(
        run.failures(),
        &vec![SyncError::Fetch {
            podcast: "A".to_string(),
            url: "http://example.com/A.xml".to_string(),
        }]
    );
    assert_eq!(trace.downloaded, vec!["B - Ep1.mp3"]);
}

#[test]
fn a_document_that_is_no_feed_fails_its_podcast_only() {
    let run = SyncRun::new(set_of(vec![podcast("A", 1), podcast("B", 1)]), LocalState::new());
    let feeds = [Event::of_document(b"<html></html>"), Event::Feed(numbered(1))];
    assert_eq!(feeds[0], Event::Unreadable);
    let (run, trace) = drive(run, &feeds, &[]);
    assert_eq!(run.failures(), &vec![SyncError::Parse { podcast: "A".to_string() }]);
    assert_eq!(trace.downloaded, vec!["B - Ep1.mp3"]);
}

#[test]
fn a_fetched_document_becomes_the_feed_event() {
    let document = "<rss version=\"2.0\"><channel><title>A</title>\
<item><title>Ep1</title><pubDate>Mon, 01 Jan 2024 00:00:00 GMT</pubDate>\
<enclosure url=\"http://example.com/Ep1.mp3\" length=\"1\" type=\"audio/mpeg\"/></item>\
</channel></rss>";
    assert_eq!(
        Event::of_document(document.as_bytes()),
        Event::Feed(vec![episode("Ep1", "Mon, 01 Jan 2024 00:00:00 GMT")])
    );
    let run = SyncRun::new(set_of(vec![podcast("A", 1)]), LocalState::new());
    let (_, trace) = drive(run, &[Event::of_document(document.as_bytes())], &[]);
    assert_eq!(trace.stamped, vec![("A - Ep1.mp3".to_string(), JAN_1)]);
}

#[test]
fn episodes_before_an_invalid_entry_are_still_handled() {
    let mut bare = episode("Ep2", "Mon, 01 Jan 2024 00:00:00 GMT");
    bare.enclosure_url = None;
    let items = vec![episode("Ep3", "Tue, 02 Jan 2024 00:00:00 GMT"), bare, numbered(1).remove(0)];
    let run = SyncRun::new(set_of(vec![podcast("A", 3)]), LocalState::new());
    let (run, trace) = drive(run, &[Event::Feed(items)], &[]);
    assert_eq!(trace.downloaded, vec!["A - Ep3.mp3"]);
    assert_eq!(
        run.failures(),
        &vec![SyncError::MissingEnclosure { podcast: "A".to_string(), title: "Ep2".to_string() }]
    );
    assert!(run.expects("A - Ep3.mp3"));
    assert!(!run.expects("A - Ep2.mp3"));
    assert!(!run.expects("A - Ep1.mp3"));
}

#[test]
fn failures_come_in_the_order_in_which_they_happened() {
    let mut untitled = numbered(1).remove(0);
    untitled.title = None;
    let items = vec![numbered(1).remove(0), untitled];
    let set = set_of(vec![podcast("A", 2), podcast("B", 1), podcast("C", 1)]);
    let feeds = [Event::Feed(items), Event::FetchFailed, Event::Unreadable];
    let (run, _) = drive(SyncRun::new(set, LocalState::new()), &feeds, &["A - Ep1.mp3"]);
    assert_eq!(
        run.failures(),
        &vec![
            SyncError::Download { file_name: "A - Ep1.mp3".to_string() },
            SyncError::MissingTitle { podcast: "A".to_string() },
            SyncError::Fetch {
                podcast: "B".to_string(),
                url: "http://example.com/B.xml".to_string(),
            },
            SyncError::Parse { podcast: "C".to_string() },
        ]
    );
}

#[test]
fn an_event_that_answers_nothing_changes_nothing() {
    let run = SyncRun::new(set_of(vec![podcast("A", 1)]), LocalState::new());
    let fetch = run.action();
    let (run, action) = run.step(Event::Done);
    assert_eq!(action, fetch);
    let (run, action) = run.step(Event::Failed);
    assert_eq!(action, fetch);
    assert_eq!(run.stage(), Stage::Fetching);
    let (run, download) = run.step(Event::Feed(numbered(1)));
    assert_eq!(run.stage(), Stage::Downloading);
    let (run, action) = run.step(Event::FetchFailed);
    assert_eq!(action, download);
    let (run, action) = run.step(Event::Feed(numbered(3)));
    assert_eq!(action, download);
    let (run, action) = run.step(Event::Unreadable);
    assert_eq!(action, download);
    assert_eq!(run.stage(), Stage::Downloading);
    assert!(run.failures().is_empty());
}

#[test]
fn a_kept_episode_does_not_answer_to_a_failure() {
    let local = LocalState::new().record("A - Ep1.mp3".to_string(), JAN_1 + 29 * 86400);
    let run = SyncRun::new(set_of(vec![podcast("A", 1)]), local);
    let (run, keep) = run.step(Event::Feed(numbered(1)));
    assert_eq!(run.stage(), Stage::Keeping);
    let (run, action) = run.step(Event::Failed);
    assert_eq!(action, keep);
    assert_eq!(run.stage(), Stage::Keeping);
}

#[test]
fn a_finished_run_stays_finished() {
    let run = SyncRun::new(set_of(vec![podcast("A", 1)]), LocalState::new());
    let (run, _) = run.step(Event::FetchFailed);
    assert!(run.is_finished());
    let (run, action) = run.step(Event::Feed(numbered(2)));
    assert_eq!(action, Action::Finish);
    assert!(run.is_finished());
    assert_eq!(run.failures().len(), 1);
}

#[test]
fn keep_latest_zero_fetches_the_feed_and_downloads_nothing() {
    let run = SyncRun::new(set_of(vec![podcast("A", 0)]), LocalState::new());
    let (run, trace) = drive(run, &[Event::Feed(numbered(4))], &[]);
    assert_eq!(trace.fetched.len(), 1);
    assert!(trace.downloaded.is_empty());
    assert!(!run.expects("A - Ep1.mp3"));
}

#[test]
fn stale_files_are_what_no_window_accounts_for() {
    let local = LocalState::new()
        .record("A - Ep1.mp3".to_string(), JAN_1 + 29 * 86400)
        .record("A - Ep9.mp3".to_string(), JAN_1)
        .record("B - Ep1.mp3".to_string(), 5)
        .record("notes.txt".to_string(), 7);
    let set = set_of(vec![podcast("A", 1), podcast("B", 1)]);
    let feeds = [Event::Feed(numbered(3)), Event::Feed(numbered(3))];
    let (run, trace) = drive(SyncRun::new(set, local), &feeds, &[]);
    assert_eq!(trace.kept, vec!["A - Ep1.mp3"]);
    assert_eq!(trace.downloaded, vec!["B - Ep1.mp3"]);
    assert_eq!(run.stale_files(), vec!["A - Ep9.mp3".to_string(), "notes.txt".to_string()]);
}

#[test]
fn two_episodes_of_one_name_are_both_judged_against_the_scan() {
    let items = vec![
        episode("Ep: 1", "Tue, 02 Jan 2024 00:00:00 GMT"),
        episode("Ep 1", "Mon, 01 Jan 2024 00:00:00 GMT"),
    ];
    let local = LocalState::new().record("A - Ep 1.mp3".to_string(), JAN_1);
    let (run, trace) =
        drive(SyncRun::new(set_of(vec![podcast("A", 2)]), local), &[Event::Feed(items)], &[]);
    assert_eq!(trace.downloaded, vec!["A - Ep 1.mp3"]);
    assert_eq!(trace.stamped, vec![("A - Ep 1.mp3".to_string(), JAN_2)]);
    assert_eq!(trace.kept, vec!["A - Ep 1.mp3"]);
    assert!(run.failures().is_empty());
}
