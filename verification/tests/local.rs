use media_sync::local::{stale_files, ExpectedFiles, LocalState, ScanEntry};

fn entry(name: &str, regular: bool, mtime: i64) -> ScanEntry {
    ScanEntry { name: name.to_string(), regular, mtime }
}

#[test]
fn empty_scan_knows_no_file() {
    let local = LocalState::new();
    assert_eq!(local.len(), 0);
    assert_eq!(local.lookup("My Show - Ep1.mp3"), None);
    assert!(local.file_names().is_empty());
}

#[test]
fn record_then_lookup_gives_the_second() {
    let local = LocalState::new().record("My Show - Ep1.mp3".to_string(), 1704067200);
    assert_eq!(local.lookup("My Show - Ep1.mp3"), Some(1704067200));
    assert_eq!(local.lookup("My Show - Ep2.mp3"), None);
    assert_eq!(local.lookup("my show - ep1.mp3"), None);
    assert_eq!(local.len(), 1);
}

#[test]
fn record_again_replaces_the_second_and_keeps_the_place() {
    let local = LocalState::new()
        .record("a.mp3".to_string(), 1)
        .record("b.mp3".to_string(), 2)
        .record("a.mp3".to_string(), 3);
    assert_eq!(local.lookup("a.mp3"), Some(3));
    assert_eq!(local.lookup("b.mp3"), Some(2));
    assert_eq!(local.len(), 2);
    assert_eq!(local.file_names(), &vec!["a.mp3".to_string(), "b.mp3".to_string()]);
}

#[test]
fn record_takes_negative_seconds() {
    let local = LocalState::new().record("old.mp3".to_string(), -5);
    assert_eq!(local.lookup("old.mp3"), Some(-5));
}

#[test]
fn scan_leaves_out_what_is_no_regular_file() {
    let local = LocalState::of_scan(vec![
        entry("b.mp3", true, 20),
        entry("subdir", false, 30),
        entry("a.mp3", true, 10),
        entry("socket", false, 40),
    ]);
    assert_eq!(local.len(), 2);
    assert_eq!(local.lookup("a.mp3"), Some(10));
    assert_eq!(local.lookup("b.mp3"), Some(20));
    assert_eq!(local.lookup("subdir"), None);
    assert_eq!(local.lookup("socket"), None);
    assert_eq!(local.file_names(), &vec!["b.mp3".to_string(), "a.mp3".to_string()]);
}

#[test]
fn scan_of_an_empty_directory_is_empty() {
    let local = LocalState::of_scan(vec![]);
    assert_eq!(local.len(), 0);
}

#[test]
fn scan_with_a_name_twice_keeps_the_later_second() {
    let local = LocalState::of_scan(vec![
        entry("a.mp3", true, 10),
        entry("b.mp3", true, 20),
        entry("a.mp3", true, 30),
    ]);
    assert_eq!(local.lookup("a.mp3"), Some(30));
    assert_eq!(local.file_names(), &vec!["a.mp3".to_string(), "b.mp3".to_string()]);
}

#[test]
fn expected_files_hold_each_name_once() {
    let mut expected = ExpectedFiles::new();
    assert!(!expected.contains("a.mp3"));
    expected.insert("a.mp3".to_string());
    expected.insert("a.mp3".to_string());
    assert!(expected.contains("a.mp3"));
    assert!(!expected.contains("b.mp3"));
}

#[test]
fn stale_files_are_the_local_files_nobody_expects() {
    let local = LocalState::new()
        .record("old 1.mp3".to_string(), 1)
        .record("kept.mp3".to_string(), 2)
        .record("old 2.mp3".to_string(), 3);
    let mut expected = ExpectedFiles::new();
    expected.insert("kept.mp3".to_string());
    expected.insert("new.mp3".to_string());
    assert_eq!(
        stale_files(&local, &expected),
        vec!["old 1.mp3".to_string(), "old 2.mp3".to_string()]
    );
}

#[test]
fn stale_files_of_nothing_expected_are_all_local_files() {
    let local = LocalState::new().record("a".to_string(), 1).record("b".to_string(), 2);
    let expected = ExpectedFiles::new();
    assert_eq!(stale_files(&local, &expected), vec!["a".to_string(), "b".to_string()]);
}

#[test]
fn stale_files_of_an_empty_directory_are_none() {
    let mut expected = ExpectedFiles::new();
    expected.insert("a".to_string());
    assert!(stale_files(&LocalState::new(), &expected).is_empty());
}
