use media_sync::sanitize::{fat32_sanitize, is_safe, podcast_file_name};

#[test]
fn sanitize_drops_punctuation() {
    assert_eq!(fat32_sanitize("Show: Part #1?!"), "Show Part 1");
}

#[test]
fn sanitize_of_empty_text_is_empty() {
    assert_eq!(fat32_sanitize(""), "");
}

#[test]
fn sanitize_keeps_every_safe_character() {
    let safe = "abcdefghijklmnopqrstuvwxyzABCDEFGHIJKLMNOPQRSTUVWXYZ0123456789 -_.";
    assert_eq!(fat32_sanitize(safe), safe);
}

#[test]
fn sanitize_keeps_case_and_repeated_spaces() {
    assert_eq!(fat32_sanitize("A  b   C"), "A  b   C");
    assert_eq!(fat32_sanitize(" lead and trail "), " lead and trail ");
}

#[test]
fn sanitize_drops_path_separators_and_quotes() {
    assert_eq!(fat32_sanitize("a/b\\c\"d'e*f<g>h|i"), "abcdefghi");
}

#[test]
fn sanitize_drops_characters_outside_ascii() {
    assert_eq!(fat32_sanitize("Caf\u{e9} \u{1f3a7} na\u{ef}ve"), "Caf  nave");
    assert_eq!(fat32_sanitize("\u{65e5}\u{672c}\u{8a9e}"), "");
}

#[test]
fn sanitize_drops_control_characters() {
    assert_eq!(fat32_sanitize("a\tb\nc\r\u{0}d"), "abcd");
}

#[test]
fn sanitize_twice_is_sanitize_once() {
    let samples = [
        "Show: Part #1?!",
        "",
        "plain",
        "..--__  ",
        "\u{e9}t\u{e9} 2024: le d\u{e9}but",
        "a/b/c.mp3",
    ];
    for sample in samples {
        let once = fat32_sanitize(sample);
        assert_eq!(fat32_sanitize(&once), once);
    }
}

#[test]
fn is_safe_accepts_the_edges_of_each_range() {
    for kept in ['0', '9', 'a', 'z', 'A', 'Z', ' ', '-', '_', '.'] {
        assert!(is_safe(kept));
    }
    for dropped in ['/', ':', '@', '[', '`', '{', ',', '+', '\u{e9}', '\n'] {
        assert!(!is_safe(dropped));
    }
}

#[test]
fn file_name_joins_podcast_and_title() {
    assert_eq!(podcast_file_name("My Show", "Ep1"), "My Show - Ep1.mp3");
}

#[test]
fn file_name_sanitizes_both_parts() {
    assert_eq!(
        podcast_file_name("News/Hour", "Show: Part #1?!"),
        "NewsHour - Show Part 1.mp3"
    );
}

#[test]
fn file_name_of_nothing_safe_is_degenerate() {
    assert_eq!(podcast_file_name("???", "!!!"), " - .mp3");
    assert_eq!(podcast_file_name("", ""), " - .mp3");
}

#[test]
fn file_name_is_the_same_for_titles_that_sanitize_alike() {
    assert_eq!(podcast_file_name("P", "Ep: 1"), podcast_file_name("P", "Ep 1"));
}
