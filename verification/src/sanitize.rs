//! File names that are safe on a FAT32 volume.

use vstd::prelude::*;

verus! {

/// The characters that survive sanitizing: ASCII letters and digits, space,
/// hyphen, underscore and period.
pub open spec fn is_safe_char(c: char) -> bool {
    ||| '0' <= c <= '9'
    ||| 'a' <= c <= 'z'
    ||| 'A' <= c <= 'Z'
    ||| c == ' '
    ||| c == '-'
    ||| c == '_'
    ||| c == '.'
}

/// The safe set as a predicate on characters.
pub open spec fn safe_chars() -> spec_fn(char) -> bool {
    |c: char| is_safe_char(c)
}

/// A text with every character outside the safe set removed; the order and the
/// case of what stays are unchanged.
pub open spec fn sanitized(s: Seq<char>) -> Seq<char> {
    s.filter(safe_chars())
}

/// The separator between the podcast's name and the episode's title.
pub open spec fn name_separator() -> Seq<char> {
    seq![' ', '-', ' ']
}

/// The extension of every episode file.
pub open spec fn name_extension() -> Seq<char> {
    seq!['.', 'm', 'p', '3']
}

/// The canonical file name of an episode.
pub open spec fn episode_file_name(podcast: Seq<char>, title: Seq<char>) -> Seq<char> {
    sanitized(podcast) + name_separator() + sanitized(title) + name_extension()
}

/// `String::push` of the standard library appends one character to the end of
/// the string and leaves what was there before in place.
pub assume_specification[ String::push ](text: &mut String, c: char)
    ensures
        final(text)@ == old(text)@.push(c),
;

/// Tells whether `c` is kept by the sanitizer.
pub fn is_safe(c: char) -> (kept: bool)
    ensures
        kept == is_safe_char(c),
{
    ('0' <= c && c <= '9') || ('a' <= c && c <= 'z') || ('A' <= c && c <= 'Z') || c == ' '
        || c == '-' || c == '_' || c == '.'
}

/// Removes every character outside the safe set.
pub fn fat32_sanitize(f: &str) -> (out: String)
    ensures
        out@ == sanitized(f@),
{
    let mut out = String::new();
    let chars = f.chars();
    proof {
        reveal(Seq::filter);
        assert(f@.take(0) =~= Seq::<char>::empty());
    }
    for c in it: chars
        invariant
            it.seq() == f@,
            out@ == sanitized(f@.take(it.index())),
    {
        proof {
            let before = f@.take(it.index());
            assert(f@.take(it.index() + 1) == before.push(c));
            before.lemma_filter_push(c, safe_chars());
        }
        if is_safe(c) {
            out.push(c);
        }
    }
    proof {
        assert(f@.take(f@.len() as int) == f@);
    }
    out
}

/// Builds the canonical file name of an episode from the podcast's name and the
/// episode's title.
pub fn podcast_file_name(podcast: &str, title: &str) -> (name: String)
    ensures
        name@ == episode_file_name(podcast@, title@),
{
    let mut name = fat32_sanitize(podcast);
    let clean_title = fat32_sanitize(title);
    proof {
        reveal_strlit(" - ");
        reveal_strlit(".mp3");
        assert(" - "@ =~= name_separator());
        assert(".mp3"@ =~= name_extension());
    }
    name.append(" - ");
    name.append(clean_title.as_str());
    name.append(".mp3");
    name
}

/// Sanitizing leaves only safe characters.
pub proof fn law_sanitized_is_safe(s: Seq<char>)
    ensures
        forall|i: int| 0 <= i < sanitized(s).len() ==> is_safe_char(#[trigger] sanitized(s)[i]),
{
    assert forall|i: int| 0 <= i < sanitized(s).len() implies is_safe_char(
        #[trigger] sanitized(s)[i],
    ) by {
        s.lemma_filter_pred(safe_chars(), i);
    }
}

/// A text of safe characters only is its own sanitized form.
pub proof fn law_safe_text_unchanged(s: Seq<char>)
    requires
        forall|i: int| 0 <= i < s.len() ==> is_safe_char(#[trigger] s[i]),
    ensures
        sanitized(s) == s,
    decreases s.len(),
{
    reveal(Seq::filter);
    if s.len() > 0 {
        law_safe_text_unchanged(s.drop_last());
        assert(s.drop_last().push(s.last()) =~= s);
    }
}

/// Sanitizing is idempotent: a second pass changes nothing.
pub proof fn law_sanitize_idempotent(s: Seq<char>)
    ensures
        sanitized(sanitized(s)) == sanitized(s),
{
    law_sanitized_is_safe(s);
    law_safe_text_unchanged(sanitized(s));
}

/// Sanitizing works piece by piece: the sanitized form of two texts joined is
/// the two sanitized forms joined.
pub proof fn law_sanitize_concat(a: Seq<char>, b: Seq<char>)
    ensures
        sanitized(a + b) == sanitized(a) + sanitized(b),
{
    Seq::filter_distributes_over_add(a, b, safe_chars());
}

/// A file name depends on the podcast's name and the title only through their
/// sanitized forms, and it always ends in the extension.
pub proof fn law_file_name_of_sanitized(podcast: Seq<char>, title: Seq<char>)
    ensures
        episode_file_name(sanitized(podcast), sanitized(title)) == episode_file_name(
            podcast,
            title,
        ),
        episode_file_name(podcast, title).len() == sanitized(podcast).len() + sanitized(
            title,
        ).len() + 7,
{
    law_sanitize_idempotent(podcast);
    law_sanitize_idempotent(title);
}

} // verus!
