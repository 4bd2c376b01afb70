//! Feed documents and the episodes read from them.

use vstd::prelude::*;
use crate::error::{SyncError, SyncErrorView};

verus! {

#[verifier::external_type_specification]
#[verifier::external_body]
pub struct ExFeedError(rss::Error);

#[verifier::external_type_specification]
#[verifier::external_body]
pub struct ExDateError(chrono::ParseError);

/// One entry of a feed, with the three fields that naming and freshness need,
/// each as the feed gave it.
#[derive(Clone, Debug, PartialEq, Eq)]
pub struct FeedItem {
    pub title: Option<String>,
    pub pub_date: Option<String>,
    pub enclosure_url: Option<String>,
}

/// A feed entry as contracts see it.
pub ghost struct FeedItemView {
    pub title: Option<Seq<char>>,
    pub pub_date: Option<Seq<char>>,
    pub enclosure_url: Option<Seq<char>>,
}

impl View for FeedItem {
    type V = FeedItemView;

    open spec fn view(&self) -> FeedItemView {
        FeedItemView {
            title: self.title.deep_view(),
            pub_date: self.pub_date.deep_view(),
            enclosure_url: self.enclosure_url.deep_view(),
        }
    }
}

impl DeepView for FeedItem {
    type V = FeedItemView;

    open spec fn deep_view(&self) -> FeedItemView {
        self@
    }
}

/// An entry that has a title, a publication instant and an enclosure.
#[derive(Clone, Debug, PartialEq, Eq)]
pub struct Episode {
    pub title: String,
    /// Seconds since the Unix epoch, without the fraction.
    pub pub_time: i64,
    pub url: String,
}

/// An episode as contracts see it.
pub ghost struct EpisodeView {
    pub title: Seq<char>,
    pub pub_time: i64,
    pub url: Seq<char>,
}

impl View for Episode {
    type V = EpisodeView;

    open spec fn view(&self) -> EpisodeView {
        EpisodeView { title: self.title@, pub_time: self.pub_time, url: self.url@ }
    }
}

impl DeepView for Episode {
    type V = EpisodeView;

    open spec fn deep_view(&self) -> EpisodeView {
        self@
    }
}

/// The entries, in document order, that the `rss` crate reads from a feed
/// document, or `None` where it rejects the document.
pub uninterp spec fn channel_items(bytes: Seq<u8>) -> Option<Seq<FeedItemView>>;

/// The Unix time in seconds of the instant that `chrono` reads from an
/// RFC 2822 date, or `None` where it rejects the text.
pub uninterp spec fn rfc2822_seconds(text: Seq<char>) -> Option<i64>;

/// Calls `rss::Channel::read_from` on the document and keeps, of each item of
/// the channel, its title, its publication date and the URL of its enclosure.
/// The outcome depends on the bytes alone; it succeeds exactly where
/// `channel_items` is defined, with those entries in that order.
#[verifier::external_body]
fn read_channel(bytes: &[u8]) -> (parsed: Result<Vec<FeedItem>, rss::Error>)
    ensures
        parsed is Ok <==> channel_items(bytes@) is Some,
        parsed matches Ok(items) ==> channel_items(bytes@) == Some(items.deep_view()),
{
    let channel = rss::Channel::read_from(bytes)?;
    Ok(
        channel.items.into_iter().map(
            |item|
                FeedItem {
                    title: item.title,
                    pub_date: item.pub_date,
                    enclosure_url: item.enclosure.map(|enclosure| enclosure.url),
                },
        ).collect(),
    )
}

/// Calls `chrono::DateTime::parse_from_rfc2822` on the text and, where that
/// gives an instant, `DateTime::timestamp` on it. The outcome depends on the
/// text alone; it succeeds exactly where `rfc2822_seconds` is defined, with
/// that number of seconds.
#[verifier::external_body]
fn parse_rfc2822(text: &str) -> (parsed: Result<i64, chrono::ParseError>)
    ensures
        parsed is Ok <==> rfc2822_seconds(text@) is Some,
        parsed matches Ok(seconds) ==> rfc2822_seconds(text@) == Some(seconds),
{
    let instant = chrono::DateTime::parse_from_rfc2822(text)?;
    Ok(instant.timestamp())
}

/// Reads the entries of a feed document, in document order.
pub fn parse_feed(bytes: &[u8]) -> (feed: Option<Vec<FeedItem>>)
    ensures
        feed.deep_view() == channel_items(bytes@),
{
    match read_channel(bytes) {
        Ok(items) => Some(items),
        Err(_) => None,
    }
}

/// Reads an RFC 2822 date as seconds since the Unix epoch.
pub fn publication_seconds(text: &str) -> (seconds: Option<i64>)
    ensures
        seconds == rfc2822_seconds(text@),
{
    match parse_rfc2822(text) {
        Ok(seconds) => Some(seconds),
        Err(_) => None,
    }
}

/// The publication instant of an entry: what its date reads as, if it has one.
pub open spec fn item_seconds(item: FeedItemView) -> Option<i64> {
    match item.pub_date {
        Some(text) => rfc2822_seconds(text),
        None => None,
    }
}

/// What becomes of an entry of `podcast`'s feed, given what its publication
/// date reads as. The fields are asked for in a fixed order: the title, the
/// date, a date that reads as an instant, the enclosure. The first that is
/// missing decides the error.
pub open spec fn checked(podcast: Seq<char>, item: FeedItemView, seconds: Option<i64>) -> Result<
    EpisodeView,
    SyncErrorView,
> {
    if item.title is None {
        Err(SyncErrorView::MissingTitle { podcast })
    } else if item.pub_date is None {
        Err(SyncErrorView::MissingPubDate { podcast, title: item.title->0 })
    } else if seconds is None {
        Err(SyncErrorView::TimeParse { text: item.pub_date->0 })
    } else if item.enclosure_url is None {
        Err(SyncErrorView::MissingEnclosure { podcast, title: item.title->0 })
    } else {
        Ok(EpisodeView { title: item.title->0, pub_time: seconds->0, url: item.enclosure_url->0 })
    }
}

/// What becomes of an entry of `podcast`'s feed.
pub open spec fn examined(podcast: Seq<char>, item: FeedItemView) -> Result<
    EpisodeView,
    SyncErrorView,
> {
    checked(podcast, item, item_seconds(item))
}

/// The view of a checked entry.
pub open spec fn outcome_view(outcome: Result<Episode, SyncError>) -> Result<
    EpisodeView,
    SyncErrorView,
> {
    match outcome {
        Ok(episode) => Ok(episode@),
        Err(error) => Err(error@),
    }
}

/// Checks that an entry has a title, a publication date that reads as an
/// instant, and an enclosure; `seconds` is what the date reads as.
pub fn check_item(podcast: &str, item: &FeedItem, seconds: Option<i64>) -> (outcome: Result<
    Episode,
    SyncError,
>)
    ensures
        outcome_view(outcome) == checked(podcast@, item@, seconds),
{
    let title = match &item.title {
        Some(title) => title.clone(),
        None => {
            return Err(SyncError::MissingTitle { podcast: podcast.to_owned() });
        },
    };
    let text = match &item.pub_date {
        Some(text) => text,
        None => {
            return Err(SyncError::MissingPubDate { podcast: podcast.to_owned(), title });
        },
    };
    let pub_time = match seconds {
        Some(pub_time) => pub_time,
        None => {
            return Err(SyncError::TimeParse { text: text.clone() });
        },
    };
    match &item.enclosure_url {
        Some(url) => Ok(Episode { title, pub_time, url: url.clone() }),
        None => Err(SyncError::MissingEnclosure { podcast: podcast.to_owned(), title }),
    }
}

/// Checks an entry of `podcast`'s feed, reading its publication date.
pub fn examine_item(podcast: &str, item: &FeedItem) -> (outcome: Result<Episode, SyncError>)
    ensures
        outcome_view(outcome) == examined(podcast@, item@),
{
    let seconds = match &item.pub_date {
        Some(text) => publication_seconds(text.as_str()),
        None => None,
    };
    check_item(podcast, item, seconds)
}

} // verus!
