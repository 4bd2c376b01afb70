//! What can go wrong while one podcast set is synced.

use vstd::prelude::*;
use vstd::string::StringExecFns;

verus! {

/// A failure of one podcast or of one episode. None of them ends the run: the
/// run records it and goes on with the next episode or the next podcast.
#[derive(Clone, Debug, PartialEq, Eq)]
pub enum SyncError {
    /// The feed could not be fetched.
    Fetch { podcast: String, url: String },
    /// The fetched document is not a feed.
    Parse { podcast: String },
    /// An episode in the window has no title.
    MissingTitle { podcast: String },
    /// An episode in the window has no publication date.
    MissingPubDate { podcast: String, title: String },
    /// An episode's publication date is not an RFC 2822 date.
    TimeParse { text: String },
    /// An episode in the window has no enclosure.
    MissingEnclosure { podcast: String, title: String },
    /// The episode's media could not be downloaded.
    Download { file_name: String },
    /// The transcoder failed on the downloaded media.
    Transcode { file_name: String },
    /// The modification time of the finished file could not be set.
    Stamp { file_name: String },
}

/// An error as contracts see it.
pub ghost enum SyncErrorView {
    Fetch { podcast: Seq<char>, url: Seq<char> },
    Parse { podcast: Seq<char> },
    MissingTitle { podcast: Seq<char> },
    MissingPubDate { podcast: Seq<char>, title: Seq<char> },
    TimeParse { text: Seq<char> },
    MissingEnclosure { podcast: Seq<char>, title: Seq<char> },
    Download { file_name: Seq<char> },
    Transcode { file_name: Seq<char> },
    Stamp { file_name: Seq<char> },
}

impl View for SyncError {
    type V = SyncErrorView;

    open spec fn view(&self) -> SyncErrorView {
        match self {
            SyncError::Fetch { podcast, url } => SyncErrorView::Fetch {
                podcast: podcast@,
                url: url@,
            },
            SyncError::Parse { podcast } => SyncErrorView::Parse { podcast: podcast@ },
            SyncError::MissingTitle { podcast } => SyncErrorView::MissingTitle {
                podcast: podcast@,
            },
            SyncError::MissingPubDate { podcast, title } => SyncErrorView::MissingPubDate {
                podcast: podcast@,
                title: title@,
            },
            SyncError::TimeParse { text } => SyncErrorView::TimeParse { text: text@ },
            SyncError::MissingEnclosure { podcast, title } => SyncErrorView::MissingEnclosure {
                podcast: podcast@,
                title: title@,
            },
            SyncError::Download { file_name } => SyncErrorView::Download {
                file_name: file_name@,
            },
            SyncError::Transcode { file_name } => SyncErrorView::Transcode {
                file_name: file_name@,
            },
            SyncError::Stamp { file_name } => SyncErrorView::Stamp { file_name: file_name@ },
        }
    }
}

impl DeepView for SyncError {
    type V = SyncErrorView;

    open spec fn deep_view(&self) -> SyncErrorView {
        self@
    }
}

impl SyncErrorView {
    /// The sentence that describes the failure to a reader.
    pub open spec fn text(self) -> Seq<char> {
        match self {
            SyncErrorView::Fetch { podcast, url } => "Failed to fetch podcast "@ + podcast
                + " from "@ + url,
            SyncErrorView::Parse { podcast } => "Failed to parse the feed of podcast "@ + podcast,
            SyncErrorView::MissingTitle { podcast } => "Podcast "@ + podcast
                + " item doesn't have title"@,
            SyncErrorView::MissingPubDate { podcast, title } => "Podcast "@ + podcast
                + " episode "@ + title + " doesn't have pub date"@,
            SyncErrorView::TimeParse { text } => "Failed to parse date time "@ + text,
            SyncErrorView::MissingEnclosure { podcast, title } => "Podcast "@ + podcast
                + " episode "@ + title + " doesn't have enclosure"@,
            SyncErrorView::Download { file_name } => "Failed to download episode "@ + file_name,
            SyncErrorView::Transcode { file_name } => "Failed to transcode episode "@
                + file_name,
            SyncErrorView::Stamp { file_name } => "Failed to set mtime of "@ + file_name,
        }
    }
}

/// Joins two texts with a fixed sentence part in front.
fn sentence2(lead: &str, first: &str) -> (out: String)
    ensures
        out@ == lead@ + first@,
{
    let mut out = String::from_str(lead);
    out.append(first);
    out
}

/// Joins two texts with fixed sentence parts in front of each.
fn sentence4(lead: &str, first: &str, middle: &str, second: &str) -> (out: String)
    ensures
        out@ == lead@ + first@ + middle@ + second@,
{
    let mut out = String::from_str(lead);
    out.append(first);
    out.append(middle);
    out.append(second);
    out
}

impl SyncError {
    /// Describes the failure in one sentence that names the podcast, the
    /// episode or the file it concerns.
    pub fn message(&self) -> (out: String)
        ensures
            out@ == self@.text(),
    {
        match self {
            SyncError::Fetch { podcast, url } => sentence4(
                "Failed to fetch podcast ",
                podcast.as_str(),
                " from ",
                url.as_str(),
            ),
            SyncError::Parse { podcast } => sentence2(
                "Failed to parse the feed of podcast ",
                podcast.as_str(),
            ),
            SyncError::MissingTitle { podcast } => {
                let mut out = sentence2("Podcast ", podcast.as_str());
                out.append(" item doesn't have title");
                out
            },
            SyncError::MissingPubDate { podcast, title } => {
                let mut out = sentence4("Podcast ", podcast.as_str(), " episode ", title.as_str());
                out.append(" doesn't have pub date");
                out
            },
            SyncError::TimeParse { text } => sentence2("Failed to parse date time ", text.as_str()),
            SyncError::MissingEnclosure { podcast, title } => {
                let mut out = sentence4("Podcast ", podcast.as_str(), " episode ", title.as_str());
                out.append(" doesn't have enclosure");
                out
            },
            SyncError::Download { file_name } => sentence2(
                "Failed to download episode ",
                file_name.as_str(),
            ),
            SyncError::Transcode { file_name } => sentence2(
                "Failed to transcode episode ",
                file_name.as_str(),
            ),
            SyncError::Stamp { file_name } => sentence2(
                "Failed to set mtime of ",
                file_name.as_str(),
            ),
        }
    }
}

} // verus!
