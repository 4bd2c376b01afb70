//! The paths and command lines that the caller hands to the file system and
//! to the outside tools.

use vstd::prelude::*;
use vstd::string::StringExecFns;
use crate::local::texts;

verus! {

/// The tool that syncs a playlist.
pub const PLAYLIST_TOOL: &'static str = "spotdl";

/// The tool that downloads an episode's media.
pub const DOWNLOAD_TOOL: &'static str = "curl";

/// The tool that changes the playback speed.
pub const TRANSCODE_TOOL: &'static str = "ffmpeg";

/// A path below a directory.
pub open spec fn child_of(directory: Seq<char>, name: Seq<char>) -> Seq<char> {
    directory + seq!['/'] + name
}

/// The arguments of the playlist tool: sync the playlist at `url` and keep
/// its state in a save file of a fixed name.
pub open spec fn playlist_line(url: Seq<char>) -> Seq<Seq<char>> {
    seq!["sync"@, url, "--save-file"@, "playlist.spotdl"@]
}

/// The arguments of the download tool: follow redirects, write to `target`.
pub open spec fn download_line(url: Seq<char>, target: Seq<char>) -> Seq<Seq<char>> {
    seq!["-L"@, url, "-o"@, target]
}

/// The arguments of the transcoder: read `source`, apply the audio speed
/// filter with the factor that `speed` spells, write to `target`.
pub open spec fn transcode_line(
    source: Seq<char>,
    speed: Seq<char>,
    target: Seq<char>,
) -> Seq<Seq<char>> {
    seq!["-i"@, source, "-filter:a"@, "atempo="@ + speed, target]
}

/// The path of the entry `name` of `directory`: the output directory of a
/// playlist or of a podcast set below the output root, or a file in one.
pub fn child_path(directory: &str, name: &str) -> (path: String)
    ensures
        path@ == child_of(directory@, name@),
{
    let mut path = String::from_str(directory);
    proof {
        reveal_strlit("/");
        assert("/"@ =~= seq!['/']);
    }
    path.append("/");
    path.append(name);
    path
}

/// The arguments with which the playlist tool is started in the playlist's
/// directory.
pub fn playlist_arguments(url: &str) -> (line: Vec<String>)
    ensures
        texts(line@) == playlist_line(url@),
{
    let mut line: Vec<String> = Vec::new();
    line.push(String::from_str("sync"));
    line.push(String::from_str(url));
    line.push(String::from_str("--save-file"));
    line.push(String::from_str("playlist.spotdl"));
    assert(texts(line@) =~= playlist_line(url@));
    line
}

/// The arguments with which the download tool fetches `url` into `target`.
pub fn download_arguments(url: &str, target: &str) -> (line: Vec<String>)
    ensures
        texts(line@) == download_line(url@, target@),
{
    let mut line: Vec<String> = Vec::new();
    line.push(String::from_str("-L"));
    line.push(String::from_str(url));
    line.push(String::from_str("-o"));
    line.push(String::from_str(target));
    assert(texts(line@) =~= download_line(url@, target@));
    line
}

/// The arguments with which the transcoder turns `source` into `target` at
/// the playback speed that `speed` spells.
pub fn transcode_arguments(source: &str, speed: &str, target: &str) -> (line: Vec<String>)
    ensures
        texts(line@) == transcode_line(source@, speed@, target@),
{
    let mut filter = String::from_str("atempo=");
    filter.append(speed);
    let mut line: Vec<String> = Vec::new();
    line.push(String::from_str("-i"));
    line.push(String::from_str(source));
    line.push(String::from_str("-filter:a"));
    line.push(filter);
    line.push(String::from_str(target));
    assert(texts(line@) =~= transcode_line(source@, speed@, target@));
    line
}

} // verus!
