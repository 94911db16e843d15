//! Search queries and destination paths made from a record's raw text.

use crate::bindings::{
    path_extension_replaced, path_join, path_joined, path_with_extension, regex_replace_all,
    replace_all,
};
use crate::text::{trim, trimmed};
use vstd::prelude::*;
use vstd::string::*;

verus! {

/// The directory under which every album directory lies.
pub const BASE_DIR: &'static str = "playlists";

/// Matches one character that is neither a word character nor whitespace.
pub const PUNCTUATION: &'static str = "[^\\w\\s]";

/// Matches a run of characters that file systems refuse in a file name.
pub const FORBIDDEN: &'static str = "[\\\\/:\"*?<>|]+";

/// The extension of every destination file.
pub const EXTENSION: &'static str = ".mp3";

/// The regex engine rejected one of the patterns above.
#[derive(Debug, Clone, Copy, PartialEq, Eq, Structural)]
pub struct PatternRejected;

/// `text` without punctuation and without surrounding whitespace, or `None`
/// where the engine rejects the pattern.
pub open spec fn cleaned(text: Seq<char>) -> Option<Seq<char>> {
    match regex_replace_all(PUNCTUATION@, text, Seq::empty()) {
        Some(s) => Some(trimmed(s)),
        None => None,
    }
}

/// `<track> - <artist> official audio`, made of the cleaned parts.
pub open spec fn query_text(track: Seq<char>, artist: Seq<char>) -> Seq<char> {
    track + " - "@ + artist + " official audio"@
}

/// The search query for a track and its artist.
pub open spec fn query_for(track: Seq<char>, artist: Seq<char>) -> Option<Seq<char>> {
    match (cleaned(track), cleaned(artist)) {
        (Some(t), Some(a)) => Some(query_text(t, a)),
        _ => None,
    }
}

/// The name of the destination file of a track.
pub open spec fn file_name_for(track: Seq<char>) -> Option<Seq<char>> {
    match regex_replace_all(FORBIDDEN@, track, Seq::empty()) {
        Some(s) => Some(s + EXTENSION@),
        None => None,
    }
}

/// Strips punctuation from `text` and trims the rest.
fn clean(text: &str) -> (r: Result<String, PatternRejected>)
    ensures
        match r {
            Ok(s) => cleaned(text@) == Some(s@),
            Err(_) => cleaned(text@) is None,
        },
{
    proof {
        reveal_strlit("");
    }
    assert(""@ =~= Seq::<char>::empty());
    match replace_all(PUNCTUATION, text, "") {
        Ok(stripped) => Ok(String::from_str(trim(stripped.as_str()))),
        Err(_) => Err(PatternRejected),
    }
}

/// Puts two cleaned parts together into a search query.
pub fn compose_query(track: &str, artist: &str) -> (q: String)
    ensures
        q@ == query_text(track@, artist@),
{
    let mut q = String::from_str(track);
    q.append(" - ");
    q.append(artist);
    q.append(" official audio");
    q
}

/// The search query for a track: both names without punctuation and
/// surrounding whitespace, with a suffix that favours official audio.
pub fn clean_query(track: &str, artist: &str) -> (r: Result<String, PatternRejected>)
    ensures
        match r {
            Ok(q) => query_for(track@, artist@) == Some(q@),
            Err(_) => query_for(track@, artist@) is None,
        },
{
    let track_clean = match clean(track) {
        Ok(s) => s,
        Err(e) => {
            return Err(e);
        },
    };
    let artist_clean = match clean(artist) {
        Ok(s) => s,
        Err(e) => {
            return Err(e);
        },
    };
    Ok(compose_query(track_clean.as_str(), artist_clean.as_str()))
}

/// Where a track is stored. `album_dir`, `file` and `template` are paths as
/// the platform joins them; `file_name` is the last component of `file`.
#[derive(Debug)]
pub struct TrackPath {
    /// The album's directory under `BASE_DIR`.
    pub album_dir: String,
    /// The sanitized track name with its extension.
    pub file_name: String,
    /// `file_name` inside `album_dir`.
    pub file: String,
    /// `file` without its extension: the downloader's output template.
    pub template: String,
}

/// A path as four character sequences.
pub ghost struct PathView {
    pub album_dir: Seq<char>,
    pub file_name: Seq<char>,
    pub file: Seq<char>,
    pub template: Seq<char>,
}

impl View for TrackPath {
    type V = PathView;

    open spec fn view(&self) -> PathView {
        PathView {
            album_dir: self.album_dir@,
            file_name: self.file_name@,
            file: self.file@,
            template: self.template@,
        }
    }
}

impl Clone for TrackPath {
    fn clone(&self) -> (r: Self)
        ensures
            r@ == self@,
    {
        TrackPath {
            album_dir: self.album_dir.clone(),
            file_name: self.file_name.clone(),
            file: self.file.clone(),
            template: self.template.clone(),
        }
    }
}

/// The destination of a track in an album: the album's directory under
/// `BASE_DIR`, the file in it, and the file's path without extension. `None`
/// where the engine rejects the pattern.
pub open spec fn track_path_for(album: Seq<char>, track: Seq<char>) -> Option<PathView> {
    match file_name_for(track) {
        Some(file_name) => Some(path_in(path_joined(BASE_DIR@, album), file_name)),
        None => None,
    }
}

/// The paths of the file `file_name` in `album_dir`.
pub open spec fn path_in(album_dir: Seq<char>, file_name: Seq<char>) -> PathView {
    let file = path_joined(album_dir, file_name);
    PathView {
        album_dir,
        file_name,
        file,
        template: path_extension_replaced(file, Seq::empty()),
    }
}

/// Names the file of a track from its sanitized name.
pub fn file_name_from(safe_track: &str) -> (name: String)
    ensures
        name@ == safe_track@ + EXTENSION@,
{
    let mut name = String::from_str(safe_track);
    name.append(EXTENSION);
    name
}

/// The destination of a track: a file named after the track, without the
/// characters that file systems refuse, in the album's directory under
/// `BASE_DIR`. The artist plays no part. Nothing is created on disk.
pub fn get_track_path(_artist: &str, album: &str, track: &str) -> (r: Result<
    TrackPath,
    PatternRejected,
>)
    ensures
        match r {
            Ok(p) => track_path_for(album@, track@) == Some(p@),
            Err(_) => track_path_for(album@, track@) is None,
        },
{
    proof {
        reveal_strlit("");
    }
    assert(""@ =~= Seq::<char>::empty());
    let album_dir = path_join(BASE_DIR, album);
    match replace_all(FORBIDDEN, track, "") {
        Ok(safe_track) => {
            let file_name = file_name_from(safe_track.as_str());
            let file = path_join(album_dir.as_str(), file_name.as_str());
            let template = path_with_extension(file.as_str(), "");
            Ok(TrackPath { album_dir, file_name, file, template })
        },
        Err(_) => Err(PatternRejected),
    }
}

} // verus!
