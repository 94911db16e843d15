//! From the search process's output to a media identifier.

use crate::bindings::{
    from_utf8_lossy, json_string_member, member_view, string_member, utf8_lossy,
};
use crate::command::{ExitView, ProcessExit};
use crate::failure::{ResolveError, ResolveErrorView};
use crate::text::{first_line, first_line_of};
use vstd::prelude::*;
use vstd::string::*;

verus! {

/// The member of a search result that identifies the media.
pub const ID_KEY: &'static str = "id";

/// What a search found.
#[derive(Debug)]
pub struct ResolvedMedia {
    pub media_id: String,
}

impl View for ResolvedMedia {
    type V = Seq<char>;

    open spec fn view(&self) -> Seq<char> {
        self.media_id@
    }
}

/// The outcome of a resolve, by its views.
pub open spec fn resolution_view(r: Result<ResolvedMedia, ResolveError>) -> Result<
    Seq<char>,
    ResolveErrorView,
> {
    match r {
        Ok(media) => Ok(media@),
        Err(e) => Err(e@),
    }
}

/// What a lookup of the identifier in one result line means: the parser's
/// word makes the line malformed, a line without textual identifier is
/// missing it, and anything else is the identifier.
pub open spec fn id_from_lookup(found: Result<Option<Seq<char>>, Seq<char>>) -> Result<
    Seq<char>,
    ResolveErrorView,
> {
    match found {
        Err(detail) => Err(ResolveErrorView::Malformed { detail }),
        Ok(None) => Err(ResolveErrorView::MissingId),
        Ok(Some(id)) => Ok(id),
    }
}

/// What the first line of the search output means. Only that line counts:
/// there is no falling back on later ones.
pub open spec fn id_from_line(line: Option<Seq<char>>) -> Result<Seq<char>, ResolveErrorView> {
    match line {
        None => Err(ResolveErrorView::NoResults),
        Some(text) => id_from_lookup(json_string_member(text, ID_KEY@)),
    }
}

/// What a finished search means: a process that failed resolves nothing,
/// whatever it printed; otherwise the first line of its output decides.
pub open spec fn resolution(exit: ExitView, stdout: Seq<u8>) -> Result<
    Seq<char>,
    ResolveErrorView,
> {
    if !exit.success {
        Err(ResolveErrorView::SearchFailed { status: exit.description })
    } else {
        id_from_line(first_line_of(utf8_lossy(stdout)))
    }
}

/// Judges the lookup of the identifier in a result line.
pub fn media_from_lookup(found: Result<Option<String>, String>) -> (r: Result<
    ResolvedMedia,
    ResolveError,
>)
    ensures
        resolution_view(r) == id_from_lookup(member_view(found)),
{
    match found {
        Err(detail) => Err(ResolveError::Malformed { detail }),
        Ok(None) => Err(ResolveError::MissingId),
        Ok(Some(media_id)) => Ok(ResolvedMedia { media_id }),
    }
}

/// Judges the first line of the search output, if there is one.
pub fn media_from_line(line: Option<&str>) -> (r: Result<ResolvedMedia, ResolveError>)
    ensures
        resolution_view(r) == id_from_line(
            match line {
                Some(text) => Some(text@),
                None => None,
            },
        ),
{
    match line {
        None => Err(ResolveError::NoResults),
        Some(text) => media_from_lookup(string_member(text, ID_KEY)),
    }
}

/// Judges a finished search by its exit status and what it printed.
pub fn resolve(exit: &ProcessExit, stdout: &[u8]) -> (r: Result<ResolvedMedia, ResolveError>)
    ensures
        resolution_view(r) == resolution(exit@, stdout@),
{
    if !exit.success {
        return Err(ResolveError::SearchFailed { status: exit.description.clone() });
    }
    let output = from_utf8_lossy(stdout);
    media_from_line(first_line(output.as_str()))
}

} // verus!
