//! The calls this library makes into other crates and into parts of `std`
//! that have no specification. Nothing here is proved: each contract is read
//! off the documentation of the function that the body calls.

use vstd::prelude::*;
use vstd::utf8::*;

verus! {

/// `regex::Error`, carried through unread.
#[verifier::external_type_specification]
#[verifier::external_body]
pub struct ExRegexError(regex::Error);

/// What `Regex::new(pattern)` followed by `replace_all(haystack, replacement)`
/// returns: `None` where the pattern does not compile, otherwise the haystack
/// with every non-overlapping match replaced.
pub uninterp spec fn regex_replace_all(
    pattern: Seq<char>,
    haystack: Seq<char>,
    replacement: Seq<char>,
) -> Option<Seq<char>>;

/// Compiles `pattern` with `regex::Regex::new` and applies
/// `Regex::replace_all`. The contract names the result and says that the error
/// comes exactly when the pattern is rejected.
#[verifier::external_body]
pub(crate) fn replace_all(pattern: &str, haystack: &str, replacement: &str) -> (r: Result<
    String,
    regex::Error,
>)
    ensures
        match r {
            Ok(s) => regex_replace_all(pattern@, haystack@, replacement@) == Some(s@),
            Err(_) => regex_replace_all(pattern@, haystack@, replacement@) is None,
        },
{
    let re = regex::Regex::new(pattern)?;
    Ok(re.replace_all(haystack, replacement).into_owned())
}

/// What reading `text` as a JSON value and looking up `key` gives: the
/// parser's message where `text` is no JSON value; `None` where the value is
/// no object, has no member `key`, or holds something other than a string
/// there; otherwise that string.
pub uninterp spec fn json_string_member(text: Seq<char>, key: Seq<char>) -> Result<
    Option<Seq<char>>,
    Seq<char>,
>;

/// The result of a lookup, by its views.
pub open spec fn member_view(r: Result<Option<String>, String>) -> Result<
    Option<Seq<char>>,
    Seq<char>,
> {
    match r {
        Ok(Some(s)) => Ok(Some(s@)),
        Ok(None) => Ok(None),
        Err(e) => Err(e@),
    }
}

/// Parses `text` with `serde_json::from_str` into a `serde_json::Value`,
/// indexes it by `key` and asks `Value::as_str`. A parse error is handed back
/// as its displayed text. The contract only names the result.
#[verifier::external_body]
pub(crate) fn string_member(text: &str, key: &str) -> (r: Result<Option<String>, String>)
    ensures
        member_view(r) == json_string_member(text@, key@),
{
    match serde_json::from_str::<serde_json::Value>(text) {
        Ok(value) => Ok(value[key].as_str().map(String::from)),
        Err(e) => Err(e.to_string()),
    }
}

/// What `String::from_utf8_lossy` makes of `bytes`.
pub uninterp spec fn utf8_lossy(bytes: Seq<u8>) -> Seq<char>;

/// Calls `String::from_utf8_lossy`. Valid UTF-8 is decoded as it stands; for
/// anything else the contract only names the result.
#[verifier::external_body]
pub(crate) fn from_utf8_lossy(bytes: &[u8]) -> (r: String)
    ensures
        r@ == utf8_lossy(bytes@),
        valid_utf8(bytes@) ==> r@ == decode_utf8(bytes@),
{
    String::from_utf8_lossy(bytes).into_owned()
}

/// What `Path::join` makes of the paths `base` and `part`, both given and
/// taken as text, on the platform that the crate is built for.
pub uninterp spec fn path_joined(base: Seq<char>, part: Seq<char>) -> Seq<char>;

/// Calls `Path::join`, which works on the text of the two paths alone. The
/// contract only names the result.
#[verifier::external_body]
pub(crate) fn path_join(base: &str, part: &str) -> (r: String)
    ensures
        r@ == path_joined(base@, part@),
{
    std::path::Path::new(base).join(part).to_string_lossy().into_owned()
}

/// What `Path::with_extension` makes of `path` and `extension`, on the
/// platform that the crate is built for.
pub uninterp spec fn path_extension_replaced(path: Seq<char>, extension: Seq<char>) -> Seq<char>;

/// Calls `Path::with_extension`, which replaces the extension of the last
/// component, or drops it for an empty `extension`. It panics on an
/// extension that holds a path separator, so none may be handed in. The
/// contract only names the result.
#[verifier::external_body]
pub(crate) fn path_with_extension(path: &str, extension: &str) -> (r: String)
    requires
        forall|i: int|
            0 <= i < extension@.len() ==> extension@[i] != '/' && extension@[i] != '\\',
    ensures
        r@ == path_extension_replaced(path@, extension@),
{
    std::path::Path::new(path).with_extension(extension).to_string_lossy().into_owned()
}

/// What `char::is_whitespace` answers for `c`: membership in Unicode's
/// `White_Space` property.
pub uninterp spec fn is_whitespace(c: char) -> bool;

/// Calls `char::is_whitespace`. The contract only gives the answer its name.
#[verifier::external_body]
pub(crate) fn char_is_whitespace(c: char) -> (b: bool)
    ensures
        b == is_whitespace(c),
{
    c.is_whitespace()
}

/// What `str::to_lowercase` returns for a string with the characters `s`.
pub uninterp spec fn lowercase(s: Seq<char>) -> Seq<char>;

/// Calls `str::to_lowercase`. The contract only gives the result its name.
#[verifier::external_body]
pub(crate) fn to_lowercase(s: &str) -> (r: String)
    ensures
        r@ == lowercase(s@),
{
    s.to_lowercase()
}

} // verus!
