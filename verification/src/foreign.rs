//! The two outside computations the core leans on: guessing a media type
//! from a file path, and extracting the host from a homeserver URL. Each is
//! a pure function of its text argument; its result is given a name here,
//! and the callers' contracts speak of that name.

use vstd::prelude::*;

verus! {

/// The media type the `mime_guess` table knows for a path, going by the
/// path's extension; nothing when the extension has no known mapping.
pub uninterp spec fn mime_guess_of(path: Seq<char>) -> Option<Seq<char>>;

/// Relies on `mime_guess::from_path` and `MimeGuess::first_raw`: the guess
/// is a lookup of the path's extension in a fixed table, so it depends on
/// the path text alone.
#[verifier::external_body]
pub(crate) fn guess_media_type(path: &str) -> (r: Option<String>)
    ensures
        r matches Some(m) ==> (mime_guess_of(path@) matches Some(v) && m@ == v),
        r is None ==> mime_guess_of(path@) is None,
{
    mime_guess::from_path(path).first_raw().map(|s| s.to_owned())
}

/// The host of a URL as the `url` crate parses it; nothing when the text is
/// not a parsable URL or the URL has no host.
pub uninterp spec fn url_host_of(url: Seq<char>) -> Option<Seq<char>>;

/// Relies on `url::Url::parse` and `Url::host_str`: parsing depends on the
/// text alone, and the host is a slice of the parsed URL.
#[verifier::external_body]
pub(crate) fn host_of_url(url: &str) -> (r: Option<String>)
    ensures
        r matches Some(h) ==> (url_host_of(url@) matches Some(v) && h@ == v),
        r is None ==> url_host_of(url@) is None,
{
    match url::Url::parse(url) {
        Ok(u) => u.host_str().map(|h| h.to_owned()),
        Err(_) => None,
    }
}

} // verus!
