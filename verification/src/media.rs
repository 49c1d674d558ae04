//! Where the pixels of a media clip are to be read from, given the clip's uri.
//!
//! A uri is either a URL, of which only the `file` scheme is supported, or a
//! bare path. Parsing is done by the `url` crate; what is decided here is what
//! each outcome of the parse means.
use vstd::prelude::*;
use std::path::PathBuf;
use url::Url;
use crate::text::{owned, str_eq};

verus! {

/// `url::Url`, a parsed URL. Nothing is known of what a value holds.
#[verifier::external_type_specification]
#[verifier::external_body]
pub struct ExUrl(Url);

/// `std::path::PathBuf`, a path of the local file system. Nothing is known of
/// what a value holds.
#[verifier::external_type_specification]
#[verifier::external_body]
pub struct ExPathBuf(PathBuf);

/// The scheme that `url::Url::parse` finds in `uri`, as `Url::scheme` returns
/// it; none when `uri` does not parse as an absolute URL.
pub uninterp spec fn url_scheme(uri: Seq<char>) -> Option<Seq<char>>;

/// A parsed URL together with its scheme.
struct ParsedUrl {
    scheme: String,
    url: Url,
}

/// Calls `url::Url::parse` and, on success, `Url::scheme`. The contract claims
/// that whether the parse succeeds, and the scheme it finds, depend on the
/// characters of `uri` alone.
#[verifier::external_body]
fn parse_url(uri: &str) -> (r: Option<ParsedUrl>)
    ensures
        match r {
            Some(p) => url_scheme(uri@) == Some(p.scheme@),
            None => url_scheme(uri@).is_none(),
        },
{
    match Url::parse(uri) {
        Ok(url) => Some(ParsedUrl { scheme: url.scheme().to_string(), url }),
        Err(_) => None,
    }
}

/// Calls `url::Url::to_file_path`, which turns the path of a URL into a path of
/// the local file system, or fails. The result depends on the platform and
/// nothing is claimed of it.
#[verifier::external_body]
fn file_path_of(url: &Url) -> (r: Option<PathBuf>) {
    url.to_file_path().ok()
}

/// What kind of uri a parse has found.
#[derive(Clone, Copy, Debug, PartialEq, Eq)]
pub enum UriKind {
    /// Not a URL: the uri is taken as a path.
    BarePath,
    /// A URL with the scheme `file`.
    FileUrl,
    /// A URL with any other scheme.
    Unsupported,
}

/// Where to read a clip from.
#[derive(Debug, PartialEq, Eq)]
pub enum MediaSource {
    /// The uri itself, taken as a path.
    Path(String),
    /// The local path that a `file` URL names.
    FileUrl(PathBuf),
}

/// The kind of a uri, given the scheme found in it, if any.
pub open spec fn uri_kind(scheme: Option<Seq<char>>) -> UriKind {
    match scheme {
        None => UriKind::BarePath,
        Some(s) => if s == "file"@ {
            UriKind::FileUrl
        } else {
            UriKind::Unsupported
        },
    }
}

/// The characters of an optional string slice.
pub open spec fn opt_str_view(s: Option<&str>) -> Option<Seq<char>> {
    match s {
        Some(s) => Some(s@),
        None => None,
    }
}

/// The kind of a uri, given the scheme found in it, if any.
pub fn classify_scheme(scheme: Option<&str>) -> (kind: UriKind)
    ensures
        kind == uri_kind(opt_str_view(scheme)),
{
    match scheme {
        None => UriKind::BarePath,
        Some(s) => if str_eq(s, "file") {
            UriKind::FileUrl
        } else {
            UriKind::Unsupported
        },
    }
}

/// The source of a clip, given the scheme found in its uri and, for a `file`
/// URL, the local path it was converted to, if the conversion succeeded.
pub fn source_for(uri: &str, scheme: Option<&str>, file_path: Option<PathBuf>) -> (r: Option<
    MediaSource,
>)
    ensures
        match uri_kind(opt_str_view(scheme)) {
            UriKind::BarePath => r matches Some(MediaSource::Path(p)) && p@ == uri@,
            UriKind::FileUrl => r == match file_path {
                Some(p) => Some(MediaSource::FileUrl(p)),
                None => None,
            },
            UriKind::Unsupported => r.is_none(),
        },
{
    match classify_scheme(scheme) {
        UriKind::BarePath => Some(MediaSource::Path(owned(uri))),
        UriKind::FileUrl => match file_path {
            Some(p) => Some(MediaSource::FileUrl(p)),
            None => None,
        },
        UriKind::Unsupported => None,
    }
}

/// The source of the clip at `uri`: the uri itself when it is not a URL, a
/// local path when it is a `file` URL that names one, and none otherwise.
pub fn media_source(uri: &str) -> (r: Option<MediaSource>)
    ensures
        match uri_kind(url_scheme(uri@)) {
            UriKind::BarePath => r matches Some(MediaSource::Path(p)) && p@ == uri@,
            UriKind::FileUrl => r.is_none() || r matches Some(MediaSource::FileUrl(_)),
            UriKind::Unsupported => r.is_none(),
        },
{
    match parse_url(uri) {
        None => source_for(uri, None, None),
        Some(parsed) => {
            let file_path = match classify_scheme(Some(parsed.scheme.as_str())) {
                UriKind::FileUrl => file_path_of(&parsed.url),
                _ => None,
            };
            source_for(uri, Some(parsed.scheme.as_str()), file_path)
        },
    }
}

} // verus!
