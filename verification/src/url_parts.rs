//! What this library reads of a URL, and the two calls into the `url` crate
//! that produce it. The parsing of URLs is not verified here: it is named,
//! and everything the library decides is stated over those names.

use url::Url;
use vstd::prelude::*;

verus! {

/// The components of a parsed URL that the library's decisions depend on.
#[derive(Debug, Clone, PartialEq, Eq)]
pub struct UrlParts {
    /// The scheme, in lower case and without the colon that follows it.
    pub scheme: String,
    /// Whether relative references cannot be resolved against the URL, as
    /// with `mailto:` and `data:` addresses.
    pub cannot_be_a_base: bool,
    /// The segments of the path, in order, for a URL whose path begins with
    /// a slash; nothing for any other URL.
    pub path_segments: Option<Vec<String>>,
}

/// The mathematical value of [`UrlParts`].
pub struct UrlPartsView {
    pub scheme: Seq<char>,
    pub cannot_be_a_base: bool,
    pub path_segments: Option<Seq<Seq<char>>>,
}

impl View for UrlParts {
    type V = UrlPartsView;

    open spec fn view(&self) -> UrlPartsView {
        UrlPartsView {
            scheme: self.scheme@,
            cannot_be_a_base: self.cannot_be_a_base,
            path_segments: match self.path_segments {
                Some(segments) => Some(segments.deep_view()),
                None => None,
            },
        }
    }
}

/// The value of an outcome of parsing.
pub open spec fn parsed_view(parsed: Option<UrlParts>) -> Option<UrlPartsView> {
    match parsed {
        Some(parts) => Some(parts@),
        None => None,
    }
}

/// What `url::Url::parse` makes of `text`: the components of the URL it
/// returns, or nothing where it returns an error.
pub uninterp spec fn parsed_url(text: Seq<char>) -> Option<UrlPartsView>;

/// The text of the URL that `url::Url::join` resolves `reference` to against
/// the URL that `base` parses to, or nothing where `base` does not parse or
/// the reference cannot be resolved.
pub uninterp spec fn joined_url(base: Seq<char>, reference: Seq<char>) -> Option<Seq<char>>;

/// Parses `text` with `url::Url::parse` and reads the result with
/// `Url::scheme`, `Url::cannot_be_a_base` and `Url::path_segments`.
///
/// Trusted: the contract only gives the outcome its name, [`parsed_url`].
/// It claims that the outcome is a function of the text alone, and that
/// the call returns on every text.
#[verifier::external_body]
pub(crate) fn parse_url(text: &str) -> (r: Option<UrlParts>)
    ensures
        parsed_view(r) == parsed_url(text@),
{
    let url = Url::parse(text).ok()?;
    Some(UrlParts {
        scheme: String::from(url.scheme()),
        cannot_be_a_base: url.cannot_be_a_base(),
        path_segments: url.path_segments().map(|segments| segments.map(String::from).collect()),
    })
}

/// Parses `base` with `url::Url::parse`, resolves `reference` against the
/// result with `Url::join`, and gives the text of the URL that comes out.
///
/// Trusted: the contract only gives the outcome its name, [`joined_url`].
/// It claims that the outcome is a function of the two texts alone, and
/// that the call returns on every pair of texts.
#[verifier::external_body]
pub(crate) fn join_url(base: &str, reference: &str) -> (r: Option<String>)
    ensures
        match r {
            Some(joined) => joined_url(base@, reference@) == Some(joined@),
            None => joined_url(base@, reference@) is None,
        },
{
    let base = Url::parse(base).ok()?;
    base.join(reference).ok().map(String::from)
}

} // verus!
