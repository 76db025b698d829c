//! Absolute URLs, kept as the plain values the library reads of them: the
//! parsed serialization, and the path component when the URL can serve as a
//! base.

use vstd::prelude::*;

verus! {

/// What parsing a string as an absolute URL yields: `None` when it does not
/// parse; otherwise the URL's serialization together with its path, the
/// latter absent for URLs that cannot be a base (such as `mailto:` URLs).
pub uninterp spec fn url_parse_model(s: Seq<char>) -> Option<(Seq<char>, Option<Seq<char>>)>;

/// An absolute URL. `full` is the serialization the parser produced; `path`
/// is its path component, present exactly when the URL can be a base, and
/// then `'/'`-separated and percent-encoded.
#[derive(PartialEq, Eq, Debug)]
pub struct UrlText {
    pub full: String,
    pub path: Option<String>,
}

/// The mathematical value of a [`UrlText`].
pub struct UrlTextV {
    pub full: Seq<char>,
    pub path: Option<Seq<char>>,
}

impl View for UrlText {
    type V = UrlTextV;

    open spec fn view(&self) -> UrlTextV {
        UrlTextV { full: self.full@, path: self.path.deep_view() }
    }
}

impl UrlText {
    /// The pair this URL's view forms, as [`url_parse_model`] speaks of it.
    pub open spec fn model(self) -> (Seq<char>, Option<Seq<char>>) {
        (self@.full, self@.path)
    }
}

/// Relies on `url::Url::parse`, the WHATWG URL parser: it succeeds exactly
/// on strings that parse as absolute URLs; `Url::as_str` (through
/// `String::from`) is the parsed serialization, `Url::path` the path
/// component, and `Url::cannot_be_a_base` tells whether the path is
/// `'/'`-separated, as `Url::path_segments` goes by.
#[verifier::external_body]
fn parse_url_exec(s: &str) -> (r: Option<UrlText>)
    ensures
        match r {
            Some(u) => url_parse_model(s@) == Some(u.model()),
            None => url_parse_model(s@) is None,
        },
{
    match url::Url::parse(s) {
        Ok(u) => {
            let path = if u.cannot_be_a_base() {
                None
            } else {
                Some(u.path().to_owned())
            };
            Some(UrlText { path, full: String::from(u) })
        },
        Err(_) => None,
    }
}

impl UrlText {
    /// Parses `s` as an absolute URL.
    pub fn parse(s: &str) -> (r: Option<UrlText>)
        ensures
            match r {
                Some(u) => url_parse_model(s@) == Some(u.model()),
                None => url_parse_model(s@) is None,
            },
    {
        parse_url_exec(s)
    }

    /// Clones this URL.
    pub fn clone_url(&self) -> (r: UrlText)
        ensures
            r@ == self@,
    {
        let path = match &self.path {
            Some(p) => Some(p.clone()),
            None => None,
        };
        UrlText { full: self.full.clone(), path }
    }
}

} // verus!
