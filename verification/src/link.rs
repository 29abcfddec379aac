//! Absolute URLs, held as their normalised text.

use vstd::prelude::*;
use crate::errors::DingError;

verus! {

/// What `url::Url::parse` makes of `text`: the serialisation of the parsed
/// URL, or `None` where the text is not an absolute URL.
pub uninterp spec fn url_parse_result(text: Seq<char>) -> Option<Seq<char>>;

/// What `url::Url::join` makes of `path` against the URL written as `base`:
/// the serialisation of the joined URL, or `None` where `base` is not an
/// absolute URL or `path` cannot be resolved against it.
pub uninterp spec fn url_join_result(base: Seq<char>, path: Seq<char>) -> Option<Seq<char>>;

/// Calls `url::Url::parse` and hands back the URL's serialisation.
///
/// Trusted: the outcome is a function of the input text alone; it is named
/// `url_parse_result` and nothing more is claimed of it.
#[verifier::external_body]
fn parse_url_text(input: &str) -> (r: Result<String, url::ParseError>)
    ensures
        match r {
            Ok(s) => url_parse_result(input@) == Some(s@),
            Err(_) => url_parse_result(input@) is None,
        },
{
    match url::Url::parse(input) {
        Ok(u) => Ok(String::from(u)),
        Err(e) => Err(e),
    }
}

/// Calls `url::Url::join` on the URL read back from `base`, and hands back
/// the serialisation of the joined URL.
///
/// Trusted: the outcome is a function of the two texts alone; it is named
/// `url_join_result` and nothing more is claimed of it.
#[verifier::external_body]
fn join_url_text(base: &str, path: &str) -> (r: Result<String, url::ParseError>)
    ensures
        match r {
            Ok(s) => url_join_result(base@, path@) == Some(s@),
            Err(_) => url_join_result(base@, path@) is None,
        },
{
    match url::Url::parse(base) {
        Ok(b) => b.join(path).map(String::from),
        Err(e) => Err(e),
    }
}

/// An absolute URL. Its view is the normalised text of the URL.
#[derive(Debug, PartialEq, Eq)]
pub struct Link {
    text: String,
}

impl View for Link {
    type V = Seq<char>;

    closed spec fn view(&self) -> Seq<char> {
        self.text@
    }
}

impl Clone for Link {
    fn clone(&self) -> (r: Self)
        ensures
            r@ == self@,
    {
        Link { text: self.text.clone() }
    }
}

impl Link {
    /// Parses an absolute URL. Fails with the `Url` kind exactly when the
    /// text is not an absolute URL.
    pub fn parse(input: &str) -> (r: Result<Link, DingError>)
        ensures
            match r {
                Ok(link) => url_parse_result(input@) == Some(link@),
                Err(e) => url_parse_result(input@) is None && e is Url,
            },
    {
        match parse_url_text(input) {
            Ok(text) => Ok(Link { text }),
            Err(source) => Err(DingError::Url { source }),
        }
    }

    /// Resolves `path` against this URL. Fails with the `Url` kind exactly
    /// when the two do not join into an absolute URL.
    pub fn join(&self, path: &str) -> (r: Result<Link, DingError>)
        ensures
            match r {
                Ok(link) => url_join_result(self@, path@) == Some(link@),
                Err(e) => url_join_result(self@, path@) is None && e is Url,
            },
    {
        match join_url_text(self.text.as_str(), path) {
            Ok(text) => Ok(Link { text }),
            Err(source) => Err(DingError::Url { source }),
        }
    }

    /// The URL's text, by value.
    pub fn into_string(self) -> (s: String)
        ensures
            s@ == self@,
    {
        self.text
    }

    /// The URL's text.
    pub fn as_str(&self) -> (s: &str)
        ensures
            s@ == self@,
    {
        self.text.as_str()
    }
}

} // verus!
