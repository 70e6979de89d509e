//! URL validation, and the validated URL value the pipeline produces.

use vstd::prelude::*;

verus! {

/// The canonical serialization of the URL that `s` denotes, if `s` is a
/// well-formed absolute URL. Names the composition of `url::Url::parse`
/// and `url::Url::as_str`, which depends on the input characters alone.
pub uninterp spec fn url_canon(s: Seq<char>) -> Option<Seq<char>>;

/// Relies on url::Url::parse: parses an absolute URL, succeeding exactly on
/// well-formed input; on url::Url::as_str: the canonical serialization of
/// the parsed URL; and on url::ParseError's Display for the failure message.
#[verifier::external_body]
pub(crate) fn parse_url_text(s: &str) -> (r: Result<String, String>)
    ensures
        r is Ok <==> url_canon(s@) is Some,
        r matches Ok(t) ==> t@ == url_canon(s@).unwrap(),
{
    match url::Url::parse(s) {
        Ok(u) => Ok(u.as_str().to_string()),
        Err(e) => Err(e.to_string()),
    }
}

/// A validated URL: the canonical serialization of some well-formed URL
/// string. Its one use is being printed.
#[derive(Debug)]
pub struct DuckUrl {
    text: String,
}

impl View for DuckUrl {
    type V = Seq<char>;

    closed spec fn view(&self) -> Seq<char> {
        self.text@
    }
}

impl DuckUrl {
    /// Wraps a canonical serialization; only the library constructs one.
    pub(crate) fn new(text: String) -> (r: DuckUrl)
        ensures
            r@ == text@,
    {
        DuckUrl { text }
    }

    /// The canonical string form of the URL.
    pub fn as_str(&self) -> (r: &str)
        ensures
            r@ == self@,
    {
        self.text.as_str()
    }

    /// The canonical string form of the URL, taking the value apart.
    pub fn into_text(self) -> (r: String)
        ensures
            r@ == self@,
    {
        self.text
    }
}

} // verus!
