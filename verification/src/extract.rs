//! The Extractor: from a parsed JSON document to a validated URL.

use vstd::prelude::*;

use crate::json::{rep_of, string_under, find_string, JsonValue};
use crate::render::{rendered, to_text};
use crate::urls::{url_canon, parse_url_text, DuckUrl};
use crate::parse::{parse_json, parsed_json};

verus! {

/// Everything that can go wrong between a response body and a printed URL.
/// Each variant carries a human-readable message.
#[derive(Debug)]
pub enum DuckError {
    /// The body is not syntactically valid JSON.
    Decoding(String),
    /// The document parsed, but holds no string under a top-level `"url"` key.
    Schema(String),
    /// The string under `"url"` is not a well-formed URL.
    Validation(String),
}

impl DuckError {
    /// The message carried by the error.
    pub open spec fn message_rep(&self) -> Seq<char> {
        match self {
            DuckError::Decoding(m) => m@,
            DuckError::Schema(m) => m@,
            DuckError::Validation(m) => m@,
        }
    }

    /// Hands out the message carried by the error.
    pub fn message(&self) -> (r: &str)
        ensures
            r@ == self.message_rep(),
    {
        match self {
            DuckError::Decoding(m) => m.as_str(),
            DuckError::Schema(m) => m.as_str(),
            DuckError::Validation(m) => m.as_str(),
        }
    }
}

/// The message of the schema error for document `r`: it names the missing
/// key and embeds the whole offending document.
pub open spec fn schema_message(r: crate::json::JsonRep) -> Seq<char> {
    "The json value did not contain a \"url\" key.\n"@ + rendered(r)
}

/// What `extract_url` returns for a document of shape `r`.
pub open spec fn extraction(r: crate::json::JsonRep, out: Result<DuckUrl, DuckError>) -> bool {
    match string_under(r, "url"@) {
        Option::Some(s) => match url_canon(s) {
            Option::Some(c) => out matches Ok(u) && u@ == c,
            Option::None => out matches Err(e) && e is Validation,
        },
        Option::None => out matches Err(e) && e matches DuckError::Schema(m) && m@
            == schema_message(r),
    }
}

/// Looks up the string under the top-level `"url"` key of the document and
/// validates it as a URL. Fails with a schema error naming the key and the
/// whole document when the document is not an object holding a string there,
/// and with a validation error when the string is not a well-formed URL.
pub fn extract_url(value: &JsonValue) -> (r: Result<DuckUrl, DuckError>)
    ensures
        extraction(rep_of(*value), r),
{
    match find_string(value, "url") {
        Option::Some(s) => match parse_url_text(s.as_str()) {
            Ok(t) => Ok(DuckUrl::new(t)),
            Err(m) => Err(DuckError::Validation(m)),
        },
        Option::None => {
            let mut msg = String::new();
            msg.append("The json value did not contain a \"url\" key.\n");
            let doc = to_text(value);
            msg.append(doc.as_str());
            Err(DuckError::Schema(msg))
        },
    }
}

/// The whole computing half of the pipeline: parse the response body, then
/// extract and validate the URL. Fails with a decoding error exactly when
/// the body is not valid JSON, and otherwise as `extract_url` does.
pub fn process_body(text: &str) -> (r: Result<DuckUrl, DuckError>)
    ensures
        match parsed_json(text@) {
            Option::Some(rep) => extraction(rep, r),
            Option::None => r matches Err(e) && e is Decoding,
        },
{
    match parse_json(text) {
        Ok(v) => extract_url(&v),
        Err(e) => Err(e),
    }
}

} // verus!
