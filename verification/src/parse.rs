//! Parsing JSON text into the library's document model.
//!
//! The parse itself is serde_json's; this module declares its `Value` type,
//! names what a given text parses to, and converts the parsed tree into the
//! library's own `JsonValue`.

use vstd::prelude::*;

use crate::json::{rep_of, JsonRep, JsonValue};
use crate::extract::DuckError;

verus! {

#[verifier::external_type_specification]
#[verifier::external_body]
pub struct ExSerdeValue(serde_json::Value);

/// The shape of a parsed `serde_json::Value`.
pub uninterp spec fn value_rep(v: serde_json::Value) -> JsonRep;

/// The shape of the document that `text` denotes, if `text` is valid JSON.
/// Names the result of `serde_json::from_str::<serde_json::Value>`, which
/// depends on the input characters alone.
pub uninterp spec fn parsed_json(text: Seq<char>) -> Option<JsonRep>;

/// Relies on serde_json::from_str::<serde_json::Value>: parses arbitrary JSON
/// text, succeeding exactly on syntactically valid JSON, and on
/// serde_json::Error's Display for the failure message.
#[verifier::external_body]
fn parse_document(text: &str) -> (r: Result<serde_json::Value, String>)
    ensures
        r is Ok <==> parsed_json(text@) is Some,
        r matches Ok(v) ==> value_rep(v) == parsed_json(text@).unwrap(),
{
    match serde_json::from_str::<serde_json::Value>(text) {
        Ok(v) => Ok(v),
        Err(e) => Err(e.to_string()),
    }
}

/// Relies on serde_json::Value's variants: each is moved to the matching
/// `JsonValue` variant, a number to the text serde_json prints for it.
#[verifier::external_body]
fn from_value(v: &serde_json::Value) -> (r: JsonValue)
    ensures
        rep_of(r) == value_rep(*v),
{
    match v {
        serde_json::Value::Null => JsonValue::Null,
        serde_json::Value::Bool(b) => JsonValue::Boolean(*b),
        serde_json::Value::Number(n) => JsonValue::Number(n.to_string()),
        serde_json::Value::String(s) => JsonValue::Text(s.clone()),
        serde_json::Value::Array(a) => JsonValue::Array(a.iter().map(from_value).collect()),
        serde_json::Value::Object(m) => JsonValue::Object(
            m.iter().map(|(k, x)| (k.clone(), from_value(x))).collect(),
        ),
    }
}

/// Parses JSON text into the library's document model. Succeeds exactly on
/// syntactically valid JSON; on failure the error is a `Decoding` error.
pub fn parse_json(text: &str) -> (r: Result<JsonValue, DuckError>)
    ensures
        r is Ok <==> parsed_json(text@) is Some,
        r matches Ok(v) ==> rep_of(v) == parsed_json(text@).unwrap(),
        r matches Err(e) ==> e is Decoding,
{
    match parse_document(text) {
        Ok(v) => Ok(from_value(&v)),
        Err(m) => Err(DuckError::Decoding(m)),
    }
}

} // verus!
