//! The Extractor on documents built directly in the library's model.

use duck_url::{extract_url, DuckError, JsonValue};

fn obj(entries: Vec<(&str, JsonValue)>) -> JsonValue {
    JsonValue::Object(entries.into_iter().map(|(k, v)| (k.to_string(), v)).collect())
}

#[test]
fn round_trip_extraction() {
    let doc = obj(vec![("url", JsonValue::Text("https://random-d.uk/assets/duck1.jpg".to_string()))]);
    let url = extract_url(&doc).expect("a valid url field must extract");
    assert_eq!(url.as_str(), "https://random-d.uk/assets/duck1.jpg");
}

#[test]
fn extraction_normalizes_scheme_and_host() {
    let doc = obj(vec![("url", JsonValue::Text("HTTPS://Random-D.UK/assets/duck1.jpg".to_string()))]);
    let url = extract_url(&doc).expect("a valid url field must extract");
    assert_eq!(url.as_str(), "https://random-d.uk/assets/duck1.jpg");
}

#[test]
fn extraction_ignores_other_keys() {
    let doc = obj(vec![
        ("message", JsonValue::Text("quack".to_string())),
        ("url", JsonValue::Text("https://random-d.uk/assets/duck2.jpg".to_string())),
    ]);
    let url = extract_url(&doc).expect("a valid url field must extract");
    assert_eq!(url.as_str(), "https://random-d.uk/assets/duck2.jpg");
}

#[test]
fn missing_key_is_schema_error() {
    let doc = obj(vec![]);
    let e = extract_url(&doc).expect_err("an empty object has no url");
    assert!(matches!(e, DuckError::Schema(_)));
    assert_eq!(
        e.message(),
        "The json value did not contain a \"url\" key.\n{}"
    );
}

#[test]
fn other_key_only_is_schema_error() {
    let doc = obj(vec![("image", JsonValue::Text("x".to_string()))]);
    let e = extract_url(&doc).expect_err("no url key");
    assert!(matches!(e, DuckError::Schema(_)));
    assert_eq!(
        e.message(),
        "The json value did not contain a \"url\" key.\n{\"image\":\"x\"}"
    );
}

#[test]
fn wrong_type_number_is_schema_error() {
    let doc = obj(vec![("url", JsonValue::Number("123".to_string()))]);
    let e = extract_url(&doc).expect_err("a number is not a url string");
    assert!(matches!(e, DuckError::Schema(_)));
    assert_eq!(
        e.message(),
        "The json value did not contain a \"url\" key.\n{\"url\":123}"
    );
}

#[test]
fn wrong_type_null_is_schema_error() {
    let doc = obj(vec![("url", JsonValue::Null)]);
    let e = extract_url(&doc).expect_err("null is not a url string");
    assert!(matches!(e, DuckError::Schema(_)));
}

#[test]
fn wrong_type_array_is_schema_error() {
    let doc = obj(vec![("url", JsonValue::Array(vec![JsonValue::Text("a".to_string())]))]);
    let e = extract_url(&doc).expect_err("an array is not a url string");
    assert!(matches!(e, DuckError::Schema(_)));
}

#[test]
fn repeated_key_takes_the_first_entry() {
    let doc = obj(vec![
        ("url", JsonValue::Text("https://random-d.uk/assets/duck3.jpg".to_string())),
        ("url", JsonValue::Text("not a url".to_string())),
    ]);
    let url = extract_url(&doc).expect("the first entry holds a valid url");
    assert_eq!(url.as_str(), "https://random-d.uk/assets/duck3.jpg");
}

#[test]
fn malformed_url_is_validation_error() {
    let doc = obj(vec![("url", JsonValue::Text("not a url".to_string()))]);
    let e = extract_url(&doc).expect_err("not a well-formed url");
    assert!(matches!(e, DuckError::Validation(_)));
}

#[test]
fn non_object_array_is_schema_error() {
    let doc = JsonValue::Array(vec![
        JsonValue::Number("1".to_string()),
        JsonValue::Number("2".to_string()),
        JsonValue::Number("3".to_string()),
    ]);
    let e = extract_url(&doc).expect_err("an array has no url key");
    assert!(matches!(e, DuckError::Schema(_)));
    assert_eq!(
        e.message(),
        "The json value did not contain a \"url\" key.\n[1,2,3]"
    );
}

#[test]
fn non_object_scalar_is_schema_error() {
    let doc = JsonValue::Text("hello".to_string());
    let e = extract_url(&doc).expect_err("a scalar has no url key");
    assert!(matches!(e, DuckError::Schema(_)));
    assert_eq!(
        e.message(),
        "The json value did not contain a \"url\" key.\n\"hello\""
    );
}
