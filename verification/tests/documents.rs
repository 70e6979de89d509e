//! The document model on its own: rendering, lookup and string equality.

use duck_url::json::{find_string, str_eq};
use duck_url::render::to_text;
use duck_url::JsonValue;

#[test]
fn scalars_render_as_json() {
    assert_eq!(to_text(&JsonValue::Null), "null");
    assert_eq!(to_text(&JsonValue::Boolean(true)), "true");
    assert_eq!(to_text(&JsonValue::Boolean(false)), "false");
    assert_eq!(to_text(&JsonValue::Number("42".to_string())), "42");
    assert_eq!(to_text(&JsonValue::Text("duck".to_string())), "\"duck\"");
}

#[test]
fn empty_containers_render_as_json() {
    assert_eq!(to_text(&JsonValue::Array(vec![])), "[]");
    assert_eq!(to_text(&JsonValue::Object(vec![])), "{}");
}

#[test]
fn strings_are_escaped() {
    let v = JsonValue::Object(vec![(
        "a\"b".to_string(),
        JsonValue::Text("x\ny\\z\t\r".to_string()),
    )]);
    assert_eq!(to_text(&v), "{\"a\\\"b\":\"x\\ny\\\\z\\t\\r\"}");
}

#[test]
fn nested_documents_render_with_separators() {
    let v = JsonValue::Array(vec![
        JsonValue::Object(vec![
            ("k".to_string(), JsonValue::Null),
            ("l".to_string(), JsonValue::Array(vec![JsonValue::Boolean(false)])),
        ]),
        JsonValue::Number("7".to_string()),
    ]);
    assert_eq!(to_text(&v), "[{\"k\":null,\"l\":[false]},7]");
}

#[test]
fn find_string_picks_the_named_key() {
    let v = JsonValue::Object(vec![
        ("first".to_string(), JsonValue::Text("a".to_string())),
        ("second".to_string(), JsonValue::Text("b".to_string())),
    ]);
    assert_eq!(find_string(&v, "second").map(String::as_str), Some("b"));
    assert_eq!(find_string(&v, "third"), None);
    assert_eq!(find_string(&v, "first").map(String::as_str), Some("a"));
}

#[test]
fn find_string_rejects_non_strings_and_non_objects() {
    let v = JsonValue::Object(vec![("n".to_string(), JsonValue::Number("1".to_string()))]);
    assert_eq!(find_string(&v, "n"), None);
    assert_eq!(find_string(&JsonValue::Null, "n"), None);
    assert_eq!(find_string(&JsonValue::Array(vec![]), "n"), None);
}

#[test]
fn str_eq_compares_by_characters() {
    assert!(str_eq("", ""));
    assert!(str_eq("duck", "duck"));
    assert!(!str_eq("duck", "ducks"));
    assert!(!str_eq("duck", "duck "));
    assert!(!str_eq("duck", "Duck"));
    assert!(str_eq("\u{00e9}t\u{00e9}", "\u{00e9}t\u{00e9}"));
}
