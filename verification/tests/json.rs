use rustle::eternalai::CompletionModel;
use rustle::json::merge;
use serde_json::Value;

fn parse(text: &str) -> Value {
    serde_json::from_str(text).unwrap()
}

#[test]
fn merge_objects_prefers_second() {
    let merged = merge(parse(r#"{"a": 1, "b": 2}"#), parse(r#"{"b": 3, "c": {"d": 4}}"#));
    assert_eq!(merged, parse(r#"{"a": 1, "b": 3, "c": {"d": 4}}"#));
}

#[test]
fn merge_with_empty_object() {
    assert_eq!(merge(parse(r#"{"a": 1}"#), parse("{}")), parse(r#"{"a": 1}"#));
    assert_eq!(merge(parse("{}"), parse(r#"{"z": null}"#)), parse(r#"{"z": null}"#));
}

#[test]
fn merge_keeps_first_unless_both_objects() {
    assert_eq!(merge(parse("[1, 2]"), parse(r#"{"a": 1}"#)), parse("[1, 2]"));
    assert_eq!(merge(parse(r#"{"a": 1}"#), parse("7")), parse(r#"{"a": 1}"#));
    assert_eq!(merge(parse("\"s\""), parse("null")), parse("\"s\""));
}

#[test]
fn string_field_reads_strings_only() {
    let row = parse(r#"{"id": "doc-1", "n": 3, "nested": {"id": "x"}}"#);
    assert_eq!(rustle::json::string_field(&row, "id"), Some("doc-1".to_string()));
    assert_eq!(rustle::json::string_field(&row, "n"), None);
    assert_eq!(rustle::json::string_field(&row, "missing"), None);
    assert_eq!(rustle::json::string_field(&parse("[\"id\"]"), "id"), None);
    assert_eq!(rustle::json::string_field(&parse("\"id\""), "id"), None);
}

#[test]
fn request_body_merges_additional_params() {
    let body = parse(r#"{"model": "m", "temperature": 0.5}"#);
    assert_eq!(CompletionModel::request_body(body.clone(), None), body);
    assert_eq!(
        CompletionModel::request_body(body.clone(), Some(parse(r#"{"temperature": 1.0, "max_tokens": 10}"#))),
        parse(r#"{"model": "m", "temperature": 1.0, "max_tokens": 10}"#)
    );
    assert_eq!(CompletionModel::request_body(body.clone(), Some(parse("3"))), body);
}
