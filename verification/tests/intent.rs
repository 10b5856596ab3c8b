use a2web::json::text_member_or;
use a2web::{
    is_valid_intent_id, is_valid_intent_type, normalize_intent_data, INTENT_TYPE_NOTES,
    JSON_WS_PORT, SAMOD_WS_PORT,
};
use serde_json::Value;

fn parsed(text: &str) -> Value {
    serde_json::from_str(text).unwrap()
}

#[test]
fn notes_is_the_only_type() {
    assert_eq!(INTENT_TYPE_NOTES, "notes");
    assert!(is_valid_intent_type("notes"));
    assert!(!is_valid_intent_type("note"));
    assert!(!is_valid_intent_type("Notes"));
    assert!(!is_valid_intent_type(""));
}

#[test]
fn ports_are_fixed() {
    assert_eq!(JSON_WS_PORT, 2341);
    assert_eq!(SAMOD_WS_PORT, 2342);
}

#[test]
fn ids_have_one_to_256_characters() {
    assert!(!is_valid_intent_id(""));
    assert!(is_valid_intent_id("n"));
    assert!(is_valid_intent_id(&"a".repeat(256)));
    assert!(!is_valid_intent_id(&"a".repeat(257)));
}

#[test]
fn id_length_counts_characters() {
    assert!(is_valid_intent_id(&"é".repeat(256)));
    assert!(!is_valid_intent_id(&"é".repeat(257)));
}

#[test]
fn normalizing_fills_in_the_id() {
    let content = normalize_intent_data("note-1", &parsed(r#"{"title":"T","content":"C"}"#)).unwrap();
    assert_eq!(content, parsed(r#"{"id":"note-1","title":"T","content":"C"}"#));
}

#[test]
fn normalizing_overwrites_the_id_and_keeps_the_rest() {
    let data = parsed(r#"{"id":7,"title":"T","content":"","tags":["a",1.5,null],"done":true}"#);
    let content = normalize_intent_data("x", &data).unwrap();
    assert_eq!(
        content,
        parsed(r#"{"id":"x","title":"T","content":"","tags":["a",1.5,null],"done":true}"#)
    );
    assert_eq!(normalize_intent_data("x", &content), Some(content));
}

#[test]
fn normalizing_takes_values_built_by_hand() {
    let mut object = serde_json::Map::new();
    object.insert("title".to_string(), Value::String("T".to_string()));
    object.insert("content".to_string(), Value::String("C".to_string()));
    let content = normalize_intent_data("", &Value::Object(object)).unwrap();
    assert_eq!(content.get("id"), Some(&Value::String(String::new())));
}

#[test]
fn what_does_not_satisfy_the_scheme_is_refused() {
    for text in [
        "null",
        "3",
        "\"title\"",
        "[]",
        "{}",
        r#"{"title":"T"}"#,
        r#"{"content":"C"}"#,
        r#"{"title":"","content":"C"}"#,
        r#"{"title":1,"content":"C"}"#,
        r#"{"title":"T","content":null}"#,
        r#"{"title":"T","content":["C"]}"#,
    ] {
        assert_eq!(normalize_intent_data("note-1", &parsed(text)), None, "{}", text);
    }
}

#[test]
fn text_members_have_a_default() {
    let value = parsed(r#"{"a":"x","b":1}"#);
    assert_eq!(text_member_or(&value, "a", "d"), "x");
    assert_eq!(text_member_or(&value, "b", "d"), "d");
    assert_eq!(text_member_or(&value, "c", "d"), "d");
    assert_eq!(text_member_or(&parsed("[\"a\"]"), "a", "d"), "d");
}
