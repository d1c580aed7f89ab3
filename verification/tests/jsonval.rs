use apidoc::json::JsonValue;
use apidoc::models::{Original, OriginalForm, OriginalType};

fn obj(fields: Vec<(&str, JsonValue)>) -> JsonValue {
    JsonValue::Object(fields.into_iter().map(|(k, v)| (k.to_string(), v)).collect())
}

fn text(s: &str) -> JsonValue {
    JsonValue::Text(s.to_string())
}

#[test]
fn get_finds_the_first_matching_field() {
    let doc = obj(vec![("a", JsonValue::Bool(true)), ("b", text("y"))]);
    assert!(matches!(doc.get("a"), Some(JsonValue::Bool(true))));
    match doc.get("b") {
        Some(JsonValue::Text(t)) => assert_eq!(t, "y"),
        _ => panic!("expected a string under `b`"),
    }
    assert!(doc.get("missing").is_none());
}

#[test]
fn get_on_a_non_object_finds_nothing() {
    assert!(JsonValue::Null.get("a").is_none());
    assert!(text("x").get("a").is_none());
    assert!(JsonValue::List(vec![]).get("a").is_none());
}

#[test]
fn original_form_decodes_with_and_without_type() {
    let doc = obj(vec![("type", text("avro_idl")), ("data", text("d1"))]);
    let form = OriginalForm::from_json(&doc).unwrap();
    assert!(matches!(form.original_type, Some(OriginalType::AvroIdl)));
    assert_eq!(form.data, "d1");

    let doc = obj(vec![("type", JsonValue::Null), ("data", text("d2"))]);
    let form = OriginalForm::from_json(&doc).unwrap();
    assert!(form.original_type.is_none());
    assert_eq!(form.data, "d2");

    let doc = obj(vec![("data", text("d3"))]);
    let form = OriginalForm::from_json(&doc).unwrap();
    assert!(form.original_type.is_none());
    assert_eq!(form.data, "d3");
}

#[test]
fn original_form_rejects_missing_data() {
    let doc = obj(vec![("type", text("api_json"))]);
    assert!(OriginalForm::from_json(&doc).is_none());
}

#[test]
fn original_decodes_an_unknown_type_verbatim() {
    let doc = obj(vec![("type", text("protobuf")), ("data", text("d"))]);
    let original = Original::from_json(&doc).unwrap();
    match original.original_type {
        OriginalType::UNDEFINED(s) => assert_eq!(s, "protobuf"),
        _ => panic!("expected the fallback variant"),
    }
}

#[test]
fn original_rejects_a_missing_type() {
    let doc = obj(vec![("data", text("d"))]);
    assert!(Original::from_json(&doc).is_none());
}

#[test]
fn original_encodes_its_fields_as_a_json_object() {
    let original =
        Original { original_type: OriginalType::ApiJson, data: "spec \"text\"".to_string() };
    let mut out = String::new();
    original.write_json(&mut out);
    assert_eq!(out, "{\"type\":\"api_json\",\"data\":\"spec \\\"text\\\"\"}");
}
