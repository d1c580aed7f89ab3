use apidoc::models::{OriginalForm, OriginalType, VersionForm, Visibility};
use apidoc::text::{dec_u16, str_eq};

fn form(t: Option<OriginalType>, data: &str, vis: Option<Visibility>) -> VersionForm {
    VersionForm {
        original_form: OriginalForm { original_type: t, data: data.to_string() },
        visibility: vis,
    }
}

#[test]
fn version_form_encodes_compactly() {
    let f = form(None, "package main", Some(Visibility::User));
    assert_eq!(
        f.to_json(),
        "{\"original_form\":{\"type\":null,\"data\":\"package main\"},\"visibility\":\"user\"}"
    );
}

#[test]
fn version_form_encodes_declared_type() {
    let f = form(Some(OriginalType::AvroIdl), "x", None);
    assert_eq!(
        f.to_json(),
        "{\"original_form\":{\"type\":\"avro_idl\",\"data\":\"x\"},\"visibility\":null}"
    );
}

#[test]
fn version_form_escapes_quotes_and_backslashes() {
    let f = form(None, "say \"hi\" \\ bye", Some(Visibility::Public));
    assert_eq!(
        f.to_json(),
        "{\"original_form\":{\"type\":null,\"data\":\"say \\\"hi\\\" \\\\ bye\"},\"visibility\":\"public\"}"
    );
}

#[test]
fn version_form_escapes_control_characters() {
    let f = form(None, "a\nb\tc\r\u{8}\u{c}\u{1}\u{7f}", None);
    assert_eq!(
        f.to_json(),
        "{\"original_form\":{\"type\":null,\"data\":\"a\\nb\\tc\\r\\b\\f\\u0001\\u007f\"},\"visibility\":null}"
    );
}

#[test]
fn version_form_keeps_unicode_unescaped() {
    let f = form(None, "héllo ☃", None);
    assert_eq!(
        f.to_json(),
        "{\"original_form\":{\"type\":null,\"data\":\"héllo ☃\"},\"visibility\":null}"
    );
}

#[test]
fn unknown_visibility_is_encoded_verbatim() {
    let f = form(None, "d", Some(Visibility::UNDEFINED("weird \"value\"".to_string())));
    assert_eq!(
        f.to_json(),
        "{\"original_form\":{\"type\":null,\"data\":\"d\"},\"visibility\":\"weird \\\"value\\\"\"}"
    );
}

#[test]
fn decimal_rendering_of_status_codes() {
    assert_eq!(dec_u16(0), "0");
    assert_eq!(dec_u16(7), "7");
    assert_eq!(dec_u16(200), "200");
    assert_eq!(dec_u16(422), "422");
    assert_eq!(dec_u16(65535), "65535");
}

#[test]
fn character_level_string_equality() {
    assert!(str_eq("", ""));
    assert!(str_eq("abc", "abc"));
    assert!(str_eq("héllo ☃", "héllo ☃"));
    assert!(!str_eq("abc", "abd"));
    assert!(!str_eq("abc", "ab"));
}
