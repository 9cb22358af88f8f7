use delta_sharing::parse_json_text;
use delta_sharing::ErrorResponse;
use delta_sharing::Json;
use delta_sharing::JsonPayload;
use delta_sharing::ListResponse;
use delta_sharing::Table;

#[test]
fn parse_simple_values() {
    assert!(matches!(parse_json_text("null"), Some(Json::Null)));
    assert!(matches!(parse_json_text("true"), Some(Json::Bool(true))));
    assert!(matches!(parse_json_text("false"), Some(Json::Bool(false))));
    assert!(matches!(parse_json_text("  null  "), Some(Json::Null)));
    match parse_json_text("\"hi\"") {
        Some(Json::Str(s)) => assert_eq!(s, "hi"),
        _ => panic!("expected a string"),
    }
}

#[test]
fn parse_numbers_as_raw_text() {
    match parse_json_text("-12.5e+3") {
        Some(Json::Num(raw)) => assert_eq!(raw, "-12.5e+3"),
        _ => panic!("expected a number"),
    }
    assert!(parse_json_text("01").is_none());
    assert!(parse_json_text("1.").is_none());
    assert!(parse_json_text("--1").is_none());
    assert!(parse_json_text("1e").is_none());
}

#[test]
fn parse_string_escapes() {
    match parse_json_text(r#""a\"b\\c\/d\n\tAé""#) {
        Some(Json::Str(s)) => assert_eq!(s, "a\"b\\c/d\n\tA\u{e9}"),
        _ => panic!("expected a string"),
    }
    match parse_json_text(r#""😀""#) {
        Some(Json::Str(s)) => assert_eq!(s, "\u{1f600}"),
        _ => panic!("expected a string"),
    }
    assert!(parse_json_text(r#""\ud83d""#).is_none());
    assert!(parse_json_text(r#""\x""#).is_none());
    assert!(parse_json_text("\"unterminated").is_none());
}

#[test]
fn parse_arrays_and_objects() {
    match parse_json_text(r#"[1, [], {"a": 2}]"#) {
        Some(Json::Arr(items)) => {
            assert_eq!(items.len(), 3);
            assert!(matches!(&items[1], Json::Arr(inner) if inner.is_empty()));
        }
        _ => panic!("expected an array"),
    }
    match parse_json_text(r#"{"a": 1, "b": {"c": [true]}}"#) {
        Some(Json::Obj(members)) => {
            assert_eq!(members.len(), 2);
            assert_eq!(members[0].0, "a");
        }
        _ => panic!("expected an object"),
    }
    assert!(parse_json_text("[1,]").is_none());
    assert!(parse_json_text("{\"a\" 1}").is_none());
    assert!(parse_json_text("[1] trailing").is_none());
}

#[test]
fn tables_page_parses_all_fields() {
    let body = r#"{
        "items": [
            {"name": "t", "schema": "sc", "share": "sh", "shareId": "1", "id": "2"},
            {"name": "u", "schema": "sc", "share": "sh"}
        ]
    }"#;
    let page = <ListResponse<Table> as JsonPayload>::parse_body(body).unwrap();
    assert_eq!(page.items().len(), 2);
    assert_eq!(page.items()[0].name(), "t");
    assert_eq!(page.items()[0].schema(), "sc");
    assert_eq!(page.items()[0].share(), "sh");
    assert_eq!(page.next_page_token(), None);
}

#[test]
fn a_missing_required_field_fails_the_page() {
    let body = r#"{"items": [{"name": "t", "share": "sh"}]}"#;
    assert!(<ListResponse<Table> as JsonPayload>::parse_body(body).is_none());
}

#[test]
fn error_response_rendering() {
    let body = r#"{"errorCode": "SHARE_NOT_FOUND", "message": "m"}"#;
    let envelope = <ErrorResponse as JsonPayload>::parse_body(body).unwrap();
    assert_eq!(envelope.display_string(), "[SHARE_NOT_FOUND] m");
}

#[test]
fn null_optional_fields_count_as_absent() {
    let body = r#"{"items": [], "nextPageToken": null}"#;
    let page = <ListResponse<Table> as JsonPayload>::parse_body(body).unwrap();
    assert_eq!(page.next_page_token(), None);
}
