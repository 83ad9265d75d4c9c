use mcp_cli::error::McpCliError;
use mcp_cli::envelope::ErrorCategory;
use mcp_cli::json::{decimal_text, text_eq, JsonNumber, JsonValue};
use mcp_cli::json_text::{parse_json, render_json};

#[test]
fn mcp_cli_error_category_reflects_each_variant() {
    let io_error = McpCliError::Io(std::io::Error::other("boom"));
    assert_eq!(io_error.category(), ErrorCategory::ExecutionFailure);

    let json_error = McpCliError::Json(
        serde_json::from_str::<serde_json::Value>("{").expect_err("malformed json should fail to parse"),
    );
    assert_eq!(json_error.category(), ErrorCategory::SerializationError);

    let protocol_error = McpCliError::Protocol("bad frame".to_string());
    assert_eq!(protocol_error.category(), ErrorCategory::Validation);
}

#[test]
fn numbers_are_written_in_decimal() {
    assert_eq!(decimal_text(0), "0");
    assert_eq!(decimal_text(1234567890), "1234567890");
    assert_eq!(decimal_text(u64::MAX), "18446744073709551615");
    assert_eq!(JsonNumber::from_i64(-32700).as_text(), "-32700");
    assert_eq!(JsonNumber::from_i64(i64::MIN).as_text(), "-9223372036854775808");
    assert_eq!(JsonNumber::from_u64(7).as_text(), "7");
}

#[test]
fn parsed_json_keeps_its_values_and_renders_compactly() {
    let value = parse_json(br#" { "b" : [1, 2.5, true, null], "a" : "x\"y" } "#).expect("valid JSON");

    assert_eq!(value.get("a"), Some(&JsonValue::from_str("x\"y")));
    match value.get("b") {
        Some(JsonValue::Array(items)) => {
            assert_eq!(items.len(), 4);
            assert_eq!(items[0], JsonValue::from_i64(1));
            assert_eq!(items[2], JsonValue::Bool(true));
            assert_eq!(items[3], JsonValue::Null);
        }
        other => panic!("unexpected {other:?}"),
    }
    assert_eq!(render_json(&value), r#"{"a":"x\"y","b":[1,2.5,true,null]}"#);
}

#[test]
fn a_parse_failure_reports_serde_json_text() {
    let error = parse_json(b"{\"a\":").expect_err("truncated JSON");
    assert!(error.contains("EOF"), "{error}");
}

#[test]
fn lookup_takes_the_last_member_of_a_name() {
    let value = JsonValue::Object(vec![
        ("k".to_string(), JsonValue::from_i64(1)),
        ("k".to_string(), JsonValue::from_i64(2)),
    ]);
    assert_eq!(value.get("k"), Some(&JsonValue::from_i64(2)));
    assert_eq!(render_json(&value), r#"{"k":2}"#);
    assert_eq!(JsonValue::Null.get("k"), None);
}

#[test]
fn duplicate_copies_deeply() {
    let value = parse_json(br#"{"a":[{"b":{}}],"c":-1}"#).expect("valid JSON");
    assert_eq!(value.duplicate(), value);
}

#[test]
fn text_equality_compares_characters() {
    assert!(text_eq("tools/call", "tools/call"));
    assert!(!text_eq("tools/call", "tools/list"));
    assert!(!text_eq("a", "ab"));
}
