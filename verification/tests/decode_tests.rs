use mcp_cli::json::JsonValue;
use mcp_cli::json_text::parse_json;
use mcp_cli::protocol::{JsonRpcRequest, ToolCallParams};

fn json(text: &str) -> JsonValue {
    parse_json(text.as_bytes()).expect("test JSON should parse")
}

fn request_reason(text: &str) -> String {
    JsonRpcRequest::decode(json(text)).expect_err("the value is not a request")
}

fn params_reason(text: &str) -> String {
    ToolCallParams::decode(json(text)).expect_err("the value is not tool-call params")
}

#[test]
fn request_reasons_follow_the_reader_wording() {
    assert_eq!(request_reason(r#"{"id":1}"#), "missing field `method`");
    assert_eq!(
        request_reason(r#"{"method":5}"#),
        "invalid type: integer `5`, expected a string"
    );
    assert_eq!(
        request_reason(r#"{"method":-2.5}"#),
        "invalid type: floating point `-2.5`, expected a string"
    );
    assert_eq!(request_reason(r#"{"method":null}"#), "invalid type: null, expected a string");
    assert_eq!(
        request_reason(r#"{"method":true}"#),
        "invalid type: boolean `true`, expected a string"
    );
    assert_eq!(request_reason(r#"{"method":[]}"#), "invalid type: sequence, expected a string");
    assert_eq!(request_reason(r#"{"method":{}}"#), "invalid type: map, expected a string");
    assert_eq!(
        request_reason(r#""not even an object""#),
        "invalid type: string \"not even an object\", expected struct JsonRpcRequest"
    );
    assert_eq!(
        request_reason("7"),
        "invalid type: integer `7`, expected struct JsonRpcRequest"
    );
    assert_eq!(
        request_reason("[1]"),
        "invalid length 1, expected struct JsonRpcRequest with 3 elements"
    );
    assert_eq!(
        request_reason(r#"[1,"ping",{},4]"#),
        "invalid length 4, expected fewer elements in array"
    );
    assert_eq!(
        request_reason(r#"[1,2,3,4]"#),
        "invalid type: integer `2`, expected a string"
    );
}

#[test]
fn string_values_are_quoted_with_escapes_in_reasons() {
    assert_eq!(
        request_reason(r#""a\"b\n""#),
        "invalid type: string \"a\\\"b\\n\", expected struct JsonRpcRequest"
    );
}

#[test]
fn positional_requests_are_read_by_position() {
    let request = JsonRpcRequest::decode(json(r#"[7,"ping"]"#)).expect("a positional request");
    assert_eq!(request.method, "ping");
    assert_eq!(request.id, Some(json("7")));
    assert_eq!(request.params, None);
}

#[test]
fn tool_call_params_reasons_follow_the_reader_wording() {
    assert_eq!(params_reason(r#"{"arguments":{}}"#), "missing field `name`");
    assert_eq!(
        params_reason(r#"{"name":false}"#),
        "invalid type: boolean `false`, expected a string"
    );
    assert_eq!(
        params_reason("[]"),
        "invalid length 0, expected struct ToolCallParams with 2 elements"
    );
    assert_eq!(
        params_reason(r#"["sum",{},3]"#),
        "invalid length 3, expected fewer elements in array"
    );
    assert_eq!(
        params_reason(r#"[{}]"#),
        "invalid type: map, expected a string"
    );
    assert_eq!(
        params_reason("null"),
        "invalid type: null, expected struct ToolCallParams"
    );
    let params = ToolCallParams::decode(json(r#"["sum",{"lhs":1}]"#)).expect("positional params");
    assert_eq!(params.name, "sum");
    assert_eq!(params.arguments, Some(json(r#"{"lhs":1}"#)));
}
