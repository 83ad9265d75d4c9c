use mcp_cli::envelope::{ErrorCategory, JsonEnvelope};
use mcp_cli::json::JsonValue;
use mcp_cli::json_text::{parse_json, render_json};
use mcp_cli::tools::{
    declare_object_root, non_object_input_schema_error, panic_message, text_is_blank,
    typed_tool_envelope, Tool, ToolMetadata, ToolOutcome, ToolRouter,
};

type Handler = fn(&(), JsonValue) -> JsonEnvelope<JsonValue>;

fn json(text: &str) -> JsonValue {
    parse_json(text.as_bytes()).expect("test JSON should parse")
}

fn noop(_: &(), _arguments: JsonValue) -> JsonEnvelope<JsonValue> {
    JsonEnvelope::success(JsonValue::empty_object())
}

fn tool_with_schema(name: &str, input_schema: JsonValue) -> Tool<Handler> {
    Tool::from_parts(
        ToolMetadata {
            name: name.to_string(),
            description: "A tool registered for its input schema shape.".to_string(),
            input_schema,
            output_schema: None,
        },
        noop as Handler,
    )
}

fn add_args_schema() -> JsonValue {
    json(r#"{"$schema":"https://json-schema.org/draft/2020-12/schema","title":"AddArgs","type":"object","properties":{"lhs":{"type":"integer","format":"int64"},"rhs":{"type":"integer","format":"int64"}},"required":["lhs","rhs"]}"#)
}

#[test]
fn router_rejects_a_tool_whose_input_schema_is_not_an_object() {
    let cases = [
        ("scalar", r#"{"$schema":"https://json-schema.org/draft/2020-12/schema","title":"String","type":"string"}"#),
        ("sequence", r#"{"$schema":"https://json-schema.org/draft/2020-12/schema","title":"Array_of_int64","type":"array","items":{"type":"integer","format":"int64"}}"#),
        ("choice", r#"{"$schema":"https://json-schema.org/draft/2020-12/schema","title":"SampleChoice","type":"string","enum":["Left","Right"]}"#),
    ];
    for (name, schema) in cases {
        let error = ToolRouter::<Handler>::new()
            .try_add_tool(tool_with_schema(name, json(schema)))
            .expect_err("a non-object input schema should be rejected");
        assert_eq!(error.code, "invalid_input_schema", "for {name}");
        assert_eq!(error.category, ErrorCategory::Validation, "for {name}");
        assert!(error.message.contains(name), "for {name}");
    }
}

#[test]
fn router_accepts_a_struct_input_schema_including_nested_refs() {
    let mut router = ToolRouter::<Handler>::new();
    let schema = json(r##"{"$schema":"https://json-schema.org/draft/2020-12/schema","title":"SampleNested","type":"object","properties":{"inner":{"$ref":"#/$defs/SampleInner"},"b":{"type":"string"}},"required":["inner","b"],"$defs":{"SampleInner":{"type":"object","properties":{"a":{"type":"integer","format":"int64"}},"required":["a"]}}}"##);
    router.try_add_tool(tool_with_schema("nested", schema)).expect("a struct input schema should register");

    let metadata = router.tool_metadata();
    assert_eq!(metadata.len(), 1);
    assert_eq!(metadata[0].input_schema.get("type"), Some(&JsonValue::from_str("object")));
    let inner_ref = metadata[0]
        .input_schema
        .get("properties")
        .and_then(|p| p.get("inner"))
        .and_then(|i| i.get("$ref"))
        .and_then(|r| r.as_str());
    assert!(inner_ref.is_some(), "the nested property should still be a $ref");
}

#[test]
fn router_rejects_a_name_that_cannot_identify_a_tool() {
    for name in ["", " ", "\t", "\n", "   \t "] {
        let error = ToolRouter::<Handler>::new()
            .try_add_tool(tool_with_schema(name, add_args_schema()))
            .expect_err("an unnameable tool should be rejected");

        assert_eq!(error.code, "invalid_tool_name", "for {name:?}");
        assert_eq!(error.category, ErrorCategory::Validation, "for {name:?}");
    }
}

#[test]
fn router_does_not_import_a_downstream_host_charset_rule() {
    for name in ["my tool", "tool.with.dots", "tool/with/slashes", "工具"] {
        ToolRouter::<Handler>::new()
            .try_add_tool(tool_with_schema(name, add_args_schema()))
            .unwrap_or_else(|error| panic!("{name:?} should register: {}", error.message));
    }
}

#[test]
fn a_refused_registration_leaves_the_router_unchanged() {
    let mut router = ToolRouter::<Handler>::new();
    router.try_add_tool(tool_with_schema("first", add_args_schema())).expect("first registers");

    assert!(router.try_add_tool(tool_with_schema("first", add_args_schema())).is_err());
    assert!(router.try_add_tool(tool_with_schema(" ", add_args_schema())).is_err());
    assert!(router.try_add_tool(tool_with_schema("s", json(r#"{"type":"string"}"#))).is_err());

    let names: Vec<String> = router.tool_metadata().into_iter().map(|m| m.name).collect();
    assert_eq!(names, vec!["first".to_string()]);
}

#[test]
fn a_blank_name_is_reported_before_a_refused_schema() {
    let error = ToolRouter::<Handler>::new()
        .try_add_tool(tool_with_schema("  ", json(r#"{"type":"string"}"#)))
        .expect_err("refused");
    assert_eq!(error.code, "invalid_tool_name");
    assert_eq!(error.message, "a tool name must not be empty or whitespace-only");
}

#[test]
fn add_tool_registers_in_order() {
    let mut router = ToolRouter::<Handler>::new();
    router.add_tool(tool_with_schema("b", add_args_schema()));
    router.add_tool(tool_with_schema("a", add_args_schema()));

    let names: Vec<String> = router.tool_metadata().into_iter().map(|m| m.name).collect();
    assert_eq!(names, vec!["b".to_string(), "a".to_string()]);
}

#[test]
fn schema_error_quotes_the_declared_type_as_json() {
    let error = non_object_input_schema_error("scalar", &json(r#"{"type":["string","null"]}"#))
        .expect("a type list without object is refused");
    assert_eq!(
        error.message,
        "tool `scalar` advertises an inputSchema with root type [\"string\",\"null\"]; MCP requires inputSchema to be a JSON Schema object, so the tool's input type should be a struct"
    );
    assert!(non_object_input_schema_error("ok", &json(r#"{"type":["null","object"]}"#)).is_none());
    assert!(non_object_input_schema_error("ok", &json(r#"{"oneOf":[]}"#)).is_none());
    assert!(non_object_input_schema_error("ok", &json(r#""just text""#)).is_none());
}

#[test]
fn declare_object_root_adds_a_type_only_when_missing() {
    let schema = json(r#"{"oneOf":[{"type":"object"},{"type":"object"}]}"#);
    let rooted = declare_object_root(schema);
    assert_eq!(rooted.get("type"), Some(&JsonValue::from_str("object")));
    assert!(rooted.get("oneOf").is_some());

    let declared = json(r#"{"type":"array"}"#);
    assert_eq!(declare_object_root(declared), json(r#"{"type":"array"}"#));

    let again = declare_object_root(declare_object_root(json("{}")));
    assert_eq!(render_json(&again), r#"{"type":"object"}"#);
}

#[test]
fn typed_tool_envelope_reports_each_outcome() {
    match typed_tool_envelope("t", ToolOutcome::InvalidArguments("missing field `lhs`".to_string())) {
        JsonEnvelope::Error { meta, error } => {
            assert_eq!(meta.command.as_deref(), Some("t"));
            assert_eq!(error.category, ErrorCategory::Validation);
            assert_eq!(error.code, "invalid_tool_arguments");
            assert_eq!(error.message, "invalid tool arguments: missing field `lhs`");
        }
        other => panic!("unexpected {other:?}"),
    }
    match typed_tool_envelope("t", ToolOutcome::Unserializable("key must be a string".to_string())) {
        JsonEnvelope::Error { error, .. } => {
            assert_eq!(error.category, ErrorCategory::SerializationError);
            assert_eq!(error.code, "serialization_error");
            assert_eq!(error.message, "failed to serialize tool result: key must be a string");
        }
        other => panic!("unexpected {other:?}"),
    }
    match typed_tool_envelope("t", ToolOutcome::Produced(json("[1]"))) {
        JsonEnvelope::Success { meta, data } => {
            assert_eq!(meta.command.as_deref(), Some("t"));
            assert_eq!(data, json("[1]"));
        }
        other => panic!("unexpected {other:?}"),
    }
}

#[test]
fn panic_message_prefers_the_literal_then_the_formatted_text() {
    let formatted = String::from("formatted");
    assert_eq!(panic_message(Some("literal"), Some(&formatted)), "literal");
    assert_eq!(panic_message(None, Some(&formatted)), "formatted");
    assert_eq!(panic_message(None, None), "panic payload of unknown type");
}

#[test]
fn blank_means_white_space_only() {
    assert!(text_is_blank(""));
    assert!(text_is_blank(" \t\n\r\u{a0}\u{3000}"));
    assert!(!text_is_blank(" a "));
    assert!(!text_is_blank("工具"));
}
