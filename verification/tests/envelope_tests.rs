use mcp_cli::envelope::{
    envelope_from_result, envelope_from_result_ref, EnvelopeMeta, ErrorCategory, JsonEnvelope,
    JsonError, StructuredError, JSON_SCHEMA_VERSION,
};
use mcp_cli::json::{JsonNumber, JsonValue};
use mcp_cli::json_text::{parse_json, render_json};

fn json(text: &str) -> JsonValue {
    parse_json(text.as_bytes()).expect("test JSON should parse")
}

fn text(s: &str) -> JsonValue {
    JsonValue::from_str(s)
}

fn field<'a>(value: &'a JsonValue, path: &[&str]) -> &'a JsonValue {
    let mut current = value;
    for key in path {
        current = current.get(key).unwrap_or_else(|| panic!("missing {key} in {value:?}"));
    }
    current
}

struct SampleError {
    category: ErrorCategory,
    message: String,
}

impl StructuredError for SampleError {
    fn category(&self) -> ErrorCategory {
        self.category
    }

    fn code(&self) -> String {
        "sample_validation".to_owned()
    }

    fn message(&self) -> String {
        self.message.clone()
    }
}

struct DetailedError;

impl StructuredError for DetailedError {
    fn category(&self) -> ErrorCategory {
        ErrorCategory::Timeout
    }

    fn code(&self) -> String {
        "deadline".to_owned()
    }

    fn message(&self) -> String {
        "took too long".to_owned()
    }

    fn details(&self) -> Option<JsonValue> {
        Some(json(r#"{"after_ms":250}"#))
    }
}

#[test]
fn envelope_meta_defaults_are_stable() {
    let meta = EnvelopeMeta::default();

    assert_eq!(meta.schema_version, JSON_SCHEMA_VERSION);
    assert!(meta.command.is_none());
}

#[test]
fn success_envelope_serializes_with_status_tag_and_meta() {
    let envelope = JsonEnvelope::success_for("list", json(r#"{"crate":"mcp-cli"}"#));

    let value = envelope.to_json();

    assert_eq!(field(&value, &["status"]), &text("success"));
    assert_eq!(
        field(&value, &["meta", "schema_version"]),
        &JsonValue::Number(JsonNumber::from_u64(JSON_SCHEMA_VERSION as u64))
    );
    assert_eq!(field(&value, &["meta", "command"]), &text("list"));
    assert_eq!(field(&value, &["data", "crate"]), &text("mcp-cli"));
}

#[test]
fn error_envelope_serializes_with_structured_category_and_code() {
    let envelope: JsonEnvelope<JsonValue> = JsonEnvelope::error_for(
        "capture",
        JsonError::new(ErrorCategory::Validation, "invalid_target", "placeholder validation failure")
            .with_details(json(r#"{"field":"window"}"#)),
    );

    let value = envelope.to_json();

    assert_eq!(field(&value, &["status"]), &text("error"));
    assert_eq!(field(&value, &["meta", "command"]), &text("capture"));
    assert_eq!(field(&value, &["error", "category"]), &text("validation"));
    assert_eq!(field(&value, &["error", "code"]), &text("invalid_target"));
    assert_eq!(field(&value, &["error", "details", "field"]), &text("window"));
}

#[test]
fn absent_command_and_details_are_left_out() {
    let envelope: JsonEnvelope<JsonValue> =
        JsonEnvelope::error(JsonError::new(ErrorCategory::ConfigError, "bad", "bad config"));

    let value = envelope.to_json();

    assert!(field(&value, &["meta"]).get("command").is_none());
    assert!(field(&value, &["error"]).get("details").is_none());
    assert_eq!(field(&value, &["error", "category"]), &text("config_error"));
}

#[test]
fn envelope_from_result_wraps_success_without_a_command() {
    let result: Result<i32, SampleError> = Ok(12);

    match envelope_from_result(result) {
        JsonEnvelope::Success { meta, data } => {
            assert_eq!(data, 12);
            assert_eq!(meta, EnvelopeMeta::default());
        }
        JsonEnvelope::Error { .. } => panic!("expected a success envelope"),
    }
}

#[test]
fn envelope_from_result_projects_a_structured_error() {
    let result: Result<i32, SampleError> =
        Err(SampleError { category: ErrorCategory::Validation, message: "bad input".to_string() });

    let envelope = envelope_from_result(result);

    assert!(envelope.is_error());
    match envelope {
        JsonEnvelope::Error { meta, error } => {
            assert!(meta.command.is_none());
            assert_eq!(error.category, ErrorCategory::Validation);
            assert_eq!(error.code, "sample_validation");
            assert_eq!(error.message, "bad input");
            assert!(error.details.is_none());
        }
        JsonEnvelope::Success { .. } => panic!("expected an error envelope"),
    }
}

#[test]
fn envelope_from_result_ref_borrows_the_data() {
    let data = String::from("borrowed");
    let result: Result<&String, &SampleError> = Ok(&data);

    match envelope_from_result_ref(result) {
        JsonEnvelope::Success { data: d, .. } => assert_eq!(d, &data),
        JsonEnvelope::Error { .. } => panic!("expected a success envelope"),
    }

    let failure = DetailedError;
    let failed: Result<&String, &DetailedError> = Err(&failure);
    match envelope_from_result_ref(failed) {
        JsonEnvelope::Error { error, .. } => {
            assert_eq!(error.category, ErrorCategory::Timeout);
            assert_eq!(error.details, Some(json(r#"{"after_ms":250}"#)));
        }
        JsonEnvelope::Success { .. } => panic!("expected an error envelope"),
    }
}

#[test]
fn json_error_is_its_own_structured_error() {
    let error = JsonError::new(ErrorCategory::MissingPermission, "denied", "no access")
        .with_details(json("[1,2]"));

    let copy = JsonError::from_error(&error);

    assert_eq!(copy, error);
    assert_eq!(StructuredError::code(&error), "denied");
}

#[test]
fn every_category_has_its_snake_case_name() {
    let names = [
        (ErrorCategory::Validation, "validation"),
        (ErrorCategory::UnsupportedCapability, "unsupported_capability"),
        (ErrorCategory::MissingPermission, "missing_permission"),
        (ErrorCategory::TargetNotFound, "target_not_found"),
        (ErrorCategory::PlatformAdapterFailure, "platform_adapter_failure"),
        (ErrorCategory::ExecutionFailure, "execution_failure"),
        (ErrorCategory::ConfigError, "config_error"),
        (ErrorCategory::SerializationError, "serialization_error"),
        (ErrorCategory::Timeout, "timeout"),
    ];
    for (category, name) in names {
        assert_eq!(category.name(), name);
    }
}

#[test]
fn for_command_names_the_command() {
    let meta = EnvelopeMeta::for_command("list");
    assert_eq!(meta.schema_version, 1);
    assert_eq!(meta.command.as_deref(), Some("list"));
}

#[test]
fn envelope_text_writes_members_in_declaration_order() {
    let success = JsonEnvelope::success(json(r#"{"b":1,"a":[true,null]}"#));
    assert_eq!(
        success.to_text(),
        r#"{"status":"success","meta":{"schema_version":1},"data":{"a":[true,null],"b":1}}"#
    );

    let error = JsonEnvelope::<JsonValue>::error_for(
        "list",
        JsonError::new(ErrorCategory::TargetNotFound, "missing", "no \"such\" target")
            .with_details(json(r#"{"path":"/tmp"}"#)),
    );
    assert_eq!(
        error.to_text(),
        r#"{"status":"error","meta":{"schema_version":1,"command":"list"},"error":{"category":"target_not_found","code":"missing","message":"no \"such\" target","details":{"path":"/tmp"}}}"#
    );
}

#[test]
fn envelope_text_reads_back_as_the_envelope_object() {
    let envelope = JsonEnvelope::success_for("list", json(r#"{"crate":"mcp-cli"}"#));
    let text = envelope.to_text();
    let expected = parse_json(render_json(&envelope.to_json()).as_bytes());
    assert_eq!(parse_json(text.as_bytes()), expected);
}
