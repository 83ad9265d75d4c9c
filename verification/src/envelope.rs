//! Stable success/error envelopes shared by the CLI JSON surface and MCP
//! `tools/call` results.

use vstd::prelude::*;

use crate::json::{
    decimal, json_view, push_member, view_members, Json, JsonNumber, JsonValue,
};
use crate::json_text::{json_text, render_json};

verus! {

/// Stable schema version for JSON envelopes shared by CLI and MCP surfaces.
pub const JSON_SCHEMA_VERSION: u32 = 1;

/// Stable categories for structured JSON and MCP errors.
#[derive(Clone, Copy, Debug, PartialEq, Eq, Structural)]
pub enum ErrorCategory {
    Validation,
    UnsupportedCapability,
    MissingPermission,
    TargetNotFound,
    PlatformAdapterFailure,
    ExecutionFailure,
    ConfigError,
    SerializationError,
    /// Operation exceeded a configured deadline.
    Timeout,
}

/// The snake_case name under which a category is written in JSON.
pub open spec fn category_name(c: ErrorCategory) -> Seq<char> {
    match c {
        ErrorCategory::Validation => "validation"@,
        ErrorCategory::UnsupportedCapability => "unsupported_capability"@,
        ErrorCategory::MissingPermission => "missing_permission"@,
        ErrorCategory::TargetNotFound => "target_not_found"@,
        ErrorCategory::PlatformAdapterFailure => "platform_adapter_failure"@,
        ErrorCategory::ExecutionFailure => "execution_failure"@,
        ErrorCategory::ConfigError => "config_error"@,
        ErrorCategory::SerializationError => "serialization_error"@,
        ErrorCategory::Timeout => "timeout"@,
    }
}

impl ErrorCategory {
    /// The snake_case name under which this category is written in JSON.
    pub fn name(&self) -> (r: &'static str)
        ensures
            r@ == category_name(*self),
    {
        match self {
            ErrorCategory::Validation => "validation",
            ErrorCategory::UnsupportedCapability => "unsupported_capability",
            ErrorCategory::MissingPermission => "missing_permission",
            ErrorCategory::TargetNotFound => "target_not_found",
            ErrorCategory::PlatformAdapterFailure => "platform_adapter_failure",
            ErrorCategory::ExecutionFailure => "execution_failure",
            ErrorCategory::ConfigError => "config_error",
            ErrorCategory::SerializationError => "serialization_error",
            ErrorCategory::Timeout => "timeout",
        }
    }
}

/// Stable metadata attached to every machine-readable response envelope.
#[derive(Debug, PartialEq, Eq)]
pub struct EnvelopeMeta {
    pub schema_version: u32,
    pub command: Option<String>,
}

/// The metadata of an envelope that names no command.

/// The JSON object of envelope metadata; `command` is left out when absent.
pub open spec fn meta_json(schema_version: u32, command: Option<Seq<char>>) -> Json {
    let version = seq![("schema_version"@, Json::Number(decimal(schema_version as nat)))];
    match command {
        Some(c) => Json::Object(version.push(("command"@, Json::Str(c)))),
        None => Json::Object(version),
    }
}

impl EnvelopeMeta {
    /// The command this metadata names, as text.
    pub open spec fn command_view(&self) -> Option<Seq<char>> {
        match self.command {
            Some(c) => Some(c@),
            None => None,
        }
    }

    /// The JSON object of this metadata.
    pub open spec fn json(&self) -> Json {
        meta_json(self.schema_version, self.command_view())
    }

    /// Metadata for a response to `command`.
    pub fn for_command(command: &str) -> (r: Self)
        ensures
            r.schema_version == JSON_SCHEMA_VERSION,
            r.command_view() == Some(command@),
    {
        EnvelopeMeta { schema_version: JSON_SCHEMA_VERSION, command: Some(String::from_str(command)) }
    }

    /// A copy of this metadata.
    pub fn duplicate(&self) -> (r: Self)
        ensures
            r.schema_version == self.schema_version,
            r.command_view() == self.command_view(),
    {
        let command = match &self.command {
            Some(c) => Some(c.clone()),
            None => None,
        };
        EnvelopeMeta { schema_version: self.schema_version, command }
    }

    /// The JSON object of this metadata.
    pub fn to_json(&self) -> (r: JsonValue)
        ensures
            r@ == self.json(),
    {
        let mut members: Vec<(String, JsonValue)> = Vec::new();
        push_member(
            &mut members,
            "schema_version",
            JsonValue::Number(JsonNumber::from_u64(self.schema_version as u64)),
        );
        match &self.command {
            Some(c) => push_member(&mut members, "command", JsonValue::String(c.clone())),
            None => {},
        }
        proof {
            assert(view_members(Seq::<(String, JsonValue)>::empty()) =~= Seq::<
                (Seq<char>, Json),
            >::empty());
            assert(Seq::<(Seq<char>, Json)>::empty().push(
                ("schema_version"@, Json::Number(decimal(self.schema_version as nat))),
            ) =~= seq![("schema_version"@, Json::Number(decimal(self.schema_version as nat)))]);
        }
        JsonValue::Object(members)
    }
}

impl Default for EnvelopeMeta {
    /// Metadata of the current schema version that names no command.
    fn default() -> (r: Self)
        ensures
            r.schema_version == JSON_SCHEMA_VERSION,
            r.command is None,
    {
        EnvelopeMeta { schema_version: JSON_SCHEMA_VERSION, command: None }
    }
}

/// Errors that can be projected into a stable JSON/MCP error payload.
pub trait StructuredError {
    fn category(&self) -> ErrorCategory;

    fn code(&self) -> String;

    fn message(&self) -> String;

    fn details(&self) -> (r: Option<JsonValue>)
        default_ensures
            r is None,
    {
        None
    }
}

/// Structured error payload shared by CLI and MCP surfaces.
#[derive(Debug, PartialEq, Eq)]
pub struct JsonError {
    pub category: ErrorCategory,
    pub code: String,
    pub message: String,
    pub details: Option<JsonValue>,
}

/// The JSON object of an error payload; `details` is left out when absent.
pub open spec fn error_json(
    category: ErrorCategory,
    code: Seq<char>,
    message: Seq<char>,
    details: Option<Json>,
) -> Json {
    let base = seq![
        ("category"@, Json::Str(category_name(category))),
        ("code"@, Json::Str(code)),
        ("message"@, Json::Str(message)),
    ];
    match details {
        Some(d) => Json::Object(base.push(("details"@, d))),
        None => Json::Object(base),
    }
}

/// Whether `e` is the payload of `error`: its category, code, message and
/// details are what the error's methods return.
pub open spec fn is_payload_of<E: StructuredError + ?Sized>(error: &E, e: JsonError) -> bool {
    &&& call_ensures(E::category, (error,), e.category)
    &&& exists|code: String| call_ensures(E::code, (error,), code) && #[trigger] code@ == e.code@
    &&& exists|message: String|
        call_ensures(E::message, (error,), message) && #[trigger] message@ == e.message@
    &&& call_ensures(E::details, (error,), e.details)
}

impl JsonError {
    /// The details of this error, as JSON.
    pub open spec fn details_view(&self) -> Option<Json> {
        match self.details {
            Some(d) => Some(d@),
            None => None,
        }
    }

    /// The JSON object of this error.
    pub open spec fn json(&self) -> Json {
        error_json(self.category, self.code@, self.message@, self.details_view())
    }

    /// An error with no details.
    pub fn new(category: ErrorCategory, code: &str, message: &str) -> (r: Self)
        ensures
            r.category == category,
            r.code@ == code@,
            r.message@ == message@,
            r.details is None,
    {
        JsonError {
            category,
            code: String::from_str(code),
            message: String::from_str(message),
            details: None,
        }
    }

    /// This error, carrying `details`.
    pub fn with_details(self, details: JsonValue) -> (r: Self)
        ensures
            r.category == self.category,
            r.code == self.code,
            r.message == self.message,
            r.details == Some(details),
    {
        JsonError { details: Some(details), ..self }
    }

    /// The payload of any structured error: its category, code, message and
    /// details, each as the error reports it.
    pub fn from_error<E: StructuredError + ?Sized>(error: &E) -> (r: Self)
        ensures
            is_payload_of(error, r),
    {
        let code = error.code();
        let message = error.message();
        let mut value = Self::new(error.category(), code.as_str(), message.as_str());
        if let Some(details) = error.details() {
            value = value.with_details(details);
        }
        value
    }

    /// A copy of this error.
    pub fn duplicate(&self) -> (r: Self)
        ensures
            r.category == self.category,
            r.code@ == self.code@,
            r.message@ == self.message@,
            r.details_view() == self.details_view(),
    {
        let details = match &self.details {
            Some(d) => Some(d.duplicate()),
            None => None,
        };
        JsonError {
            category: self.category,
            code: self.code.clone(),
            message: self.message.clone(),
            details,
        }
    }

    /// The JSON object of this error.
    pub fn to_json(&self) -> (r: JsonValue)
        ensures
            r@ == self.json(),
    {
        let mut members: Vec<(String, JsonValue)> = Vec::new();
        push_member(&mut members, "category", JsonValue::from_str(self.category.name()));
        push_member(&mut members, "code", JsonValue::String(self.code.clone()));
        push_member(&mut members, "message", JsonValue::String(self.message.clone()));
        match &self.details {
            Some(d) => push_member(&mut members, "details", d.duplicate()),
            None => {},
        }
        proof {
            assert(view_members(Seq::<(String, JsonValue)>::empty()) =~= Seq::<
                (Seq<char>, Json),
            >::empty());
            assert(Seq::<(Seq<char>, Json)>::empty().push(
                ("category"@, Json::Str(category_name(self.category))),
            ).push(("code"@, Json::Str(self.code@))).push(("message"@, Json::Str(self.message@)))
                =~= seq![
                ("category"@, Json::Str(category_name(self.category))),
                ("code"@, Json::Str(self.code@)),
                ("message"@, Json::Str(self.message@)),
            ]);
        }
        JsonValue::Object(members)
    }
}

impl StructuredError for JsonError {
    fn category(&self) -> (r: ErrorCategory)
        ensures
            r == self.category,
    {
        self.category
    }

    fn code(&self) -> (r: String)
        ensures
            r@ == self.code@,
    {
        self.code.clone()
    }

    fn message(&self) -> (r: String)
        ensures
            r@ == self.message@,
    {
        self.message.clone()
    }

    fn details(&self) -> (r: Option<JsonValue>)
        ensures
            r matches Some(d) ==> self.details_view() == Some(d@),
            r is None ==> self.details is None,
    {
        match &self.details {
            Some(d) => Some(d.duplicate()),
            None => None,
        }
    }
}

/// Structured success/error envelope for machine-readable command responses.
#[derive(Debug, PartialEq, Eq)]
pub enum JsonEnvelope<T> {
    Success { meta: EnvelopeMeta, data: T },
    Error { meta: EnvelopeMeta, error: JsonError },
}

impl<T> JsonEnvelope<T> {
    /// The metadata of this envelope.
    pub open spec fn meta(&self) -> EnvelopeMeta {
        match self {
            JsonEnvelope::Success { meta, .. } => *meta,
            JsonEnvelope::Error { meta, .. } => *meta,
        }
    }

    /// A success envelope that names no command.
    pub fn success(data: T) -> (r: Self)
        ensures
            r matches JsonEnvelope::Success { meta, data: d } && d == data
                && meta.schema_version == JSON_SCHEMA_VERSION && meta.command is None,
    {
        JsonEnvelope::Success { meta: EnvelopeMeta::default(), data }
    }

    /// A success envelope answering `command`.
    pub fn success_for(command: &str, data: T) -> (r: Self)
        ensures
            r matches JsonEnvelope::Success { meta, data: d } && d == data
                && meta.schema_version == JSON_SCHEMA_VERSION && meta.command_view() == Some(
                command@,
            ),
    {
        JsonEnvelope::Success { meta: EnvelopeMeta::for_command(command), data }
    }

    /// An error envelope that names no command.
    pub fn error(error: JsonError) -> (r: Self)
        ensures
            r matches JsonEnvelope::Error { meta, error: e } && e == error
                && meta.schema_version == JSON_SCHEMA_VERSION && meta.command is None,
    {
        JsonEnvelope::Error { meta: EnvelopeMeta::default(), error }
    }

    /// An error envelope answering `command`.
    pub fn error_for(command: &str, error: JsonError) -> (r: Self)
        ensures
            r matches JsonEnvelope::Error { meta, error: e } && e == error
                && meta.schema_version == JSON_SCHEMA_VERSION && meta.command_view() == Some(
                command@,
            ),
    {
        JsonEnvelope::Error { meta: EnvelopeMeta::for_command(command), error }
    }

    /// Whether this envelope reports an error.
    pub fn is_error(&self) -> (r: bool)
        ensures
            r == (self is Error),
    {
        match self {
            JsonEnvelope::Error { .. } => true,
            JsonEnvelope::Success { .. } => false,
        }
    }
}

/// The JSON object of an envelope: the `status` tag, then `meta`, then `data`
/// or `error`.
pub open spec fn envelope_json(e: JsonEnvelope<JsonValue>) -> Json {
    match e {
        JsonEnvelope::Success { meta, data } => Json::Object(
            seq![
                ("status"@, Json::Str("success"@)),
                ("meta"@, meta.json()),
                ("data"@, data@),
            ],
        ),
        JsonEnvelope::Error { meta, error } => Json::Object(
            seq![
                ("status"@, Json::Str("error"@)),
                ("meta"@, meta.json()),
                ("error"@, error.json()),
            ],
        ),
    }
}

impl JsonEnvelope<JsonValue> {
    /// The JSON object of this envelope.
    pub fn to_json(&self) -> (r: JsonValue)
        ensures
            r@ == envelope_json(*self),
    {
        let mut members: Vec<(String, JsonValue)> = Vec::new();
        match self {
            JsonEnvelope::Success { meta, data } => {
                push_member(&mut members, "status", JsonValue::from_str("success"));
                push_member(&mut members, "meta", meta.to_json());
                push_member(&mut members, "data", data.duplicate());
            },
            JsonEnvelope::Error { meta, error } => {
                push_member(&mut members, "status", JsonValue::from_str("error"));
                push_member(&mut members, "meta", meta.to_json());
                push_member(&mut members, "error", error.to_json());
            },
        }
        proof {
            assert(view_members(Seq::<(String, JsonValue)>::empty()) =~= Seq::<
                (Seq<char>, Json),
            >::empty());
            let m = view_members(members@);
            assert(m =~= envelope_json(*self)->Object_0);
        }
        JsonValue::Object(members)
    }
}

/// The `command` member of metadata as it is written after `schema_version`;
/// nothing when there is no command.
pub open spec fn command_text(command: Option<Seq<char>>) -> Seq<char> {
    match command {
        Some(c) => ",\"command\":"@ + json_text(Json::Str(c)),
        None => Seq::empty(),
    }
}

/// The JSON text of envelope metadata, its members in declaration order:
/// `schema_version`, then `command` when there is one.
pub open spec fn meta_text(meta: EnvelopeMeta) -> Seq<char> {
    "{\"schema_version\":"@ + json_text(Json::Number(decimal(meta.schema_version as nat)))
        + command_text(meta.command_view()) + "}"@
}

/// The `details` member of an error as it is written after `message`; nothing
/// when there are no details.
pub open spec fn details_text(details: Option<Json>) -> Seq<char> {
    match details {
        Some(d) => ",\"details\":"@ + json_text(d),
        None => Seq::empty(),
    }
}

/// The JSON text of an error payload, its members in declaration order:
/// `category`, `code`, `message`, then `details` when there are some.
pub open spec fn error_text(error: JsonError) -> Seq<char> {
    "{\"category\":"@ + json_text(Json::Str(category_name(error.category))) + ",\"code\":"@
        + json_text(Json::Str(error.code@)) + ",\"message\":"@ + json_text(
        Json::Str(error.message@),
    ) + details_text(error.details_view()) + "}"@
}

/// The JSON text of an envelope, its members in declaration order: the
/// `status` tag, then `meta`, then `data` or `error`.
pub open spec fn envelope_text(envelope: JsonEnvelope<JsonValue>) -> Seq<char> {
    match envelope {
        JsonEnvelope::Success { meta, data } => "{\"status\":\"success\",\"meta\":"@ + meta_text(meta)
            + ",\"data\":"@ + json_text(data@) + "}"@,
        JsonEnvelope::Error { meta, error } => "{\"status\":\"error\",\"meta\":"@ + meta_text(meta)
            + ",\"error\":"@ + error_text(error) + "}"@,
    }
}

impl EnvelopeMeta {
    /// The JSON text of this metadata, its members in declaration order.
    pub fn to_text(&self) -> (r: String)
        ensures
            r@ == meta_text(*self),
    {
        let mut text = String::from_str("{\"schema_version\":");
        let version = render_json(&JsonValue::Number(JsonNumber::from_u64(self.schema_version as u64)));
        text.append(version.as_str());
        match &self.command {
            Some(c) => {
                text.append(",\"command\":");
                let quoted = render_json(&JsonValue::String(c.clone()));
                text.append(quoted.as_str());
            },
            None => {},
        }
        text.append("}");
        text
    }
}

impl JsonError {
    /// The JSON text of this error, its members in declaration order.
    pub fn to_text(&self) -> (r: String)
        ensures
            r@ == error_text(*self),
    {
        let mut text = String::from_str("{\"category\":");
        let category = render_json(&JsonValue::from_str(self.category.name()));
        text.append(category.as_str());
        text.append(",\"code\":");
        let code = render_json(&JsonValue::String(self.code.clone()));
        text.append(code.as_str());
        text.append(",\"message\":");
        let message = render_json(&JsonValue::String(self.message.clone()));
        text.append(message.as_str());
        match &self.details {
            Some(d) => {
                text.append(",\"details\":");
                let details = render_json(d);
                text.append(details.as_str());
            },
            None => {},
        }
        text.append("}");
        text
    }
}

impl JsonEnvelope<JsonValue> {
    /// The JSON text of this envelope, its members in declaration order: the
    /// text that serializing the envelope writes.
    pub fn to_text(&self) -> (r: String)
        ensures
            r@ == envelope_text(*self),
    {
        match self {
            JsonEnvelope::Success { meta, data } => {
                let mut text = String::from_str("{\"status\":\"success\",\"meta\":");
                text.append(meta.to_text().as_str());
                text.append(",\"data\":");
                text.append(render_json(data).as_str());
                text.append("}");
                text
            },
            JsonEnvelope::Error { meta, error } => {
                let mut text = String::from_str("{\"status\":\"error\",\"meta\":");
                text.append(meta.to_text().as_str());
                text.append(",\"error\":");
                text.append(error.to_text().as_str());
                text.append("}");
                text
            },
        }
    }
}

/// Convert a command result into a stable JSON envelope.
pub fn envelope_from_result<T, E: StructuredError>(result: Result<T, E>) -> (r: JsonEnvelope<T>)
    ensures
        match result {
            Ok(data) => r matches JsonEnvelope::Success { meta, data: d } && d == data
                && meta.schema_version == JSON_SCHEMA_VERSION && meta.command is None,
            Err(error) => r matches JsonEnvelope::Error { meta, error: e }
                && meta.schema_version == JSON_SCHEMA_VERSION && meta.command is None
                && is_payload_of(&error, e),
        },
{
    match result {
        Ok(data) => JsonEnvelope::success(data),
        Err(error) => JsonEnvelope::error(JsonError::from_error(&error)),
    }
}

/// Convert a borrowed command result into a stable JSON envelope.
pub fn envelope_from_result_ref<'a, T, E: StructuredError>(result: Result<&'a T, &'a E>) -> (r:
    JsonEnvelope<&'a T>)
    ensures
        match result {
            Ok(data) => r matches JsonEnvelope::Success { meta, data: d } && d == data
                && meta.schema_version == JSON_SCHEMA_VERSION && meta.command is None,
            Err(error) => r matches JsonEnvelope::Error { meta, error: e }
                && meta.schema_version == JSON_SCHEMA_VERSION && meta.command is None
                && is_payload_of(error, e),
        },
{
    match result {
        Ok(data) => JsonEnvelope::success(data),
        Err(error) => JsonEnvelope::error(JsonError::from_error(error)),
    }
}

} // verus!
