//! Tools, their metadata, and the router that registers and dispatches them.

use vstd::prelude::*;

use crate::envelope::{category_name, ErrorCategory, JsonEnvelope, JsonError, JSON_SCHEMA_VERSION};
use crate::json::{
    json_get, json_view, lemma_view_items, push_item, push_member, text_eq, view_items,
    view_members, Json, JsonValue,
};
use crate::json_text::{json_text, render_json};

verus! {

/// The characters that have the Unicode `White_Space` property.
pub open spec fn is_white_space(c: char) -> bool {
    ||| '\u{9}' <= c <= '\u{d}'
    ||| c == ' '
    ||| c == '\u{85}'
    ||| c == '\u{a0}'
    ||| c == '\u{1680}'
    ||| '\u{2000}' <= c <= '\u{200a}'
    ||| c == '\u{2028}'
    ||| c == '\u{2029}'
    ||| c == '\u{202f}'
    ||| c == '\u{205f}'
    ||| c == '\u{3000}'
}

/// Whether `c` is white space: whether it has the Unicode `White_Space`
/// property, as `char::is_whitespace` decides it.
fn char_is_whitespace(c: char) -> (r: bool)
    ensures
        r == is_white_space(c),
{
    ('\u{9}' <= c && c <= '\u{d}') || c == ' ' || c == '\u{85}' || c == '\u{a0}'
        || c == '\u{1680}' || ('\u{2000}' <= c && c <= '\u{200a}') || c == '\u{2028}'
        || c == '\u{2029}' || c == '\u{202f}' || c == '\u{205f}' || c == '\u{3000}'
}

/// A text that is empty or made of white space only, which is what trimming
/// white space leaves empty.
pub open spec fn is_blank(s: Seq<char>) -> bool {
    forall|k: int| 0 <= k < s.len() ==> is_white_space(#[trigger] s[k])
}

/// Whether `s` is empty or made of white space only.
pub fn text_is_blank(s: &str) -> (r: bool)
    ensures
        r == is_blank(s@),
{
    let n = s.unicode_len();
    let mut i: usize = 0;
    while i < n
        invariant
            n == s@.len(),
            i <= n,
            forall|k: int| 0 <= k < i ==> is_white_space(#[trigger] s@[k]),
        decreases n - i,
    {
        if !char_is_whitespace(s.get_char(i)) {
            return false;
        }
        i = i + 1;
    }
    true
}

/// Whether a schema `type` declaration names `"object"`, alone or in a list.
pub open spec fn declares_object(t: Json) -> bool {
    match t {
        Json::Str(kind) => kind == "object"@,
        Json::Array(kinds) => exists|i: int|
            0 <= i < kinds.len() && #[trigger] kinds[i] == Json::Str("object"@),
        _ => false,
    }
}

/// The root `type` that an input schema declares, when it is one MCP cannot
/// accept. A schema that declares no root type is accepted.
pub open spec fn rejected_root_type(schema: Json) -> Option<Json> {
    match json_get(schema, "type"@) {
        Some(t) => if declares_object(t) {
            None
        } else {
            Some(t)
        },
        None => None,
    }
}

/// The message that explains why a tool's input schema is refused.
pub open spec fn invalid_input_schema_message(name: Seq<char>, declared: Json) -> Seq<char> {
    "tool `"@ + name + "` advertises an inputSchema with root type "@ + json_text(declared)
        + "; MCP requires inputSchema to be a JSON Schema object, so the tool's input type should be a struct"@
}

/// Whether a schema `type` declaration names `"object"`.
fn declared_type_is_object(declared: &JsonValue) -> (r: bool)
    ensures
        r == declares_object(declared@),
{
    match declared {
        JsonValue::String(kind) => text_eq(kind.as_str(), "object"),
        JsonValue::Array(kinds) => {
            proof {
                lemma_view_items(kinds@);
            }
            let mut i: usize = 0;
            while i < kinds.len()
                invariant
                    i <= kinds.len(),
                    declared@ == Json::Array(view_items(kinds@)),
                    view_items(kinds@).len() == kinds.len(),
                    forall|k: int|
                        0 <= k < kinds.len() ==> #[trigger] view_items(kinds@)[k] == json_view(
                            kinds@[k],
                        ),
                    forall|k: int|
                        0 <= k < i ==> view_items(kinds@)[k] != Json::Str("object"@),
                decreases kinds.len() - i,
            {
                let hit = match &kinds[i] {
                    JsonValue::String(kind) => text_eq(kind.as_str(), "object"),
                    _ => false,
                };
                assert(view_items(kinds@)[i as int] == json_view(kinds@[i as int]));
                if hit {
                    return true;
                }
                i = i + 1;
            }
            false
        },
        _ => false,
    }
}

/// The error that refuses a tool whose input schema declares a root type MCP
/// cannot accept; `None` when the schema is acceptable.
pub fn non_object_input_schema_error(name: &str, input_schema: &JsonValue) -> (r: Option<
    JsonError,
>)
    ensures
        match rejected_root_type(input_schema@) {
            Some(t) => r matches Some(e) && e.category == ErrorCategory::Validation && e.code@
                == "invalid_input_schema"@ && e.message@ == invalid_input_schema_message(name@, t)
                && e.details is None,
            None => r is None,
        },
{
    let declared = match input_schema.get("type") {
        Some(t) => t,
        None => return None,
    };
    if declared_type_is_object(declared) {
        return None;
    }
    let mut message = String::from_str("tool `");
    message.append(name);
    message.append("` advertises an inputSchema with root type ");
    message.append(render_json(declared).as_str());
    message.append(
        "; MCP requires inputSchema to be a JSON Schema object, so the tool's input type should be a struct",
    );
    Some(JsonError::new(ErrorCategory::Validation, "invalid_input_schema", message.as_str()))
}

/// The mathematical value of tool metadata.
pub struct ToolMetadataView {
    pub name: Seq<char>,
    pub description: Seq<char>,
    pub input_schema: Json,
    pub output_schema: Option<Json>,
}

/// Public MCP tool metadata surfaced to clients.
#[derive(Debug, PartialEq, Eq)]
pub struct ToolMetadata {
    pub name: String,
    pub description: String,
    pub input_schema: JsonValue,
    /// Optional JSON Schema for the tool's structured output, `None` when the
    /// tool advertises none.
    pub output_schema: Option<JsonValue>,
}

impl View for ToolMetadata {
    type V = ToolMetadataView;

    open spec fn view(&self) -> ToolMetadataView {
        ToolMetadataView {
            name: self.name@,
            description: self.description@,
            input_schema: self.input_schema@,
            output_schema: match self.output_schema {
                Some(s) => Some(s@),
                None => None,
            },
        }
    }
}

/// The JSON object of tool metadata as `tools/list` lists it: camelCase member
/// names, `outputSchema` left out when absent.
pub open spec fn metadata_json(m: ToolMetadataView) -> Json {
    let base = seq![
        ("name"@, Json::Str(m.name)),
        ("description"@, Json::Str(m.description)),
        ("inputSchema"@, m.input_schema),
    ];
    match m.output_schema {
        Some(s) => Json::Object(base.push(("outputSchema"@, s))),
        None => Json::Object(base),
    }
}

impl ToolMetadata {
    /// A copy of this metadata.
    pub fn duplicate(&self) -> (r: ToolMetadata)
        ensures
            r@ == self@,
    {
        ToolMetadata {
            name: self.name.clone(),
            description: self.description.clone(),
            input_schema: self.input_schema.duplicate(),
            output_schema: match &self.output_schema {
                Some(s) => Some(s.duplicate()),
                None => None,
            },
        }
    }

    /// The JSON object of this metadata.
    pub fn to_json(&self) -> (r: JsonValue)
        ensures
            r@ == metadata_json(self@),
    {
        let mut members: Vec<(String, JsonValue)> = Vec::new();
        push_member(&mut members, "name", JsonValue::String(self.name.clone()));
        push_member(&mut members, "description", JsonValue::String(self.description.clone()));
        push_member(&mut members, "inputSchema", self.input_schema.duplicate());
        match &self.output_schema {
            Some(s) => push_member(&mut members, "outputSchema", s.duplicate()),
            None => {},
        }
        proof {
            assert(view_members(Seq::<(String, JsonValue)>::empty()) =~= Seq::<
                (Seq<char>, Json),
            >::empty());
            assert(view_members(members@) =~= metadata_json(self@)->Object_0);
        }
        JsonValue::Object(members)
    }
}

/// A schema whose root declares `"type": "object"`: an object that declares no
/// root type gets that declaration appended; any other value is unchanged.
pub open spec fn object_rooted(schema: Json) -> Json {
    match schema {
        Json::Object(members) => if json_get(schema, "type"@) is None {
            Json::Object(members.push(("type"@, Json::Str("object"@))))
        } else {
            schema
        },
        _ => schema,
    }
}

/// Make an advertised output schema declare a root `"type": "object"`.
///
/// The envelope that `tools/call` returns is an internally tagged enum, so its
/// derived schema is rooted in `oneOf` without a `type`; MCP requires the root
/// of an `outputSchema` to declare an object. A declared root type is kept.
pub fn declare_object_root(schema: JsonValue) -> (r: JsonValue)
    ensures
        r@ == object_rooted(schema@),
{
    let has_type = schema.get("type").is_some();
    match schema {
        JsonValue::Object(mut members) => {
            if !has_type {
                push_member(&mut members, "type", JsonValue::from_str("object"));
            }
            JsonValue::Object(members)
        },
        other => other,
    }
}

/// A typed tool binding that can be exposed over MCP: its metadata and the
/// handler that answers calls.
pub struct Tool<H> {
    metadata: ToolMetadata,
    handler: H,
}

impl<H> Tool<H> {
    /// The metadata of this tool.
    pub closed spec fn spec_metadata(&self) -> ToolMetadata {
        self.metadata
    }

    /// The handler of this tool.
    pub closed spec fn spec_handler(&self) -> H {
        self.handler
    }

    /// A tool made of its metadata and its handler.
    pub fn from_parts(metadata: ToolMetadata, handler: H) -> (r: Self)
        ensures
            r.spec_metadata() == metadata,
            r.spec_handler() == handler,
    {
        Tool { metadata, handler }
    }

    /// The metadata of this tool.
    pub fn metadata(&self) -> (r: &ToolMetadata)
        ensures
            *r == self.spec_metadata(),
    {
        &self.metadata
    }

    /// Invoke the tool's handler.
    pub fn call<Ctx>(&self, ctx: &Ctx, arguments: JsonValue) -> (r: JsonEnvelope<JsonValue>) where
        H: Fn(&Ctx, JsonValue) -> JsonEnvelope<JsonValue>,

        requires
            call_requires(self.spec_handler(), (ctx, arguments)),
        ensures
            call_ensures(self.spec_handler(), (ctx, arguments), r),
    {
        (self.handler)(ctx, arguments)
    }
}

/// The name of a tool.
pub open spec fn tool_name<H>(t: Tool<H>) -> Seq<char> {
    t.spec_metadata().name@
}

/// The names of a sequence of tools, in order.
pub open spec fn tool_names<H>(tools: Seq<Tool<H>>) -> Seq<Seq<char>> {
    tools.map_values(|t: Tool<H>| tool_name(t))
}

/// The error that refuses to register a tool named `name` with input schema
/// `schema` beside tools named `names`, as its category, code and message;
/// `None` when the registration is accepted. A blank name is reported first,
/// then a refused schema, then a name already taken.
pub open spec fn registration_error(names: Seq<Seq<char>>, name: Seq<char>, schema: Json) -> Option<
    (ErrorCategory, Seq<char>, Seq<char>),
> {
    if is_blank(name) {
        Some(
            (
                ErrorCategory::Validation,
                "invalid_tool_name"@,
                "a tool name must not be empty or whitespace-only"@,
            ),
        )
    } else if rejected_root_type(schema) is Some {
        Some(
            (
                ErrorCategory::Validation,
                "invalid_input_schema"@,
                invalid_input_schema_message(name, rejected_root_type(schema)->0),
            ),
        )
    } else if names.contains(name) {
        Some(
            (
                ErrorCategory::Validation,
                "duplicate_tool_name"@,
                "tool `"@ + name + "` is already registered"@,
            ),
        )
    } else {
        None
    }
}

/// What every router keeps of its tools: each name identifies exactly one
/// tool, no name is blank, and every input schema is one MCP accepts.
pub open spec fn registry_ok<H>(tools: Seq<Tool<H>>) -> bool {
    &&& forall|i: int, j: int|
        0 <= i < tools.len() && 0 <= j < tools.len() && i != j ==> tool_name(#[trigger] tools[i])
            != tool_name(#[trigger] tools[j])
    &&& forall|i: int| 0 <= i < tools.len() ==> !is_blank(tool_name(#[trigger] tools[i]))
    &&& forall|i: int|
        0 <= i < tools.len() ==> rejected_root_type(
            (#[trigger] tools[i]).spec_metadata().input_schema@,
        ) is None
}

/// Whether every handler of `tools` accepts every context and every argument.
pub open spec fn handlers_accept_all<Ctx, H: Fn(&Ctx, JsonValue) -> JsonEnvelope<JsonValue>>(
    tools: Seq<Tool<H>>,
) -> bool {
    forall|i: int, ctx: &Ctx, arguments: JsonValue|
        0 <= i < tools.len() ==> #[trigger] call_requires(tools[i].spec_handler(), (ctx, arguments))
}

/// Whether `r` is the envelope that answers a call of a tool that no router
/// entry is named `name`.
pub open spec fn is_unknown_tool_envelope(r: JsonEnvelope<JsonValue>, name: Seq<char>) -> bool {
    r matches JsonEnvelope::Error { meta, error } && meta.schema_version == JSON_SCHEMA_VERSION
        && meta.command_view() == Some(name) && error.category == ErrorCategory::TargetNotFound
        && error.code@ == "unknown_tool"@ && error.message@ == "unknown tool `"@ + name + "`"@
        && error.details is None
}

/// Whether `r` is what calling the tool named `name` in `tools` may answer: what
/// that tool's handler returns, or the unknown-tool envelope when no tool has
/// that name.
pub open spec fn tool_call_answer<Ctx, H: Fn(&Ctx, JsonValue) -> JsonEnvelope<JsonValue>>(
    tools: Seq<Tool<H>>,
    ctx: &Ctx,
    name: Seq<char>,
    arguments: JsonValue,
    r: JsonEnvelope<JsonValue>,
) -> bool {
    if tool_names(tools).contains(name) {
        exists|i: int|
            0 <= i < tools.len() && tool_name(tools[i]) == name && call_ensures(
                (#[trigger] tools[i]).spec_handler(),
                (ctx, arguments),
                r,
            )
    } else {
        is_unknown_tool_envelope(r, name)
    }
}

/// What became of one call of a typed tool, before an envelope is made of it.
pub enum ToolOutcome {
    /// The arguments did not decode into the tool's input type; the text says
    /// why.
    InvalidArguments(String),
    /// The handler reported a structured error.
    Failed(JsonError),
    /// The handler's output did not encode as JSON; the text says why.
    Unserializable(String),
    /// The handler's output, as JSON.
    Produced(JsonValue),
}

/// Whether `r` is an error envelope answering `command` with an error of the
/// given category, code and message, without details.
pub open spec fn is_error_envelope(
    r: JsonEnvelope<JsonValue>,
    command: Seq<char>,
    category: ErrorCategory,
    code: Seq<char>,
    message: Seq<char>,
) -> bool {
    r matches JsonEnvelope::Error { meta, error } && meta.schema_version == JSON_SCHEMA_VERSION
        && meta.command_view() == Some(command) && error.category == category && error.code@
        == code && error.message@ == message && error.details is None
}

/// The envelope that answers a call of the typed tool `tool_name`: undecodable
/// arguments are a `validation` error coded `invalid_tool_arguments`, a handler
/// failure is passed on, an unencodable output is a `serialization_error`, and
/// an output is the envelope's data.
pub fn typed_tool_envelope(tool_name: &str, outcome: ToolOutcome) -> (r: JsonEnvelope<JsonValue>)
    ensures
        match outcome {
            ToolOutcome::InvalidArguments(why) => is_error_envelope(
                r,
                tool_name@,
                ErrorCategory::Validation,
                "invalid_tool_arguments"@,
                "invalid tool arguments: "@ + why@,
            ),
            ToolOutcome::Failed(error) => r matches JsonEnvelope::Error { meta, error: e }
                && meta.schema_version == JSON_SCHEMA_VERSION && meta.command_view() == Some(
                tool_name@,
            ) && e == error,
            ToolOutcome::Unserializable(why) => is_error_envelope(
                r,
                tool_name@,
                ErrorCategory::SerializationError,
                "serialization_error"@,
                "failed to serialize tool result: "@ + why@,
            ),
            ToolOutcome::Produced(data) => r matches JsonEnvelope::Success { meta, data: d }
                && meta.schema_version == JSON_SCHEMA_VERSION && meta.command_view() == Some(
                tool_name@,
            ) && d == data,
        },
{
    match outcome {
        ToolOutcome::InvalidArguments(why) => {
            let mut message = String::from_str("invalid tool arguments: ");
            message.append(why.as_str());
            JsonEnvelope::error_for(
                tool_name,
                JsonError::new(ErrorCategory::Validation, "invalid_tool_arguments", message.as_str()),
            )
        },
        ToolOutcome::Failed(error) => JsonEnvelope::error_for(tool_name, error),
        ToolOutcome::Unserializable(why) => {
            let mut message = String::from_str("failed to serialize tool result: ");
            message.append(why.as_str());
            JsonEnvelope::error_for(
                tool_name,
                JsonError::new(
                    ErrorCategory::SerializationError,
                    "serialization_error",
                    message.as_str(),
                ),
            )
        },
        ToolOutcome::Produced(data) => JsonEnvelope::success_for(tool_name, data),
    }
}

/// The human-readable message of a caught panic, given what its payload holds:
/// the text of a `&'static str` payload, else that of a `String` payload, else a
/// fixed text for a payload of any other type.
pub fn panic_message(literal: Option<&str>, formatted: Option<&String>) -> (r: String)
    ensures
        r@ == match (literal, formatted) {
            (Some(text), _) => text@,
            (None, Some(text)) => text@,
            (None, None) => "panic payload of unknown type"@,
        },
{
    match literal {
        Some(text) => text.to_owned(),
        None => match formatted {
            Some(text) => text.clone(),
            None => String::from_str("panic payload of unknown type"),
        },
    }
}

/// The envelope that reports a panic of the handler of `tool_name` with
/// `message`: an `execution_failure` coded `tool_panicked`.
pub fn panicked_tool_envelope(tool_name: &str, message: &str) -> (r: JsonEnvelope<JsonValue>)
    ensures
        is_error_envelope(
            r,
            tool_name@,
            ErrorCategory::ExecutionFailure,
            "tool_panicked"@,
            "tool `"@ + tool_name@ + "` panicked: "@ + message@,
        ),
{
    let mut text = String::from_str("tool `");
    text.append(tool_name);
    text.append("` panicked: ");
    text.append(message);
    JsonEnvelope::error_for(
        tool_name,
        JsonError::new(ErrorCategory::ExecutionFailure, "tool_panicked", text.as_str()),
    )
}

/// A reusable tool router that can back both CLI and MCP surfaces.
pub struct ToolRouter<H> {
    tools: Vec<Tool<H>>,
}

impl<H> ToolRouter<H> {
    #[verifier::type_invariant]
    spec fn inv(&self) -> bool {
        registry_ok(self.tools@)
    }

    /// The registered tools, in registration order.
    pub closed spec fn spec_tools(&self) -> Seq<Tool<H>> {
        self.tools@
    }

    /// A router with no tools.
    pub fn new() -> (r: Self)
        ensures
            r.spec_tools() == Seq::<Tool<H>>::empty(),
    {
        ToolRouter { tools: Vec::new() }
    }

    /// Whether a tool named `name` is registered.
    fn has_tool_named(&self, name: &String) -> (r: bool)
        ensures
            r == tool_names(self.spec_tools()).contains(name@),
    {
        let mut i: usize = 0;
        while i < self.tools.len()
            invariant
                i <= self.tools.len(),
                forall|k: int| 0 <= k < i ==> tool_name(#[trigger] self.tools@[k]) != name@,
            decreases self.tools.len() - i,
        {
            if self.tools[i].metadata.name == *name {
                assert(tool_names(self.tools@)[i as int] == name@);
                return true;
            }
            i = i + 1;
        }
        assert forall|k: int| 0 <= k < tool_names(self.tools@).len() implies tool_names(
            self.tools@,
        )[k] != name@ by {
            assert(tool_name(self.tools@[k]) != name@);
        }
        false
    }

    /// Register a tool, refusing it with a structured error when its name is
    /// blank, its input schema declares a root type MCP cannot accept, or a tool
    /// of that name is already registered. The router is unchanged when the
    /// tool is refused.
    pub fn try_add_tool(&mut self, tool: Tool<H>) -> (r: Result<(), JsonError>)
        ensures
            registry_ok(final(self).spec_tools()),
            match registration_error(
                tool_names(old(self).spec_tools()),
                tool_name(tool),
                tool.spec_metadata().input_schema@,
            ) {
                None => r is Ok && final(self).spec_tools() == old(self).spec_tools().push(tool),
                Some((category, code, message)) => r matches Err(e) && e.category == category
                    && e.code@ == code && e.message@ == message && e.details is None
                    && final(self).spec_tools() == old(self).spec_tools(),
            },
    {
        proof {
            use_type_invariant(&*self);
        }
        let name = &tool.metadata.name;
        if text_is_blank(name.as_str()) {
            return Err(
                JsonError::new(
                    ErrorCategory::Validation,
                    "invalid_tool_name",
                    "a tool name must not be empty or whitespace-only",
                ),
            );
        }
        if let Some(error) = non_object_input_schema_error(name.as_str(), &tool.metadata.input_schema) {
            return Err(error);
        }
        if self.has_tool_named(name) {
            let mut message = String::from_str("tool `");
            message.append(name.as_str());
            message.append("` is already registered");
            return Err(JsonError::new(ErrorCategory::Validation, "duplicate_tool_name", message.as_str()));
        }
        let ghost old_tools = self.tools@;
        let mut tools: Vec<Tool<H>> = Vec::new();
        std::mem::swap(&mut tools, &mut self.tools);
        tools.push(tool);
        proof {
            assert forall|i: int, j: int|
                0 <= i < tools@.len() && 0 <= j < tools@.len() && i != j implies tool_name(
                #[trigger] tools@[i],
            ) != tool_name(#[trigger] tools@[j]) by {
                if i == old_tools.len() as int {
                    assert(tool_names(old_tools)[j] == tool_name(old_tools[j]));
                } else if j == old_tools.len() as int {
                    assert(tool_names(old_tools)[i] == tool_name(old_tools[i]));
                }
            }
        }
        self.tools = tools;
        Ok(())
    }

    /// Register a tool whose registration is accepted.
    pub fn add_tool(&mut self, tool: Tool<H>)
        requires
            registration_error(
                tool_names(old(self).spec_tools()),
                tool_name(tool),
                tool.spec_metadata().input_schema@,
            ) is None,
        ensures
            registry_ok(final(self).spec_tools()),
            final(self).spec_tools() == old(self).spec_tools().push(tool),
    {
        let r = self.try_add_tool(tool);
        assert(r is Ok);
    }

    /// The metadata of every registered tool, in registration order.
    pub fn tool_metadata(&self) -> (r: Vec<ToolMetadata>)
        ensures
            r.len() == self.spec_tools().len(),
            forall|i: int|
                0 <= i < r.len() ==> #[trigger] r@[i]@ == self.spec_tools()[i].spec_metadata()@,
    {
        let mut r: Vec<ToolMetadata> = Vec::new();
        let mut i: usize = 0;
        while i < self.tools.len()
            invariant
                i <= self.tools.len(),
                r.len() == i,
                forall|k: int| 0 <= k < i ==> #[trigger] r@[k]@ == self.tools@[k].metadata@,
            decreases self.tools.len() - i,
        {
            r.push(self.tools[i].metadata.duplicate());
            i = i + 1;
        }
        r
    }

    /// The JSON array that `tools/list` answers with: the metadata of every
    /// registered tool, in registration order.
    pub fn tool_list_json(&self) -> (r: JsonValue)
        ensures
            r@ == Json::Array(
                self.spec_tools().map_values(|t: Tool<H>| metadata_json(t.spec_metadata()@)),
            ),
    {
        let mut items: Vec<JsonValue> = Vec::new();
        let mut i: usize = 0;
        while i < self.tools.len()
            invariant
                i <= self.tools.len(),
                view_items(items@) == self.tools@.subrange(0, i as int).map_values(
                    |t: Tool<H>| metadata_json(t.spec_metadata()@),
                ),
            decreases self.tools.len() - i,
        {
            push_item(&mut items, self.tools[i].metadata.to_json());
            assert(self.tools@.subrange(0, i + 1).map_values(
                |t: Tool<H>| metadata_json(t.spec_metadata()@),
            ) =~= self.tools@.subrange(0, i as int).map_values(
                |t: Tool<H>| metadata_json(t.spec_metadata()@),
            ).push(metadata_json(self.tools@[i as int].spec_metadata()@)));
            i = i + 1;
        }
        assert(self.tools@.subrange(0, self.tools.len() as int) =~= self.tools@);
        JsonValue::Array(items)
    }

    /// Call the tool named `name`; a name that no tool has is answered with a
    /// `target_not_found` error envelope coded `unknown_tool`.
    pub fn call_tool<Ctx>(&self, ctx: &Ctx, name: &str, arguments: JsonValue) -> (r: JsonEnvelope<
        JsonValue,
    >) where H: Fn(&Ctx, JsonValue) -> JsonEnvelope<JsonValue>
        requires
            handlers_accept_all::<Ctx, H>(self.spec_tools()),
        ensures
            tool_call_answer(self.spec_tools(), ctx, name@, arguments, r),
    {
        proof {
            use_type_invariant(self);
        }
        let mut i: usize = 0;
        while i < self.tools.len()
            invariant
                i <= self.tools.len(),
                handlers_accept_all::<Ctx, H>(self.tools@),
                forall|k: int| 0 <= k < i ==> tool_name(#[trigger] self.tools@[k]) != name@,
            decreases self.tools.len() - i,
        {
            let tool = &self.tools[i];
            if text_eq(tool.metadata.name.as_str(), name) {
                assert(tool_names(self.tools@)[i as int] == name@);
                assert(call_requires(self.tools@[i as int].spec_handler(), (ctx, arguments)));
                let r = tool.call(ctx, arguments);
                assert(tool_name(self.tools@[i as int]) == name@);
                return r;
            }
            i = i + 1;
        }
        assert forall|k: int| 0 <= k < tool_names(self.tools@).len() implies tool_names(
            self.tools@,
        )[k] != name@ by {
            assert(tool_name(self.tools@[k]) != name@);
        }
        let mut message = String::from_str("unknown tool `");
        message.append(name);
        message.append("`");
        JsonEnvelope::error_for(
            name,
            JsonError::new(ErrorCategory::TargetNotFound, "unknown_tool", message.as_str()),
        )
    }
}

impl<H> Default for ToolRouter<H> {
    /// A router with no tools.
    fn default() -> (r: Self)
        ensures
            r.spec_tools() == Seq::<Tool<H>>::empty(),
    {
        Self::new()
    }
}

} // verus!
