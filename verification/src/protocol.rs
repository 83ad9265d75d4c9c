//! JSON-RPC requests and responses of the MCP server, and the server that
//! answers them.

use vstd::prelude::*;

use crate::envelope::{envelope_json, envelope_text, JsonEnvelope};
use crate::error::McpCliError;
use crate::framing::{FrameView, ProtocolFrame, DEFAULT_MAX_FRAME_BYTES};
use crate::json::{
    decimal, decimal_text, empty_object, json_as_str, json_get, json_view, lemma_view_items,
    push_item, push_member, signed_decimal, text_eq, view_items, view_members, Json, JsonValue,
};
use crate::json_text::{json_parse, json_text, parse_json, render_json};
use crate::mismatch::{
    invalid_length, invalid_length_reason, invalid_type, invalid_type_reason, missing_field,
    missing_field_reason,
};
use crate::tools::{
    handlers_accept_all, metadata_json, tool_call_answer, Tool, ToolMetadata, ToolRouter,
};

verus! {

/// Whether this server understands MCP protocol version `v`.
pub open spec fn is_supported_version(v: Seq<char>) -> bool {
    v == "2024-11-05"@ || v == "2025-03-26"@ || v == "2025-06-18"@
}

/// The version advertised in the `initialize` result: the client's requested
/// version when this server understands it, otherwise the latest.
pub open spec fn negotiated_version(requested: Option<Seq<char>>) -> Seq<char> {
    match requested {
        Some(v) => if is_supported_version(v) {
            v
        } else {
            "2025-06-18"@
        },
        None => "2025-06-18"@,
    }
}

/// MCP protocol versions this server understands, oldest first. The last one
/// is the server's preferred (latest) version.
pub fn supported_protocol_versions() -> (r: Vec<&'static str>)
    ensures
        r.len() == 3,
        r[0]@ == "2024-11-05"@,
        r[1]@ == "2025-03-26"@,
        r[2]@ == "2025-06-18"@,
        forall|i: int| 0 <= i < r.len() ==> is_supported_version(#[trigger] r[i]@),
{
    let mut r: Vec<&'static str> = Vec::new();
    r.push("2024-11-05");
    r.push("2025-03-26");
    r.push("2025-06-18");
    r
}

/// Negotiate the MCP protocol version to advertise in the `initialize` result.
///
/// The client's requested version is echoed when it is supported; otherwise,
/// and when the client requests none, the server's latest version is used.
pub fn negotiate_protocol_version(requested: Option<&str>) -> (r: &'static str)
    ensures
        r@ == negotiated_version(
            match requested {
                Some(s) => Some(s@),
                None => None,
            },
        ),
{
    match requested {
        Some(requested) => {
            if text_eq(requested, "2024-11-05") {
                "2024-11-05"
            } else if text_eq(requested, "2025-03-26") {
                "2025-03-26"
            } else if text_eq(requested, "2025-06-18") {
                "2025-06-18"
            } else {
                "2025-06-18"
            }
        },
        None => "2025-06-18",
    }
}

/// An optional member as a request field reads it: an absent or `null` member
/// is no value.
pub open spec fn present(j: Option<Json>) -> Option<Json> {
    match j {
        Some(Json::Null) => None,
        Some(v) => Some(v),
        None => None,
    }
}

/// The views of optional values.
pub open spec fn opt_json(v: Option<JsonValue>) -> Option<Json> {
    match v {
        Some(j) => Some(j@),
        None => None,
    }
}

/// A copy of an optional member, with `null` read as no value.
fn present_value(v: Option<&JsonValue>) -> (r: Option<JsonValue>)
    ensures
        opt_json(r) == present(
            match v {
                Some(j) => Some(j@),
                None => None,
            },
        ),
{
    match v {
        Some(JsonValue::Null) => None,
        Some(j) => Some(j.duplicate()),
        None => None,
    }
}

/// The mathematical value of a JSON-RPC request.
pub struct RequestView {
    pub id: Option<Json>,
    pub method: Seq<char>,
    pub params: Option<Json>,
}

/// A JSON-RPC request: its id (none for a notification), its method and its
/// parameters.
#[derive(Debug, PartialEq, Eq)]
pub struct JsonRpcRequest {
    pub id: Option<JsonValue>,
    pub method: String,
    pub params: Option<JsonValue>,
}

impl View for JsonRpcRequest {
    type V = RequestView;

    open spec fn view(&self) -> RequestView {
        RequestView { id: opt_json(self.id), method: self.method@, params: opt_json(self.params) }
    }
}

/// What a request is read as: the name under which a refusal reports the
/// expected shape.
pub open spec fn request_shape() -> Seq<char> {
    "struct JsonRpcRequest"@
}

/// The shape a positional request was expected to have.
pub open spec fn request_positions() -> Seq<char> {
    "struct JsonRpcRequest with 3 elements"@
}

/// What a positional value with elements left over was expected to have.
pub open spec fn fewer_elements() -> Seq<char> {
    "fewer elements in array"@
}

/// How a JSON value reads as a JSON-RPC request, and, when it does not, the
/// reason given.
///
/// An object must name its `method` by a string; `id` and `params` are
/// optional, `null` counting as absent, and other members are ignored. An array
/// is read by position as `[id, method, params]`, where `params` may be left
/// out; elements beyond the third are refused. Anything else is refused.
pub open spec fn decode_request(j: Json) -> Result<RequestView, Seq<char>> {
    match j {
        Json::Object(_) => match json_get(j, "method"@) {
            Some(Json::Str(method)) => Ok(
                RequestView {
                    id: present(json_get(j, "id"@)),
                    method,
                    params: present(json_get(j, "params"@)),
                },
            ),
            Some(other) => Err(invalid_type(other, "a string"@)),
            None => Err(missing_field("method"@)),
        },
        Json::Array(items) => if items.len() < 2 {
            Err(invalid_length(1, request_positions()))
        } else {
            match items[1] {
                Json::Str(method) => if items.len() > 3 {
                    Err(invalid_length(items.len(), fewer_elements()))
                } else {
                    Ok(
                        RequestView {
                            id: present(Some(items[0])),
                            method,
                            params: if items.len() == 3 {
                                present(Some(items[2]))
                            } else {
                                None
                            },
                        },
                    )
                },
                other => Err(invalid_type(other, "a string"@)),
            }
        },
        _ => Err(invalid_type(j, request_shape())),
    }
}

/// The id to quote when refusing a value as a request: its `id` member when it
/// is an object that has one, `null` otherwise.
pub open spec fn recovered_id(j: Json) -> Json {
    match json_get(j, "id"@) {
        Some(v) => v,
        None => Json::Null,
    }
}

impl JsonRpcRequest {
    /// Read a JSON value as a request, or say why it is not one.
    pub fn decode(value: JsonValue) -> (r: Result<JsonRpcRequest, String>)
        ensures
            match r {
                Ok(q) => decode_request(value@) == Ok::<RequestView, Seq<char>>(q@),
                Err(why) => decode_request(value@) == Err::<RequestView, Seq<char>>(why@),
            },
    {
        match &value {
            JsonValue::Object(_) => {
                let method = match value.get("method") {
                    Some(JsonValue::String(m)) => m.clone(),
                    Some(other) => return Err(invalid_type_reason(other, "a string")),
                    None => return Err(missing_field_reason("method")),
                };
                let id = present_value(value.get("id"));
                let params = present_value(value.get("params"));
                Ok(JsonRpcRequest { id, method, params })
            },
            JsonValue::Array(items) => {
                proof {
                    lemma_view_items(items@);
                }
                if items.len() < 2 {
                    return Err(invalid_length_reason(1, "struct JsonRpcRequest with 3 elements"));
                }
                let method = match &items[1] {
                    JsonValue::String(m) => m.clone(),
                    other => return Err(invalid_type_reason(other, "a string")),
                };
                if items.len() > 3 {
                    return Err(invalid_length_reason(items.len(), "fewer elements in array"));
                }
                let id = present_value(Some(&items[0]));
                let params = if items.len() == 3 {
                    present_value(Some(&items[2]))
                } else {
                    None
                };
                Ok(JsonRpcRequest { id, method, params })
            },
            _ => Err(invalid_type_reason(&value, "struct JsonRpcRequest")),
        }
    }
}

/// The mathematical value of `tools/call` parameters.
pub struct ToolCallParamsView {
    pub name: Seq<char>,
    pub arguments: Option<Json>,
}

/// The parameters of a `tools/call` request.
#[derive(Debug, PartialEq, Eq)]
pub struct ToolCallParams {
    pub name: String,
    pub arguments: Option<JsonValue>,
}

impl View for ToolCallParams {
    type V = ToolCallParamsView;

    open spec fn view(&self) -> ToolCallParamsView {
        ToolCallParamsView { name: self.name@, arguments: opt_json(self.arguments) }
    }
}

/// What `tools/call` parameters are read as: the name under which a refusal
/// reports the expected shape.
pub open spec fn params_shape() -> Seq<char> {
    "struct ToolCallParams"@
}

/// The shape positional `tools/call` parameters were expected to have.
pub open spec fn params_positions() -> Seq<char> {
    "struct ToolCallParams with 2 elements"@
}

/// How a JSON value reads as `tools/call` parameters, and, when it does not,
/// the reason given: an object naming the tool by a string `name`, with
/// optional `arguments` (`null` counting as absent); or, by position,
/// `[name, arguments]`, where `arguments` may be left out.
pub open spec fn decode_tool_call_params(j: Json) -> Result<ToolCallParamsView, Seq<char>> {
    match j {
        Json::Object(_) => match json_get(j, "name"@) {
            Some(Json::Str(name)) => Ok(
                ToolCallParamsView { name, arguments: present(json_get(j, "arguments"@)) },
            ),
            Some(other) => Err(invalid_type(other, "a string"@)),
            None => Err(missing_field("name"@)),
        },
        Json::Array(items) => if items.len() < 1 {
            Err(invalid_length(0, params_positions()))
        } else {
            match items[0] {
                Json::Str(name) => if items.len() > 2 {
                    Err(invalid_length(items.len(), fewer_elements()))
                } else {
                    Ok(
                        ToolCallParamsView {
                            name,
                            arguments: if items.len() == 2 {
                                present(Some(items[1]))
                            } else {
                                None
                            },
                        },
                    )
                },
                other => Err(invalid_type(other, "a string"@)),
            }
        },
        _ => Err(invalid_type(j, params_shape())),
    }
}

impl ToolCallParams {
    /// Read a JSON value as `tools/call` parameters, or say why it is not.
    pub fn decode(value: JsonValue) -> (r: Result<ToolCallParams, String>)
        ensures
            match r {
                Ok(p) => decode_tool_call_params(value@) == Ok::<ToolCallParamsView, Seq<char>>(
                    p@,
                ),
                Err(why) => decode_tool_call_params(value@) == Err::<
                    ToolCallParamsView,
                    Seq<char>,
                >(why@),
            },
    {
        match &value {
            JsonValue::Object(_) => {
                let name = match value.get("name") {
                    Some(JsonValue::String(n)) => n.clone(),
                    Some(other) => return Err(invalid_type_reason(other, "a string")),
                    None => return Err(missing_field_reason("name")),
                };
                let arguments = present_value(value.get("arguments"));
                Ok(ToolCallParams { name, arguments })
            },
            JsonValue::Array(items) => {
                proof {
                    lemma_view_items(items@);
                }
                if items.len() < 1 {
                    return Err(invalid_length_reason(0, "struct ToolCallParams with 2 elements"));
                }
                let name = match &items[0] {
                    JsonValue::String(n) => n.clone(),
                    other => return Err(invalid_type_reason(other, "a string")),
                };
                if items.len() > 2 {
                    return Err(invalid_length_reason(items.len(), "fewer elements in array"));
                }
                let arguments = if items.len() == 2 {
                    present_value(Some(&items[1]))
                } else {
                    None
                };
                Ok(ToolCallParams { name, arguments })
            },
            _ => Err(invalid_type_reason(&value, "struct ToolCallParams")),
        }
    }
}

/// A JSON-RPC result response.
pub open spec fn response_ok(id: Json, result: Json) -> Json {
    Json::Object(seq![("jsonrpc"@, Json::Str("2.0"@)), ("id"@, id), ("result"@, result)])
}

/// A JSON-RPC error response.
pub open spec fn response_error(id: Json, code: int, message: Seq<char>) -> Json {
    Json::Object(
        seq![
            ("jsonrpc"@, Json::Str("2.0"@)),
            ("id"@, id),
            (
                "error"@,
                Json::Object(
                    seq![
                        ("code"@, Json::Number(signed_decimal(code))),
                        ("message"@, Json::Str(message)),
                    ],
                ),
            ),
        ],
    )
}

/// The result response to a request with `id`; none for a notification.
pub open spec fn respond(id: Option<Json>, result: Json) -> Option<Json> {
    match id {
        Some(i) => Some(response_ok(i, result)),
        None => None,
    }
}

/// The error response to a request with `id`; none for a notification.
pub open spec fn respond_error(id: Option<Json>, code: int, message: Seq<char>) -> Option<Json> {
    match id {
        Some(i) => Some(response_error(i, code, message)),
        None => None,
    }
}

fn response_ok_value(id: JsonValue, result: JsonValue) -> (r: JsonValue)
    ensures
        r@ == response_ok(id@, result@),
{
    let mut members: Vec<(String, JsonValue)> = Vec::new();
    push_member(&mut members, "jsonrpc", JsonValue::from_str("2.0"));
    push_member(&mut members, "id", id);
    push_member(&mut members, "result", result);
    proof {
        assert(view_members(Seq::<(String, JsonValue)>::empty()) =~= Seq::<
            (Seq<char>, Json),
        >::empty());
        assert(view_members(members@) =~= response_ok(id@, result@)->Object_0);
    }
    JsonValue::Object(members)
}

fn response_error_value(id: JsonValue, code: i64, message: &str) -> (r: JsonValue)
    ensures
        r@ == response_error(id@, code as int, message@),
{
    let mut error: Vec<(String, JsonValue)> = Vec::new();
    push_member(&mut error, "code", JsonValue::from_i64(code));
    push_member(&mut error, "message", JsonValue::from_str(message));
    let mut members: Vec<(String, JsonValue)> = Vec::new();
    push_member(&mut members, "jsonrpc", JsonValue::from_str("2.0"));
    push_member(&mut members, "id", id);
    proof {
        assert(view_members(Seq::<(String, JsonValue)>::empty()) =~= Seq::<
            (Seq<char>, Json),
        >::empty());
        assert(view_members(error@) =~= seq![
            ("code"@, Json::Number(signed_decimal(code as int))),
            ("message"@, Json::Str(message@)),
        ]);
    }
    push_member(&mut members, "error", JsonValue::Object(error));
    proof {
        assert(view_members(members@) =~= response_error(id@, code as int, message@)->Object_0);
    }
    JsonValue::Object(members)
}

/// The message of the parse error that answers an oversized frame.
pub open spec fn oversized_message(discarded: nat, max_frame_bytes: nat) -> Seq<char> {
    "parse error: frame exceeds the "@ + decimal(max_frame_bytes) + "-byte limit ("@ + decimal(
        discarded,
    ) + " bytes discarded)"@
}

/// The `-32700` parse error that answers a frame larger than the cap, with a
/// `null` id: the frame was never read in full.
pub fn oversized_frame_response(discarded_bytes: usize, max_frame_bytes: usize) -> (r: JsonValue)
    ensures
        r@ == response_error(
            Json::Null,
            -32700,
            oversized_message(discarded_bytes as nat, max_frame_bytes as nat),
        ),
{
    let mut message = String::from_str("parse error: frame exceeds the ");
    message.append(decimal_text(max_frame_bytes as u64).as_str());
    message.append("-byte limit (");
    message.append(decimal_text(discarded_bytes as u64).as_str());
    message.append(" bytes discarded)");
    response_error_value(JsonValue::Null, -32700, message.as_str())
}

/// The `-32700` parse error that answers a frame that is not JSON, with a
/// `null` id; `error` is what the JSON reader reported.
pub fn parse_error_response(error: &str) -> (r: JsonValue)
    ensures
        r@ == response_error(Json::Null, -32700, "parse error: "@ + error@),
{
    let mut message = String::from_str("parse error: ");
    message.append(error);
    response_error_value(JsonValue::Null, -32700, message.as_str())
}

/// The message of the error that answers an empty batch.
pub open spec fn empty_batch_message() -> Seq<char> {
    "invalid JSON-RPC request: batch array is empty"@
}

/// The `-32600` error that answers an empty batch: a single object with a
/// `null` id, since there is no member to answer.
pub fn empty_batch_response() -> (r: JsonValue)
    ensures
        r@ == response_error(Json::Null, -32600, empty_batch_message()),
{
    response_error_value(JsonValue::Null, -32600, "invalid JSON-RPC request: batch array is empty")
}

/// The `-32600` error that answers a value that is not a JSON-RPC request,
/// quoting `id`; `error` says why the value was refused.
pub fn invalid_request_response(id: JsonValue, error: &str) -> (r: JsonValue)
    ensures
        r@ == response_error(id@, -32600, "invalid JSON-RPC request: "@ + error@),
{
    let mut message = String::from_str("invalid JSON-RPC request: ");
    message.append(error);
    response_error_value(id, -32600, message.as_str())
}

/// The result of `initialize`.
pub open spec fn initialize_result(
    protocol_version: Seq<char>,
    server_name: Seq<char>,
    server_version: Seq<char>,
) -> Json {
    Json::Object(
        seq![
            ("protocolVersion"@, Json::Str(protocol_version)),
            (
                "capabilities"@,
                Json::Object(
                    seq![
                        (
                            "tools"@,
                            Json::Object(seq![("listChanged"@, Json::Bool(false))]),
                        ),
                    ],
                ),
            ),
            (
                "serverInfo"@,
                Json::Object(
                    seq![("name"@, Json::Str(server_name)), ("version"@, Json::Str(server_version))],
                ),
            ),
        ],
    )
}

/// The result of `tools/list`: the metadata of every tool, in registration
/// order.
pub open spec fn tools_list_result<H>(tools: Seq<Tool<H>>) -> Json {
    Json::Object(
        seq![
            (
                "tools"@,
                Json::Array(tools.map_values(|t: Tool<H>| metadata_json(t.spec_metadata()@))),
            ),
        ],
    )
}

/// The result of `tools/call` for the envelope a tool answered: the envelope's
/// text, its members in declaration order, as a `text` content block; the
/// envelope as `structuredContent`; and whether it reports an error.
pub open spec fn tool_call_result(envelope: JsonEnvelope<JsonValue>) -> Json {
    let structured = envelope_json(envelope);
    Json::Object(
        seq![
            (
                "content"@,
                Json::Array(
                    seq![
                        Json::Object(
                            seq![
                                ("type"@, Json::Str("text"@)),
                                ("text"@, Json::Str(envelope_text(envelope))),
                            ],
                        ),
                    ],
                ),
            ),
            ("structuredContent"@, structured),
            ("isError"@, Json::Bool(envelope is Error)),
        ],
    )
}

fn tool_call_result_value(envelope: &JsonEnvelope<JsonValue>) -> (r: JsonValue)
    ensures
        r@ == tool_call_result(*envelope),
{
    let structured = envelope.to_json();
    let text = envelope.to_text();
    let mut block: Vec<(String, JsonValue)> = Vec::new();
    push_member(&mut block, "type", JsonValue::from_str("text"));
    push_member(&mut block, "text", JsonValue::String(text));
    let mut content: Vec<JsonValue> = Vec::new();
    proof {
        assert(view_members(Seq::<(String, JsonValue)>::empty()) =~= Seq::<
            (Seq<char>, Json),
        >::empty());
        assert(view_items(Seq::<JsonValue>::empty()) =~= Seq::<Json>::empty());
        assert(view_members(block@) =~= seq![
            ("type"@, Json::Str("text"@)),
            ("text"@, Json::Str(envelope_text(*envelope))),
        ]);
    }
    push_item(&mut content, JsonValue::Object(block));
    let mut members: Vec<(String, JsonValue)> = Vec::new();
    push_member(&mut members, "content", JsonValue::Array(content));
    push_member(&mut members, "structuredContent", structured);
    push_member(&mut members, "isError", JsonValue::Bool(envelope.is_error()));
    proof {
        assert(view_items(content@) =~= tool_call_result(*envelope)->Object_0[0].1->Array_0);
        assert(view_members(members@) =~= tool_call_result(*envelope)->Object_0);
    }
    JsonValue::Object(members)
}

/// The value of `params`, or an empty object when there are none.
pub open spec fn params_or_empty(params: Option<Json>) -> Json {
    match params {
        Some(p) => p,
        None => empty_object(),
    }
}

/// `params[key]`, when there are parameters that name `key`.
pub open spec fn params_get(params: Option<Json>, key: Seq<char>) -> Option<Json> {
    match params {
        Some(p) => json_get(p, key),
        None => None,
    }
}

/// Whether `r` is what the server may answer to the decoded request `req`.
///
/// Every answer quotes the request's id, and a request without an id is
/// answered with nothing. `initialize` negotiates the protocol version;
/// `notifications/initialized` and `ping` answer an empty result; `tools/list`
/// lists the tools; `tools/call` calls the named tool with its arguments (an
/// empty object when there are none) and answers with what it returned, or with
/// `-32602` when its parameters do not read; any other method is `-32601`.
pub open spec fn method_answer<Ctx, H: Fn(&Ctx, JsonValue) -> JsonEnvelope<JsonValue>>(
    tools: Seq<Tool<H>>,
    server_name: Seq<char>,
    server_version: Seq<char>,
    ctx: &Ctx,
    req: RequestView,
    r: Option<Json>,
) -> bool {
    let m = req.method;
    if m == "initialize"@ {
        r == respond(
            req.id,
            initialize_result(
                negotiated_version(json_as_str(params_get(req.params, "protocolVersion"@))),
                server_name,
                server_version,
            ),
        )
    } else if m == "notifications/initialized"@ || m == "ping"@ {
        r == respond(req.id, empty_object())
    } else if m == "tools/list"@ {
        r == respond(req.id, tools_list_result(tools))
    } else if m == "tools/call"@ {
        match decode_tool_call_params(params_or_empty(req.params)) {
            Err(why) => r == respond_error(req.id, -32602, "invalid params: "@ + why),
            Ok(p) => exists|arguments: JsonValue, envelope: JsonEnvelope<JsonValue>|
                arguments@ == params_or_empty(p.arguments) && #[trigger] tool_call_answer(
                    tools,
                    ctx,
                    p.name,
                    arguments,
                    envelope,
                ) && r == respond(req.id, tool_call_result(envelope)),
        }
    } else {
        r == respond_error(req.id, -32601, "unsupported MCP method `"@ + m + "`"@)
    }
}

/// Whether `r` is what the server may answer to the JSON value `request`: a
/// value that does not read as a request is answered with `-32600`, quoting
/// the id it carries.
pub open spec fn request_answer<Ctx, H: Fn(&Ctx, JsonValue) -> JsonEnvelope<JsonValue>>(
    tools: Seq<Tool<H>>,
    server_name: Seq<char>,
    server_version: Seq<char>,
    ctx: &Ctx,
    request: Json,
    r: Option<Json>,
) -> bool {
    match decode_request(request) {
        Ok(req) => method_answer(tools, server_name, server_version, ctx, req, r),
        Err(why) => r == Some(
            response_error(recovered_id(request), -32600, "invalid JSON-RPC request: "@ + why),
        ),
    }
}

/// The answers that exist, in order.
pub open spec fn somes(answers: Seq<Option<Json>>) -> Seq<Json>
    decreases answers.len(),
{
    if answers.len() == 0 {
        Seq::empty()
    } else {
        match answers.last() {
            Some(a) => somes(answers.drop_last()).push(a),
            None => somes(answers.drop_last()),
        }
    }
}

/// Whether `r` is what the server may answer to a batch: an empty batch is a
/// single `-32600` object; otherwise every member is answered as a request on
/// its own, and the answers that exist come back as one array in request
/// order, or nothing at all when there are none.
pub open spec fn batch_answer<Ctx, H: Fn(&Ctx, JsonValue) -> JsonEnvelope<JsonValue>>(
    tools: Seq<Tool<H>>,
    server_name: Seq<char>,
    server_version: Seq<char>,
    ctx: &Ctx,
    members: Seq<Json>,
    r: Option<Json>,
) -> bool {
    if members.len() == 0 {
        r == Some(response_error(Json::Null, -32600, empty_batch_message()))
    } else {
        exists|answers: Seq<Option<Json>>|
            answers.len() == members.len() && (forall|i: int|
                0 <= i < members.len() ==> request_answer(
                    tools,
                    server_name,
                    server_version,
                    ctx,
                    members[i],
                    #[trigger] answers[i],
                )) && r == (if somes(answers).len() == 0 {
                None
            } else {
                Some(Json::Array(somes(answers)))
            })
    }
}

/// Whether `r` is what the server may answer to a JSON value: an array is a
/// batch, anything else a single request.
pub open spec fn value_answer<Ctx, H: Fn(&Ctx, JsonValue) -> JsonEnvelope<JsonValue>>(
    tools: Seq<Tool<H>>,
    server_name: Seq<char>,
    server_version: Seq<char>,
    ctx: &Ctx,
    request: Json,
    r: Option<Json>,
) -> bool {
    match request {
        Json::Array(members) => batch_answer(tools, server_name, server_version, ctx, members, r),
        _ => request_answer(tools, server_name, server_version, ctx, request, r),
    }
}

/// Whether `r` is what the server may answer to a frame of the transport: an
/// oversized frame or one that is not JSON is a `-32700` parse error with a
/// `null` id; a JSON frame is answered as a value; the end of the stream is
/// answered with nothing.
pub open spec fn frame_answer<Ctx, H: Fn(&Ctx, JsonValue) -> JsonEnvelope<JsonValue>>(
    tools: Seq<Tool<H>>,
    server_name: Seq<char>,
    server_version: Seq<char>,
    max_frame_bytes: usize,
    ctx: &Ctx,
    frame: FrameView,
    r: Option<Json>,
) -> bool {
    match frame {
        FrameView::Eof => r is None,
        FrameView::Oversized(n) => r == Some(
            response_error(Json::Null, -32700, oversized_message(n, max_frame_bytes as nat)),
        ),
        FrameView::Message(bytes) => match json_parse(bytes) {
            Ok(j) => value_answer(tools, server_name, server_version, ctx, j, r),
            Err(why) => r == Some(response_error(Json::Null, -32700, "parse error: "@ + why)),
        },
    }
}

/// Metadata describing the MCP stdio server.
#[derive(Debug, PartialEq, Eq)]
pub struct StdioServerConfig {
    pub server_name: String,
    pub server_version: String,
}

/// A minimal reusable MCP stdio server for exposing typed tools.
pub struct McpServer<H> {
    config: StdioServerConfig,
    router: ToolRouter<H>,
    max_frame_bytes: usize,
}

/// The line the transport writes for one message: its compact JSON text and a
/// newline, which is the only newline in it, so each message is one line.
pub fn frame_text(message: &JsonValue) -> (r: String)
    ensures
        r@ == json_text(message@) + "\n"@,
        r@.len() > 0 && r@.last() == '\n',
        forall|i: int| 0 <= i < r@.len() - 1 ==> r@[i] != '\n',
{
    let mut text = render_json(message);
    proof {
        reveal_strlit("\n");
    }
    text.append("\n");
    text
}

impl<H> McpServer<H> {
    #[verifier::type_invariant]
    spec fn inv(&self) -> bool {
        self.max_frame_bytes >= 1
    }

    /// The server's name, as `initialize` reports it.
    pub closed spec fn spec_server_name(&self) -> Seq<char> {
        self.config.server_name@
    }

    /// The server's version, as `initialize` reports it.
    pub closed spec fn spec_server_version(&self) -> Seq<char> {
        self.config.server_version@
    }

    /// The tools this server exposes, in registration order.
    pub closed spec fn spec_tools(&self) -> Seq<Tool<H>> {
        self.router.spec_tools()
    }

    /// The largest frame this server reads, in bytes.
    pub closed spec fn spec_max_frame_bytes(&self) -> usize {
        self.max_frame_bytes
    }

    /// A server exposing the tools of `router`, reading frames of up to
    /// [`DEFAULT_MAX_FRAME_BYTES`].
    pub fn new(config: StdioServerConfig, router: ToolRouter<H>) -> (r: Self)
        ensures
            r.spec_server_name() == config.server_name@,
            r.spec_server_version() == config.server_version@,
            r.spec_tools() == router.spec_tools(),
            r.spec_max_frame_bytes() == DEFAULT_MAX_FRAME_BYTES,
    {
        McpServer { config, router, max_frame_bytes: DEFAULT_MAX_FRAME_BYTES }
    }

    /// This server, reading frames of up to `max_frame_bytes` bytes; a cap of
    /// `0` is raised to 1 byte so that a frame boundary can still be found.
    pub fn with_max_frame_bytes(self, max_frame_bytes: usize) -> (r: Self)
        ensures
            r.spec_server_name() == self.spec_server_name(),
            r.spec_server_version() == self.spec_server_version(),
            r.spec_tools() == self.spec_tools(),
            r.spec_max_frame_bytes() == if max_frame_bytes == 0 {
                1
            } else {
                max_frame_bytes
            },
    {
        let max_frame_bytes = if max_frame_bytes == 0 {
            1
        } else {
            max_frame_bytes
        };
        McpServer { config: self.config, router: self.router, max_frame_bytes }
    }

    /// The largest single stdio frame this server will buffer, in bytes.
    pub fn max_frame_bytes(&self) -> (r: usize)
        ensures
            r == self.spec_max_frame_bytes(),
            r >= 1,
    {
        proof {
            use_type_invariant(self);
        }
        self.max_frame_bytes
    }

    /// The metadata of every tool, in registration order.
    pub fn tool_metadata(&self) -> (r: Vec<ToolMetadata>)
        ensures
            r.len() == self.spec_tools().len(),
            forall|i: int|
                0 <= i < r.len() ==> #[trigger] r@[i]@ == self.spec_tools()[i].spec_metadata()@,
    {
        self.router.tool_metadata()
    }

    /// Answer `initialize`, negotiating the protocol version.
    fn handle_initialize(&self, id: Option<JsonValue>, params: Option<&JsonValue>) -> (r: Option<
        JsonValue,
    >)
        ensures
            opt_json(r) == respond(
                opt_json(id),
                initialize_result(
                    negotiated_version(
                        json_as_str(
                            params_get(
                                match params {
                                    Some(p) => Some(p@),
                                    None => None,
                                },
                                "protocolVersion"@,
                            ),
                        ),
                    ),
                    self.spec_server_name(),
                    self.spec_server_version(),
                ),
            ),
    {
        let requested = match params {
            Some(p) => match p.get("protocolVersion") {
                Some(v) => v.as_str(),
                None => None,
            },
            None => None,
        };
        let protocol_version = negotiate_protocol_version(requested);
        match id {
            Some(id) => {
                let mut tools: Vec<(String, JsonValue)> = Vec::new();
                push_member(&mut tools, "listChanged", JsonValue::Bool(false));
                let mut capabilities: Vec<(String, JsonValue)> = Vec::new();
                push_member(&mut capabilities, "tools", JsonValue::Object(tools));
                let mut info: Vec<(String, JsonValue)> = Vec::new();
                push_member(&mut info, "name", JsonValue::String(self.config.server_name.clone()));
                push_member(
                    &mut info,
                    "version",
                    JsonValue::String(self.config.server_version.clone()),
                );
                let mut result: Vec<(String, JsonValue)> = Vec::new();
                push_member(&mut result, "protocolVersion", JsonValue::from_str(protocol_version));
                push_member(&mut result, "capabilities", JsonValue::Object(capabilities));
                push_member(&mut result, "serverInfo", JsonValue::Object(info));
                let ghost expected = initialize_result(
                    protocol_version@,
                    self.spec_server_name(),
                    self.spec_server_version(),
                );
                proof {
                    assert(view_members(Seq::<(String, JsonValue)>::empty()) =~= Seq::<
                        (Seq<char>, Json),
                    >::empty());
                    assert(view_members(tools@) =~= expected->Object_0[1].1->Object_0[0].1->Object_0);
                    assert(view_members(capabilities@) =~= expected->Object_0[1].1->Object_0);
                    assert(view_members(info@) =~= expected->Object_0[2].1->Object_0);
                    assert(view_members(result@) =~= expected->Object_0);
                }
                Some(response_ok_value(id, JsonValue::Object(result)))
            },
            None => None,
        }
    }

    /// The empty result that answers `ping` and `notifications/initialized`.
    fn handle_empty(&self, id: Option<JsonValue>) -> (r: Option<JsonValue>)
        ensures
            opt_json(r) == respond(opt_json(id), empty_object()),
    {
        match id {
            Some(id) => Some(response_ok_value(id, JsonValue::empty_object())),
            None => None,
        }
    }

    /// Answer `tools/list`.
    fn handle_tools_list(&self, id: Option<JsonValue>) -> (r: Option<JsonValue>)
        ensures
            opt_json(r) == respond(opt_json(id), tools_list_result(self.spec_tools())),
    {
        match id {
            Some(id) => {
                let mut result: Vec<(String, JsonValue)> = Vec::new();
                push_member(&mut result, "tools", self.router.tool_list_json());
                proof {
                    assert(view_members(Seq::<(String, JsonValue)>::empty()) =~= Seq::<
                        (Seq<char>, Json),
                    >::empty());
                    assert(view_members(result@) =~= tools_list_result(self.spec_tools())->Object_0);
                }
                Some(response_ok_value(id, JsonValue::Object(result)))
            },
            None => None,
        }
    }

    /// Answer `tools/call`, returning both `structuredContent` and a `text`
    /// content block, with `isError` reflecting tool failure. The tool runs
    /// whether or not the request carries an id.
    fn handle_tool_call<Ctx>(
        &self,
        ctx: &Ctx,
        id: Option<JsonValue>,
        params: Option<JsonValue>,
    ) -> (r: Option<JsonValue>) where H: Fn(&Ctx, JsonValue) -> JsonEnvelope<JsonValue>
        requires
            handlers_accept_all::<Ctx, H>(self.spec_tools()),
        ensures
            match decode_tool_call_params(params_or_empty(opt_json(params))) {
                Err(why) => opt_json(r) == respond_error(
                    opt_json(id),
                    -32602,
                    "invalid params: "@ + why,
                ),
                Ok(p) => exists|arguments: JsonValue, envelope: JsonEnvelope<JsonValue>|
                    arguments@ == params_or_empty(p.arguments) && #[trigger] tool_call_answer(
                        self.spec_tools(),
                        ctx,
                        p.name,
                        arguments,
                        envelope,
                    ) && opt_json(r) == respond(opt_json(id), tool_call_result(envelope)),
            },
    {
        let params = match params {
            Some(p) => p,
            None => JsonValue::empty_object(),
        };
        match ToolCallParams::decode(params) {
            Err(why) => match id {
                Some(id) => {
                    let mut message = String::from_str("invalid params: ");
                    message.append(why.as_str());
                    Some(response_error_value(id, -32602, message.as_str()))
                },
                None => None,
            },
            Ok(p) => {
                let arguments = match p.arguments {
                    Some(a) => a,
                    None => JsonValue::empty_object(),
                };
                let ghost passed = arguments;
                let envelope = self.router.call_tool(ctx, p.name.as_str(), arguments);
                let r = match id {
                    Some(id) => Some(response_ok_value(id, tool_call_result_value(&envelope))),
                    None => None,
                };
                assert(passed@ == params_or_empty(p@.arguments) && tool_call_answer(
                    self.spec_tools(),
                    ctx,
                    p@.name,
                    passed,
                    envelope,
                ) && opt_json(r) == respond(opt_json(id), tool_call_result(envelope)));
                r
            },
        }
    }

    fn handle_request<Ctx>(&self, ctx: &Ctx, request: JsonRpcRequest) -> (r: Option<JsonValue>) where
        H: Fn(&Ctx, JsonValue) -> JsonEnvelope<JsonValue>,

        requires
            handlers_accept_all::<Ctx, H>(self.spec_tools()),
        ensures
            method_answer(
                self.spec_tools(),
                self.spec_server_name(),
                self.spec_server_version(),
                ctx,
                request@,
                opt_json(r),
            ),
    {
        let JsonRpcRequest { id, method, params } = request;
        if text_eq(method.as_str(), "initialize") {
            self.handle_initialize(id, params.as_ref())
        } else if text_eq(method.as_str(), "notifications/initialized") || text_eq(
            method.as_str(),
            "ping",
        ) {
            self.handle_empty(id)
        } else if text_eq(method.as_str(), "tools/list") {
            self.handle_tools_list(id)
        } else if text_eq(method.as_str(), "tools/call") {
            self.handle_tool_call(ctx, id, params)
        } else {
            match id {
                Some(id) => {
                    let mut message = String::from_str("unsupported MCP method `");
                    message.append(method.as_str());
                    message.append("`");
                    Some(response_error_value(id, -32601, message.as_str()))
                },
                None => None,
            }
        }
    }

    fn handle_single_request_value<Ctx>(&self, ctx: &Ctx, request: JsonValue) -> (r: Option<
        JsonValue,
    >) where H: Fn(&Ctx, JsonValue) -> JsonEnvelope<JsonValue>
        requires
            handlers_accept_all::<Ctx, H>(self.spec_tools()),
        ensures
            request_answer(
                self.spec_tools(),
                self.spec_server_name(),
                self.spec_server_version(),
                ctx,
                request@,
                opt_json(r),
            ),
    {
        let recovered_id = match request.get("id") {
            Some(id) => id.duplicate(),
            None => JsonValue::Null,
        };
        match JsonRpcRequest::decode(request) {
            Ok(request) => self.handle_request(ctx, request),
            Err(why) => Some(invalid_request_response(recovered_id, why.as_str())),
        }
    }

    fn handle_batch<Ctx>(&self, ctx: &Ctx, members: Vec<JsonValue>) -> (r: Option<JsonValue>) where
        H: Fn(&Ctx, JsonValue) -> JsonEnvelope<JsonValue>,

        requires
            handlers_accept_all::<Ctx, H>(self.spec_tools()),
        ensures
            batch_answer(
                self.spec_tools(),
                self.spec_server_name(),
                self.spec_server_version(),
                ctx,
                view_items(members@),
                opt_json(r),
            ),
    {
        proof {
            lemma_view_items(members@);
        }
        if members.len() == 0 {
            return Some(empty_batch_response());
        }
        let ghost views = view_items(members@);
        let mut responses: Vec<JsonValue> = Vec::new();
        let ghost mut answers: Seq<Option<Json>> = Seq::empty();
        let mut i: usize = 0;
        while i < members.len()
            invariant
                i <= members.len(),
                views == view_items(members@),
                views.len() == members.len(),
                forall|k: int| 0 <= k < members.len() ==> #[trigger] views[k] == json_view(members@[k]),
                handlers_accept_all::<Ctx, H>(self.spec_tools()),
                answers.len() == i,
                forall|k: int|
                    0 <= k < i ==> request_answer(
                        self.spec_tools(),
                        self.spec_server_name(),
                        self.spec_server_version(),
                        ctx,
                        views[k],
                        #[trigger] answers[k],
                    ),
                view_items(responses@) == somes(answers),
            decreases members.len() - i,
        {
            let member = members[i].duplicate();
            let answer = self.handle_single_request_value(ctx, member);
            let ghost previous = answers;
            proof {
                answers = answers.push(opt_json(answer));
                assert(answers.drop_last() =~= previous);
            }
            match answer {
                Some(response) => push_item(&mut responses, response),
                None => {},
            }
            i = i + 1;
        }
        proof {
            assert(view_items(responses@).len() == responses.len()) by {
                lemma_view_items(responses@);
            }
        }
        if responses.len() == 0 {
            None
        } else {
            Some(JsonValue::Array(responses))
        }
    }

    /// Handle one parsed JSON-RPC value: a single request object, or a batch
    /// array of them.
    ///
    /// Batches are answered as an array of the member responses in request
    /// order, with notification members omitted; a notification-only batch
    /// produces no response at all. An empty array is itself an Invalid
    /// Request and is answered with a single `-32600` object.
    pub fn handle_request_value<Ctx>(&self, ctx: &Ctx, request: JsonValue) -> (r: Result<
        Option<JsonValue>,
        McpCliError,
    >) where H: Fn(&Ctx, JsonValue) -> JsonEnvelope<JsonValue>
        requires
            handlers_accept_all::<Ctx, H>(self.spec_tools()),
        ensures
            r matches Ok(answer) && value_answer(
                self.spec_tools(),
                self.spec_server_name(),
                self.spec_server_version(),
                ctx,
                request@,
                opt_json(answer),
            ),
    {
        match request {
            JsonValue::Array(members) => Ok(self.handle_batch(ctx, members)),
            other => Ok(self.handle_single_request_value(ctx, other)),
        }
    }

    /// Answer one frame of the transport: an oversized frame or one that is not
    /// JSON with a `-32700` parse error, a JSON frame as a request or batch.
    pub fn handle_frame<Ctx>(&self, ctx: &Ctx, frame: ProtocolFrame) -> (r: Result<
        Option<JsonValue>,
        McpCliError,
    >) where H: Fn(&Ctx, JsonValue) -> JsonEnvelope<JsonValue>
        requires
            handlers_accept_all::<Ctx, H>(self.spec_tools()),
        ensures
            r matches Ok(answer) && frame_answer(
                self.spec_tools(),
                self.spec_server_name(),
                self.spec_server_version(),
                self.spec_max_frame_bytes(),
                ctx,
                frame@,
                opt_json(answer),
            ),
    {
        match frame {
            ProtocolFrame::Eof => Ok(None),
            ProtocolFrame::Oversized(discarded) => Ok(
                Some(oversized_frame_response(discarded, self.max_frame_bytes)),
            ),
            ProtocolFrame::Message(bytes) => match parse_json(bytes.as_slice()) {
                Ok(value) => self.handle_request_value(ctx, value),
                Err(why) => Ok(Some(parse_error_response(why.as_str()))),
            },
        }
    }
}

} // verus!
