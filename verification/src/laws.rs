//! Properties of the server, the router and the transport that hold across
//! all inputs.

use vstd::prelude::*;

use crate::envelope::{envelope_json, JsonEnvelope};
use crate::framing::{
    chunk_stop, frame_at, frame_read_limit, lemma_line_stop, newline,
    trim_terminator, FrameView,
};
use crate::json::{json_as_str, json_get, member_lookup, Json, JsonValue};
use crate::protocol::{
    batch_answer, decode_request, decode_tool_call_params, empty_batch_message,
    is_supported_version, method_answer, negotiated_version, params_or_empty, recovered_id,
    request_answer, respond, response_error, response_ok, somes, tool_call_result,
    tools_list_result, initialize_result, params_get,
};
use crate::tools::{
    is_blank, is_white_space, metadata_json, object_rooted, registration_error, registry_ok,
    tool_call_answer, tool_name, tool_names, Tool, ToolMetadataView,
};

verus! {

/// A request that carries no id is a notification and gets no answer,
/// whatever its method.
pub proof fn lemma_notification_gets_no_answer<Ctx, H: Fn(&Ctx, JsonValue) -> JsonEnvelope<
    JsonValue,
>>(
    tools: Seq<Tool<H>>,
    server_name: Seq<char>,
    server_version: Seq<char>,
    ctx: &Ctx,
    request: Json,
    r: Option<Json>,
)
    requires
        request_answer(tools, server_name, server_version, ctx, request, r),
        decode_request(request) matches Ok(req) && req.id is None,
    ensures
        r is None,
{
}

/// The `id` and `jsonrpc` members of a response object.
proof fn lemma_response_id(id: Json, result: Json, code: int, message: Seq<char>)
    ensures
        json_get(response_ok(id, result), "id"@) == Some(id),
        json_get(response_error(id, code, message), "id"@) == Some(id),
        json_get(response_ok(id, result), "jsonrpc"@) == Some(Json::Str("2.0"@)),
        json_get(response_error(id, code, message), "jsonrpc"@) == Some(Json::Str("2.0"@)),
{
    reveal_strlit("id");
    reveal_strlit("result");
    reveal_strlit("error");
    reveal_strlit("jsonrpc");
    assert("id"@.len() == 2);
    assert("jsonrpc"@.len() == 7);
    assert("id"@ != "jsonrpc"@);
    let first = seq![("jsonrpc"@, Json::Str("2.0"@))];
    let second = first.push(("id"@, id));
    assert(member_lookup(first, "jsonrpc"@) == Some(Json::Str("2.0"@)));
    assert(second.drop_last() =~= first);
    assert(member_lookup(second, "jsonrpc"@) == Some(Json::Str("2.0"@)));
    assert(member_lookup(second, "id"@) == Some(id));
    let ok_members = response_ok(id, result)->Object_0;
    let err_members = response_error(id, code, message)->Object_0;
    assert(ok_members.drop_last() =~= second);
    assert(err_members.drop_last() =~= second);
    assert(ok_members.last().0 == "result"@);
    assert(err_members.last().0 == "error"@);
}

/// A request that carries an id is always answered, by a JSON-RPC 2.0 response
/// that quotes that id.
pub proof fn lemma_answer_quotes_request_id<Ctx, H: Fn(&Ctx, JsonValue) -> JsonEnvelope<
    JsonValue,
>>(
    tools: Seq<Tool<H>>,
    server_name: Seq<char>,
    server_version: Seq<char>,
    ctx: &Ctx,
    request: Json,
    r: Option<Json>,
)
    requires
        request_answer(tools, server_name, server_version, ctx, request, r),
        decode_request(request) matches Ok(req) && req.id is Some,
    ensures
        r matches Some(response) && json_get(response, "id"@) == decode_request(
            request,
        )->Ok_0.id && json_get(response, "jsonrpc"@) == Some(Json::Str("2.0"@)),
{
    let req = decode_request(request)->Ok_0;
    let id = req.id->Some_0;
    let resp = r->Some_0;
    let m = req.method;
    if m == "initialize"@ || m == "notifications/initialized"@ || m == "ping"@ || m
        == "tools/list"@ {
        let result = resp->Object_0[2].1;
        assert(resp == response_ok(id, result));
        lemma_response_id(id, result, 0, Seq::empty());
    } else if m == "tools/call"@ {
        match decode_tool_call_params(params_or_empty(req.params)) {
            Ok(p) => {
                let (arguments, envelope) = choose|
                    arguments: JsonValue,
                    envelope: JsonEnvelope<JsonValue>,
                |
                    arguments@ == params_or_empty(p.arguments) && #[trigger] tool_call_answer(
                        tools,
                        ctx,
                        p.name,
                        arguments,
                        envelope,
                    ) && r == respond(req.id, tool_call_result(envelope));
                lemma_response_id(id, tool_call_result(envelope), 0, Seq::empty());
            },
            Err(why) => {
                lemma_response_id(id, Json::Null, -32602, "invalid params: "@ + why);
            },
        }
    } else {
        lemma_response_id(id, Json::Null, -32601, "unsupported MCP method `"@ + m + "`"@);
    }
}

/// A value that is not a request is answered with an Invalid Request error,
/// never with silence, whether or not it carries an id; the answer quotes the
/// id the value carries, or `null`.
pub proof fn lemma_invalid_request_is_answered<Ctx, H: Fn(&Ctx, JsonValue) -> JsonEnvelope<
    JsonValue,
>>(
    tools: Seq<Tool<H>>,
    server_name: Seq<char>,
    server_version: Seq<char>,
    ctx: &Ctx,
    request: Json,
    r: Option<Json>,
)
    requires
        request_answer(tools, server_name, server_version, ctx, request, r),
        decode_request(request) is Err,
    ensures
        r matches Some(response) && json_get(response, "jsonrpc"@) == Some(Json::Str("2.0"@))
            && json_get(response, "id"@) == Some(recovered_id(request)),
{
    let id = match json_get(request, "id"@) {
        Some(v) => v,
        None => Json::Null,
    };
    let why = decode_request(request)->Err_0;
    lemma_response_id(id, Json::Null, -32600, "invalid JSON-RPC request: "@ + why);
}

/// No answers to collect when every member is unanswered.
proof fn lemma_somes_of_nothing(answers: Seq<Option<Json>>)
    requires
        forall|i: int| 0 <= i < answers.len() ==> #[trigger] answers[i] is None,
    ensures
        somes(answers).len() == 0,
    decreases answers.len(),
{
    if answers.len() > 0 {
        lemma_somes_of_nothing(answers.drop_last());
    }
}

/// Every answer is collected, in order, when every member is answered.
proof fn lemma_somes_of_everything(answers: Seq<Option<Json>>)
    requires
        forall|i: int| 0 <= i < answers.len() ==> #[trigger] answers[i] is Some,
    ensures
        somes(answers).len() == answers.len(),
        forall|i: int| 0 <= i < answers.len() ==> #[trigger] somes(answers)[i] == answers[i]->Some_0,
    decreases answers.len(),
{
    if answers.len() > 0 {
        lemma_somes_of_everything(answers.drop_last());
    }
}

/// A batch made only of notifications produces no response at all.
pub proof fn lemma_notification_only_batch_is_silent<Ctx, H: Fn(&Ctx, JsonValue) -> JsonEnvelope<
    JsonValue,
>>(
    tools: Seq<Tool<H>>,
    server_name: Seq<char>,
    server_version: Seq<char>,
    ctx: &Ctx,
    members: Seq<Json>,
    r: Option<Json>,
)
    requires
        batch_answer(tools, server_name, server_version, ctx, members, r),
        members.len() > 0,
        forall|i: int|
            0 <= i < members.len() ==> (#[trigger] decode_request(members[i]) matches Ok(req)
                && req.id is None),
    ensures
        r is None,
{
    let answers = choose|answers: Seq<Option<Json>>|
        answers.len() == members.len() && (forall|i: int|
            0 <= i < members.len() ==> request_answer(
                tools,
                server_name,
                server_version,
                ctx,
                members[i],
                #[trigger] answers[i],
            )) && r == (if somes(answers).len() == 0 {
            None
        } else {
            Some(Json::Array(somes(answers)))
        });
    assert forall|i: int| 0 <= i < answers.len() implies #[trigger] answers[i] is None by {
        assert(decode_request(members[i]) matches Ok(req) && req.id is None);
        lemma_notification_gets_no_answer(
            tools,
            server_name,
            server_version,
            ctx,
            members[i],
            answers[i],
        );
    }
    lemma_somes_of_nothing(answers);
}

/// An empty batch is answered with one Invalid Request object, not an array.
pub proof fn lemma_empty_batch_is_one_object<Ctx, H: Fn(&Ctx, JsonValue) -> JsonEnvelope<
    JsonValue,
>>(
    tools: Seq<Tool<H>>,
    server_name: Seq<char>,
    server_version: Seq<char>,
    ctx: &Ctx,
    r: Option<Json>,
)
    requires
        batch_answer(tools, server_name, server_version, ctx, Seq::empty(), r),
    ensures
        r matches Some(response) && response is Object && json_get(response, "id"@) == Some(
            Json::Null,
        ),
{
    lemma_response_id(Json::Null, Json::Null, -32600, empty_batch_message());
}

/// A batch whose members all carry ids is answered by one array holding one
/// response per member, in request order; a member that is not a request gets
/// its own entry.
pub proof fn lemma_batch_answers_every_request_in_order<Ctx, H: Fn(&Ctx, JsonValue) -> JsonEnvelope<
    JsonValue,
>>(
    tools: Seq<Tool<H>>,
    server_name: Seq<char>,
    server_version: Seq<char>,
    ctx: &Ctx,
    members: Seq<Json>,
    r: Option<Json>,
)
    requires
        batch_answer(tools, server_name, server_version, ctx, members, r),
        members.len() > 0,
        forall|i: int|
            0 <= i < members.len() ==> match #[trigger] decode_request(members[i]) {
                Ok(req) => req.id is Some,
                Err(_) => true,
            },
    ensures
        r matches Some(Json::Array(responses)) && responses.len() == members.len() && forall|
            i: int,
        |
            0 <= i < members.len() ==> request_answer(
                tools,
                server_name,
                server_version,
                ctx,
                members[i],
                Some(#[trigger] responses[i]),
            ),
{
    let answers = choose|answers: Seq<Option<Json>>|
        answers.len() == members.len() && (forall|i: int|
            0 <= i < members.len() ==> request_answer(
                tools,
                server_name,
                server_version,
                ctx,
                members[i],
                #[trigger] answers[i],
            )) && r == (if somes(answers).len() == 0 {
            None
        } else {
            Some(Json::Array(somes(answers)))
        });
    assert forall|i: int| 0 <= i < answers.len() implies #[trigger] answers[i] is Some by {
        assert(request_answer(tools, server_name, server_version, ctx, members[i], answers[i]));
        match decode_request(members[i]) {
            Ok(req) => {
                lemma_answer_quotes_request_id(
                    tools,
                    server_name,
                    server_version,
                    ctx,
                    members[i],
                    answers[i],
                );
            },
            Err(_) => {
                lemma_invalid_request_is_answered(
                    tools,
                    server_name,
                    server_version,
                    ctx,
                    members[i],
                    answers[i],
                );
            },
        }
    }
    lemma_somes_of_everything(answers);
    assert forall|i: int| 0 <= i < members.len() implies request_answer(
        tools,
        server_name,
        server_version,
        ctx,
        members[i],
        Some(#[trigger] somes(answers)[i]),
    ) by {
        assert(request_answer(tools, server_name, server_version, ctx, members[i], answers[i]));
    }
}

/// `initialize` always advertises a version the server understands, and echoes
/// the client's requested version exactly when the server understands it.
pub proof fn lemma_negotiated_version_is_supported(requested: Option<Seq<char>>)
    ensures
        is_supported_version(negotiated_version(requested)),
        requested is Some && is_supported_version(requested->Some_0) ==> negotiated_version(
            requested,
        ) == requested->Some_0,
        (requested is None || !is_supported_version(requested->Some_0)) ==> negotiated_version(
            requested,
        ) == "2025-06-18"@,
{
}

/// The server keeps no session state: a repeated `initialize` is answered
/// exactly as the first one was.
pub proof fn lemma_initialize_is_idempotent<Ctx, H: Fn(&Ctx, JsonValue) -> JsonEnvelope<
    JsonValue,
>>(
    tools: Seq<Tool<H>>,
    server_name: Seq<char>,
    server_version: Seq<char>,
    ctx: &Ctx,
    later_ctx: &Ctx,
    request: Json,
    first: Option<Json>,
    again: Option<Json>,
)
    requires
        decode_request(request) matches Ok(req) && req.method == "initialize"@,
        request_answer(tools, server_name, server_version, ctx, request, first),
        request_answer(tools, server_name, server_version, later_ctx, request, again),
    ensures
        first == again,
{
}

/// A name identifies exactly one tool: in a router that keeps its invariant, a
/// call of the name of the tool registered last reaches that tool's handler.
pub proof fn lemma_call_reaches_registered_tool<Ctx, H: Fn(&Ctx, JsonValue) -> JsonEnvelope<
    JsonValue,
>>(tools: Seq<Tool<H>>, tool: Tool<H>, ctx: &Ctx, arguments: JsonValue, r: JsonEnvelope<JsonValue>)
    requires
        registry_ok(tools.push(tool)),
        tool_call_answer(tools.push(tool), ctx, tool_name(tool), arguments, r),
    ensures
        call_ensures(tool.spec_handler(), (ctx, arguments), r),
{
    let all = tools.push(tool);
    let last = tools.len() as int;
    assert(all[last] == tool);
    assert(tool_names(all)[last] == tool_name(tool));
    assert(tool_names(all).contains(tool_name(tool)));
    let i = choose|i: int|
        0 <= i < all.len() && tool_name(all[i]) == tool_name(tool) && call_ensures(
            (#[trigger] all[i]).spec_handler(),
            (ctx, arguments),
            r,
        );
    if i != last {
        assert(tool_name(all[i]) != tool_name(all[last]));
    }
}

/// The `isError` flag of a `tools/call` result agrees with the status that
/// its structured content reports.
pub proof fn lemma_is_error_matches_status(envelope: JsonEnvelope<JsonValue>)
    ensures
        json_get(envelope_json(envelope), "status"@) == Some(
            Json::Str(
                if envelope is Error {
                    "error"@
                } else {
                    "success"@
                },
            ),
        ),
{
    reveal_strlit("status");
    reveal_strlit("meta");
    reveal_strlit("data");
    reveal_strlit("error");
    reveal_strlit("success");
    assert("status"@.len() == 6);
    assert("meta"@.len() == 4);
    assert("data"@.len() == 4);
    assert("error"@.len() == 5);
    assert("status"@ != "meta"@ && "status"@ != "data"@ && "status"@ != "error"@);
    let members = envelope_json(envelope)->Object_0;
    let first = members.drop_last().drop_last();
    assert(first =~= seq![members[0]]);
    assert(member_lookup(first, "status"@) == Some(members[0].1));
    assert(members.drop_last().drop_last() =~= first);
    assert(member_lookup(members.drop_last(), "status"@) == member_lookup(first, "status"@));
}

/// A message frame is never empty, never longer than the cap, and holds no
/// newline; a frame is read in full or not at all.
pub proof fn lemma_message_frame_is_bounded(input: Seq<u8>, pos: int, max_frame_bytes: usize)
    requires
        0 <= pos <= input.len(),
        frame_at(input, pos, max_frame_bytes).0 is Message,
    ensures
        0 < frame_at(input, pos, max_frame_bytes).0->Message_0.len() <= max_frame_bytes,
        forall|k: int|
            0 <= k < frame_at(input, pos, max_frame_bytes).0->Message_0.len() ==> #[trigger] frame_at(
                input,
                pos,
                max_frame_bytes,
            ).0->Message_0[k] != newline(),
    decreases input.len() - pos,
{
    lemma_line_stop(input, pos);
    let limit = frame_read_limit(max_frame_bytes);
    let stop = chunk_stop(input, pos, limit);
    let chunk = input.subrange(pos, stop);
    if chunk.last() != newline() && chunk.len() == limit {
    } else if trim_terminator(chunk).len() == 0 {
        lemma_message_frame_is_bounded(input, stop, max_frame_bytes);
    } else {
        let t = trim_terminator(chunk);
        assert forall|k: int| 0 <= k < t.len() implies #[trigger] t[k] != newline() by {
            assert(t[k] == input[pos + k]);
        }
    }
}

/// Reading a frame consumes input: it ends the stream only when nothing but
/// blank lines is left, and otherwise takes at least one byte and stops at a
/// frame boundary, just past a newline or at the end of the input; an oversized
/// frame reports more discarded bytes than the cap.
pub proof fn lemma_frame_makes_progress(input: Seq<u8>, pos: int, max_frame_bytes: usize)
    requires
        0 <= pos <= input.len(),
    ensures
        pos <= frame_at(input, pos, max_frame_bytes).1 <= input.len(),
        frame_at(input, pos, max_frame_bytes).0 is Eof ==> frame_at(input, pos, max_frame_bytes).1
            == input.len(),
        !(frame_at(input, pos, max_frame_bytes).0 is Eof) ==> pos < frame_at(
            input,
            pos,
            max_frame_bytes,
        ).1,
        frame_at(input, pos, max_frame_bytes).0 matches FrameView::Oversized(n) ==> n <= frame_at(
            input,
            pos,
            max_frame_bytes,
        ).1 - pos && n >= frame_read_limit(max_frame_bytes),
        !(frame_at(input, pos, max_frame_bytes).0 is Eof) ==> (frame_at(input, pos, max_frame_bytes).1
            == input.len() || input[frame_at(input, pos, max_frame_bytes).1 - 1] == newline()),
    decreases input.len() - pos,
{
    lemma_line_stop(input, pos);
    if pos < input.len() {
        let limit = frame_read_limit(max_frame_bytes);
        let stop = chunk_stop(input, pos, limit);
        let chunk = input.subrange(pos, stop);
        if chunk.last() != newline() && chunk.len() == limit {
            lemma_line_stop(input, stop);
        } else if trim_terminator(chunk).len() == 0 {
            lemma_frame_makes_progress(input, stop, max_frame_bytes);
        }
    }
}

/// Trimming a frame removes at most its newline and one carriage return before
/// it: what is left is a prefix of the frame, and a frame that does not end in
/// a newline is left as it is.
pub proof fn lemma_trim_keeps_a_prefix(frame: Seq<u8>)
    ensures
        trim_terminator(frame).len() <= frame.len() <= trim_terminator(frame).len() + 2,
        trim_terminator(frame) =~= frame.subrange(0, trim_terminator(frame).len() as int),
        frame.len() == 0 || frame.last() != newline() ==> trim_terminator(frame) == frame,
{
}

/// Declaring an object root is idempotent, and afterwards an object schema
/// declares a root type.
pub proof fn lemma_object_root_is_idempotent(schema: Json)
    ensures
        object_rooted(object_rooted(schema)) == object_rooted(schema),
        schema is Object ==> json_get(object_rooted(schema), "type"@) is Some,
{
    if schema is Object && json_get(schema, "type"@) is None {
        let members = schema->Object_0;
        assert(member_lookup(members.push(("type"@, Json::Str("object"@))), "type"@) is Some);
    }
}

/// A request object that names its method by a string and carries an `id`
/// member that is not `null` is never taken for a notification: it is
/// answered, and the answer quotes that member as it stands, whatever its
/// value (`0`, `""` and `false` included).
pub proof fn lemma_request_with_id_member_is_answered<Ctx, H: Fn(&Ctx, JsonValue) -> JsonEnvelope<
    JsonValue,
>>(
    tools: Seq<Tool<H>>,
    server_name: Seq<char>,
    server_version: Seq<char>,
    ctx: &Ctx,
    request: Json,
    r: Option<Json>,
)
    requires
        request is Object,
        json_get(request, "method"@) matches Some(Json::Str(_)),
        json_get(request, "id"@) matches Some(id) && id != Json::Null,
        request_answer(tools, server_name, server_version, ctx, request, r),
    ensures
        decode_request(request) matches Ok(req) && req.id == json_get(request, "id"@),
        r matches Some(response) && json_get(response, "id"@) == json_get(request, "id"@)
            && json_get(response, "jsonrpc"@) == Some(Json::Str("2.0"@)),
{
    lemma_answer_quotes_request_id(tools, server_name, server_version, ctx, request, r);
}

/// The `tools` array of a `tools/list` answer has one entry per registered
/// tool, in registration order: its length is the number of tools, and entry
/// `i` is the metadata of tool `i`, under that tool's name.
pub proof fn lemma_tools_list_lists_every_tool<Ctx, H: Fn(&Ctx, JsonValue) -> JsonEnvelope<
    JsonValue,
>>(
    tools: Seq<Tool<H>>,
    server_name: Seq<char>,
    server_version: Seq<char>,
    ctx: &Ctx,
    request: Json,
    r: Option<Json>,
)
    requires
        decode_request(request) matches Ok(req) && req.method == "tools/list"@ && req.id is Some,
        request_answer(tools, server_name, server_version, ctx, request, r),
    ensures
        r matches Some(response) && json_get(response, "result"@) matches Some(result) && json_get(
            result,
            "tools"@,
        ) matches Some(Json::Array(listed)) && listed.len() == tools.len() && forall|i: int|
            0 <= i < tools.len() ==> #[trigger] listed[i] == metadata_json(
                tools[i].spec_metadata()@,
            ) && json_get(listed[i], "name"@) == Some(Json::Str(tool_name(tools[i])))
                && json_get(listed[i], "description"@) == Some(
                Json::Str(tools[i].spec_metadata().description@),
            ) && json_get(listed[i], "inputSchema"@) == Some(
                tools[i].spec_metadata().input_schema@,
            ),
{
    reveal_strlit("initialize");
    reveal_strlit("notifications/initialized");
    reveal_strlit("ping");
    reveal_strlit("tools/list");
    assert("tools/list"@.len() == 10);
    assert("tools/list"@[0] != "initialize"@[0]);
    assert("tools/list"@ != "initialize"@);
    assert("tools/list"@ != "ping"@);
    assert("tools/list"@ != "notifications/initialized"@);
    let req = decode_request(request)->Ok_0;
    let result = tools_list_result(tools);
    assert(r == Some(response_ok(req.id->Some_0, result)));
    let listed = result->Object_0[0].1->Array_0;
    assert(json_get(result, "tools"@) == Some(Json::Array(listed)));
    assert forall|i: int| 0 <= i < tools.len() implies #[trigger] listed[i] == metadata_json(
        tools[i].spec_metadata()@,
    ) && json_get(listed[i], "name"@) == Some(Json::Str(tool_name(tools[i]))) && json_get(
        listed[i],
        "description"@,
    ) == Some(Json::Str(tools[i].spec_metadata().description@)) && json_get(
        listed[i],
        "inputSchema"@,
    ) == Some(tools[i].spec_metadata().input_schema@) by {
        lemma_metadata_name(tools[i].spec_metadata()@);
    }
}

/// The `name`, `description` and `inputSchema` members of a tool's metadata
/// object are the tool's own.
proof fn lemma_metadata_name(m: ToolMetadataView)
    ensures
        json_get(metadata_json(m), "name"@) == Some(Json::Str(m.name)),
        json_get(metadata_json(m), "description"@) == Some(Json::Str(m.description)),
        json_get(metadata_json(m), "inputSchema"@) == Some(m.input_schema),
{
    reveal_strlit("name");
    reveal_strlit("description");
    reveal_strlit("inputSchema");
    reveal_strlit("outputSchema");
    assert("name"@.len() == 4);
    assert("description"@.len() == 11);
    assert("inputSchema"@.len() == 11);
    assert("outputSchema"@.len() == 12);
    assert("description"@[0] != "inputSchema"@[0]);
    assert("description"@ != "inputSchema"@);
    let base = seq![
        ("name"@, Json::Str(m.name)),
        ("description"@, Json::Str(m.description)),
        ("inputSchema"@, m.input_schema),
    ];
    assert(base.drop_last().drop_last() =~= seq![("name"@, Json::Str(m.name))]);
    assert(member_lookup(base.drop_last().drop_last(), "name"@) == Some(Json::Str(m.name)));
    assert(member_lookup(base.drop_last(), "name"@) == Some(Json::Str(m.name)));
    assert(member_lookup(base, "name"@) == Some(Json::Str(m.name)));
    assert(member_lookup(base.drop_last(), "description"@) == Some(Json::Str(m.description)));
    assert(member_lookup(base, "description"@) == Some(Json::Str(m.description)));
    assert(member_lookup(base, "inputSchema"@) == Some(m.input_schema));
    match m.output_schema {
        Some(o) => {
            let with = base.push(("outputSchema"@, o));
            assert(with.drop_last() =~= base);
            assert(member_lookup(with, "name"@) == member_lookup(base, "name"@));
            assert(member_lookup(with, "description"@) == member_lookup(base, "description"@));
            assert(member_lookup(with, "inputSchema"@) == member_lookup(base, "inputSchema"@));
        },
        None => {},
    }
}

/// The `isError` flag of every `tools/call` result is true exactly when the
/// envelope in its `structuredContent` reports the status `"error"`, whatever
/// the error's category.
pub proof fn lemma_is_error_flag_follows_status(envelope: JsonEnvelope<JsonValue>)
    ensures
        json_get(tool_call_result(envelope), "structuredContent"@) == Some(envelope_json(envelope)),
        json_get(tool_call_result(envelope), "isError"@) == Some(
            Json::Bool(json_get(envelope_json(envelope), "status"@) == Some(Json::Str("error"@))),
        ),
        json_get(tool_call_result(envelope), "isError"@) == Some(Json::Bool(envelope is Error)),
{
    reveal_strlit("isError");
    reveal_strlit("structuredContent");
    reveal_strlit("error");
    reveal_strlit("success");
    assert("isError"@.len() == 7);
    assert("structuredContent"@.len() == 17);
    assert("error"@.len() == 5);
    assert("success"@.len() == 7);
    assert("error"@ != "success"@);
    lemma_is_error_matches_status(envelope);
    let members = tool_call_result(envelope)->Object_0;
    assert(members.drop_last().last().0 == "structuredContent"@);
    assert(member_lookup(members.drop_last(), "structuredContent"@) == Some(
        envelope_json(envelope),
    ));
    assert(member_lookup(members, "structuredContent"@) == Some(envelope_json(envelope)));
}

/// Registration refuses no name for the characters it holds: a name that is
/// not blank and not yet taken is accepted, whatever characters it holds,
/// when the input schema declares an object root or no root type at all.
pub proof fn lemma_registration_accepts_any_fresh_name(
    names: Seq<Seq<char>>,
    name: Seq<char>,
    schema: Json,
)
    requires
        !is_blank(name),
        !names.contains(name),
        json_get(schema, "type"@) is None || json_get(schema, "type"@) == Some(
            Json::Str("object"@),
        ),
    ensures
        registration_error(names, name, schema) is None,
{
}

/// A name that holds a printable ASCII character other than the space is not
/// blank, so it can be registered when it is not yet taken.
pub proof fn lemma_visible_ascii_name_is_not_blank(name: Seq<char>, k: int)
    requires
        0 <= k < name.len(),
        '!' <= name[k] <= '~',
    ensures
        !is_blank(name),
{
    assert(!is_white_space(name[k]));
}

/// `initialize` advertises only the versions 2024-11-05, 2025-03-26 and
/// 2025-06-18: a requested one of these is echoed, and any other request, or
/// none, is answered with 2025-06-18.
pub proof fn lemma_advertised_version_is_listed(requested: Option<Seq<char>>)
    ensures
        negotiated_version(requested) == "2024-11-05"@ || negotiated_version(requested)
            == "2025-03-26"@ || negotiated_version(requested) == "2025-06-18"@,
        requested matches Some(v) ==> ((v == "2024-11-05"@ || v == "2025-03-26"@ || v
            == "2025-06-18"@) ==> negotiated_version(requested) == v),
        !(requested matches Some(v) && (v == "2024-11-05"@ || v == "2025-03-26"@ || v
            == "2025-06-18"@)) ==> negotiated_version(requested) == "2025-06-18"@,
{
}

/// The answer to an `initialize` request that carries an id advertises, as
/// its `protocolVersion`, one of 2024-11-05, 2025-03-26 and 2025-06-18.
pub proof fn lemma_initialize_advertises_a_listed_version<Ctx, H: Fn(&Ctx, JsonValue) -> JsonEnvelope<
    JsonValue,
>>(
    tools: Seq<Tool<H>>,
    server_name: Seq<char>,
    server_version: Seq<char>,
    ctx: &Ctx,
    request: Json,
    r: Option<Json>,
)
    requires
        decode_request(request) matches Ok(req) && req.method == "initialize"@ && req.id is Some,
        request_answer(tools, server_name, server_version, ctx, request, r),
    ensures
        r matches Some(response) && json_get(response, "result"@) matches Some(result) && json_get(
            result,
            "protocolVersion"@,
        ) matches Some(Json::Str(v)) && (v == "2024-11-05"@ || v == "2025-03-26"@ || v
            == "2025-06-18"@),
{
    reveal_strlit("protocolVersion");
    reveal_strlit("capabilities");
    reveal_strlit("serverInfo");
    assert("protocolVersion"@.len() == 15);
    assert("capabilities"@.len() == 12);
    assert("serverInfo"@.len() == 10);
    let req = decode_request(request)->Ok_0;
    let v = negotiated_version(json_as_str(params_get(req.params, "protocolVersion"@)));
    lemma_advertised_version_is_listed(json_as_str(params_get(req.params, "protocolVersion"@)));
    let result = initialize_result(v, server_name, server_version);
    assert(r == Some(response_ok(req.id->Some_0, result)));
    let members = result->Object_0;
    assert(members.drop_last().drop_last() =~= seq![members[0]]);
    assert(member_lookup(members.drop_last().drop_last(), "protocolVersion"@) == Some(
        Json::Str(v),
    ));
    assert(member_lookup(members.drop_last(), "protocolVersion"@) == Some(Json::Str(v)));
    assert(member_lookup(members, "protocolVersion"@) == Some(Json::Str(v)));
    let response = response_ok(req.id->Some_0, result);
    assert(json_get(response, "result"@) == Some(result));
}

} // verus!
