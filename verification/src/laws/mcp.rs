//! Laws of the tool servers and of the bridge between sessions.

use vstd::prelude::*;
use vstd::utf8::encode_utf8;

use crate::json::{pretty_json, Json, JsonView};
use crate::mcp::{
    bridge_line, bridge_request, other_sessions, plan_tool_call, send_answer, send_request, sessions_answer,
    stdio_server_map, tool_reply, tool_specs, tool_text, unreachable_answer, watch_failed_answer,
    BridgeStep, McpServerConfig, ToolPlan,
};
use crate::text::trim;

verus! {

/// A driver gets each server under its name: its command, its arguments in order, and its
/// variables. Of two under one name the later counts, and no other is touched.
pub proof fn each_server_is_under_its_name(
    servers: &Vec<McpServerConfig>,
    more: &Vec<McpServerConfig>,
    last: McpServerConfig,
    r: Json,
    more_r: Json,
    name: &str,
    found: Option<&Json>,
    other: &str,
    kept: Option<&Json>,
    was: Option<&Json>,
)
    requires
        more@ == servers@.push(last),
        call_ensures(stdio_server_map, (servers,), r),
        call_ensures(stdio_server_map, (more,), more_r),
        name@ == last.name@ && other@ != last.name@,
        call_ensures(Json::get, (&more_r, name), found),
        call_ensures(Json::get, (&more_r, other), kept),
        call_ensures(Json::get, (&r, other), was),
    ensures
        servers@.len() == 0 ==> r@ is Object && r@->Object_0.len() == 0,
        found is Some && found->0@ is Object,
        ({
            let members = found->0@->Object_0;
            &&& members.len() == 3
            &&& members[0] == ("command"@, JsonView::Text(last.command@))
            &&& members[1].0 == "args"@ && members[1].1 is Array && members[1].1->Array_0.len()
                == last.args@.len() && forall|i: int|
                0 <= i < last.args@.len() ==> #[trigger] members[1].1->Array_0[i] == JsonView::Text(
                    last.args@[i]@,
                )
            &&& members[2] == ("env"@, JsonView::Object(crate::mcp::env_members(last.env@)))
        }),
        kept is Some == was is Some,
        kept is Some ==> kept->0@ == was->0@,
{
    assert(more@.drop_last() =~= servers@);
    crate::json::a_set_member_is_found(
        crate::mcp::server_members(servers@),
        last.name@,
        crate::mcp::server_json(last),
        other@,
    );
}

/// A variable of a server is under its name; of two under one name the later counts.
pub proof fn the_last_value_of_a_variable_counts(
    env: Seq<(String, String)>,
    name: String,
    value: String,
    other: Seq<char>,
)
    requires
        other != name@,
    ensures
        env.len() == 0 ==> crate::mcp::env_members(env).len() == 0,
        crate::json::member_at(crate::mcp::env_members(env.push((name, value))), name@, 0) == Some(
            JsonView::Text(value@),
        ),
        crate::json::member_at(crate::mcp::env_members(env.push((name, value))), other, 0)
            == crate::json::member_at(crate::mcp::env_members(env), other, 0),
{
    assert(env.push((name, value)).drop_last() =~= env);
    crate::json::a_set_member_is_found(
        crate::mcp::env_members(env),
        name@,
        JsonView::Text(value@),
        other,
    );
}

/// A message answers a request with the given body, under the request's own id.
pub open spec fn answers(message: JsonView, id: JsonView, key: Seq<char>, body: JsonView) -> bool {
    &&& message is Object && message->Object_0.len() == 3
    &&& message->Object_0[0] == ("jsonrpc"@, JsonView::Text("2.0"@))
    &&& message->Object_0[1] == ("id"@, id)
    &&& message->Object_0[2] == (key, body)
}

/// A tool call is run whatever its id; notifications, and what has no id, are not
/// answered; everything else is, under its own id.
pub proof fn every_request_is_answered_under_its_id(
    req: &Json,
    version: &str,
    id: Option<&Json>,
    method: String,
    params: Option<&Json>,
    asked: Option<&Json>,
    r: BridgeStep,
)
    requires
        call_ensures(bridge_request, (req, version), r),
        call_ensures(Json::get, (req, "id"), id),
        call_ensures(Json::text_member, (req, "method"), method),
        call_ensures(Json::get, (req, "params"), params),
        params matches Some(p) ==> call_ensures(Json::get, (p, "protocolVersion"), asked),
        params is None ==> asked is None,
    ensures
        ({
            let call = method@ == "tools/call"@;
            let told = method@ == "notifications/initialized"@ || method@
                == "notifications/cancelled"@;
            &&& r is Call <==> call
            &&& r is Call ==> (r->Call_0.id is Some <==> id is Some) && (id is Some
                ==> r->Call_0.id->0@ == id->0@) && (params is Some ==> r->Call_0.params@
                == params->0@) && (params is None ==> r->Call_0.params@ == JsonView::Null)
            &&& r is Ignore <==> !call && (id is None || told)
            &&& r is Reply <==> !call && !told && id is Some
            &&& r is Reply && method@ == "ping"@ ==> answers(
                r->Reply_0@,
                id->0@,
                "result"@,
                JsonView::Object(Seq::empty()),
            )
            &&& r is Reply && method@ != "ping"@ && method@ != "initialize"@ && method@
                != "tools/list"@ ==> answers(
                r->Reply_0@,
                id->0@,
                "error"@,
                JsonView::Object(
                    seq![
                        (
                            "code"@,
                            JsonView::Number(
                                seq!['-'] + crate::text::decimal_digits(32601),
                            ),
                        ),
                        ("message"@, JsonView::Text("unknown method "@ + method@)),
                    ],
                ),
            )
        }),
        r is Reply && method@ == "initialize"@ ==> {
            let spoken = if asked is Some && asked->0@ is Text {
                asked->0@->Text_0
            } else {
                "2025-06-18"@
            };
            answers(
                r->Reply_0@,
                id->0@,
                "result"@,
                JsonView::Object(
                    seq![
                        ("protocolVersion"@, JsonView::Text(spoken)),
                        (
                            "capabilities"@,
                            JsonView::Object(seq![("tools"@, JsonView::Object(Seq::empty()))]),
                        ),
                        (
                            "serverInfo"@,
                            JsonView::Object(
                                seq![
                                    ("name"@, JsonView::Text("zeron"@)),
                                    ("version"@, JsonView::Text(version@)),
                                ],
                            ),
                        ),
                    ],
                ),
            )
        },
{
    reveal_strlit("tools/call");
    reveal_strlit("notifications/initialized");
    reveal_strlit("notifications/cancelled");
    reveal_strlit("ping");
    reveal_strlit("initialize");
    reveal_strlit("tools/list");
    assert("ping"@.len() == 4 && "initialize"@.len() == 10 && "tools/list"@.len() == 10);
    assert("initialize"@[0] == 'i' && "tools/list"@[0] == 't');
    assert("tools/call"@[6] == 'c' && "tools/list"@[6] == 'l');
    if params is Some {
        assert(crate::json::member(req@, "params"@) == Some(params->0@));
        assert(asked is Some ==> crate::json::member(params->0@, "protocolVersion"@) == Some(
            asked->0@,
        ));
        assert(asked is None ==> crate::json::member(params->0@, "protocolVersion"@) is None);
    }
    let given = crate::json::member_or_null(req@, "params"@);
    let spoken = if asked is Some && asked->0@ is Text {
        asked->0@->Text_0
    } else {
        "2025-06-18"@
    };
    assert(crate::mcp::initialize_json(given, version@)->Object_0[0] == (
        "protocolVersion"@,
        JsonView::Text(spoken),
    ));
    assert(crate::mcp::initialize_json(given, version@)->Object_0 =~= seq![
        ("protocolVersion"@, JsonView::Text(spoken)),
        (
            "capabilities"@,
            JsonView::Object(seq![("tools"@, JsonView::Object(Seq::empty()))]),
        ),
        (
            "serverInfo"@,
            JsonView::Object(
                seq![
                    ("name"@, JsonView::Text("zeron"@)),
                    ("version"@, JsonView::Text(version@)),
                ],
            ),
        ),
    ]);
}

/// An argument is a text, with what it is for.
pub open spec fn is_described(
    argument: (Seq<char>, JsonView),
    name: Seq<char>,
    about: Seq<char>,
) -> bool {
    &&& argument.0 == name && argument.1 is Object && argument.1->Object_0.len() == 2
    &&& argument.1->Object_0[0] == ("type"@, JsonView::Text("string"@))
    &&& argument.1->Object_0[1] == ("description"@, JsonView::Text(about))
}

/// The tools that are listed are those that can be called, with what they need.
pub proof fn the_listed_tools_are_the_two(r: Json, req: &Json, version: &str, id: Option<&Json>, method: String, step: BridgeStep)
    requires
        call_ensures(tool_specs, (), r),
        call_ensures(bridge_request, (req, version), step),
        call_ensures(Json::get, (req, "id"), id),
        call_ensures(Json::text_member, (req, "method"), method),
        method@ == "tools/list"@,
        id is Some,
    ensures
        r@ is Array && r@->Array_0.len() == 2,
        r@->Array_0[0] is Object && r@->Array_0[0]->Object_0[0] == (
            "name"@,
            JsonView::Text("list_sessions"@),
        ),
        r@->Array_0[1] is Object && r@->Array_0[1]->Object_0[0] == (
            "name"@,
            JsonView::Text("send_to_session"@),
        ),
        r@->Array_0[0]->Object_0.len() == 3 && r@->Array_0[1]->Object_0.len() == 3,
        r@->Array_0[0]->Object_0[1] == (
            "description"@,
            JsonView::Text(
                "List the other agent sessions in this workspace (id, title, working directory, harness). Use it to find a session to message."@,
            ),
        ),
        r@->Array_0[1]->Object_0[1] == (
            "description"@,
            JsonView::Text(
                "Send a one-way message to another agent session. It arrives as that session's next user turn, attributed to this session. No reply channel — ask the user to check the target session, or have the target message you back."@,
            ),
        ),
        r@->Array_0[0]->Object_0[2].0 == "inputSchema"@ && r@->Array_0[0]->Object_0[2].1 is Object,
        ({
            let schema = r@->Array_0[0]->Object_0[2].1->Object_0;
            &&& schema.len() == 3
            &&& schema[0] == ("type"@, JsonView::Text("object"@))
            &&& schema[1] == ("properties"@, JsonView::Object(Seq::empty()))
            &&& schema[2] == ("additionalProperties"@, JsonView::Bool(false))
        }),
        r@->Array_0[1]->Object_0[2].0 == "inputSchema"@ && r@->Array_0[1]->Object_0[2].1 is Object,
        ({
            let schema = r@->Array_0[1]->Object_0[2].1->Object_0;
            &&& schema.len() == 4
            &&& schema[0] == ("type"@, JsonView::Text("object"@))
            &&& schema[1].0 == "properties"@ && schema[1].1 is Object
            &&& schema[1].1->Object_0.len() == 2
            &&& is_described(
                schema[1].1->Object_0[0],
                "target_chat_id"@,
                "The target session's chat id (from list_sessions)."@,
            )
            &&& is_described(schema[1].1->Object_0[1], "message"@, "The message to deliver."@)
            &&& schema[2] == (
                "required"@,
                JsonView::Array(
                    seq![JsonView::Text("target_chat_id"@), JsonView::Text("message"@)],
                ),
            )
            &&& schema[3] == ("additionalProperties"@, JsonView::Bool(false))
        }),
        step is Reply && answers(
            step->Reply_0@,
            id->0@,
            "result"@,
            JsonView::Object(seq![("tools"@, r@)]),
        ),
{
    reveal_strlit("tools/call");
    reveal_strlit("notifications/initialized");
    reveal_strlit("notifications/cancelled");
    reveal_strlit("initialize");
    reveal_strlit("tools/list");
    assert("initialize"@[0] == 'i' && "tools/list"@[0] == 't');
    assert("tools/call"@[6] == 'c' && "tools/list"@[6] == 'l');
}

/// A tool's answer is one block of text, with whether it tells of a failure.
pub open spec fn says(answer: JsonView, text: Seq<char>, failure: bool) -> bool {
    &&& answer is Object && answer->Object_0.len() == 2
    &&& answer->Object_0[0].0 == "content"@ && answer->Object_0[0].1 is Array
    &&& answer->Object_0[0].1->Array_0 == seq![
        JsonView::Object(
            seq![("type"@, JsonView::Text("text"@)), ("text"@, JsonView::Text(text))],
        ),
    ]
    &&& answer->Object_0[1] == ("isError"@, JsonView::Bool(failure))
}

/// An answer of a tool says the text that it was made of, and whether that is a failure.
/// Only a request with an id is answered, under that id.
pub proof fn an_answer_says_its_text(
    message: &str,
    failure: bool,
    r: Json,
    cause: &str,
    unreachable: Json,
    unwatched: Json,
    id: Option<Json>,
    result: Json,
    reply: Option<Json>,
)
    requires
        call_ensures(tool_text, (message, failure), r),
        call_ensures(unreachable_answer, (cause,), unreachable),
        call_ensures(watch_failed_answer, (cause,), unwatched),
        call_ensures(tool_reply, (id, result), reply),
    ensures
        says(r@, message@, failure),
        says(unreachable@, "engine unreachable: "@ + cause@, true),
        says(unwatched@, "WatchChats failed: "@ + cause@, true),
        reply is Some <==> id is Some,
        reply is Some ==> answers(reply->0@, id->0@, "result"@, result@),
{
}

/// A call of a known tool is planned with its own arguments; a message needs a target and
/// words; any other tool is unknown.
pub proof fn a_call_is_planned_by_its_name(
    params: &Json,
    name: String,
    args: Option<&Json>,
    target: String,
    message: String,
    r: ToolPlan,
)
    requires
        call_ensures(plan_tool_call, (params,), r),
        call_ensures(Json::text_member, (params, "name"), name),
        call_ensures(Json::get, (params, "arguments"), args),
        args matches Some(a) ==> call_ensures(Json::text_member, (a, "target_chat_id"), target)
            && call_ensures(Json::text_member, (a, "message"), message),
        args is None ==> target@.len() == 0 && message@.len() == 0,
    ensures
        r is ListSessions <==> name@ == "list_sessions"@,
        r is Send <==> name@ == "send_to_session"@ && target@.len() > 0 && message@.len() > 0,
        r is Send ==> r->target@ == target@ && r->message@ == message@,
        name@ == "send_to_session"@ && !(r is Send) ==> r is Answer && says(
            r->Answer_0@,
            "target_chat_id and message are required"@,
            true,
        ),
        name@ != "send_to_session"@ && name@ != "list_sessions"@ ==> r is Answer && says(
            r->Answer_0@,
            "unknown tool "@ + name@,
            true,
        ),
{
    reveal_strlit("list_sessions");
    reveal_strlit("send_to_session");
    assert("list_sessions"@.len() != "send_to_session"@.len());
    if args is Some {
        assert(crate::json::member(params@, "arguments"@) == Some(args->0@));
    }
}

/// What is listed of a chat: its id, title, directory and agent, and nothing where there
/// is none of that.
pub open spec fn is_line_of(line: JsonView, chat: JsonView) -> bool {
    &&& line is Object && line->Object_0.len() == 4
    &&& line->Object_0[0] == ("chat_id"@, crate::json::member_or_null(chat, "id"@))
    &&& line->Object_0[1] == ("title"@, crate::json::member_or_null(chat, "title"@))
    &&& line->Object_0[2] == ("cwd"@, crate::json::member_or_null(chat, "cwd"@))
    &&& line->Object_0[3] == (
        "harness"@,
        crate::json::member_or_null(crate::json::member_or_null(chat, "config"@), "harness"@),
    )
}

/// The chats are listed one by one, in order: one more chat is one more line exactly where
/// it is not archived and not the session that asks.
pub proof fn every_other_session_is_listed(
    snapshot: &Json,
    more: &Json,
    chat: &Json,
    own_id: &str,
    archived: Option<&Json>,
    id: Option<&Json>,
    r: Json,
    more_r: Json,
)
    requires
        snapshot@ is Array && more@ is Array,
        more@->Array_0 == snapshot@->Array_0.push(chat@),
        call_ensures(other_sessions, (snapshot, own_id), r),
        call_ensures(other_sessions, (more, own_id), more_r),
        call_ensures(Json::get, (chat, "archived"), archived),
        call_ensures(Json::get, (chat, "id"), id),
    ensures
        r@ is Array && more_r@ is Array,
        snapshot@->Array_0.len() == 0 ==> r@->Array_0.len() == 0,
        ({
            let hidden = (archived is Some && archived->0@ == JsonView::Bool(true)) || (id is Some
                && id->0@ == JsonView::Text(own_id@));
            &&& hidden ==> more_r@->Array_0 == r@->Array_0
            &&& !hidden ==> more_r@->Array_0.len() == r@->Array_0.len() + 1
                && more_r@->Array_0.drop_last() == r@->Array_0 && is_line_of(
                more_r@->Array_0.last(),
                chat@,
            )
        }),
{
    assert(more@->Array_0.drop_last() =~= snapshot@->Array_0);
    let before = crate::mcp::listed_sessions(snapshot@->Array_0, own_id@);
    let entry = crate::mcp::session_entry(chat@);
    assert(before.push(entry).drop_last() =~= before);
}

/// What is no list lists nobody, and without a snapshot there is a failure to tell of.
pub proof fn no_snapshot_lists_nobody(snapshot: &Json, own_id: &str, r: Json, none: Json)
    requires
        call_ensures(other_sessions, (snapshot, own_id), r),
        call_ensures(sessions_answer, (&None, own_id), none),
    ensures
        !(snapshot@ is Array) ==> r@ == JsonView::Array(Seq::empty()),
        says(none@, "WatchChats returned no snapshot"@, true),
{
}

/// The sessions are answered with what is listed of them, as indented text; where that
/// cannot be written they are none.
pub proof fn the_sessions_are_told_as_text(
    snapshot: Json,
    own_id: &str,
    listed: Json,
    r: Json,
)
    requires
        call_ensures(other_sessions, (&snapshot, own_id), listed),
        call_ensures(sessions_answer, (&Some(snapshot), own_id), r),
    ensures
        pretty_json(listed@) matches Some(text) ==> says(r@, text, false),
        pretty_json(listed@) is None ==> says(r@, "[]"@, false),
{
}

/// A send names its sender, its target and its words, and is answered with the command
/// that it became.
pub proof fn a_send_says_what_it_became(
    own_id: &str,
    target: &str,
    message: &str,
    request: Json,
    outcome: Result<Json, String>,
    command: Option<&Json>,
    r: Json,
)
    requires
        call_ensures(send_request, (own_id, target, message), request),
        call_ensures(send_answer, (target, &outcome), r),
        outcome matches Ok(reply) ==> call_ensures(Json::get, (&reply, "commandId"), command),
    ensures
        request@ is Object && request@->Object_0 == seq![
            ("fromChatId"@, JsonView::Text(own_id@)),
            ("targetChatId"@, JsonView::Text(target@)),
            ("message"@, JsonView::Text(message@)),
        ],
        outcome is Ok && command is Some && command->0@ is Text ==> says(
            r@,
            "delivered to "@ + target@ + " (command "@ + command->0@->Text_0 + ")"@,
            false,
        ),
        outcome is Ok && !(command is Some && command->0@ is Text) ==> says(
            r@,
            "delivered to "@ + target@ + " (command "@ + "?"@ + ")"@,
            false,
        ),
        outcome is Err ==> says(r@, "send failed: "@ + outcome->Err_0@, true),
{
    if outcome is Ok {
        assert(command is Some ==> crate::json::member(outcome->Ok_0@, "commandId"@) == Some(
            command->0@,
        ));
    }
}

/// A line is read without the white space round it; a blank one, or one that is no JSON, is
/// passed over, and any other is dealt with as the request that it holds.
pub proof fn a_line_is_the_request_it_holds(
    line: &str,
    version: &str,
    r: BridgeStep,
    text: String,
    bytes: &[u8],
    parsed: Option<Json>,
    method: Option<&Json>,
    id: Option<&Json>,
    step: BridgeStep,
)
    requires
        call_ensures(bridge_line, (line, version), r),
        call_ensures(trim, (line,), text),
        bytes@ == encode_utf8(text@),
        call_ensures(Json::parse, (bytes,), parsed),
        parsed matches Some(req) ==> call_ensures(bridge_request, (&req, version), step),
    ensures
        text@.len() == 0 || parsed is None ==> r is Ignore,
        text@.len() > 0 && parsed is Some ==> {
            &&& r is Ignore == step is Ignore
            &&& r is Call == step is Call
            &&& r is Reply == step is Reply
            &&& r is Reply ==> r->Reply_0@ == step->Reply_0@
            &&& r is Call ==> r->Call_0.params@ == step->Call_0.params@
            &&& r is Call ==> (r->Call_0.id is Some) == (step->Call_0.id is Some)
            &&& r is Call && r->Call_0.id is Some ==> r->Call_0.id->0@ == step->Call_0.id->0@
        },
{
}

} // verus!
