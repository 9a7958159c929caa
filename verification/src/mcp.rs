//! Tool servers for agents: the configuration of native drivers, and the bridge that
//! lets one session see and message the others.

use vstd::prelude::*;

use crate::json::{
    add_item, add_member, bool_of, integer, integer_text, json_views, json_views_index, member,
    member_or_null, member_views, option_json, parse_json, parsed_json, pretty_json, set_member,
    text_of, text_or_empty, with_member, write_pretty, Json, JsonView,
};
use crate::text::{join2, join5, text_eq, trim, trimmed};

verus! {

/// A tool server that an agent starts and talks to over its standard streams.
#[derive(Debug, Clone)]
pub struct McpServerConfig {
    pub name: String,
    pub command: String,
    pub args: Vec<String>,
    pub env: Vec<(String, String)>,
}

/// A list of texts as a JSON array.
pub open spec fn text_array(items: Seq<String>) -> JsonView {
    JsonView::Array(items.map_values(|t: String| JsonView::Text(t@)))
}

/// Environment variables as members: of a repeated name the last value counts.
pub open spec fn env_members(env: Seq<(String, String)>) -> Seq<(Seq<char>, JsonView)>
    decreases env.len(),
{
    if env.len() == 0 {
        Seq::empty()
    } else {
        with_member(
            env_members(env.drop_last()),
            env.last().0@,
            JsonView::Text(env.last().1@),
        )
    }
}

/// One server as drivers take it.
pub open spec fn server_json(server: McpServerConfig) -> JsonView {
    JsonView::Object(
        seq![
            ("command"@, JsonView::Text(server.command@)),
            ("args"@, text_array(server.args@)),
            ("env"@, JsonView::Object(env_members(server.env@))),
        ],
    )
}

/// Servers as members by name: of a repeated name the last server counts.
pub open spec fn server_members(servers: Seq<McpServerConfig>) -> Seq<(Seq<char>, JsonView)>
    decreases servers.len(),
{
    if servers.len() == 0 {
        Seq::empty()
    } else {
        with_member(
            server_members(servers.drop_last()),
            servers.last().name@,
            server_json(servers.last()),
        )
    }
}

fn array_of_texts(list: &Vec<String>) -> (r: Json)
    ensures
        r@ == text_array(list@),
{
    let mut items: Vec<Json> = Vec::new();
    let mut i: usize = 0;
    while i < list.len()
        invariant
            i <= list@.len(),
            json_views(items@) == list@.take(i as int).map_values(
                |t: String| JsonView::Text(t@),
            ),
        decreases list@.len() - i,
    {
        add_item(&mut items, Json::Text(list[i].clone()));
        assert(list@.take(i + 1).map_values(|t: String| JsonView::Text(t@)) =~= list@.take(
            i as int,
        ).map_values(|t: String| JsonView::Text(t@)).push(JsonView::Text(list@[i as int]@)));
        i = i + 1;
    }
    assert(list@.take(i as int) =~= list@);
    Json::Array(items)
}

fn env_object(env: &Vec<(String, String)>) -> (r: Json)
    ensures
        r@ == JsonView::Object(env_members(env@)),
{
    let mut members: Vec<(String, Json)> = Vec::new();
    let mut i: usize = 0;
    while i < env.len()
        invariant
            i <= env@.len(),
            member_views(members@) == env_members(env@.take(i as int)),
        decreases env@.len() - i,
    {
        assert(env@.take(i + 1).drop_last() =~= env@.take(i as int));
        set_member(&mut members, env[i].0.clone(), Json::Text(env[i].1.clone()));
        i = i + 1;
    }
    assert(env@.take(i as int) =~= env@);
    Json::Object(members)
}

/// Turns the servers that the host provides into the object by name that native
/// drivers take. Arguments and variables stay JSON data, never shell text. Of a
/// repeated name the last server counts.
pub fn stdio_server_map(servers: &Vec<McpServerConfig>) -> (r: Json)
    ensures
        r@ == JsonView::Object(server_members(servers@)),
{
    let mut result: Vec<(String, Json)> = Vec::new();
    let mut i: usize = 0;
    while i < servers.len()
        invariant
            i <= servers@.len(),
            member_views(result@) == server_members(servers@.take(i as int)),
        decreases servers@.len() - i,
    {
        let mut members: Vec<(String, Json)> = Vec::new();
        add_member(&mut members, "command", Json::Text(servers[i].command.clone()));
        add_member(&mut members, "args", array_of_texts(&servers[i].args));
        add_member(&mut members, "env", env_object(&servers[i].env));
        let server = Json::Object(members);
        assert(member_views(members@) =~= server_json(servers@[i as int])->Object_0);
        assert(servers@.take(i + 1).drop_last() =~= servers@.take(i as int));
        set_member(&mut result, servers[i].name.clone(), server);
        i = i + 1;
    }
    assert(servers@.take(i as int) =~= servers@);
    Json::Object(result)
}

// ---------------------------------------------------------------------------
// The bridge
// ---------------------------------------------------------------------------

/// A tool call that came in: the id to answer under, where there is one, and its
/// parameters.
pub struct ToolCall {
    pub id: Option<Json>,
    pub params: Json,
}

/// What the bridge does about a line it read.
pub enum BridgeStep {
    /// Nothing.
    Ignore,
    /// Write this message.
    Reply(Json),
    /// Run the tool; write its answer where the call has an id.
    Call(ToolCall),
}

/// The version of the protocol that is spoken where the client names none.
pub const DEFAULT_PROTOCOL: &'static str = "2025-06-18";

/// A reply to a request.
pub open spec fn reply_json(id: JsonView, result: JsonView) -> JsonView {
    JsonView::Object(
        seq![("jsonrpc"@, JsonView::Text("2.0"@)), ("id"@, id), ("result"@, result)],
    )
}

/// The reply to a request of an unknown method.
pub open spec fn unknown_method_json(id: JsonView, method: Seq<char>) -> JsonView {
    JsonView::Object(
        seq![
            ("jsonrpc"@, JsonView::Text("2.0"@)),
            ("id"@, id),
            (
                "error"@,
                JsonView::Object(
                    seq![
                        ("code"@, JsonView::Number(integer_text(-32601))),
                        ("message"@, JsonView::Text("unknown method "@ + method)),
                    ],
                ),
            ),
        ],
    )
}

/// The answer to `initialize`.
pub open spec fn initialize_json(params: JsonView, version: Seq<char>) -> JsonView {
    JsonView::Object(
        seq![
            (
                "protocolVersion"@,
                JsonView::Text(
                    match text_of(member_or_null(params, "protocolVersion"@)) {
                        Some(asked) => asked,
                        None => DEFAULT_PROTOCOL@,
                    },
                ),
            ),
            (
                "capabilities"@,
                JsonView::Object(seq![("tools"@, JsonView::Object(Seq::empty()))]),
            ),
            (
                "serverInfo"@,
                JsonView::Object(
                    seq![
                        ("name"@, JsonView::Text("zeron"@)),
                        ("version"@, JsonView::Text(version)),
                    ],
                ),
            ),
        ],
    )
}

pub open spec fn text_property(description: Seq<char>) -> JsonView {
    JsonView::Object(
        seq![
            ("type"@, JsonView::Text("string"@)),
            ("description"@, JsonView::Text(description)),
        ],
    )
}

pub open spec fn list_sessions_about() -> Seq<char> {
    "List the other agent sessions in this workspace (id, title, working directory, harness). Use it to find a session to message."@
}

pub open spec fn send_to_session_about() -> Seq<char> {
    "Send a one-way message to another agent session. It arrives as that session's next user turn, attributed to this session. No reply channel — ask the user to check the target session, or have the target message you back."@
}

/// The tools that the bridge offers.
pub open spec fn tool_specs_json() -> JsonView {
    JsonView::Array(
        seq![
            JsonView::Object(
                seq![
                    ("name"@, JsonView::Text("list_sessions"@)),
                    ("description"@, JsonView::Text(list_sessions_about())),
                    (
                        "inputSchema"@,
                        JsonView::Object(
                            seq![
                                ("type"@, JsonView::Text("object"@)),
                                ("properties"@, JsonView::Object(Seq::empty())),
                                ("additionalProperties"@, JsonView::Bool(false)),
                            ],
                        ),
                    ),
                ],
            ),
            JsonView::Object(
                seq![
                    ("name"@, JsonView::Text("send_to_session"@)),
                    ("description"@, JsonView::Text(send_to_session_about())),
                    (
                        "inputSchema"@,
                        JsonView::Object(
                            seq![
                                ("type"@, JsonView::Text("object"@)),
                                (
                                    "properties"@,
                                    JsonView::Object(
                                        seq![
                                            (
                                                "target_chat_id"@,
                                                text_property(
                                                    "The target session's chat id (from list_sessions)."@,
                                                ),
                                            ),
                                            (
                                                "message"@,
                                                text_property("The message to deliver."@),
                                            ),
                                        ],
                                    ),
                                ),
                                (
                                    "required"@,
                                    JsonView::Array(
                                        seq![
                                            JsonView::Text("target_chat_id"@),
                                            JsonView::Text("message"@),
                                        ],
                                    ),
                                ),
                                ("additionalProperties"@, JsonView::Bool(false)),
                            ],
                        ),
                    ),
                ],
            ),
        ],
    )
}

fn text(t: &str) -> (r: Json)
    ensures
        r@ == JsonView::Text(t@),
{
    Json::Text(t.to_owned())
}

fn empty_object() -> (r: Json)
    ensures
        r@ == JsonView::Object(Seq::empty()),
{
    Json::Object(Vec::new())
}

fn object1(k1: &str, v1: Json) -> (r: Json)
    ensures
        r@ == JsonView::Object(seq![(k1@, v1@)]),
{
    let mut m: Vec<(String, Json)> = Vec::new();
    add_member(&mut m, k1, v1);
    assert(member_views(m@) =~= seq![(k1@, v1@)]);
    Json::Object(m)
}

fn object2(k1: &str, v1: Json, k2: &str, v2: Json) -> (r: Json)
    ensures
        r@ == JsonView::Object(seq![(k1@, v1@), (k2@, v2@)]),
{
    let mut m: Vec<(String, Json)> = Vec::new();
    add_member(&mut m, k1, v1);
    add_member(&mut m, k2, v2);
    assert(member_views(m@) =~= seq![(k1@, v1@), (k2@, v2@)]);
    Json::Object(m)
}

fn object3(k1: &str, v1: Json, k2: &str, v2: Json, k3: &str, v3: Json) -> (r: Json)
    ensures
        r@ == JsonView::Object(seq![(k1@, v1@), (k2@, v2@), (k3@, v3@)]),
{
    let mut m: Vec<(String, Json)> = Vec::new();
    add_member(&mut m, k1, v1);
    add_member(&mut m, k2, v2);
    add_member(&mut m, k3, v3);
    assert(member_views(m@) =~= seq![(k1@, v1@), (k2@, v2@), (k3@, v3@)]);
    Json::Object(m)
}

fn object4(
    k1: &str,
    v1: Json,
    k2: &str,
    v2: Json,
    k3: &str,
    v3: Json,
    k4: &str,
    v4: Json,
) -> (r: Json)
    ensures
        r@ == JsonView::Object(seq![(k1@, v1@), (k2@, v2@), (k3@, v3@), (k4@, v4@)]),
{
    let mut m: Vec<(String, Json)> = Vec::new();
    add_member(&mut m, k1, v1);
    add_member(&mut m, k2, v2);
    add_member(&mut m, k3, v3);
    add_member(&mut m, k4, v4);
    assert(member_views(m@) =~= seq![(k1@, v1@), (k2@, v2@), (k3@, v3@), (k4@, v4@)]);
    Json::Object(m)
}

fn array1(v1: Json) -> (r: Json)
    ensures
        r@ == JsonView::Array(seq![v1@]),
{
    let mut items: Vec<Json> = Vec::new();
    add_item(&mut items, v1);
    assert(json_views(items@) =~= seq![v1@]);
    Json::Array(items)
}

fn array2(v1: Json, v2: Json) -> (r: Json)
    ensures
        r@ == JsonView::Array(seq![v1@, v2@]),
{
    let mut items: Vec<Json> = Vec::new();
    add_item(&mut items, v1);
    add_item(&mut items, v2);
    assert(json_views(items@) =~= seq![v1@, v2@]);
    Json::Array(items)
}

/// The tools that the bridge offers.
pub fn tool_specs() -> (r: Json)
    ensures
        r@ == tool_specs_json(),
{
    let list_schema = object3(
        "type",
        text("object"),
        "properties",
        empty_object(),
        "additionalProperties",
        Json::Bool(false),
    );
    let list = object3(
        "name",
        text("list_sessions"),
        "description",
        text(
            "List the other agent sessions in this workspace (id, title, working directory, harness). Use it to find a session to message.",
        ),
        "inputSchema",
        list_schema,
    );
    let target = object2(
        "type",
        text("string"),
        "description",
        text("The target session's chat id (from list_sessions)."),
    );
    let message = object2(
        "type",
        text("string"),
        "description",
        text("The message to deliver."),
    );
    let properties = object2("target_chat_id", target, "message", message);
    let send_schema = object4(
        "type",
        text("object"),
        "properties",
        properties,
        "required",
        array2(text("target_chat_id"), text("message")),
        "additionalProperties",
        Json::Bool(false),
    );
    let send = object3(
        "name",
        text("send_to_session"),
        "description",
        text(
            "Send a one-way message to another agent session. It arrives as that session's next user turn, attributed to this session. No reply channel — ask the user to check the target session, or have the target message you back.",
        ),
        "inputSchema",
        send_schema,
    );
    array2(list, send)
}

/// What a request of a known method is answered with, besides a tool call; nothing for
/// a notification or an unknown method.
pub open spec fn direct_result(req: JsonView, version: Seq<char>) -> Option<JsonView> {
    let method = text_or_empty(member(req, "method"@));
    if method == "initialize"@ {
        Some(initialize_json(member_or_null(req, "params"@), version))
    } else if method == "tools/list"@ {
        Some(JsonView::Object(seq![("tools"@, tool_specs_json())]))
    } else if method == "ping"@ {
        Some(JsonView::Object(Seq::empty()))
    } else {
        None
    }
}

pub open spec fn is_notification(method: Seq<char>) -> bool {
    method == "notifications/initialized"@ || method == "notifications/cancelled"@
}

/// What the bridge does about a request.
pub open spec fn bridge_does(req: JsonView, version: Seq<char>, step: BridgeStep) -> bool {
    let id = member(req, "id"@);
    let method = text_or_empty(member(req, "method"@));
    if method == "tools/call"@ {
        &&& step is Call
        &&& option_json(step->Call_0.id) == id
        &&& step->Call_0.params@ == member_or_null(req, "params"@)
    } else if id is None || is_notification(method) {
        step is Ignore
    } else {
        &&& step is Reply
        &&& step->Reply_0@ == (match direct_result(req, version) {
            Some(result) => reply_json(id->0, result),
            None => unknown_method_json(id->0, method),
        })
    }
}

fn member_copy(value: &Json, key: &str) -> (r: Json)
    ensures
        r@ == member_or_null(value@, key@),
{
    match value.get(key) {
        Some(v) => v.copy(),
        None => Json::Null,
    }
}

/// What the bridge does about a request: it answers `initialize`, `tools/list` and
/// `ping`, runs `tools/call`, refuses unknown methods, and says nothing to what has no
/// id.
pub fn bridge_request(req: &Json, version: &str) -> (r: BridgeStep)
    ensures
        bridge_does(req@, version@, r),
{
    let id = match req.get("id") {
        Some(v) => Some(v.copy()),
        None => None,
    };
    let method = req.text_member("method");
    if text_eq(method.as_str(), "tools/call") {
        return BridgeStep::Call(ToolCall { id, params: member_copy(req, "params") });
    }
    if text_eq(method.as_str(), "notifications/initialized") || text_eq(
        method.as_str(),
        "notifications/cancelled",
    ) {
        return BridgeStep::Ignore;
    }
    let id = match id {
        Some(id) => id,
        None => return BridgeStep::Ignore,
    };
    let result = if text_eq(method.as_str(), "initialize") {
        let params = member_copy(req, "params");
        let asked = match params.get("protocolVersion") {
            Some(Json::Text(t)) => t.clone(),
            _ => DEFAULT_PROTOCOL.to_owned(),
        };
        assert(asked@ == (match text_of(member_or_null(params@, "protocolVersion"@)) {
            Some(asked) => asked,
            None => DEFAULT_PROTOCOL@,
        }));
        let info = object2("name", text("zeron"), "version", text(version));
        let capabilities = object1("tools", empty_object());
        let answer = object3(
            "protocolVersion",
            text(asked.as_str()),
            "capabilities",
            capabilities,
            "serverInfo",
            info,
        );
        assert(answer@->Object_0 =~= initialize_json(params@, version@)->Object_0);
        answer
    } else if text_eq(method.as_str(), "tools/list") {
        object1("tools", tool_specs())
    } else if text_eq(method.as_str(), "ping") {
        empty_object()
    } else {
        let message = join2("unknown method ", method.as_str());
        let failure = object2(
            "code",
            Json::Number(integer(-32601)),
            "message",
            Json::Text(message),
        );
        return BridgeStep::Reply(
            object3("jsonrpc", text("2.0"), "id", id, "error", failure),
        );
    };
    assert(direct_result(req@, version@) == Some(result@));
    BridgeStep::Reply(object3("jsonrpc", text("2.0"), "id", id, "result", result))
}

/// What the bridge does about a line: nothing where it is blank or no JSON.
pub fn bridge_line(line: &str, version: &str) -> (r: BridgeStep)
    ensures
        ({
            let request = parsed_json(vstd::utf8::encode_utf8(trimmed(line@)));
            if trimmed(line@).len() == 0 || request is None {
                r is Ignore
            } else {
                bridge_does(request->0, version@, r)
            }
        }),
{
    let line = trim(line);
    if line.as_str().is_empty() {
        return BridgeStep::Ignore;
    }
    match parse_json(line.as_str().as_bytes()) {
        Some(req) => bridge_request(&req, version),
        None => BridgeStep::Ignore,
    }
}

/// The message to write for the answer of a tool call; none where the call has no id.
pub fn tool_reply(id: Option<Json>, result: Json) -> (r: Option<Json>)
    ensures
        option_json(r) == (match id {
            Some(id) => Some(reply_json(id@, result@)),
            None => None,
        }),
{
    match id {
        Some(id) => Some(object3("jsonrpc", text("2.0"), "id", id, "result", result)),
        None => None,
    }
}

/// The answer of a tool: one block of text, and whether it tells of a failure.
pub open spec fn tool_text_json(text: Seq<char>, is_error: bool) -> JsonView {
    JsonView::Object(
        seq![
            (
                "content"@,
                JsonView::Array(
                    seq![
                        JsonView::Object(
                            seq![
                                ("type"@, JsonView::Text("text"@)),
                                ("text"@, JsonView::Text(text)),
                            ],
                        ),
                    ],
                ),
            ),
            ("isError"@, JsonView::Bool(is_error)),
        ],
    )
}

pub fn tool_text(message: &str, is_error: bool) -> (r: Json)
    ensures
        r@ == tool_text_json(message@, is_error),
{
    let block = object2("type", text("text"), "text", text(message));
    object2("content", array1(block), "isError", Json::Bool(is_error))
}

/// What the caller does for a tool call, once it has reached the engine.
pub enum ToolPlan {
    /// Answer this.
    Answer(Json),
    /// Take the first snapshot of the chats, then call `sessions_answer`.
    ListSessions,
    /// Send the message, then call `send_answer`.
    Send { target: String, message: String },
}

/// What a tool call asks for. A message needs both a target and a text.
pub fn plan_tool_call(params: &Json) -> (r: ToolPlan)
    ensures
        ({
            let name = text_or_empty(member(params@, "name"@));
            let args = member_or_null(params@, "arguments"@);
            let target = text_or_empty(member(args, "target_chat_id"@));
            let message = text_or_empty(member(args, "message"@));
            if name == "list_sessions"@ {
                r is ListSessions
            } else if name == "send_to_session"@ {
                if target.len() == 0 || message.len() == 0 {
                    r is Answer && r->Answer_0@ == tool_text_json(
                        "target_chat_id and message are required"@,
                        true,
                    )
                } else {
                    r is Send && r->target@ == target && r->message@ == message
                }
            } else {
                r is Answer && r->Answer_0@ == tool_text_json("unknown tool "@ + name, true)
            }
        }),
{
    let name = params.text_member("name");
    if text_eq(name.as_str(), "list_sessions") {
        return ToolPlan::ListSessions;
    }
    if text_eq(name.as_str(), "send_to_session") {
        let args = member_copy(params, "arguments");
        let target = args.text_member("target_chat_id");
        let message = args.text_member("message");
        if target.as_str().is_empty() || message.as_str().is_empty() {
            return ToolPlan::Answer(tool_text("target_chat_id and message are required", true));
        }
        return ToolPlan::Send { target, message };
    }
    let answer = join2("unknown tool ", name.as_str());
    ToolPlan::Answer(tool_text(answer.as_str(), true))
}

/// The answer when the engine cannot be reached.
pub fn unreachable_answer(cause: &str) -> (r: Json)
    ensures
        r@ == tool_text_json("engine unreachable: "@ + cause@, true),
{
    let message = join2("engine unreachable: ", cause);
    tool_text(message.as_str(), true)
}

/// A chat is listed for another session: it is not archived, and not that session.
pub open spec fn is_listed(chat: JsonView, own_id: Seq<char>) -> bool {
    bool_of(member_or_null(chat, "archived"@)) != Some(true) && text_of(
        member_or_null(chat, "id"@),
    ) != Some(own_id)
}

/// What is listed of a chat.
pub open spec fn session_entry(chat: JsonView) -> JsonView {
    JsonView::Object(
        seq![
            ("chat_id"@, member_or_null(chat, "id"@)),
            ("title"@, member_or_null(chat, "title"@)),
            ("cwd"@, member_or_null(chat, "cwd"@)),
            ("harness"@, member_or_null(member_or_null(chat, "config"@), "harness"@)),
        ],
    )
}

/// The sessions listed of the chats.
pub open spec fn listed_sessions(chats: Seq<JsonView>, own_id: Seq<char>) -> Seq<JsonView>
    decreases chats.len(),
{
    if chats.len() == 0 {
        Seq::empty()
    } else {
        let rest = listed_sessions(chats.drop_last(), own_id);
        if is_listed(chats.last(), own_id) {
            rest.push(session_entry(chats.last()))
        } else {
            rest
        }
    }
}

/// The sessions listed of a snapshot: none where it is no list.
pub open spec fn snapshot_sessions(snapshot: JsonView, own_id: Seq<char>) -> Seq<JsonView> {
    match snapshot {
        JsonView::Array(chats) => listed_sessions(chats, own_id),
        _ => Seq::empty(),
    }
}

/// The other sessions in a snapshot of the chats, as a JSON list.
pub fn other_sessions(snapshot: &Json, own_id: &str) -> (r: Json)
    ensures
        r@ == JsonView::Array(snapshot_sessions(snapshot@, own_id@)),
{
    let mut sessions: Vec<Json> = Vec::new();
    if let Json::Array(chats) = snapshot {
        let mut i: usize = 0;
        proof {
            json_views_index(chats@);
        }
        while i < chats.len()
            invariant
                i <= chats@.len(),
                json_views(chats@).len() == chats@.len(),
                forall|j: int|
                    0 <= j < chats@.len() ==> #[trigger] json_views(chats@)[j] == chats@[j]@,
                json_views(sessions@) == listed_sessions(
                    json_views(chats@).take(i as int),
                    own_id@,
                ),
            decreases chats@.len() - i,
        {
            let ghost next = json_views(chats@).take(i + 1);
            assert(next.drop_last() =~= json_views(chats@).take(i as int));
            assert(next.last() == json_views(chats@)[i as int]);
            let chat = &chats[i];
            let archived = match chat.get("archived") {
                Some(Json::Bool(b)) => *b,
                _ => false,
            };
            let own = match chat.get("id") {
                Some(Json::Text(id)) => text_eq(id.as_str(), own_id),
                _ => false,
            };
            if !archived && !own {
                let config = member_copy(chat, "config");
                add_item(
                    &mut sessions,
                    object4(
                        "chat_id",
                        member_copy(chat, "id"),
                        "title",
                        member_copy(chat, "title"),
                        "cwd",
                        member_copy(chat, "cwd"),
                        "harness",
                        member_copy(&config, "harness"),
                    ),
                );
            }
            i = i + 1;
        }
        assert(json_views(chats@).take(i as int) =~= json_views(chats@));
    }
    Json::Array(sessions)
}

/// The answer to `list_sessions`: the other sessions as indented JSON.
pub fn sessions_answer(snapshot: &Option<Json>, own_id: &str) -> (r: Json)
    ensures
        match *snapshot {
            None => r@ == tool_text_json("WatchChats returned no snapshot"@, true),
            Some(snapshot) => r@ == tool_text_json(
                match pretty_json(JsonView::Array(snapshot_sessions(snapshot@, own_id@))) {
                    Some(text) => text,
                    None => "[]"@,
                },
                false,
            ),
        },
{
    match snapshot {
        None => tool_text("WatchChats returned no snapshot", true),
        Some(snapshot) => {
            let sessions = other_sessions(snapshot, own_id);
            match write_pretty(&sessions) {
                Some(text) => tool_text(text.as_str(), false),
                None => tool_text("[]", false),
            }
        },
    }
}

/// The answer when the chats cannot be watched.
pub fn watch_failed_answer(cause: &str) -> (r: Json)
    ensures
        r@ == tool_text_json("WatchChats failed: "@ + cause@, true),
{
    let message = join2("WatchChats failed: ", cause);
    tool_text(message.as_str(), true)
}

/// The request that sends a message to another session.
pub fn send_request(own_id: &str, target: &str, message: &str) -> (r: Json)
    ensures
        r@ == JsonView::Object(
            seq![
                ("fromChatId"@, JsonView::Text(own_id@)),
                ("targetChatId"@, JsonView::Text(target@)),
                ("message"@, JsonView::Text(message@)),
            ],
        ),
{
    object3(
        "fromChatId",
        text(own_id),
        "targetChatId",
        text(target),
        "message",
        text(message),
    )
}

/// The answer to `send_to_session`, from the engine's reply or its failure.
pub fn send_answer(target: &str, outcome: &Result<Json, String>) -> (r: Json)
    ensures
        match *outcome {
            Ok(reply) => r@ == tool_text_json(
                "delivered to "@ + target@ + " (command "@ + (match text_of(
                    member_or_null(reply@, "commandId"@),
                ) {
                    Some(id) => id,
                    None => "?"@,
                }) + ")"@,
                false,
            ),
            Err(cause) => r@ == tool_text_json("send failed: "@ + cause@, true),
        },
{
    match outcome {
        Ok(reply) => {
            let command = match reply.get("commandId") {
                Some(Json::Text(id)) => id.clone(),
                _ => "?".to_owned(),
            };
            let message = join5("delivered to ", target, " (command ", command.as_str(), ")");
            tool_text(message.as_str(), false)
        },
        Err(cause) => {
            let message = join2("send failed: ", cause.as_str());
            tool_text(message.as_str(), true)
        },
    }
}

/// An entry is that of a chat that is listed for the session.
pub open spec fn is_entry_of(chats: Seq<JsonView>, own_id: Seq<char>, entry: JsonView) -> bool {
    exists|j: int|
        0 <= j < chats.len() && entry == session_entry(#[trigger] chats[j]) && is_listed(
            chats[j],
            own_id,
        )
}

/// A session is never offered itself, nor an archived session, as one to message.
pub proof fn a_session_is_not_offered_itself(chats: Seq<JsonView>, own_id: Seq<char>)
    ensures
        forall|i: int|
            0 <= i < listed_sessions(chats, own_id).len() ==> is_entry_of(
                chats,
                own_id,
                #[trigger] listed_sessions(chats, own_id)[i],
            ),
    decreases chats.len(),
{
    if chats.len() > 0 {
        let init = chats.drop_last();
        a_session_is_not_offered_itself(init, own_id);
        let rest = listed_sessions(init, own_id);
        assert forall|i: int| 0 <= i < listed_sessions(chats, own_id).len() implies is_entry_of(
            chats,
            own_id,
            #[trigger] listed_sessions(chats, own_id)[i],
        ) by {
            let entry = listed_sessions(chats, own_id)[i];
            if i < rest.len() {
                assert(entry == rest[i]);
                assert(is_entry_of(init, own_id, rest[i]));
                let j = choose|j: int|
                    0 <= j < init.len() && entry == session_entry(#[trigger] init[j])
                        && is_listed(init[j], own_id);
                assert(chats[j] == init[j]);
            } else {
                assert(chats[chats.len() - 1] == chats.last());
            }
        }
    }
}

} // verus!
