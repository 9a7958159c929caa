//! The shapes of messages.

use zeron_core::auth::types::{AuthState, AuthUser};
use zeron_core::edge_errors::{
    edge_response_error_message, edge_response_outcome_unknown, truncate_chars,
    workspace_error_message,
};
use zeron_core::json::Json;
use zeron_core::mcp::{
    bridge_line, other_sessions, plan_tool_call, send_answer, send_request, sessions_answer,
    stdio_server_map, tool_reply, tool_specs, tool_text, unreachable_answer, watch_failed_answer,
    BridgeStep, McpServerConfig, ToolPlan,
};
use zeron_core::proto::profile::{
    EngineInfo, EngineInfoError, EngineInfoWire, ProfileIdentity, ProfileScope,
};
use zeron_core::proto::workspace;
use zeron_core::rows::{Device, RawDevice, RawSession, RawSpace, Session, Space};

/// A message as a value that can be compared.
fn value(json: &Json) -> serde_json::Value {
    serde_json::from_str(&json.to_text()).expect("written JSON parses")
}

fn expected(text: &str) -> serde_json::Value {
    serde_json::from_str(text).expect("expected JSON parses")
}

fn json(text: &str) -> Json {
    Json::parse(text.as_bytes()).expect("JSON parses")
}

#[test]
fn profile_scope_uses_wire_safe_names() {
    for (scope, encoded) in [
        (ProfileScope::Local, "\"local\""),
        (ProfileScope::Synced, "\"synced\""),
        (ProfileScope::Development, "\"development\""),
    ] {
        assert_eq!(Json::Text(scope.wire_name().into()).to_text(), encoded);
        let name = json(encoded);
        assert_eq!(ProfileScope::named(name.as_text().expect("text")), Some(scope));
    }
    assert_eq!(ProfileScope::named("Local"), None);
}

#[test]
fn profile_engine_info_uses_camel_case_fields() {
    let info = EngineInfo {
        device_id: "device-1".into(),
        profile_scope: ProfileScope::Local,
        profile: None,
    };
    assert_eq!(
        value(&info.to_json()),
        expected(r#"{"deviceId":"device-1","profileScope":"local"}"#)
    );
}

#[test]
fn profile_engine_info_profile_is_backward_compatible_and_camel_case() {
    let legacy_without_profile = EngineInfoWire {
        device_id: "device-1".into(),
        profile_scope: Some(ProfileScope::Synced),
        workspace_scope: None,
        profile: None,
    };
    assert_eq!(
        EngineInfo::from_wire(legacy_without_profile).expect("legacy").profile,
        None
    );

    let identity = || ProfileIdentity {
        user_id: "user-1".into(),
        organization_id: "org-1".into(),
    };
    let previous_version = EngineInfoWire {
        device_id: "device-1".into(),
        profile_scope: None,
        workspace_scope: Some(ProfileScope::Synced),
        profile: Some(identity()),
    };
    assert_eq!(
        EngineInfo::from_wire(previous_version).expect("previous version"),
        EngineInfo {
            device_id: "device-1".into(),
            profile_scope: ProfileScope::Synced,
            profile: Some(identity()),
        }
    );

    let info = EngineInfo {
        device_id: "device-1".into(),
        profile_scope: ProfileScope::Synced,
        profile: Some(identity()),
    };
    assert_eq!(
        value(&info.to_json()),
        expected(
            r#"{"deviceId":"device-1","profileScope":"synced","profile":{"userId":"user-1","organizationId":"org-1"}}"#
        )
    );
}

#[test]
fn an_engine_info_message_names_exactly_one_scope() {
    let wire = |profile_scope, workspace_scope| EngineInfoWire {
        device_id: "d".into(),
        profile_scope,
        workspace_scope,
        profile: None,
    };
    let failure = EngineInfo::from_wire(wire(None, None)).expect_err("no scope");
    assert_eq!(failure, EngineInfoError::MissingProfileScope);
    assert_eq!(failure.message(), "missing field `profileScope`");
    let failure =
        EngineInfo::from_wire(wire(Some(ProfileScope::Local), Some(ProfileScope::Synced)))
            .expect_err("two scopes");
    assert_eq!(failure.message(), "profileScope and workspaceScope disagree");
    assert!(EngineInfo::from_wire(wire(Some(ProfileScope::Local), Some(ProfileScope::Local)))
        .is_ok());
}

#[test]
fn workspace_scope_uses_wire_safe_names() {
    for (scope, encoded) in [
        (workspace::WorkspaceScope::Local, "\"local\""),
        (workspace::WorkspaceScope::Synced, "\"synced\""),
        (workspace::WorkspaceScope::Development, "\"development\""),
    ] {
        assert_eq!(Json::Text(scope.wire_name().into()).to_text(), encoded);
        let name = json(encoded);
        assert_eq!(
            workspace::WorkspaceScope::named(name.as_text().expect("text")),
            Some(scope)
        );
    }
}

#[test]
fn workspace_engine_info_uses_camel_case_fields() {
    let info = workspace::EngineInfo {
        device_id: "device-1".into(),
        workspace_scope: workspace::WorkspaceScope::Local,
        profile: None,
    };
    assert_eq!(
        value(&info.to_json()),
        expected(r#"{"deviceId":"device-1","workspaceScope":"local"}"#)
    );
}

#[test]
fn workspace_engine_info_profile_is_backward_compatible_and_camel_case() {
    let info = workspace::EngineInfo {
        device_id: "device-1".into(),
        workspace_scope: workspace::WorkspaceScope::Synced,
        profile: Some(workspace::EngineProfileIdentity {
            user_id: "user-1".into(),
            organization_id: "org-1".into(),
        }),
    };
    assert_eq!(
        value(&info.to_json()),
        expected(
            r#"{"deviceId":"device-1","workspaceScope":"synced","profile":{"userId":"user-1","organizationId":"org-1"}}"#
        )
    );
}

#[test]
fn auth_state_serializes_as_proto_shape() {
    let user = AuthUser {
        id: "u1".into(),
        email: "u@x".into(),
        name: None,
    };
    let signed_in = AuthState::SignedIn {
        user: user.clone(),
        org_id: Some("org_1".into()),
    };
    assert_eq!(
        value(&signed_in.to_proto().to_json()),
        expected(
            r#"{"state":"signedIn","user":{"id":"u1","email":"u@x","name":null},"orgId":"org_1"}"#
        )
    );
    assert_eq!(
        value(&AuthState::SignedOut.to_proto().to_json()),
        expected(r#"{"state":"signedOut"}"#)
    );
    assert_eq!(
        value(&AuthState::NeedsOrganization { user }.to_proto().to_json()),
        expected(
            r#"{"state":"needsOrganization","user":{"id":"u1","email":"u@x","name":null}}"#
        )
    );
}

#[test]
fn stdio_config_keeps_argv_and_env_as_literal_json_data() {
    let map = stdio_server_map(&vec![McpServerConfig {
        name: "zeron".into(),
        command: "/opt/zeron bin/comet".into(),
        args: vec!["mcp-bridge".into(), "--literal=$HOME".into()],
        env: vec![
            ("ZERON_CHAT_ID".into(), "chat-\"a\"".into()),
            ("EMPTY".into(), String::new()),
        ],
    }]);
    assert_eq!(
        value(&map),
        expected(
            r#"{"zeron":{"command":"/opt/zeron bin/comet","args":["mcp-bridge","--literal=$HOME"],"env":{"ZERON_CHAT_ID":"chat-\"a\"","EMPTY":""}}}"#
        )
    );
}

#[test]
fn json_is_read_and_written_back() {
    let text = r#"{"a":[1,2.5,-3,null,true,"x\n"],"b":{"c":"d"}}"#;
    let parsed = json(text);
    assert_eq!(parsed.to_text(), text);
    assert_eq!(parsed.copy().to_text(), text);
    assert_eq!(parsed.get("b").expect("b").text_member("c"), "d");
    assert_eq!(parsed.get("missing").is_none(), true);
    assert!(Json::parse(b"{").is_none());
    assert!(Json::parse(b"1 2").is_none());
}

#[test]
fn error_fragments_are_joined_once_each() {
    let body = br#"{"error":"bad","message":"bad","details":{"reason":"worse"}}"#;
    assert_eq!(
        edge_response_error_message("refresh failed", 400, body),
        "refresh failed (400): bad; worse"
    );
    assert_eq!(
        workspace_error_message(502, b"plain text"),
        "workspace request failed (502): plain text"
    );
    assert_eq!(workspace_error_message(500, b""), "workspace request failed (500)");
    assert!(edge_response_outcome_unknown(br#"{"outcomeUnknown":true}"#));
    assert!(!edge_response_outcome_unknown(br#"{"outcomeUnknown":"true"}"#));
    assert!(!edge_response_outcome_unknown(b"nonsense"));
    assert_eq!(truncate_chars("abcdef", 4), "abcd…");
    assert_eq!(truncate_chars("abcd", 4), "abcd");
}

#[test]
fn the_bridge_answers_its_client() {
    match bridge_line(r#"{"jsonrpc":"2.0","id":1,"method":"initialize","params":{}}"#, "1.2.3") {
        BridgeStep::Reply(reply) => {
            let reply = value(&reply);
            assert_eq!(reply["id"], 1);
            assert_eq!(reply["result"]["protocolVersion"], "2025-06-18");
            assert_eq!(reply["result"]["serverInfo"]["version"], "1.2.3");
        }
        _ => panic!("initialize is answered"),
    }
    match bridge_line(r#"{"jsonrpc":"2.0","id":7,"method":"nope"}"#, "1") {
        BridgeStep::Reply(reply) => assert_eq!(value(&reply)["error"]["code"], -32601),
        _ => panic!("an unknown method is refused"),
    }
    assert!(matches!(
        bridge_line(r#"{"jsonrpc":"2.0","method":"notifications/initialized"}"#, "1"),
        BridgeStep::Ignore
    ));
    assert!(matches!(bridge_line("not json", "1"), BridgeStep::Ignore));
    let tools = value(&tool_specs());
    let names: Vec<&str> = tools
        .as_array()
        .expect("tools")
        .iter()
        .map(|tool| tool["name"].as_str().expect("name"))
        .collect();
    assert_eq!(names, ["list_sessions", "send_to_session"]);
}

#[test]
fn a_tool_call_is_planned_by_its_name() {
    assert!(matches!(
        plan_tool_call(&json(r#"{"name":"list_sessions","arguments":{}}"#)),
        ToolPlan::ListSessions
    ));
    match plan_tool_call(&json(
        r#"{"name":"send_to_session","arguments":{"target_chat_id":"c2","message":"hi"}}"#,
    )) {
        ToolPlan::Send { target, message } => {
            assert_eq!(target, "c2");
            assert_eq!(message, "hi");
        }
        _ => panic!("a send is planned"),
    }
    for (params, message) in [
        (r#"{"name":"other"}"#, "unknown tool other"),
        (
            r#"{"name":"send_to_session","arguments":{"message":"hi"}}"#,
            "target_chat_id and message are required",
        ),
    ] {
        match plan_tool_call(&json(params)) {
            ToolPlan::Answer(result) => {
                let result = value(&result);
                assert_eq!(result["isError"], true);
                assert_eq!(result["content"][0]["text"], message);
            }
            _ => panic!("a bad call is answered"),
        }
    }
}

#[test]
fn a_session_is_not_offered_to_itself() {
    let snapshot = json(
        r#"[{"id":"own","title":"Mine"},{"id":"old","archived":true},{"id":"c2","title":"Other","cwd":"/w","config":{"harness":"codex"}}]"#,
    );
    assert_eq!(
        value(&other_sessions(&snapshot, "own")),
        expected(r#"[{"chat_id":"c2","title":"Other","cwd":"/w","harness":"codex"}]"#)
    );
    let answer = value(&sessions_answer(&Some(snapshot), "own"));
    assert_eq!(
        answer["content"][0]["text"],
        "[\n  {\n    \"chat_id\": \"c2\",\n    \"cwd\": \"/w\",\n    \"harness\": \"codex\",\n    \"title\": \"Other\"\n  }\n]"
    );
    assert_eq!(
        value(&sessions_answer(&None, "own"))["content"][0]["text"],
        "WatchChats returned no snapshot"
    );
}

#[test]
fn tool_answers_have_their_shape() {
    let answer = value(&tool_text("done", false));
    assert_eq!(answer["content"][0]["text"], "done");
    assert_eq!(answer["content"][0]["type"], "text");
    let reply = tool_reply(Some(json("5")), tool_text("x", true)).expect("reply");
    assert_eq!(value(&reply)["id"], 5);
    assert!(tool_reply(None, tool_text("x", true)).is_none());
    let first_text = |json: &Json| value(json)["content"][0]["text"].as_str().map(str::to_owned);
    assert_eq!(
        first_text(&unreachable_answer("refused")).as_deref(),
        Some("engine unreachable: refused")
    );
    assert_eq!(
        first_text(&watch_failed_answer("gone")).as_deref(),
        Some("WatchChats failed: gone")
    );
    assert_eq!(
        value(&send_request("own", "c2", "hi")),
        expected(r#"{"fromChatId":"own","targetChatId":"c2","message":"hi"}"#)
    );
    assert_eq!(
        first_text(&send_answer("c2", &Ok(json(r#"{"commandId":"k1"}"#)))).as_deref(),
        Some("delivered to c2 (command k1)")
    );
    assert_eq!(
        first_text(&send_answer("c2", &Ok(json("{}")))).as_deref(),
        Some("delivered to c2 (command ?)")
    );
    assert_eq!(
        first_text(&send_answer("c2", &Err("no".into()))).as_deref(),
        Some("send failed: no")
    );
}

#[test]
fn rows_become_entities_with_their_times() {
    let device = Device::from(RawDevice {
        id: "d".into(),
        name: "n".into(),
        platform: "p".into(),
        last_seen_at: Some(8210266876799999),
        created_at: Some(8210266876800000),
        version: None,
    });
    assert_eq!(device.last_seen_at, Some(8210266876799999));
    assert_eq!(device.created_at, Some(0), "a time that no calendar holds is the epoch");
    let space = Space::from(RawSpace {
        id: "s".into(),
        device_id: "d".into(),
        path: "/p".into(),
        name: None,
        git_detected: true,
        git_checked_at: None,
        checkout_id: None,
        created_at: i64::MAX,
    });
    assert_eq!(space.created_at, 0);
    let session = Session::from(RawSession {
        chat_id: "c".into(),
        device_id: "d".into(),
        status: "idle".into(),
        started_at: Some(-8334601228800001),
        updated_at: 5,
    });
    assert_eq!(session.started_at, Some(0));
    assert_eq!(session.updated_at, 5);
}
