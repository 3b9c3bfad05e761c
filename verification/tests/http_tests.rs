use gemini_co_cli::approval::ApprovalEvent;
use gemini_co_cli::http::{
    event_stream, mcp_handler, mcp_request, mcp_sse_handler, parse_method, requested_tool,
    sse_event_name, tool_call_parts, tool_call_response, JsonRpcRequest, JsonRpcResponse, McpStep,
    Method, RpcResult,
    INTERNAL_ERROR, INVALID_PARAMS, INVALID_REQUEST, METHOD_NOT_FOUND, SESSION_NOT_FOUND,
};
use gemini_co_cli::server::{CallToolResult, Content};
use gemini_co_cli::state::AppState;
use serde_json::Value;

fn request(method: &str, id: i64) -> JsonRpcRequest {
    JsonRpcRequest {
        jsonrpc: "2.0".to_string(),
        method: method.to_string(),
        params: None,
        id: Some(Value::from(id)),
    }
}

fn registry_with_session() -> (AppState<String>, String) {
    let mut state: AppState<String> = AppState::new();
    let id = state.create_session(None);
    (state, uuid::Uuid::from_u128(id).to_string())
}

fn expect_response(step: McpStep) -> JsonRpcResponse {
    match step {
        McpStep::Respond(response) => response,
        McpStep::CallTool { .. } => panic!("expected an answer"),
    }
}

#[test]
fn error_codes() {
    assert_eq!(INVALID_REQUEST, -32600);
    assert_eq!(METHOD_NOT_FOUND, -32601);
    assert_eq!(INVALID_PARAMS, -32602);
    assert_eq!(INTERNAL_ERROR, -32603);
    assert_eq!(SESSION_NOT_FOUND, -32001);
}

#[test]
fn bad_session_id_is_invalid_request() {
    let (state, _) = registry_with_session();
    let response = expect_response(mcp_handler("not-a-uuid", &state, request("initialize", 1)));
    assert_eq!(response.jsonrpc, "2.0");
    assert!(response.result.is_none());
    let error = response.error.unwrap();
    assert_eq!(error.code, -32600);
    assert_eq!(error.message, "Invalid session ID");
    assert!(error.data.is_none());
    assert_eq!(response.id, Some(Value::from(1)));
}

#[test]
fn unknown_session_is_not_found() {
    let (state, _) = registry_with_session();
    let response = expect_response(mcp_handler(
        "67e55044-10b1-426f-9247-bb680e5fe0c8",
        &state,
        request("tools/list", 2),
    ));
    let error = response.error.unwrap();
    assert_eq!(error.code, -32001);
    assert_eq!(error.message, "Session not found");
    assert_eq!(response.id, Some(Value::from(2)));
}

#[test]
fn session_id_is_read_in_other_spellings_too() {
    let mut state: AppState<String> = AppState::new();
    state.create_session_as(0x67e5504410b1426f9247bb680e5fe0c8, None);
    for spelling in [
        "67e55044-10b1-426f-9247-bb680e5fe0c8",
        "67e5504410b1426f9247bb680e5fe0c8",
        "67E55044-10B1-426F-9247-BB680E5FE0C8",
    ] {
        let response = expect_response(mcp_handler(spelling, &state, request("initialize", 1)));
        assert!(response.error.is_none());
    }
}

#[test]
fn initialize_answers_and_can_be_repeated() {
    let (state, sid) = registry_with_session();
    for round in 0..3 {
        let response = expect_response(mcp_handler(&sid, &state, request("initialize", round)));
        assert!(response.error.is_none());
        assert_eq!(response.id, Some(Value::from(round)));
        match response.result.unwrap() {
            RpcResult::Initialize { protocol_version, server_info, capabilities } => {
                assert_eq!(protocol_version, "2024-11-05");
                assert_eq!(server_info.name, "gemini-co-cli-mcp");
                assert_eq!(server_info.version, "0.1.0");
                assert_eq!(capabilities, vec!["tools".to_string()]);
            }
            _ => panic!("expected the answer to initialize"),
        }
        assert_eq!(state.session_count(), 1);
    }
}

#[test]
fn tools_list_is_idempotent() {
    let (state, sid) = registry_with_session();
    let mut seen: Vec<Vec<(String, Option<String>, Option<String>)>> = Vec::new();
    for round in 0..2 {
        let response = expect_response(mcp_handler(&sid, &state, request("tools/list", round)));
        match response.result.unwrap() {
            RpcResult::Tools { tools } => {
                assert_eq!(tools.len(), 3);
                seen.push(
                    tools.into_iter().map(|t| (t.name, t.title, t.description)).collect(),
                );
            }
            _ => panic!("expected the tools"),
        }
    }
    assert_eq!(seen[0], seen[1]);
    assert_eq!(seen[0][0].0, "ssh_connect");
    assert_eq!(seen[0][1].0, "ssh_execute");
    assert_eq!(seen[0][2].0, "ssh_read_output");
}

#[test]
fn tools_call_is_passed_on() {
    let (state, sid) = registry_with_session();
    let mut req = request("tools/call", 9);
    let mut arguments = serde_json::Map::new();
    arguments.insert("lines".to_string(), Value::from(3));
    let mut params = serde_json::Map::new();
    params.insert("name".to_string(), Value::from("ssh_read_output"));
    params.insert("arguments".to_string(), Value::Object(arguments.clone()));
    req.params = Some(Value::Object(params));
    match mcp_handler(&sid, &state, req) {
        McpStep::CallTool { session_id, id, name, arguments: passed } => {
            assert_eq!(uuid::Uuid::from_u128(session_id).to_string(), sid);
            assert_eq!(id, Some(Value::from(9)));
            assert_eq!(name, "ssh_read_output");
            assert_eq!(passed, Some(Value::Object(arguments)));
        }
        McpStep::Respond(_) => panic!("expected a tool call"),
    }
}

#[test]
fn tool_call_parts_of_various_params() {
    assert_eq!(tool_call_parts(&None), (String::new(), None));
    let empty = Value::Object(serde_json::Map::new());
    assert_eq!(tool_call_parts(&Some(empty)), (String::new(), None));
    let mut only_name = serde_json::Map::new();
    only_name.insert("name".to_string(), Value::from("ssh_execute"));
    assert_eq!(
        tool_call_parts(&Some(Value::Object(only_name))),
        ("ssh_execute".to_string(), None)
    );
    let mut odd = serde_json::Map::new();
    odd.insert("name".to_string(), Value::from(7));
    odd.insert("arguments".to_string(), Value::from("text"));
    assert_eq!(
        tool_call_parts(&Some(Value::Object(odd))),
        (String::new(), Some(Value::from("text")))
    );
    assert_eq!(tool_call_parts(&Some(Value::from("name"))), (String::new(), None));
    assert_eq!(tool_call_parts(&Some(Value::Null)), (String::new(), None));
}

#[test]
fn request_for_a_given_session() {
    let mut state: AppState<String> = AppState::new();
    state.create_session_as(17, None);
    let response = expect_response(mcp_request(None, &state, request("initialize", 1)));
    assert_eq!(response.error.unwrap().code, -32600);
    let response = expect_response(mcp_request(Some(18), &state, request("initialize", 1)));
    assert_eq!(response.error.unwrap().code, -32001);
    let response = expect_response(mcp_request(Some(17), &state, request("initialize", 1)));
    assert!(response.error.is_none());
    assert!(matches!(response.result, Some(RpcResult::Initialize { .. })));
    let response = expect_response(mcp_request(Some(17), &state, request("nonsense", 1)));
    let error = response.error.unwrap();
    assert_eq!(error.code, -32601);
    assert_eq!(error.message, "Method not found: nonsense");
    match mcp_request(Some(17), &state, request("tools/call", 2)) {
        McpStep::CallTool { session_id, id, name, arguments } => {
            assert_eq!(session_id, 17);
            assert_eq!(id, Some(Value::from(2)));
            assert_eq!(name, "");
            assert_eq!(arguments, None);
        }
        McpStep::Respond(_) => panic!("expected a tool call"),
    }
}

#[test]
fn event_stream_of_a_given_session() {
    let mut state: AppState<String> = AppState::new();
    state.create_session_as(17, None);
    state.create_session_as(18, None);
    assert_eq!(event_stream(None, &state).err(), Some(400));
    assert_eq!(event_stream(Some(19), &state).err(), Some(404));
    let mut stream = event_stream(Some(17), &state).unwrap();
    let mut other = state.remove_session(18).unwrap();
    let _rx = other.mcp_service.approval_channel.request_approval_as(1, "other".to_string());
    state.insert_session(other);
    assert!(stream.try_recv().is_err());
    let mut session = state.remove_session(17).unwrap();
    let _rx = session.mcp_service.approval_channel.request_approval_as(2, "mine".to_string());
    state.insert_session(session);
    match stream.try_recv().unwrap() {
        ApprovalEvent::CommandRequested { command, .. } => assert_eq!(command, "mine"),
        _ => panic!("expected a request"),
    }
}

#[test]
fn initialized_notification_is_acknowledged() {
    let (state, sid) = registry_with_session();
    let mut req = request("notifications/initialized", 0);
    req.id = None;
    let response = expect_response(mcp_handler(&sid, &state, req));
    assert!(response.error.is_none());
    assert!(matches!(response.result, Some(RpcResult::Empty)));
    assert!(response.id.is_none());
}

#[test]
fn unknown_method_is_not_found() {
    let (state, sid) = registry_with_session();
    let response = expect_response(mcp_handler(&sid, &state, request("resources/list", 4)));
    assert!(response.result.is_none());
    let error = response.error.unwrap();
    assert_eq!(error.code, -32601);
    assert_eq!(error.message, "Method not found: resources/list");
}

#[test]
fn methods_are_recognised_by_exact_name() {
    assert_eq!(parse_method("initialize"), Some(Method::Initialize));
    assert_eq!(parse_method("tools/list"), Some(Method::ToolsList));
    assert_eq!(parse_method("tools/call"), Some(Method::ToolsCall));
    assert_eq!(parse_method("notifications/initialized"), Some(Method::Initialized));
    assert_eq!(parse_method("Initialize"), None);
    assert_eq!(parse_method(""), None);
}

#[test]
fn missing_tool_name_is_the_empty_name() {
    assert_eq!(requested_tool(None), "");
    assert_eq!(requested_tool(Some("ssh_execute".to_string())), "ssh_execute");
}

#[test]
fn tool_error_keeps_success_envelope() {
    let outcome = CallToolResult::error(vec![Content::text(
        "Unknown tool: ssh_delete_universe".to_string(),
    )]);
    let response = tool_call_response(Some(Value::from(5)), outcome);
    assert_eq!(response.jsonrpc, "2.0");
    assert!(response.error.is_none());
    assert_eq!(response.id, Some(Value::from(5)));
    match response.result.unwrap() {
        RpcResult::ToolCall { content, is_error } => {
            assert!(is_error);
            assert_eq!(content.len(), 1);
            assert_eq!(content[0].text, "Unknown tool: ssh_delete_universe");
        }
        _ => panic!("expected a tool result"),
    }
    let outcome = CallToolResult { content: vec![], is_error: None };
    match tool_call_response(None, outcome).result.unwrap() {
        RpcResult::ToolCall { content, is_error } => {
            assert!(!is_error);
            assert!(content.is_empty());
        }
        _ => panic!("expected a tool result"),
    }
}

#[test]
fn response_constructors() {
    let ok = JsonRpcResponse::success(None, RpcResult::Empty);
    assert_eq!(ok.jsonrpc, "2.0");
    assert!(ok.error.is_none());
    let bad = JsonRpcResponse::error(Some(Value::from("x")), -32603, "boom".to_string());
    assert!(bad.result.is_none());
    let error = bad.error.unwrap();
    assert_eq!(error.code, -32603);
    assert_eq!(error.message, "boom");
    assert_eq!(bad.id, Some(Value::from("x")));
}

#[test]
fn sse_event_names() {
    let id = "67e55044-10b1-426f-9247-bb680e5fe0c8".to_string();
    assert_eq!(
        sse_event_name(&ApprovalEvent::CommandRequested {
            approval_id: id.clone(),
            command: "ls".to_string()
        }),
        "command_requested"
    );
    assert_eq!(
        sse_event_name(&ApprovalEvent::CommandApproved { approval_id: id.clone() }),
        "command_approved"
    );
    assert_eq!(
        sse_event_name(&ApprovalEvent::CommandRejected { approval_id: id }),
        "command_rejected"
    );
}

#[test]
fn sse_stream_statuses() {
    let (mut state, sid) = registry_with_session();
    assert_eq!(mcp_sse_handler("nonsense", &state).err(), Some(400));
    assert_eq!(
        mcp_sse_handler("67e55044-10b1-426f-9247-bb680e5fe0c8", &state).err(),
        Some(404)
    );
    let mut stream = mcp_sse_handler(&sid, &state).unwrap();
    let id = uuid::Uuid::parse_str(&sid).unwrap().as_u128();
    let mut session = state.remove_session(id).unwrap();
    let (approval, _rx) = session.mcp_service.approval_channel.request_approval("ls".to_string());
    state.insert_session(session);
    match stream.try_recv().unwrap() {
        ApprovalEvent::CommandRequested { approval_id, command } => {
            assert_eq!(approval_id, uuid::Uuid::from_u128(approval).to_string());
            assert_eq!(command, "ls");
        }
        _ => panic!("expected a request"),
    }
}
