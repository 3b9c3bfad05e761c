use gemini_co_cli::approval::{ApprovalChannel, ApprovalEvent, Waited};
use gemini_co_cli::server::{
    AfterWrite, CallToolResult, ConnectPlan, Content, ExecuteNext, ExecutePlan, McpSshService,
    ToolCall, OUTPUT_DELAY_MILLIS,
};
use gemini_co_cli::ssh::ChannelOp;
use gemini_co_cli::tools::{
    default_lines, default_port, default_timeout, default_wait, get_tool_definitions,
    ExecuteResponse, ExecuteStatus, SshConnectParams, SshExecuteParams, SshReadOutputParams,
    ToolKind,
};
use tokio::sync::broadcast::error::TryRecvError;

fn service() -> McpSshService<String> {
    McpSshService::new(42, ApprovalChannel::new())
}

fn text_of(result: &CallToolResult) -> String {
    assert_eq!(result.content.len(), 1);
    result.content[0].text.clone()
}

fn execute_params(command: &str, timeout_seconds: u64, wait_for_output: bool) -> SshExecuteParams {
    SshExecuteParams { command: command.to_string(), timeout_seconds, wait_for_output }
}

#[test]
fn defaults_are_as_documented() {
    assert_eq!(default_port(), 22);
    assert_eq!(default_timeout(), 30);
    assert!(default_wait());
    assert_eq!(default_lines(), 50);
}

#[test]
fn params_take_defaults_where_nothing_is_given() {
    let c = SshConnectParams::with_defaults("h".to_string(), None, "u".to_string(), None, None);
    assert_eq!(c.port, 22);
    assert_eq!(c.host, "h");
    assert_eq!(c.username, "u");
    assert!(c.password.is_none() && c.private_key.is_none());
    let c = SshConnectParams::with_defaults(
        "h".to_string(),
        Some(2222),
        "u".to_string(),
        Some("pw".to_string()),
        None,
    );
    assert_eq!(c.port, 2222);
    assert_eq!(c.password.as_deref(), Some("pw"));
    let e = SshExecuteParams::with_defaults("ls".to_string(), None, None);
    assert_eq!(e.timeout_seconds, 30);
    assert!(e.wait_for_output);
    let e = SshExecuteParams::with_defaults("ls".to_string(), Some(5), Some(false));
    assert_eq!(e.timeout_seconds, 5);
    assert!(!e.wait_for_output);
    assert_eq!(SshReadOutputParams::with_defaults(None).lines, 50);
    assert_eq!(SshReadOutputParams::with_defaults(Some(3)).lines, 3);
}

#[test]
fn execute_status_wire_names() {
    assert_eq!(ExecuteStatus::AwaitingApproval.wire_name(), "awaiting_approval");
    assert_eq!(ExecuteStatus::Executed.wire_name(), "executed");
    assert_eq!(ExecuteStatus::Rejected.wire_name(), "rejected");
    assert_eq!(ExecuteStatus::Error.wire_name(), "error");
    let response = ExecuteResponse { status: ExecuteStatus::Executed, output: None, error: None };
    assert_eq!(response.status, ExecuteStatus::Executed);
}

#[test]
fn tool_definitions_catalogue() {
    let definitions = get_tool_definitions();
    assert_eq!(definitions.len(), 3);
    assert_eq!(definitions[0].name, "ssh_connect");
    assert_eq!(
        definitions[0].description,
        "Connect to a remote SSH server. Must be called before executing commands."
    );
    assert_eq!(definitions[0].kind, ToolKind::Connect);
    assert_eq!(definitions[1].name, "ssh_execute");
    assert_eq!(
        definitions[1].description,
        "Execute a command on the connected SSH server. Requires user approval before execution."
    );
    assert_eq!(definitions[1].kind, ToolKind::Execute);
    assert_eq!(definitions[2].name, "ssh_read_output");
    assert_eq!(definitions[2].description, "Read recent output from the SSH terminal session.");
    assert_eq!(definitions[2].kind, ToolKind::ReadOutput);
    assert_eq!(ToolKind::Connect.name(), "ssh_connect");
    assert_eq!(ToolKind::Execute.name(), "ssh_execute");
    assert_eq!(ToolKind::ReadOutput.name(), "ssh_read_output");
}

#[test]
fn list_tools_is_the_same_on_every_call() {
    let service = service();
    let first = service.list_tools();
    let second = service.list_tools();
    assert_eq!(first.len(), 3);
    assert_eq!(second.len(), 3);
    for i in 0..3 {
        assert_eq!(first[i].name, second[i].name);
        assert_eq!(first[i].title, second[i].title);
        assert_eq!(first[i].description, second[i].description);
        assert_eq!(first[i].kind, second[i].kind);
    }
    assert_eq!(first[0].name, "ssh_connect");
    assert_eq!(first[0].title, None);
    assert_eq!(first[1].name, "ssh_execute");
    assert_eq!(first[1].title.as_deref(), Some("SSH Execute (requires approval)"));
    assert_eq!(
        first[1].description.as_deref(),
        Some("Execute a command on the connected SSH server. Requires user approval.")
    );
    assert_eq!(first[2].name, "ssh_read_output");
    assert_eq!(first[2].kind, ToolKind::ReadOutput);
}

#[test]
fn server_info() {
    let info = service().get_server_info();
    assert_eq!(info.name, "gemini-co-cli-mcp");
    assert_eq!(info.version, "0.1.0");
}

#[test]
fn tool_result_constructors() {
    let ok = CallToolResult::success(vec![Content::text("fine".to_string())]);
    assert_eq!(ok.is_error, Some(false));
    assert_eq!(ok.content[0].text, "fine");
    let bad = CallToolResult::error(vec![Content::text("no".to_string())]);
    assert_eq!(bad.is_error, Some(true));
}

#[test]
fn call_tool_dispatches_by_name() {
    let service = service();
    assert!(matches!(service.call_tool("ssh_connect"), ToolCall::Known(ToolKind::Connect)));
    assert!(matches!(service.call_tool("ssh_execute"), ToolCall::Known(ToolKind::Execute)));
    assert!(matches!(service.call_tool("ssh_read_output"), ToolCall::Known(ToolKind::ReadOutput)));
}

#[test]
fn unknown_tool_is_named_in_the_error() {
    let service = service();
    match service.call_tool("ssh_delete_universe") {
        ToolCall::Unknown(result) => {
            assert_eq!(result.is_error, Some(true));
            assert_eq!(text_of(&result), "Unknown tool: ssh_delete_universe");
        }
        ToolCall::Known(_) => panic!("no such tool"),
    }
    match service.call_tool("") {
        ToolCall::Unknown(result) => assert_eq!(text_of(&result), "Unknown tool: "),
        ToolCall::Known(_) => panic!("no such tool"),
    }
}

#[test]
fn connect_plan_from_params() {
    let service = service();
    let params = SshConnectParams {
        host: "example.org".to_string(),
        port: 2222,
        username: "alice".to_string(),
        password: Some("secret".to_string()),
        private_key: None,
    };
    match service.tool_ssh_connect(&Ok(params)) {
        ConnectPlan::Connect(config) => {
            assert_eq!(config.host, "example.org");
            assert_eq!(config.port, 2222);
            assert_eq!(config.username, "alice");
            assert_eq!(config.password.as_deref(), Some("secret"));
            assert!(config.private_key.is_none());
        }
        ConnectPlan::Reply(_) => panic!("parameters were fine"),
    }
    match service.tool_ssh_connect(&Err("missing field `host`".to_string())) {
        ConnectPlan::Reply(result) => {
            assert_eq!(result.is_error, Some(true));
            assert_eq!(text_of(&result), "Invalid parameters: missing field `host`");
        }
        ConnectPlan::Connect(_) => panic!("parameters were bad"),
    }
}

#[test]
fn connect_outcome_installs_channel() {
    let mut service = service();
    let params = SshConnectParams {
        host: "example.org".to_string(),
        port: 22,
        username: "alice".to_string(),
        password: None,
        private_key: Some("key".to_string()),
    };
    let result = service.ssh_connected(&params, Err("Authentication failed".to_string()));
    assert_eq!(result.is_error, Some(true));
    assert_eq!(text_of(&result), "Failed to connect: Authentication failed");
    assert!(!service.is_connected());

    let result = service.ssh_connected(&params, Ok("channel-1".to_string()));
    assert_eq!(result.is_error, Some(false));
    assert_eq!(text_of(&result), "Successfully connected to alice@example.org:22");
    assert!(service.is_connected());
    assert_eq!(service.get_ssh_state().session.as_deref(), Some("channel-1"));

    let result = service.ssh_connected(&params, Ok("channel-2".to_string()));
    assert_eq!(result.is_error, Some(false));
    assert_eq!(service.get_ssh_state().session.as_deref(), Some("channel-2"));

    let result = service.ssh_connected(&params, Err("down".to_string()));
    assert_eq!(result.is_error, Some(true));
    assert_eq!(service.get_ssh_state().session.as_deref(), Some("channel-2"));
}

#[test]
fn slot_can_be_cleared() {
    let mut service = service();
    assert_eq!(service.install_session("a".to_string()), None);
    assert_eq!(service.install_session("b".to_string()), Some("a".to_string()));
    assert_eq!(service.clear_session(), Some("b".to_string()));
    assert!(!service.is_connected());
    assert_eq!(service.clear_session(), None);
}

#[test]
fn execute_without_connect_is_refused_before_any_request() {
    let mut service = service();
    let mut subscriber = service.approval_channel.subscribe();
    match service.tool_ssh_execute(Ok(execute_params("ls", 30, true))) {
        ExecutePlan::Reply(result) => {
            assert_eq!(result.is_error, Some(true));
            let text = text_of(&result);
            assert_eq!(text, "SSH not connected. Call ssh_connect first.");
            assert!(text.contains("ssh_connect"));
        }
        ExecutePlan::AwaitVerdict { .. } => panic!("not connected"),
    }
    assert_eq!(service.approval_channel.pending_count(), 0);
    assert!(matches!(subscriber.try_recv(), Err(TryRecvError::Empty)));
}

#[test]
fn execute_with_bad_params_is_refused() {
    let mut service = service();
    service.install_session("chan".to_string());
    match service.tool_ssh_execute(Err("missing field `command`".to_string())) {
        ExecutePlan::Reply(result) => {
            assert_eq!(result.is_error, Some(true));
            assert_eq!(text_of(&result), "Invalid parameters: missing field `command`");
        }
        ExecutePlan::AwaitVerdict { .. } => panic!("bad parameters"),
    }
    assert_eq!(service.approval_channel.pending_count(), 0);
}

#[test]
fn happy_path_approve_writes_command_once() {
    let mut service = service();
    service.install_session("chan".to_string());
    let mut subscriber = service.approval_channel.subscribe();

    let (ticket, mut verdict) = match service.tool_ssh_execute(Ok(execute_params("whoami", 5, true)))
    {
        ExecutePlan::AwaitVerdict { ticket, verdict } => (ticket, verdict),
        ExecutePlan::Reply(_) => panic!("connected"),
    };
    assert_eq!(ticket.command(), "whoami");
    assert_eq!(ticket.timeout_seconds(), 5);
    assert!(ticket.wait_for_output());
    let id = ticket.approval_id();
    match subscriber.try_recv().unwrap() {
        ApprovalEvent::CommandRequested { approval_id, command } => {
            assert_eq!(approval_id, uuid::Uuid::from_u128(id).to_string());
            assert_eq!(command, "whoami");
        }
        _ => panic!("expected a request"),
    }
    assert_eq!(service.approval_channel.pending_count(), 1);

    assert!(service.approval_channel.submit_decision(id, true));
    assert!(matches!(subscriber.try_recv(), Ok(ApprovalEvent::CommandApproved { .. })));
    let approved = verdict.try_recv().unwrap();
    assert!(approved);

    let ticket = match service.ssh_execute_decided(ticket, Waited::Verdict(approved)) {
        ExecuteNext::Write { request, ticket } => {
            assert_eq!(request.on_failure, "Failed to send command");
            match request.op {
                ChannelOp::Data { data } => assert_eq!(data, "whoami\n"),
                _ => panic!("expected data for the shell"),
            }
            ticket
        }
        ExecuteNext::Reply(_) => panic!("approved"),
    };
    match ticket.written(&Ok(())) {
        AfterWrite::ReadOutput { delay_millis } => {
            assert_eq!(delay_millis, 500);
            assert_eq!(delay_millis, OUTPUT_DELAY_MILLIS);
        }
        AfterWrite::Reply(_) => panic!("output is waited for"),
    }
    let result = service.ssh_execute_output(Ok(Some("alice\n".to_string())));
    assert_eq!(result.is_error, Some(false));
    let text = text_of(&result);
    assert_eq!(text, "Command executed successfully.\nOutput:\nalice\n");
    assert!(text.contains("alice"));
    assert_eq!(service.get_ssh_state().get_recent_output(1), vec!["alice\n".to_string()]);
    assert_eq!(service.approval_channel.pending_count(), 0);
}

#[test]
fn rejection_writes_nothing() {
    let mut service = service();
    service.install_session("chan".to_string());
    let mut subscriber = service.approval_channel.subscribe();
    let (ticket, mut verdict) =
        match service.tool_ssh_execute(Ok(execute_params("rm -rf /", 30, true))) {
            ExecutePlan::AwaitVerdict { ticket, verdict } => (ticket, verdict),
            ExecutePlan::Reply(_) => panic!("connected"),
        };
    assert!(service.approval_channel.submit_decision(ticket.approval_id(), false));
    assert!(matches!(subscriber.try_recv(), Ok(ApprovalEvent::CommandRequested { .. })));
    assert!(matches!(subscriber.try_recv(), Ok(ApprovalEvent::CommandRejected { .. })));
    let approved = verdict.try_recv().unwrap();
    assert!(!approved);
    match service.ssh_execute_decided(ticket, Waited::Verdict(approved)) {
        ExecuteNext::Reply(result) => {
            assert_eq!(result.is_error, Some(true));
            assert_eq!(text_of(&result), "Command rejected by user.");
        }
        ExecuteNext::Write { .. } => panic!("a rejected command must not be written"),
    }
}

#[test]
fn timeout_is_reported_and_cleaned_up() {
    let mut service = service();
    service.install_session("chan".to_string());
    let before = service.approval_channel.pending_count();
    let mut subscriber = service.approval_channel.subscribe();
    let ticket = match service.tool_ssh_execute(Ok(execute_params("ls", 1, true))) {
        ExecutePlan::AwaitVerdict { ticket, .. } => ticket,
        ExecutePlan::Reply(_) => panic!("connected"),
    };
    assert_eq!(ticket.timeout_seconds(), 1);
    assert_eq!(service.approval_channel.pending_count(), before + 1);
    match service.ssh_execute_decided(ticket, Waited::TimedOut) {
        ExecuteNext::Reply(result) => {
            assert_eq!(result.is_error, Some(true));
            let text = text_of(&result);
            assert_eq!(text, "Approval timeout - command not executed.");
            assert!(text.contains("timeout"));
        }
        ExecuteNext::Write { .. } => panic!("nothing was approved"),
    }
    assert_eq!(service.approval_channel.pending_count(), before);
    assert!(matches!(subscriber.try_recv(), Ok(ApprovalEvent::CommandRequested { .. })));
    assert!(matches!(subscriber.try_recv(), Ok(ApprovalEvent::CommandRejected { .. })));
}

#[test]
fn lost_approval_channel_is_reported() {
    let mut service = service();
    service.install_session("chan".to_string());
    let ticket = match service.tool_ssh_execute(Ok(execute_params("ls", 1, true))) {
        ExecutePlan::AwaitVerdict { ticket, .. } => ticket,
        ExecutePlan::Reply(_) => panic!("connected"),
    };
    match service.ssh_execute_decided(ticket, Waited::Closed) {
        ExecuteNext::Reply(result) => {
            assert_eq!(result.is_error, Some(true));
            assert_eq!(text_of(&result), "Approval channel closed unexpectedly.");
        }
        ExecuteNext::Write { .. } => panic!("nothing was approved"),
    }
    assert_eq!(service.approval_channel.pending_count(), 0);
}

#[test]
fn approval_after_channel_was_cleared_writes_nothing() {
    let mut service = service();
    service.install_session("chan".to_string());
    let ticket = match service.tool_ssh_execute(Ok(execute_params("ls", 1, true))) {
        ExecutePlan::AwaitVerdict { ticket, .. } => ticket,
        ExecutePlan::Reply(_) => panic!("connected"),
    };
    service.clear_session();
    match service.ssh_execute_decided(ticket, Waited::Verdict(true)) {
        ExecuteNext::Reply(result) => {
            assert_eq!(result.is_error, Some(true));
            assert_eq!(text_of(&result), "SSH session lost.");
        }
        ExecuteNext::Write { .. } => panic!("no channel to write to"),
    }
}

#[test]
fn after_write_outcomes() {
    let mut service = service();
    service.install_session("chan".to_string());
    let ticket = match service.tool_ssh_execute(Ok(execute_params("ls", 1, false))) {
        ExecutePlan::AwaitVerdict { ticket, .. } => ticket,
        ExecutePlan::Reply(_) => panic!("connected"),
    };
    match ticket.written(&Ok(())) {
        AfterWrite::Reply(result) => {
            assert_eq!(result.is_error, Some(false));
            assert_eq!(text_of(&result), "Command sent successfully.");
        }
        AfterWrite::ReadOutput { .. } => panic!("output is not waited for"),
    }
    match ticket.written(&Err("Failed to send command".to_string())) {
        AfterWrite::Reply(result) => {
            assert_eq!(result.is_error, Some(true));
            assert_eq!(text_of(&result), "Command execution failed: Failed to send command");
        }
        AfterWrite::ReadOutput { .. } => panic!("the write failed"),
    }
}

#[test]
fn output_outcomes() {
    let mut service = service();
    let result = service.ssh_execute_output(Ok(None));
    assert_eq!(result.is_error, Some(false));
    assert_eq!(text_of(&result), "Command executed successfully. No immediate output.");
    assert_eq!(service.get_ssh_state().output_len(), 0);
    let result = service.ssh_execute_output(Err("closed".to_string()));
    assert_eq!(result.is_error, Some(false));
    assert_eq!(text_of(&result), "Command executed but failed to read output: closed");
    assert_eq!(service.get_ssh_state().output_len(), 0);
}

#[test]
fn read_output_tool() {
    let mut service = service();
    let result = service.tool_ssh_read_output(&Ok(SshReadOutputParams { lines: 50 }));
    assert_eq!(result.is_error, Some(false));
    assert_eq!(text_of(&result), "No recent output available.");
    service.add_output("one\n".to_string());
    service.add_output("two\n".to_string());
    service.add_output("three\n".to_string());
    let result = service.tool_ssh_read_output(&Ok(SshReadOutputParams { lines: 2 }));
    assert_eq!(result.is_error, Some(false));
    assert_eq!(text_of(&result), "two\nthree\n");
    let result = service.tool_ssh_read_output(&Ok(SshReadOutputParams { lines: 50 }));
    assert_eq!(text_of(&result), "one\ntwo\nthree\n");
    let result = service.tool_ssh_read_output(&Ok(SshReadOutputParams { lines: 0 }));
    assert_eq!(text_of(&result), "No recent output available.");
    let result = service.tool_ssh_read_output(&Err("invalid type".to_string()));
    assert_eq!(result.is_error, Some(true));
    assert_eq!(text_of(&result), "Invalid parameters: invalid type");
}
