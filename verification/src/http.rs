//! JSON-RPC dispatch for the tool server: which answer each request gets.
//!
//! Requests and answers are held as plain values; their JSON form is the
//! caller's business. Request identifiers and parameters are carried
//! through untouched.

use vstd::prelude::*;
use serde_json::Value;
use tokio::sync::broadcast;
use crate::approval::{listens_on, ApprovalEvent};
use crate::ident::{parse_uuid, parsed_id};
use crate::server::{published_tools, CallToolResult, Content, ServerInfo, Tool};
use crate::state::AppState;
use crate::text::same_text;

verus! {

/// A JSON value of `serde_json`, carried through as it came.
#[verifier::external_type_specification]
#[verifier::external_body]
pub struct ExValue(Value);

/// Invalid request.
pub const INVALID_REQUEST: i32 = -32600;

/// Method not found.
pub const METHOD_NOT_FOUND: i32 = -32601;

/// Invalid parameters, or unknown tool.
pub const INVALID_PARAMS: i32 = -32602;

/// Internal error.
pub const INTERNAL_ERROR: i32 = -32603;

/// No session is registered under the identifier in the path.
pub const SESSION_NOT_FOUND: i32 = -32001;

/// Status of an event stream request whose session identifier is no
/// identifier.
pub const STATUS_BAD_REQUEST: u16 = 400;

/// Status of an event stream request for a session that is not registered.
pub const STATUS_NOT_FOUND: u16 = 404;

/// JSON-RPC request structure.
pub struct JsonRpcRequest {
    pub jsonrpc: String,
    pub method: String,
    pub params: Option<Value>,
    pub id: Option<Value>,
}

/// The error member of a JSON-RPC response.
pub struct JsonRpcError {
    pub code: i32,
    pub message: String,
    pub data: Option<Value>,
}

/// The result member of a JSON-RPC response, one form per method.
pub enum RpcResult {
    /// Answer to `initialize`.
    Initialize { protocol_version: String, server_info: ServerInfo, capabilities: Vec<String> },
    /// Answer to `tools/list`.
    Tools { tools: Vec<Tool> },
    /// Answer to `tools/call`.
    ToolCall { content: Vec<Content>, is_error: bool },
    /// The empty object.
    Empty,
}

/// JSON-RPC response structure.
pub struct JsonRpcResponse {
    pub jsonrpc: String,
    pub result: Option<RpcResult>,
    pub error: Option<JsonRpcError>,
    pub id: Option<Value>,
}

impl JsonRpcResponse {
    /// The response is a success for the request `id`.
    pub open spec fn succeeds(self, id: Option<Value>) -> bool {
        &&& self.jsonrpc@ == "2.0"@
        &&& self.result is Some
        &&& self.error is None
        &&& self.id == id
    }

    /// The response is the error `code` with `message`, without data, for
    /// the request `id`.
    pub open spec fn fails(self, id: Option<Value>, code: i32, message: Seq<char>) -> bool {
        &&& self.jsonrpc@ == "2.0"@
        &&& self.result is None
        &&& self.error matches Some(error) && error.code == code && error.message@ == message
            && error.data is None
        &&& self.id == id
    }

    /// A success response.
    pub fn success(id: Option<Value>, result: RpcResult) -> (response: Self)
        ensures
            response.succeeds(id),
            response.result == Some(result),
    {
        JsonRpcResponse { jsonrpc: String::from_str("2.0"), result: Some(result), error: None, id }
    }

    /// An error response.
    pub fn error(id: Option<Value>, code: i32, message: String) -> (response: Self)
        ensures
            response.fails(id, code, message@),
    {
        JsonRpcResponse {
            jsonrpc: String::from_str("2.0"),
            result: None,
            error: Some(JsonRpcError { code, message, data: None }),
            id,
        }
    }
}

/// What becomes of a request.
pub enum McpStep {
    /// The request is answered.
    Respond(JsonRpcResponse),
    /// The tool `name` of the session is to be called with `arguments`,
    /// none standing for the empty object; the answer is made from its
    /// result.
    CallTool { session_id: u128, id: Option<Value>, name: String, arguments: Option<Value> },
}

/// What `serde_json::Value::get` gives for a text key: the member of that
/// name where the value is an object that has one, nothing otherwise.
pub uninterp spec fn json_member(value: Value, key: Seq<char>) -> Option<Value>;

/// What `serde_json::Value::as_str` gives: the text of a value that is a
/// string, nothing for any other value.
pub uninterp spec fn json_text(value: Value) -> Option<Seq<char>>;

/// Looks a member up with `serde_json::Value::get` and hands out a copy of
/// it; the result is the one named by [`json_member`].
#[verifier::external_body]
fn member_of(value: &Value, key: &str) -> (member: Option<Value>)
    ensures
        member == json_member(*value, key@),
{
    value.get(key).cloned()
}

/// Reads a value as text with `serde_json::Value::as_str`; the result is the
/// one named by [`json_text`].
#[verifier::external_body]
fn text_of_value(value: &Value) -> (text: Option<String>)
    ensures
        text is Some == json_text(*value) is Some,
        text matches Some(t) ==> json_text(*value) == Some(t@),
{
    value.as_str().map(String::from)
}

/// The tool name that the parameters of a `tools/call` request give: the
/// text of their member `name`, or the empty name where there are no
/// parameters, no such member, or one that is no text.
pub open spec fn named_tool(params: Option<Value>) -> Seq<char> {
    match params {
        Some(p) => match json_member(p, "name"@) {
            Some(v) => match json_text(v) {
                Some(text) => text,
                None => Seq::empty(),
            },
            None => Seq::empty(),
        },
        None => Seq::empty(),
    }
}

/// The arguments that the parameters of a `tools/call` request give: their
/// member `arguments`, if there is one.
pub open spec fn given_arguments(params: Option<Value>) -> Option<Value> {
    match params {
        Some(p) => json_member(p, "arguments"@),
        None => None,
    }
}

/// Takes the tool name and the arguments out of the parameters of a
/// `tools/call` request.
pub fn tool_call_parts(params: &Option<Value>) -> (parts: (String, Option<Value>))
    ensures
        parts.0@ == named_tool(*params),
        parts.1 == given_arguments(*params),
{
    match params {
        Some(p) => {
            let name = match member_of(p, "name") {
                Some(v) => text_of_value(&v),
                None => None,
            };
            (requested_tool(name), member_of(p, "arguments"))
        },
        None => (requested_tool(None), None),
    }
}

/// The methods of the protocol.
#[derive(Debug, Clone, Copy, PartialEq, Eq, Structural)]
pub enum Method {
    Initialize,
    ToolsList,
    ToolsCall,
    Initialized,
}

/// Which method a name stands for, if any.
pub open spec fn method_named(name: Seq<char>) -> Option<Method> {
    if name == "initialize"@ {
        Some(Method::Initialize)
    } else if name == "tools/list"@ {
        Some(Method::ToolsList)
    } else if name == "tools/call"@ {
        Some(Method::ToolsCall)
    } else if name == "notifications/initialized"@ {
        Some(Method::Initialized)
    } else {
        None
    }
}

/// Which method a name stands for, if any.
pub fn parse_method(name: &str) -> (method: Option<Method>)
    ensures
        method == method_named(name@),
{
    if same_text(name, "initialize") {
        Some(Method::Initialize)
    } else if same_text(name, "tools/list") {
        Some(Method::ToolsList)
    } else if same_text(name, "tools/call") {
        Some(Method::ToolsCall)
    } else if same_text(name, "notifications/initialized") {
        Some(Method::Initialized)
    } else {
        None
    }
}

/// The result is the answer to `initialize`.
pub open spec fn is_initialize_result(result: RpcResult) -> bool {
    result matches RpcResult::Initialize { protocol_version, server_info, capabilities }
        && protocol_version@ == "2024-11-05"@ && server_info.name@ == "gemini-co-cli-mcp"@
        && server_info.version@ == "0.1.0"@ && capabilities@.len() == 1 && capabilities@[0]@
        == "tools"@
}

/// The result is the answer to `tools/list`.
pub open spec fn is_tools_result(result: RpcResult) -> bool {
    result matches RpcResult::Tools { tools } && tools@.len() == 3 && forall|i: int|
        0 <= i < 3 ==> (#[trigger] tools@[i])@ == published_tools()[i]
}

/// Any two answers to `tools/list` publish the same tools with the same
/// descriptions, in the same order.
pub proof fn lemma_tools_list_is_stable(first: RpcResult, second: RpcResult)
    requires
        is_tools_result(first),
        is_tools_result(second),
    ensures
        first->tools@.len() == second->tools@.len(),
        forall|i: int|
            0 <= i < first->tools@.len() ==> (#[trigger] first->tools@[i])@ == second->tools@[i]@,
{
}

/// Any two answers to `initialize` say the same.
pub proof fn lemma_initialize_is_stable(first: RpcResult, second: RpcResult)
    requires
        is_initialize_result(first),
        is_initialize_result(second),
    ensures
        first->protocol_version@ == second->protocol_version@,
        first->server_info.name@ == second->server_info.name@,
        first->server_info.version@ == second->server_info.version@,
        first->capabilities@.len() == second->capabilities@.len(),
        first->capabilities@[0]@ == second->capabilities@[0]@,
{
}

/// Whether `step` is what becomes of `request` for the session that the path
/// of the request names, `session` being what the path reads as and
/// `registered` telling whether a session is registered under it.
pub open spec fn is_mcp_step(
    step: McpStep,
    session: Option<u128>,
    registered: bool,
    request: JsonRpcRequest,
) -> bool {
    match session {
        None => step matches McpStep::Respond(response) && response.fails(
            request.id,
            INVALID_REQUEST,
            "Invalid session ID"@,
        ),
        Some(session) => if !registered {
            step matches McpStep::Respond(response) && response.fails(
                request.id,
                SESSION_NOT_FOUND,
                "Session not found"@,
            )
        } else {
            match method_named(request.method@) {
                Some(Method::Initialize) => step matches McpStep::Respond(response)
                    && response.succeeds(request.id) && is_initialize_result(response.result->0),
                Some(Method::ToolsList) => step matches McpStep::Respond(response)
                    && response.succeeds(request.id) && is_tools_result(response.result->0),
                Some(Method::ToolsCall) => step matches McpStep::CallTool {
                    session_id: s,
                    id,
                    name,
                    arguments,
                } && s == session && id == request.id && name@ == named_tool(request.params)
                    && arguments == given_arguments(request.params),
                Some(Method::Initialized) => step matches McpStep::Respond(response)
                    && response.succeeds(request.id) && response.result->0 is Empty,
                None => step matches McpStep::Respond(response) && response.fails(
                    request.id,
                    METHOD_NOT_FOUND,
                    "Method not found: "@ + request.method@,
                ),
            }
        },
    }
}

/// Whether a session is registered under what a path reads as.
pub open spec fn is_registered<C>(app_state: AppState<C>, session: Option<u128>) -> bool {
    session matches Some(id) && app_state@.contains_key(id)
}

/// Handle an MCP JSON-RPC request, given what the path of the request reads
/// as: the identifier of a session, or nothing.
///
/// No identifier is an invalid request; an identifier under which no session
/// is registered is answered with the session-not-found code. `initialize`,
/// `tools/list` and `notifications/initialized` are answered from fixed data,
/// so that repeating them gives the same answer and changes nothing.
/// `tools/call` is passed on to the tools, with the name and the arguments
/// taken out of the parameters. Any other method is not found.
pub fn mcp_request<C>(session: Option<u128>, app_state: &AppState<C>, request: JsonRpcRequest) -> (step:
    McpStep)
    ensures
        is_mcp_step(step, session, is_registered(*app_state, session), request),
{
    let session = match session {
        Some(session) => session,
        None => {
            return McpStep::Respond(
                JsonRpcResponse::error(
                    request.id,
                    INVALID_REQUEST,
                    String::from_str("Invalid session ID"),
                ),
            );
        },
    };
    let service = match app_state.get_mcp_service(session) {
        Some(service) => service,
        None => {
            return McpStep::Respond(
                JsonRpcResponse::error(
                    request.id,
                    SESSION_NOT_FOUND,
                    String::from_str("Session not found"),
                ),
            );
        },
    };
    match parse_method(request.method.as_str()) {
        Some(Method::Initialize) => {
            let mut capabilities = Vec::new();
            capabilities.push(String::from_str("tools"));
            McpStep::Respond(
                JsonRpcResponse::success(
                    request.id,
                    RpcResult::Initialize {
                        protocol_version: String::from_str("2024-11-05"),
                        server_info: service.get_server_info(),
                        capabilities,
                    },
                ),
            )
        },
        Some(Method::ToolsList) => McpStep::Respond(
            JsonRpcResponse::success(request.id, RpcResult::Tools { tools: service.list_tools() }),
        ),
        Some(Method::ToolsCall) => {
            let (name, arguments) = tool_call_parts(&request.params);
            McpStep::CallTool { session_id: session, id: request.id, name, arguments }
        },
        Some(Method::Initialized) => McpStep::Respond(
            JsonRpcResponse::success(request.id, RpcResult::Empty),
        ),
        None => {
            let mut message = String::from_str("Method not found: ");
            message.append(request.method.as_str());
            McpStep::Respond(JsonRpcResponse::error(request.id, METHOD_NOT_FOUND, message))
        },
    }
}

/// Handle an MCP JSON-RPC request posted for the session `session_id`: the
/// path is read as an identifier, and the request is handled as
/// [`mcp_request`] says.
pub fn mcp_handler<C>(session_id: &str, app_state: &AppState<C>, request: JsonRpcRequest) -> (step:
    McpStep)
    ensures
        is_mcp_step(
            step,
            parsed_id(session_id@),
            is_registered(*app_state, parsed_id(session_id@)),
            request,
        ),
{
    mcp_request(parse_uuid(session_id), app_state, request)
}

/// The name of the tool a `tools/call` request asks for: the one given, or
/// the empty name where none was given.
pub fn requested_tool(name: Option<String>) -> (tool: String)
    ensures
        tool@ == (match name {
            Some(given) => given@,
            None => Seq::<char>::empty(),
        }),
{
    match name {
        Some(given) => given,
        None => String::new(),
    }
}

/// The answer to a `tools/call` request, made from the result of the tool.
/// The envelope is a success also where the tool reports an error; a result
/// that does not say is taken as no error.
pub fn tool_call_response(id: Option<Value>, outcome: CallToolResult) -> (response: JsonRpcResponse)
    ensures
        response.succeeds(id),
        response.result->0 matches RpcResult::ToolCall { content, is_error } && content
            == outcome.content && is_error == (outcome.is_error == Some(true)),
{
    let is_error = match outcome.is_error {
        Some(flag) => flag,
        None => false,
    };
    JsonRpcResponse::success(id, RpcResult::ToolCall { content: outcome.content, is_error })
}

/// The name of the server-sent event that carries an approval event.
pub open spec fn event_name(event: ApprovalEvent) -> Seq<char> {
    match event {
        ApprovalEvent::CommandRequested { .. } => "command_requested"@,
        ApprovalEvent::CommandApproved { .. } => "command_approved"@,
        ApprovalEvent::CommandRejected { .. } => "command_rejected"@,
    }
}

/// The name of the server-sent event that carries an approval event.
pub fn sse_event_name(event: &ApprovalEvent) -> (name: &'static str)
    ensures
        name@ == event_name(*event),
{
    match event {
        ApprovalEvent::CommandRequested { .. } => "command_requested",
        ApprovalEvent::CommandApproved { .. } => "command_approved",
        ApprovalEvent::CommandRejected { .. } => "command_rejected",
    }
}

/// Whether `stream` is what a request for the event stream of a session
/// gets, `session` being what the path of the request reads as: the status
/// to refuse with where that is no identifier or no session is registered
/// under it, and else a receiver that listens on the broadcaster of that
/// session's coordinator.
pub open spec fn is_event_stream<C>(
    stream: Result<broadcast::Receiver<ApprovalEvent>, u16>,
    session: Option<u128>,
    app_state: AppState<C>,
) -> bool {
    match session {
        None => stream == Err::<broadcast::Receiver<ApprovalEvent>, u16>(STATUS_BAD_REQUEST),
        Some(id) => if app_state@.contains_key(id) {
            stream matches Ok(receiver) && listens_on(
                receiver,
                app_state@[id].mcp_service.approval_channel.broadcaster(),
            )
        } else {
            stream == Err::<broadcast::Receiver<ApprovalEvent>, u16>(STATUS_NOT_FOUND)
        },
    }
}

/// Handle a request for the event stream of a session, given what the path
/// of the request reads as: a subscription to the approval events of that
/// session, or the status to refuse with.
pub fn event_stream<C>(session: Option<u128>, app_state: &AppState<C>) -> (stream: Result<
    broadcast::Receiver<ApprovalEvent>,
    u16,
>)
    ensures
        is_event_stream(stream, session, *app_state),
{
    let session = match session {
        Some(session) => session,
        None => {
            return Err(STATUS_BAD_REQUEST);
        },
    };
    match app_state.get_mcp_service(session) {
        Some(service) => Ok(service.approval_channel.subscribe()),
        None => Err(STATUS_NOT_FOUND),
    }
}

/// Handle a request for the event stream of the session `session_id`: the
/// path is read as an identifier, and the request is handled as
/// [`event_stream`] says.
pub fn mcp_sse_handler<C>(session_id: &str, app_state: &AppState<C>) -> (stream: Result<
    broadcast::Receiver<ApprovalEvent>,
    u16,
>)
    ensures
        is_event_stream(stream, parsed_id(session_id@), *app_state),
{
    event_stream(parse_uuid(session_id), app_state)
}

} // verus!
