//! The tool server: the SSH slot and output buffer of a session, the
//! catalogue of tools, and what each tool call answers.
//!
//! A tool call that has to wait (for a connection, for the operator, for the
//! shell) is cut at each wait: one function says what to wait for, the next
//! takes what came of it.

use vstd::prelude::*;
use tokio::sync::oneshot;
use crate::approval::{resolves, ApprovalChannel, ApprovalError, Waited};
use crate::ssh::{command_line, command_request, ChannelOpView, ChannelRequest, SshConfig};
use crate::text::{decimal, decimal_text, join_all, joined, same_text, texts};
use crate::tools::{SshConnectParams, SshExecuteParams, SshReadOutputParams, ToolKind};

verus! {

/// The most fragments the output buffer holds.
pub const OUTPUT_LIMIT: usize = 100;

/// Milliseconds given to a command before its first output is read.
pub const OUTPUT_DELAY_MILLIS: u64 = 500;

/// The last `limit` entries, or all of them where there are fewer.
pub open spec fn keep_recent<T>(entries: Seq<T>, limit: nat) -> Seq<T> {
    if entries.len() > limit {
        entries.subrange(entries.len() - limit, entries.len() as int)
    } else {
        entries
    }
}

/// Bounded record of the most recent output fragments of the shell, oldest
/// first.
pub struct SshOutputBuffer {
    entries: Vec<String>,
}

impl View for SshOutputBuffer {
    type V = Seq<Seq<char>>;

    closed spec fn view(&self) -> Seq<Seq<char>> {
        texts(self.entries@)
    }
}

impl SshOutputBuffer {
    #[verifier::type_invariant]
    spec fn bounded(self) -> bool {
        self.entries@.len() <= OUTPUT_LIMIT
    }

    /// An empty buffer.
    pub fn new() -> (buffer: Self)
        ensures
            buffer@ == Seq::<Seq<char>>::empty(),
    {
        let buffer = SshOutputBuffer { entries: Vec::new() };
        buffer
    }

    /// The number of fragments held, never above [`OUTPUT_LIMIT`].
    pub fn len(&self) -> (count: usize)
        ensures
            count == self@.len(),
            count <= OUTPUT_LIMIT,
    {
        proof {
            use_type_invariant(self);
        }
        self.entries.len()
    }

    /// Appends a fragment; the oldest one leaves where the bound would be
    /// exceeded.
    pub fn add(&mut self, fragment: String)
        ensures
            final(self)@ == keep_recent(old(self)@.push(fragment@), OUTPUT_LIMIT as nat),
            final(self)@.len() <= OUTPUT_LIMIT,
    {
        proof {
            use_type_invariant(&*self);
        }
        let mut entries = Vec::new();
        std::mem::swap(&mut self.entries, &mut entries);
        if entries.len() >= OUTPUT_LIMIT {
            entries.remove(0);
        }
        entries.push(fragment);
        self.entries = entries;
    }

    /// The last `count` fragments in the order in which they arrived, or all
    /// of them where fewer are held.
    pub fn recent(&self, count: usize) -> (fragments: Vec<String>)
        ensures
            texts(fragments@) == keep_recent(self@, count as nat),
    {
        let total = self.entries.len();
        let start = if count < total {
            total - count
        } else {
            0
        };
        let mut fragments: Vec<String> = Vec::new();
        let mut i = start;
        while i < total
            invariant
                start <= i <= total,
                total == self.entries@.len(),
                texts(fragments@) == self@.subrange(start as int, i as int),
            decreases total - i,
        {
            assert(texts(fragments@).len() == fragments@.len());
            let fragment = self.entries[i].clone();
            fragments.push(fragment);
            i += 1;
        }
        fragments
    }
}

/// The buffer after the fragments of `history` were added one by one to an
/// empty buffer.
pub open spec fn buffer_after(history: Seq<Seq<char>>) -> Seq<Seq<char>>
    decreases history.len(),
{
    if history.len() == 0 {
        Seq::empty()
    } else {
        keep_recent(buffer_after(history.drop_last()).push(history.last()), OUTPUT_LIMIT as nat)
    }
}

/// Whatever was added, the buffer holds the latest fragments in the order in
/// which they came, as many as the bound allows and never more.
pub proof fn lemma_buffer_holds_latest(history: Seq<Seq<char>>)
    ensures
        buffer_after(history) == keep_recent(history, OUTPUT_LIMIT as nat),
        buffer_after(history).len() <= OUTPUT_LIMIT,
    decreases history.len(),
{
    if history.len() > 0 {
        let earlier = history.drop_last();
        lemma_buffer_holds_latest(earlier);
        assert(keep_recent(keep_recent(earlier, OUTPUT_LIMIT as nat).push(history.last()),
            OUTPUT_LIMIT as nat,
        ) =~= keep_recent(history, OUTPUT_LIMIT as nat));
    }
}

/// Reading back `count` fragments after any history of additions gives the
/// last `count` fragments added, or the last [`OUTPUT_LIMIT`] where `count`
/// is larger, or all where fewer were added, in the order in which they came.
pub proof fn lemma_recent_reads_latest(history: Seq<Seq<char>>, count: nat)
    ensures
        keep_recent(buffer_after(history), count) == keep_recent(
            history,
            if count < OUTPUT_LIMIT {
                count
            } else {
                OUTPUT_LIMIT as nat
            },
        ),
{
    lemma_buffer_holds_latest(history);
    let least: nat = if count < OUTPUT_LIMIT {
        count
    } else {
        OUTPUT_LIMIT as nat
    };
    assert(keep_recent(keep_recent(history, OUTPUT_LIMIT as nat), count) =~= keep_recent(
        history,
        least,
    ));
}

/// The SSH side of a session: the slot for its channel and its output
/// buffer. `C` is the handle through which the caller reaches the channel.
pub struct SshState<C> {
    pub session: Option<C>,
    pub output_buffer: SshOutputBuffer,
}

impl<C> SshState<C> {
    /// An empty slot and an empty buffer.
    pub fn new() -> (state: Self)
        ensures
            state.session is None,
            state.output() == Seq::<Seq<char>>::empty(),
    {
        SshState { session: None, output_buffer: SshOutputBuffer::new() }
    }

    /// The fragments held, oldest first.
    pub open spec fn output(&self) -> Seq<Seq<char>> {
        self.output_buffer@
    }

    /// Add output to the buffer.
    pub fn add_output(&mut self, output: String)
        ensures
            final(self).output() == keep_recent(
                old(self).output().push(output@),
                OUTPUT_LIMIT as nat,
            ),
            final(self).output().len() <= OUTPUT_LIMIT,
            final(self).session == old(self).session,
    {
        self.output_buffer.add(output);
    }

    /// Get the last `lines` fragments, oldest first.
    pub fn get_recent_output(&self, lines: usize) -> (fragments: Vec<String>)
        ensures
            texts(fragments@) == keep_recent(self.output(), lines as nat),
    {
        self.output_buffer.recent(lines)
    }

    /// The number of fragments held.
    pub fn output_len(&self) -> (count: usize)
        ensures
            count == self.output().len(),
            count <= OUTPUT_LIMIT,
    {
        self.output_buffer.len()
    }
}

/// One piece of content of a tool result: a text.
#[derive(Debug, Clone)]
pub struct Content {
    pub text: String,
}

impl Content {
    /// A text content.
    pub fn text(text: String) -> (content: Self)
        ensures
            content.text == text,
    {
        Content { text }
    }
}

/// What a tool call answers.
#[derive(Debug, Clone)]
pub struct CallToolResult {
    /// The content returned by the tool.
    pub content: Vec<Content>,
    /// Whether this result represents an error condition.
    pub is_error: Option<bool>,
}

impl CallToolResult {
    /// A successful result.
    pub fn success(content: Vec<Content>) -> (result: Self)
        ensures
            result.content == content,
            result.is_error == Some(false),
    {
        CallToolResult { content, is_error: Some(false) }
    }

    /// An error result.
    pub fn error(content: Vec<Content>) -> (result: Self)
        ensures
            result.content == content,
            result.is_error == Some(true),
    {
        CallToolResult { content, is_error: Some(true) }
    }

    /// The result consists of the single text `text` and is marked as an
    /// error or not as `is_error` says.
    pub open spec fn says(self, text: Seq<char>, is_error: bool) -> bool {
        &&& self.content@.len() == 1
        &&& self.content@[0].text@ == text
        &&& self.is_error == Some(is_error)
    }

    fn reply(text: String, is_error: bool) -> (result: Self)
        ensures
            result.says(text@, is_error),
    {
        let mut content = Vec::new();
        content.push(Content::text(text));
        if is_error {
            CallToolResult::error(content)
        } else {
            CallToolResult::success(content)
        }
    }
}

/// Name and version under which the server introduces itself.
#[derive(Debug, Clone)]
pub struct ServerInfo {
    pub name: String,
    pub version: String,
}

/// A tool as published by `tools/list`. The parameter schema published with
/// it is that of the parameter type of `kind`.
#[derive(Debug, Clone)]
pub struct Tool {
    pub name: String,
    pub title: Option<String>,
    pub description: Option<String>,
    pub kind: ToolKind,
}

/// What a [`Tool`] holds, as plain values.
pub ghost struct ToolView {
    pub name: Seq<char>,
    pub title: Option<Seq<char>>,
    pub description: Option<Seq<char>>,
    pub kind: ToolKind,
}

impl View for Tool {
    type V = ToolView;

    open spec fn view(&self) -> ToolView {
        ToolView {
            name: self.name@,
            title: match self.title {
                Some(title) => Some(title@),
                None => None,
            },
            description: match self.description {
                Some(description) => Some(description@),
                None => None,
            },
            kind: self.kind,
        }
    }
}

/// The tools of the server, in the order in which they are published.
pub open spec fn published_tools() -> Seq<ToolView> {
    seq![
        ToolView {
            name: "ssh_connect"@,
            title: None,
            description: Some(
                "Connect to a remote SSH server. Must be called before executing commands."@,
            ),
            kind: ToolKind::Connect,
        },
        ToolView {
            name: "ssh_execute"@,
            title: Some("SSH Execute (requires approval)"@),
            description: Some(
                "Execute a command on the connected SSH server. Requires user approval."@,
            ),
            kind: ToolKind::Execute,
        },
        ToolView {
            name: "ssh_read_output"@,
            title: None,
            description: Some("Read recent output from the SSH terminal session."@),
            kind: ToolKind::ReadOutput,
        },
    ]
}

/// Which tool a name calls, if any.
pub open spec fn tool_named(name: Seq<char>) -> Option<ToolKind> {
    if name == "ssh_connect"@ {
        Some(ToolKind::Connect)
    } else if name == "ssh_execute"@ {
        Some(ToolKind::Execute)
    } else if name == "ssh_read_output"@ {
        Some(ToolKind::ReadOutput)
    } else {
        None
    }
}

/// Where a call of a tool by name leads.
pub enum ToolCall {
    /// The name is that of a tool; its parameters are read next.
    Known(ToolKind),
    /// No tool has that name: the call is answered at once.
    Unknown(CallToolResult),
}

/// How `ssh_connect` goes on once its parameters are read.
pub enum ConnectPlan {
    /// The parameters were not acceptable.
    Reply(CallToolResult),
    /// Connect with this configuration, then report the outcome.
    Connect(SshConfig),
}

/// A command that awaits the operator's verdict.
pub struct ExecuteTicket {
    approval_id: u128,
    command: String,
    timeout_seconds: u64,
    wait_for_output: bool,
}

impl ExecuteTicket {
    /// The identifier of the approval request.
    pub closed spec fn spec_approval_id(&self) -> u128 {
        self.approval_id
    }

    /// The command to be run.
    pub closed spec fn spec_command(&self) -> Seq<char> {
        self.command@
    }

    /// Seconds to wait for the verdict.
    pub closed spec fn spec_timeout_seconds(&self) -> u64 {
        self.timeout_seconds
    }

    /// Whether output is read after the command was sent.
    pub closed spec fn spec_wait_for_output(&self) -> bool {
        self.wait_for_output
    }

    /// The identifier of the approval request.
    pub fn approval_id(&self) -> (id: u128)
        ensures
            id == self.spec_approval_id(),
    {
        self.approval_id
    }

    /// The command to be run.
    pub fn command(&self) -> (command: &str)
        ensures
            command@ == self.spec_command(),
    {
        self.command.as_str()
    }

    /// Seconds to wait for the verdict.
    pub fn timeout_seconds(&self) -> (seconds: u64)
        ensures
            seconds == self.spec_timeout_seconds(),
    {
        self.timeout_seconds
    }

    /// Whether output is read after the command was sent.
    pub fn wait_for_output(&self) -> (wait: bool)
        ensures
            wait == self.spec_wait_for_output(),
    {
        self.wait_for_output
    }

    /// `ssh_execute`, third part: the command was written, or could not be.
    pub fn written(&self, outcome: &Result<(), String>) -> (next: AfterWrite)
        ensures
            match *outcome {
                Err(detail) => next matches AfterWrite::Reply(result) && result.says(
                    "Command execution failed: "@ + detail@,
                    true,
                ),
                Ok(_) => if self.spec_wait_for_output() {
                    next matches AfterWrite::ReadOutput { delay_millis } && delay_millis
                        == OUTPUT_DELAY_MILLIS
                } else {
                    next matches AfterWrite::Reply(result) && result.says(
                        "Command sent successfully."@,
                        false,
                    )
                },
            },
    {
        match outcome {
            Err(detail) => {
                let mut text = String::from_str("Command execution failed: ");
                text.append(detail.as_str());
                AfterWrite::Reply(CallToolResult::reply(text, true))
            },
            Ok(_) => {
                if self.wait_for_output {
                    AfterWrite::ReadOutput { delay_millis: OUTPUT_DELAY_MILLIS }
                } else {
                    AfterWrite::Reply(
                        CallToolResult::reply(String::from_str("Command sent successfully."), false),
                    )
                }
            },
        }
    }
}

/// How `ssh_execute` goes on once its parameters are read.
pub enum ExecutePlan {
    /// The call is answered at once; nothing was asked of the operator.
    Reply(CallToolResult),
    /// Approval was requested: wait on `verdict` for as long as the ticket
    /// allows, then report how the wait ended.
    AwaitVerdict { ticket: ExecuteTicket, verdict: oneshot::Receiver<bool> },
}

/// How `ssh_execute` goes on once the wait for the verdict is over.
pub enum ExecuteNext {
    /// The call is answered; nothing is written to the shell.
    Reply(CallToolResult),
    /// Send the request, which writes the command line to the shell, then
    /// report the outcome.
    Write { request: ChannelRequest, ticket: ExecuteTicket },
}

/// How `ssh_execute` goes on once the command was written.
pub enum AfterWrite {
    /// The call is answered.
    Reply(CallToolResult),
    /// Wait for `delay_millis`, read the shell once, then report what came.
    ReadOutput { delay_millis: u64 },
}

/// What is written to the shell over a whole `ssh_execute` call: the command
/// line, once, where a channel is installed and the operator approved;
/// nothing in every other case.
pub open spec fn execute_writes(connected: bool, waited: Waited, command: Seq<char>) -> Seq<
    Seq<char>,
> {
    if connected && waited == Waited::Verdict(true) {
        seq![command_line(command)]
    } else {
        Seq::empty()
    }
}

/// The answer to an `ssh_execute` call that ends without a write.
pub open spec fn refusal_text(waited: Waited) -> Seq<char> {
    match waited {
        Waited::Verdict(true) => "SSH session lost."@,
        Waited::Verdict(false) => "Command rejected by user."@,
        Waited::Closed => "Approval channel closed unexpectedly."@,
        Waited::TimedOut => "Approval timeout - command not executed."@,
    }
}

/// The answer to a successful `ssh_connect` call.
pub open spec fn connected_text(params: SshConnectParams) -> Seq<char> {
    "Successfully connected to "@ + params.username@ + "@"@ + params.host@ + ":"@ + decimal(
        params.port as nat,
    )
}

/// MCP service providing the SSH tools of one session.
pub struct McpSshService<C> {
    pub session_id: u128,
    pub ssh_state: SshState<C>,
    pub approval_channel: ApprovalChannel,
}

fn invalid_parameters(detail: &String) -> (result: CallToolResult)
    ensures
        result.says("Invalid parameters: "@ + detail@, true),
{
    let mut text = String::from_str("Invalid parameters: ");
    text.append(detail.as_str());
    CallToolResult::reply(text, true)
}

impl<C> McpSshService<C> {
    /// Create a new MCP SSH service.
    pub fn new(session_id: u128, approval_channel: ApprovalChannel) -> (service: Self)
        ensures
            service.session_id == session_id,
            service.approval_channel == approval_channel,
            service.ssh_state.session is None,
            service.ssh_state.output() == Seq::<Seq<char>>::empty(),
    {
        McpSshService { session_id, ssh_state: SshState::new(), approval_channel }
    }

    /// Get a reference to the SSH state.
    pub fn get_ssh_state(&self) -> (state: &SshState<C>)
        ensures
            *state == self.ssh_state,
    {
        &self.ssh_state
    }

    /// Whether a channel is installed in the slot.
    pub fn is_connected(&self) -> (connected: bool)
        ensures
            connected == self.ssh_state.session is Some,
    {
        self.ssh_state.session.is_some()
    }

    /// Installs a channel in the slot, replacing any prior one, which is
    /// handed back.
    pub fn install_session(&mut self, session: C) -> (prior: Option<C>)
        ensures
            final(self).ssh_state.session == Some(session),
            prior == old(self).ssh_state.session,
            final(self).ssh_state.output() == old(self).ssh_state.output(),
            final(self).session_id == old(self).session_id,
            final(self).approval_channel == old(self).approval_channel,
    {
        let mut slot = Some(session);
        std::mem::swap(&mut self.ssh_state.session, &mut slot);
        slot
    }

    /// Empties the slot and hands back the channel it held.
    pub fn clear_session(&mut self) -> (prior: Option<C>)
        ensures
            final(self).ssh_state.session is None,
            prior == old(self).ssh_state.session,
            final(self).ssh_state.output() == old(self).ssh_state.output(),
            final(self).session_id == old(self).session_id,
            final(self).approval_channel == old(self).approval_channel,
    {
        let mut slot = None;
        std::mem::swap(&mut self.ssh_state.session, &mut slot);
        slot
    }

    /// Records a fragment of shell output in the buffer.
    pub fn add_output(&mut self, output: String)
        ensures
            final(self).ssh_state.output() == keep_recent(
                old(self).ssh_state.output().push(output@),
                OUTPUT_LIMIT as nat,
            ),
            final(self).ssh_state.session == old(self).ssh_state.session,
            final(self).session_id == old(self).session_id,
            final(self).approval_channel == old(self).approval_channel,
    {
        self.ssh_state.add_output(output);
    }

    /// Get server info for MCP initialization.
    pub fn get_server_info(&self) -> (info: ServerInfo)
        ensures
            info.name@ == "gemini-co-cli-mcp"@,
            info.version@ == "0.1.0"@,
    {
        ServerInfo {
            name: String::from_str("gemini-co-cli-mcp"),
            version: String::from_str("0.1.0"),
        }
    }

    /// List available tools. The list is the same on every call and for
    /// every service.
    pub fn list_tools(&self) -> (tools: Vec<Tool>)
        ensures
            tools@.len() == 3,
            forall|i: int| 0 <= i < 3 ==> (#[trigger] tools@[i])@ == published_tools()[i],
    {
        let mut tools = Vec::new();
        tools.push(
            Tool {
                name: String::from_str("ssh_connect"),
                title: None,
                description: Some(
                    String::from_str(
                        "Connect to a remote SSH server. Must be called before executing commands.",
                    ),
                ),
                kind: ToolKind::Connect,
            },
        );
        tools.push(
            Tool {
                name: String::from_str("ssh_execute"),
                title: Some(String::from_str("SSH Execute (requires approval)")),
                description: Some(
                    String::from_str(
                        "Execute a command on the connected SSH server. Requires user approval.",
                    ),
                ),
                kind: ToolKind::Execute,
            },
        );
        tools.push(
            Tool {
                name: String::from_str("ssh_read_output"),
                title: None,
                description: Some(
                    String::from_str("Read recent output from the SSH terminal session."),
                ),
                kind: ToolKind::ReadOutput,
            },
        );
        tools
    }

    /// Call a tool by name: tells which tool is meant, or answers that there
    /// is none of that name.
    pub fn call_tool(&self, name: &str) -> (call: ToolCall)
        ensures
            match tool_named(name@) {
                Some(kind) => call matches ToolCall::Known(k) && k == kind,
                None => call matches ToolCall::Unknown(result) && result.says(
                    "Unknown tool: "@ + name@,
                    true,
                ),
            },
    {
        if same_text(name, "ssh_connect") {
            ToolCall::Known(ToolKind::Connect)
        } else if same_text(name, "ssh_execute") {
            ToolCall::Known(ToolKind::Execute)
        } else if same_text(name, "ssh_read_output") {
            ToolCall::Known(ToolKind::ReadOutput)
        } else {
            let mut text = String::from_str("Unknown tool: ");
            text.append(name);
            ToolCall::Unknown(CallToolResult::reply(text, true))
        }
    }

    /// `ssh_connect`, first part: from the parameters as read, or the reason
    /// why they could not be read, to the configuration to connect with.
    pub fn tool_ssh_connect(&self, params: &Result<SshConnectParams, String>) -> (plan: ConnectPlan)
        ensures
            match *params {
                Ok(p) => plan matches ConnectPlan::Connect(config) && config.host == p.host
                    && config.port == p.port && config.username == p.username && config.password
                    == p.password && config.private_key == p.private_key,
                Err(detail) => plan matches ConnectPlan::Reply(result) && result.says(
                    "Invalid parameters: "@ + detail@,
                    true,
                ),
            },
    {
        match params {
            Ok(p) => ConnectPlan::Connect(
                SshConfig {
                    host: p.host.clone(),
                    port: p.port,
                    username: p.username.clone(),
                    password: p.password.clone(),
                    private_key: p.private_key.clone(),
                },
            ),
            Err(detail) => ConnectPlan::Reply(invalid_parameters(detail)),
        }
    }

    /// `ssh_connect`, second part: a channel that came up is installed in the
    /// slot, replacing any prior one; a failure leaves the slot as it was.
    pub fn ssh_connected(&mut self, params: &SshConnectParams, outcome: Result<C, String>) -> (result:
        CallToolResult)
        ensures
            final(self).session_id == old(self).session_id,
            final(self).approval_channel == old(self).approval_channel,
            final(self).ssh_state.output() == old(self).ssh_state.output(),
            match outcome {
                Ok(session) => final(self).ssh_state.session == Some(session)
                    && result.says(connected_text(*params), false),
                Err(detail) => final(self).ssh_state.session == old(self).ssh_state.session && result.says("Failed to connect: "@ + detail@, true),
            },
    {
        match outcome {
            Ok(session) => {
                self.install_session(session);
                let mut text = String::from_str("Successfully connected to ");
                text.append(params.username.as_str());
                text.append("@");
                text.append(params.host.as_str());
                text.append(":");
                let port = decimal_text(params.port as u64);
                text.append(port.as_str());
                CallToolResult::reply(text, false)
            },
            Err(detail) => {
                let mut text = String::from_str("Failed to connect: ");
                text.append(detail.as_str());
                CallToolResult::reply(text, true)
            },
        }
    }

    /// `ssh_execute`, first part. Unreadable parameters and an empty slot
    /// are answered at once and nothing is asked of the operator. Otherwise
    /// approval is requested for the command.
    pub fn tool_ssh_execute(&mut self, params: Result<SshExecuteParams, String>) -> (plan:
        ExecutePlan)
        ensures
            final(self).session_id == old(self).session_id,
            final(self).ssh_state == old(self).ssh_state,
            match params {
                Err(detail) => {
                    &&& plan matches ExecutePlan::Reply(result) && result.says(
                        "Invalid parameters: "@ + detail@,
                        true,
                    )
                    &&& final(self).approval_channel == old(self).approval_channel
                },
                Ok(p) => if old(self).ssh_state.session is None {
                    &&& plan matches ExecutePlan::Reply(result) && result.says(
                        "SSH not connected. Call ssh_connect first."@,
                        true,
                    )
                    &&& final(self).approval_channel == old(self).approval_channel
                } else {
                    &&& plan matches ExecutePlan::AwaitVerdict { ticket, verdict }
                        && ticket.spec_command() == p.command@ && ticket.spec_timeout_seconds()
                        == p.timeout_seconds && ticket.spec_wait_for_output() == p.wait_for_output
                        && final(self).approval_channel@ == old(self).approval_channel@.request(
                        ticket.spec_approval_id(),
                        p.command@,
                    ) && final(self).approval_channel.waiters().contains_key(
                        ticket.spec_approval_id(),
                    ) && resolves(
                        final(self).approval_channel.waiters()[ticket.spec_approval_id()],
                        verdict,
                    ) && final(self).approval_channel.waiters() == old(
                        self,
                    ).approval_channel.waiters().insert(
                        ticket.spec_approval_id(),
                        final(self).approval_channel.waiters()[ticket.spec_approval_id()],
                    )
                    &&& final(self).approval_channel.handed() == old(self).approval_channel.handed()
                    &&& final(self).approval_channel.broadcaster() == old(
                        self,
                    ).approval_channel.broadcaster()
                },
            },
    {
        let p = match params {
            Ok(p) => p,
            Err(detail) => {
                return ExecutePlan::Reply(invalid_parameters(&detail));
            },
        };
        if self.ssh_state.session.is_none() {
            return ExecutePlan::Reply(
                CallToolResult::reply(
                    String::from_str("SSH not connected. Call ssh_connect first."),
                    true,
                ),
            );
        }
        let (approval_id, verdict) = self.approval_channel.request_approval(p.command.clone());
        ExecutePlan::AwaitVerdict {
            ticket: ExecuteTicket {
                approval_id,
                command: p.command,
                timeout_seconds: p.timeout_seconds,
                wait_for_output: p.wait_for_output,
            },
            verdict,
        }
    }

    /// `ssh_execute`, second part: the wait for the verdict is over.
    ///
    /// The command line is written exactly when the operator approved and a
    /// channel is still installed. A rejection, a timeout and a lost channel
    /// are answered as errors and nothing is written.
    pub fn ssh_execute_decided(&mut self, ticket: ExecuteTicket, waited: Waited) -> (next:
        ExecuteNext)
        ensures
            final(self).session_id == old(self).session_id,
            final(self).ssh_state == old(self).ssh_state,
            final(self).approval_channel@ == ApprovalChannel::spec_after_wait(
                old(self).approval_channel@,
                ticket.spec_approval_id(),
                waited,
            ),
            final(self).approval_channel.broadcaster() == old(self).approval_channel.broadcaster(),
            final(self).approval_channel.handed() == old(self).approval_channel.handed(),
            final(self).approval_channel.waiters() == (if waited is Verdict {
                old(self).approval_channel.waiters()
            } else {
                old(self).approval_channel.waiters().remove(ticket.spec_approval_id())
            }),
            Self::writes_of(next) == execute_writes(
                old(self).ssh_state.session is Some,
                waited,
                ticket.spec_command(),
            ),
            next is Write <==> old(self).ssh_state.session is Some && waited == Waited::Verdict(
                true,
            ),
            next matches ExecuteNext::Write { request, ticket: t } ==> t == ticket && request.is(
                ChannelOpView::Data { data: command_line(ticket.spec_command()) },
                "Failed to send command"@,
            ),
            next matches ExecuteNext::Reply(result) ==> result.says(
                refusal_text(waited),
                true,
            ),
    {
        let outcome = self.approval_channel.wait_for_approval(ticket.approval_id, waited);
        match outcome {
            Ok(true) => {
                if self.ssh_state.session.is_some() {
                    let request = command_request(ticket.command.clone());
                    ExecuteNext::Write { request, ticket }
                } else {
                    ExecuteNext::Reply(
                        CallToolResult::reply(String::from_str("SSH session lost."), true),
                    )
                }
            },
            Ok(false) => ExecuteNext::Reply(
                CallToolResult::reply(String::from_str("Command rejected by user."), true),
            ),
            Err(ApprovalError::ChannelClosed) => ExecuteNext::Reply(
                CallToolResult::reply(
                    String::from_str("Approval channel closed unexpectedly."),
                    true,
                ),
            ),
            Err(ApprovalError::Timeout) => ExecuteNext::Reply(
                CallToolResult::reply(
                    String::from_str("Approval timeout - command not executed."),
                    true,
                ),
            ),
        }
    }

    /// The writes that a step asks for.
    pub open spec fn writes_of(next: ExecuteNext) -> Seq<Seq<char>> {
        match next {
            ExecuteNext::Write { request, .. } => match request.op@ {
                ChannelOpView::Data { data } => seq![data],
                _ => Seq::empty(),
            },
            ExecuteNext::Reply(_) => Seq::empty(),
        }
    }

    /// `ssh_execute`, last part: what the shell gave after the command. A
    /// fragment is recorded in the buffer and passed on in the answer.
    pub fn ssh_execute_output(&mut self, outcome: Result<Option<String>, String>) -> (result:
        CallToolResult)
        ensures
            final(self).session_id == old(self).session_id,
            final(self).approval_channel == old(self).approval_channel,
            final(self).ssh_state.session == old(self).ssh_state.session,
            match outcome {
                Ok(Some(output)) => {
                    &&& result.says("Command executed successfully.\nOutput:\n"@ + output@, false)
                    &&& final(self).ssh_state.output() == keep_recent(
                        old(self).ssh_state.output().push(output@),
                        OUTPUT_LIMIT as nat,
                    )
                },
                Ok(None) => {
                    &&& result.says("Command executed successfully. No immediate output."@, false)
                    &&& final(self).ssh_state.output() == old(self).ssh_state.output()
                },
                Err(detail) => {
                    &&& result.says(
                        "Command executed but failed to read output: "@ + detail@,
                        false,
                    )
                    &&& final(self).ssh_state.output() == old(self).ssh_state.output()
                },
            },
    {
        match outcome {
            Ok(Some(output)) => {
                let mut text = String::from_str("Command executed successfully.\nOutput:\n");
                text.append(output.as_str());
                self.ssh_state.add_output(output);
                CallToolResult::reply(text, false)
            },
            Ok(None) => CallToolResult::reply(
                String::from_str("Command executed successfully. No immediate output."),
                false,
            ),
            Err(detail) => {
                let mut text = String::from_str("Command executed but failed to read output: ");
                text.append(detail.as_str());
                CallToolResult::reply(text, false)
            },
        }
    }

    /// `ssh_read_output`: the last `lines` fragments of the buffer, joined
    /// with nothing between them, or a note that there is none.
    pub fn tool_ssh_read_output(&self, params: &Result<SshReadOutputParams, String>) -> (result:
        CallToolResult)
        ensures
            match *params {
                Err(detail) => result.says("Invalid parameters: "@ + detail@, true),
                Ok(p) => {
                    let recent = keep_recent(self.ssh_state.output(), p.lines as nat);
                    if recent.len() == 0 {
                        result.says("No recent output available."@, false)
                    } else {
                        result.says(joined(recent), false)
                    }
                },
            },
    {
        match params {
            Err(detail) => invalid_parameters(detail),
            Ok(p) => {
                let output = self.ssh_state.get_recent_output(p.lines);
                if output.len() == 0 {
                    CallToolResult::reply(String::from_str("No recent output available."), false)
                } else {
                    CallToolResult::reply(join_all(&output), false)
                }
            },
        }
    }
}

} // verus!
