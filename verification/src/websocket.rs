//! The bridges between a browser transport and a back end: the frames that
//! travel, and what each arriving frame or back-end event leads to.
//!
//! The transport and the back ends are driven by the caller. It reports each
//! arrival here and carries out the step it is given.

use vstd::prelude::*;
use vstd::utf8::{decode_utf8, valid_utf8};
use crate::approval::{ApprovalChannel, ApprovalEvent};
use crate::ident::{format_uuid, hyphenated, parse_uuid, parsed_id};
use crate::server::{keep_recent, OUTPUT_LIMIT};
use crate::ssh::{decode_lossy, lossy_utf8, SshConfig};
use crate::state::{AppState, Session};

verus! {

/// Request to create a session.
#[derive(Debug)]
pub struct SessionRequest {
    pub session_id: Option<String>,
    /// Optional credential of this session for the assistant.
    pub api_key: Option<String>,
}

/// Answer to a request to create a session.
#[derive(Debug)]
pub struct SessionResponse {
    pub session_id: String,
    pub success: bool,
    pub mcp_url: String,
}

/// Request to create a session and connect it to an SSH server.
#[derive(Debug)]
pub struct SshConnectRequest {
    pub host: String,
    pub port: u16,
    pub username: String,
    pub password: Option<String>,
    pub private_key: Option<String>,
}

/// Answer to a request to connect.
#[derive(Debug)]
pub struct ConnectResponse {
    pub session_id: String,
    pub success: bool,
    pub error: Option<String>,
}

/// Frames of the two terminal transports.
#[derive(Debug)]
pub enum TerminalMessage {
    Input { data: String },
    Resize { width: u32, height: u32 },
    Output { data: String },
    Error { message: String },
}

impl TerminalMessage {
    /// The value of the `type` member of the frame.
    pub open spec fn spec_type_tag(self) -> Seq<char> {
        match self {
            TerminalMessage::Input { .. } => "input"@,
            TerminalMessage::Resize { .. } => "resize"@,
            TerminalMessage::Output { .. } => "output"@,
            TerminalMessage::Error { .. } => "error"@,
        }
    }

    /// The value of the `type` member of the frame.
    pub fn type_tag(&self) -> (tag: &'static str)
        ensures
            tag@ == self.spec_type_tag(),
    {
        match self {
            TerminalMessage::Input { .. } => "input",
            TerminalMessage::Resize { .. } => "resize",
            TerminalMessage::Output { .. } => "output",
            TerminalMessage::Error { .. } => "error",
        }
    }
}

/// Frames of the approval transport.
#[derive(Debug)]
pub enum CommandMessage {
    /// A command is awaiting approval (sent to the front end).
    CommandRequested { approval_id: String, command: String },
    /// A command was approved (sent to the front end).
    CommandApproved { approval_id: String },
    /// A command was rejected (sent to the front end).
    CommandRejected { approval_id: String },
    /// The operator's decision on a command (received from the front end).
    CommandDecision { approval_id: String, approved: bool },
}

impl CommandMessage {
    /// The value of the `type` member of the frame.
    pub open spec fn spec_type_tag(self) -> Seq<char> {
        match self {
            CommandMessage::CommandRequested { .. } => "command_requested"@,
            CommandMessage::CommandApproved { .. } => "command_approved"@,
            CommandMessage::CommandRejected { .. } => "command_rejected"@,
            CommandMessage::CommandDecision { .. } => "command_decision"@,
        }
    }

    /// The value of the `type` member of the frame.
    pub fn type_tag(&self) -> (tag: &'static str)
        ensures
            tag@ == self.spec_type_tag(),
    {
        match self {
            CommandMessage::CommandRequested { .. } => "command_requested",
            CommandMessage::CommandApproved { .. } => "command_approved",
            CommandMessage::CommandRejected { .. } => "command_rejected",
            CommandMessage::CommandDecision { .. } => "command_decision",
        }
    }
}

/// What arrived from the browser.
pub enum Inbound<T> {
    /// A text frame that reads as a message.
    Message(T),
    /// A text frame that does not.
    Unreadable,
    /// A close frame.
    Close,
    /// A frame of another kind.
    Other,
    /// The transport ended.
    Ended,
    /// The transport failed.
    Failed,
}

/// Commands queued for the task that owns the SSH channel.
#[derive(Debug)]
pub enum SshCommand {
    /// Keystrokes, to be sent as they are.
    Input(String),
    /// A complete command, to be sent with a newline after it.
    Execute(String),
    /// A new window size, as columns and rows.
    Resize(u32, u32),
    /// The bridge is closing.
    Close,
}

/// Milliseconds given to the assistant after its start before it is polled.
pub const SPAWN_SETTLE_MILLIS: u64 = 200;

/// Milliseconds the owner of the SSH channel waits for output before it looks
/// at its command queue again, so that queued writes never starve.
pub const READ_SLICE_MILLIS: u64 = 50;

/// Bytes read from the assistant's terminal at a time.
pub const PTY_READ_BUFFER: usize = 4096;

/// Where the tool server of a session is reached.
pub open spec fn mcp_url_of(id: u128) -> Seq<char> {
    "http://localhost:3000/mcp/"@ + hyphenated(id)
}

/// A credential as it is kept: an empty one counts as none.
pub open spec fn kept_credential(api_key: Option<String>) -> Option<String> {
    match api_key {
        Some(key) => if key@.len() == 0 {
            None
        } else {
            Some(key)
        },
        None => None,
    }
}

/// Create a new session with the credential of the request, an empty
/// credential counting as none, and tell where its tool server is reached.
pub fn create_session_handler<C>(state: &mut AppState<C>, request: SessionRequest) -> (response:
    SessionResponse)
    ensures
        response.success,
        parsed_id(response.session_id@) is Some,
        ({
            let id = parsed_id(response.session_id@)->0;
            &&& response.session_id@ == hyphenated(id)
            &&& response.mcp_url@ == mcp_url_of(id)
            &&& final(state)@.contains_key(id)
            &&& final(state)@[id].is_fresh(id, kept_credential(request.api_key))
            &&& final(state)@ == old(state)@.insert(id, final(state)@[id])
        }),
{
    let api_key = match request.api_key {
        Some(key) => if key.as_str().is_empty() {
            None
        } else {
            Some(key)
        },
        None => None,
    };
    let id = state.create_session(api_key);
    let session_id = format_uuid(id);
    let mut mcp_url = String::from_str("http://localhost:3000/mcp/");
    mcp_url.append(session_id.as_str());
    SessionResponse { session_id, success: true, mcp_url }
}

/// Handle an SSH connection request, first part: a session without
/// credential is created, and the configuration to connect with is made from
/// the request.
pub fn ssh_connect_handler<C>(state: &mut AppState<C>, request: SshConnectRequest) -> (plan: (
    u128,
    SshConfig,
))
    ensures
        final(state)@.contains_key(plan.0),
        final(state)@[plan.0].is_fresh(plan.0, None),
        final(state)@ == old(state)@.insert(plan.0, final(state)@[plan.0]),
        plan.1.host == request.host,
        plan.1.port == request.port,
        plan.1.username == request.username,
        plan.1.password == request.password,
        plan.1.private_key == request.private_key,
{
    let id = state.create_session(None);
    let config = SshConfig {
        host: request.host,
        port: request.port,
        username: request.username,
        password: request.password,
        private_key: request.private_key,
    };
    (id, config)
}

/// Handle an SSH connection request, second part. A channel that came up is
/// installed in the slot of the session, if the session is still registered.
/// After a failure the session is removed again and the answer carries the
/// reason and no identifier.
pub fn ssh_connect_finished<C>(state: &mut AppState<C>, id: u128, outcome: Result<C, String>) -> (response:
    ConnectResponse)
    ensures
        match outcome {
            Ok(channel) => {
                &&& response.success
                &&& response.session_id@ == hyphenated(id)
                &&& response.error is None
                &&& if old(state)@.contains_key(id) {
                    &&& final(state)@.contains_key(id)
                    &&& final(state)@ == old(state)@.insert(id, final(state)@[id])
                    &&& final(state)@[id].mcp_service.ssh_state.session == Some(channel)
                    &&& final(state)@[id].mcp_service.ssh_state.output() == old(
                        state,
                    )@[id].mcp_service.ssh_state.output()
                    &&& final(state)@[id].mcp_service.approval_channel == old(
                        state,
                    )@[id].mcp_service.approval_channel
                    &&& final(state)@[id].gemini_api_key == old(state)@[id].gemini_api_key
                    &&& final(state)@[id].ssh_to_gemini_tx == old(state)@[id].ssh_to_gemini_tx
                    &&& final(state)@[id].forwarded == old(state)@[id].forwarded
                } else {
                    final(state)@ == old(state)@
                }
            },
            Err(reason) => {
                &&& !response.success
                &&& response.session_id@.len() == 0
                &&& response.error == Some(reason)
                &&& final(state)@ == old(state)@.remove(id)
            },
        },
{
    match outcome {
        Ok(channel) => {
            if let Some(session) = state.remove_session(id) {
                let mut session = session;
                session.mcp_service.install_session(channel);
                state.insert_session(session);
            }
            ConnectResponse { session_id: format_uuid(id), success: true, error: None }
        },
        Err(reason) => {
            state.remove_session(id);
            ConnectResponse { session_id: String::new(), success: false, error: Some(reason) }
        },
    }
}

/// How the opening of a bridge for a session went.
pub enum BridgeOpen {
    /// The path holds no identifier.
    InvalidId,
    /// No session is registered under the identifier.
    NotFound,
    /// The session the bridge is for.
    Session { id: u128 },
}

/// Finds the session a bridge is opened for, given what the path of the
/// request reads as: the identifier of a session, or nothing.
pub fn open_bridge_for<C>(session: Option<u128>, state: &AppState<C>) -> (open: BridgeOpen)
    ensures
        match session {
            None => open is InvalidId,
            Some(id) => if state@.contains_key(id) {
                open matches BridgeOpen::Session { id: found } && found == id
            } else {
                open is NotFound
            },
        },
{
    match session {
        None => BridgeOpen::InvalidId,
        Some(id) => match state.get_session(id) {
            Some(_) => BridgeOpen::Session { id },
            None => BridgeOpen::NotFound,
        },
    }
}

/// Finds the session a bridge is opened for: the path is read as an
/// identifier and looked up as [`open_bridge_for`] says.
pub fn open_bridge<C>(session_id: &str, state: &AppState<C>) -> (open: BridgeOpen)
    ensures
        match parsed_id(session_id@) {
            None => open is InvalidId,
            Some(id) => if state@.contains_key(id) {
                open matches BridgeOpen::Session { id: found } && found == id
            } else {
                open is NotFound
            },
        },
{
    open_bridge_for(parse_uuid(session_id), state)
}

/// The start of the notice shown when the assistant exited right after its
/// start, up to the address of the tool server.
pub open spec fn exit_notice_head() -> Seq<char> {
    "\x1b[31m✗ Gemini CLI authentication required\x1b[0m\r\n\r\nPlease set GEMINI_API_KEY environment variable:\r\n1. Get an API key from: \x1b[36mhttps://aistudio.google.com/apikey\x1b[0m\r\n2. Set the environment variable in docker-compose.yml:\r\n\x1b[33m- GEMINI_API_KEY=your_api_key_here\x1b[0m\r\n\r\nOr authenticate with OAuth by running:\r\n\x1b[33mdocker-compose exec gemini-co-cli gemini\x1b[0m\r\n\r\nMCP server available for Gemini CLI at:\r\n\x1b[33mhttp://localhost:3000/mcp/"@
}

/// The end of that notice.
pub open spec fn exit_notice_tail() -> Seq<char> {
    "\x1b[0m\r\n\r\n"@
}

/// The single frame sent when the assistant exited right after its start:
/// what to do about it, and where the tool server of the session is reached.
pub fn upstream_exited_notice(session_id: &str) -> (frame: TerminalMessage)
    ensures
        frame matches TerminalMessage::Output { data } && data@ == exit_notice_head() + session_id@
            + exit_notice_tail(),
{
    let mut data = String::from_str(
        "\x1b[31m✗ Gemini CLI authentication required\x1b[0m\r\n\r\nPlease set GEMINI_API_KEY environment variable:\r\n1. Get an API key from: \x1b[36mhttps://aistudio.google.com/apikey\x1b[0m\r\n2. Set the environment variable in docker-compose.yml:\r\n\x1b[33m- GEMINI_API_KEY=your_api_key_here\x1b[0m\r\n\r\nOr authenticate with OAuth by running:\r\n\x1b[33mdocker-compose exec gemini-co-cli gemini\x1b[0m\r\n\r\nMCP server available for Gemini CLI at:\r\n\x1b[33mhttp://localhost:3000/mcp/",
    );
    data.append(session_id);
    data.append("\x1b[0m\r\n\r\n");
    TerminalMessage::Output { data }
}

/// What a read from the assistant's terminal gave.
pub enum PtyRead {
    /// These bytes; none at all means the end of the stream.
    Bytes(Vec<u8>),
    /// The read failed.
    Failed,
}

/// What the output side of a bridge does next.
pub enum OutputStep {
    /// Send the frame; stop if it cannot be sent.
    Send(TerminalMessage),
    /// Stop the bridge.
    Stop,
}

/// The output side of the assistant's bridge: bytes read become an output
/// frame, decoded as UTF-8 with malformed parts replaced; the end of the
/// stream and a failed read stop the bridge.
pub fn pty_output(read: PtyRead) -> (step: OutputStep)
    ensures
        match read {
            PtyRead::Bytes(bytes) => if bytes@.len() > 0 {
                step matches OutputStep::Send(TerminalMessage::Output { data }) && data@
                    == lossy_utf8(bytes@) && (valid_utf8(bytes@) ==> data@ == decode_utf8(bytes@))
            } else {
                step is Stop
            },
            PtyRead::Failed => step is Stop,
        },
{
    match read {
        PtyRead::Bytes(bytes) => {
            if bytes.len() > 0 {
                OutputStep::Send(TerminalMessage::Output { data: decode_lossy(bytes.as_slice()) })
            } else {
                OutputStep::Stop
            }
        },
        PtyRead::Failed => OutputStep::Stop,
    }
}

/// What the input side of the assistant's bridge does next.
pub enum PtyInputStep {
    /// Write the data to the terminal and flush; stop if either fails.
    Write { data: String },
    /// Resize the terminal; go on even if that fails.
    Resize { cols: u16, rows: u16 },
    /// Nothing to do.
    Ignore,
    /// Stop the bridge.
    Stop,
}

/// A window dimension cut down to the 16 bits a terminal takes.
pub open spec fn low_16(value: u32) -> u16 {
    (value % 0x1_0000) as u16
}

/// What a frame on the assistant's bridge leads to.
pub open spec fn pty_input_step(frame: Inbound<TerminalMessage>) -> PtyInputStep {
    match frame {
        Inbound::Message(TerminalMessage::Input { data }) => PtyInputStep::Write { data },
        Inbound::Message(TerminalMessage::Resize { width, height }) => PtyInputStep::Resize {
            cols: low_16(width),
            rows: low_16(height),
        },
        Inbound::Message(_) => PtyInputStep::Ignore,
        Inbound::Unreadable => PtyInputStep::Ignore,
        Inbound::Other => PtyInputStep::Ignore,
        Inbound::Close => PtyInputStep::Stop,
        Inbound::Ended => PtyInputStep::Stop,
        Inbound::Failed => PtyInputStep::Stop,
    }
}

fn cut_to_16(value: u32) -> (cut: u16)
    ensures
        cut == low_16(value),
{
    (value % 0x1_0000) as u16
}

/// The input side of the assistant's bridge: input is written to the
/// terminal, a resize is applied with each dimension cut down to 16 bits,
/// and a close frame, the end of the transport or its failure stop the
/// bridge. Everything else is passed over.
pub fn pty_input(frame: Inbound<TerminalMessage>) -> (step: PtyInputStep)
    ensures
        step == pty_input_step(frame),
{
    match frame {
        Inbound::Message(TerminalMessage::Input { data }) => PtyInputStep::Write { data },
        Inbound::Message(TerminalMessage::Resize { width, height }) => PtyInputStep::Resize {
            cols: cut_to_16(width),
            rows: cut_to_16(height),
        },
        Inbound::Message(_) => PtyInputStep::Ignore,
        Inbound::Unreadable => PtyInputStep::Ignore,
        Inbound::Other => PtyInputStep::Ignore,
        Inbound::Close => PtyInputStep::Stop,
        Inbound::Ended => PtyInputStep::Stop,
        Inbound::Failed => PtyInputStep::Stop,
    }
}

/// Whether the input side goes on after a step was carried out with or
/// without success: a failed write stops it, a failed resize does not.
pub fn pty_input_continues(step: &PtyInputStep, succeeded: bool) -> (goes_on: bool)
    ensures
        goes_on == match *step {
            PtyInputStep::Write { .. } => succeeded,
            PtyInputStep::Resize { .. } => true,
            PtyInputStep::Ignore => true,
            PtyInputStep::Stop => false,
        },
{
    match step {
        PtyInputStep::Write { .. } => succeeded,
        PtyInputStep::Resize { .. } => true,
        PtyInputStep::Ignore => true,
        PtyInputStep::Stop => false,
    }
}

/// What the receiving side of the SSH bridge does with a frame.
pub enum SshInboundStep {
    /// Queue the command; stop afterwards if `then_stop` says so or if the
    /// queue is gone.
    Forward { command: SshCommand, then_stop: bool },
    /// Nothing to do.
    Ignore,
    /// Stop.
    Stop,
}

/// What a frame on the SSH bridge leads to.
pub open spec fn ssh_inbound_step(frame: Inbound<TerminalMessage>) -> SshInboundStep {
    match frame {
        Inbound::Message(TerminalMessage::Input { data }) => SshInboundStep::Forward {
            command: SshCommand::Input(data),
            then_stop: false,
        },
        Inbound::Message(TerminalMessage::Resize { width, height }) => SshInboundStep::Forward {
            command: SshCommand::Resize(width, height),
            then_stop: false,
        },
        Inbound::Message(_) => SshInboundStep::Ignore,
        Inbound::Unreadable => SshInboundStep::Ignore,
        Inbound::Other => SshInboundStep::Ignore,
        Inbound::Close => SshInboundStep::Forward { command: SshCommand::Close, then_stop: true },
        Inbound::Ended => SshInboundStep::Stop,
        Inbound::Failed => SshInboundStep::Stop,
    }
}

/// The receiving side of the SSH bridge: input and resize frames are queued
/// for the task that owns the channel, a close frame queues a close and
/// stops, and the end of the transport or its failure stop at once.
pub fn ssh_inbound(frame: Inbound<TerminalMessage>) -> (step: SshInboundStep)
    ensures
        step == ssh_inbound_step(frame),
{
    match frame {
        Inbound::Message(TerminalMessage::Input { data }) => SshInboundStep::Forward {
            command: SshCommand::Input(data),
            then_stop: false,
        },
        Inbound::Message(TerminalMessage::Resize { width, height }) => SshInboundStep::Forward {
            command: SshCommand::Resize(width, height),
            then_stop: false,
        },
        Inbound::Message(_) => SshInboundStep::Ignore,
        Inbound::Unreadable => SshInboundStep::Ignore,
        Inbound::Other => SshInboundStep::Ignore,
        Inbound::Close => SshInboundStep::Forward { command: SshCommand::Close, then_stop: true },
        Inbound::Ended => SshInboundStep::Stop,
        Inbound::Failed => SshInboundStep::Stop,
    }
}

/// What the task that owns the SSH channel does with a queued command.
pub enum ChannelStep {
    /// Send the data as typed; stop if that fails.
    SendInput { data: String },
    /// Send the command followed by a newline; stop if that fails.
    Execute { command: String },
    /// Change the window size; go on even if that fails.
    Resize { width: u32, height: u32 },
    /// Stop.
    Stop,
}

/// The owning task of the SSH bridge, command arm: what the next command of
/// the queue, or the end of the queue, leads to.
pub fn ssh_command(command: Option<SshCommand>) -> (step: ChannelStep)
    ensures
        step == match command {
            Some(SshCommand::Input(data)) => ChannelStep::SendInput { data },
            Some(SshCommand::Execute(command)) => ChannelStep::Execute { command },
            Some(SshCommand::Resize(width, height)) => ChannelStep::Resize { width, height },
            Some(SshCommand::Close) => ChannelStep::Stop,
            None => ChannelStep::Stop,
        },
{
    match command {
        Some(SshCommand::Input(data)) => ChannelStep::SendInput { data },
        Some(SshCommand::Execute(command)) => ChannelStep::Execute { command },
        Some(SshCommand::Resize(width, height)) => ChannelStep::Resize { width, height },
        Some(SshCommand::Close) => ChannelStep::Stop,
        None => ChannelStep::Stop,
    }
}

/// Whether the owning task goes on after a command step was carried out.
pub fn ssh_command_continues(step: &ChannelStep, succeeded: bool) -> (goes_on: bool)
    ensures
        goes_on == match *step {
            ChannelStep::SendInput { .. } => succeeded,
            ChannelStep::Execute { .. } => succeeded,
            ChannelStep::Resize { .. } => true,
            ChannelStep::Stop => false,
        },
{
    match step {
        ChannelStep::SendInput { .. } => succeeded,
        ChannelStep::Execute { .. } => succeeded,
        ChannelStep::Resize { .. } => true,
        ChannelStep::Stop => false,
    }
}

/// What one turn of the read arm of the SSH bridge gave.
pub enum SshRead {
    /// A fragment of output.
    Output(String),
    /// A message without output.
    Nothing,
    /// The read failed, for this reason.
    Failed(String),
    /// The time slice ran out.
    TimedOut,
}

/// What the owning task does after a turn of the read arm.
pub enum ReadStep {
    /// Send the frame and go on; stop if it cannot be sent.
    Send(TerminalMessage),
    /// Send the frame, whether or not that works, and stop.
    SendAndStop(TerminalMessage),
    /// Go on.
    Continue,
}

/// The owning task of the SSH bridge, read arm. A fragment is recorded in the
/// session's buffer and sent on as an output frame; a failure is sent on as
/// an error frame and ends the bridge; a turn without output changes
/// nothing.
pub fn ssh_read<C>(session: &mut Session<C>, read: SshRead) -> (step: ReadStep)
    ensures
        final(session).id == old(session).id,
        final(session).gemini_api_key == old(session).gemini_api_key,
        final(session).ssh_to_gemini_tx == old(session).ssh_to_gemini_tx,
        final(session).mcp_service.session_id == old(session).mcp_service.session_id,
        final(session).mcp_service.approval_channel == old(session).mcp_service.approval_channel,
        final(session).mcp_service.ssh_state.session == old(session).mcp_service.ssh_state.session,
        match read {
            SshRead::Output(fragment) => {
                &&& step matches ReadStep::Send(TerminalMessage::Output { data }) && data@
                    == fragment@
                &&& final(session).forwarded@ == Session::<C>::forwarded_after(
                    old(session).forwarded@,
                    old(session).ssh_to_gemini_tx,
                    fragment@,
                )
                &&& final(session).mcp_service.ssh_state.output() == keep_recent(
                    old(session).mcp_service.ssh_state.output().push(fragment@),
                    OUTPUT_LIMIT as nat,
                )
            },
            SshRead::Failed(reason) => {
                &&& step matches ReadStep::SendAndStop(TerminalMessage::Error { message })
                    && message@ == reason@
                &&& final(session).forwarded == old(session).forwarded
                &&& final(session).mcp_service.ssh_state.output() == old(
                    session,
                ).mcp_service.ssh_state.output()
            },
            SshRead::Nothing | SshRead::TimedOut => {
                &&& step is Continue
                &&& final(session).forwarded == old(session).forwarded
                &&& final(session).mcp_service.ssh_state.output() == old(
                    session,
                ).mcp_service.ssh_state.output()
            },
        },
{
    match read {
        SshRead::Output(fragment) => {
            session.add_ssh_output(fragment.clone());
            ReadStep::Send(TerminalMessage::Output { data: fragment })
        },
        SshRead::Failed(reason) => ReadStep::SendAndStop(TerminalMessage::Error { message: reason }),
        SshRead::Nothing => ReadStep::Continue,
        SshRead::TimedOut => ReadStep::Continue,
    }
}

/// The frame that carries an approval event to the front end.
pub fn approval_frame(event: ApprovalEvent) -> (frame: CommandMessage)
    ensures
        match event {
            ApprovalEvent::CommandRequested { approval_id, command } => frame
                == (CommandMessage::CommandRequested { approval_id, command }),
            ApprovalEvent::CommandApproved { approval_id } => frame
                == (CommandMessage::CommandApproved { approval_id }),
            ApprovalEvent::CommandRejected { approval_id } => frame
                == (CommandMessage::CommandRejected { approval_id }),
        },
{
    match event {
        ApprovalEvent::CommandRequested { approval_id, command } => {
            CommandMessage::CommandRequested { approval_id, command }
        },
        ApprovalEvent::CommandApproved { approval_id } => CommandMessage::CommandApproved {
            approval_id,
        },
        ApprovalEvent::CommandRejected { approval_id } => CommandMessage::CommandRejected {
            approval_id,
        },
    }
}

/// What became of a frame on the approval bridge.
#[derive(Debug, Clone, Copy, PartialEq, Eq, Structural)]
pub enum DecisionStep {
    /// A decision was submitted and reached the waiting tool call.
    Delivered,
    /// A decision was submitted and found no waiter.
    NotDelivered,
    /// The frame held no decision that could be read.
    Ignored,
    /// The transport ended or failed: stop.
    Stop,
}

/// Whether `step` and the coordinator `after` are what a decision for the
/// identifier `id`, if there is one, makes of the coordinator `before`.
///
/// With an identifier the decision is submitted: a pending request leaves,
/// its verdict is published and handed as given to the sending half kept for
/// it, and the step tells whether the waiter took it. Without one nothing
/// changes and the frame counts as ignored.
pub open spec fn is_decision_step(
    step: DecisionStep,
    before: ApprovalChannel,
    after: ApprovalChannel,
    id: Option<u128>,
    approved: bool,
) -> bool {
    match id {
        Some(id) => {
            &&& after@ == before@.decide(id, approved)
            &&& after.broadcaster() == before.broadcaster()
            &&& after.waiters() == before.waiters().remove(id)
            &&& after.handed() == ApprovalChannel::spec_handed_after(
                before.handed(),
                before.waiters(),
                id,
                approved,
            )
            &&& step == DecisionStep::Delivered || step == DecisionStep::NotDelivered
            &&& !before@.pending.contains_key(id) ==> step == DecisionStep::NotDelivered
        },
        None => after == before && step == DecisionStep::Ignored,
    }
}

/// Submits the decision of a decision frame, given what the identifier in
/// the frame reads as.
pub fn submit_read_decision(channel: &mut ApprovalChannel, id: Option<u128>, approved: bool) -> (step:
    DecisionStep)
    ensures
        is_decision_step(step, *old(channel), *final(channel), id, approved),
{
    match id {
        Some(id) => {
            if channel.submit_decision(id, approved) {
                DecisionStep::Delivered
            } else {
                DecisionStep::NotDelivered
            }
        },
        None => DecisionStep::Ignored,
    }
}

/// The receiving side of the approval bridge. The identifier of a decision
/// frame is read and the decision submitted as [`submit_read_decision`]
/// says; every other frame leaves the coordinator as it is, and the end or
/// failure of the transport stops the bridge.
pub fn approval_inbound(channel: &mut ApprovalChannel, frame: Inbound<CommandMessage>) -> (step:
    DecisionStep)
    ensures
        match frame {
            Inbound::Message(CommandMessage::CommandDecision { approval_id, approved }) => {
                is_decision_step(
                    step,
                    *old(channel),
                    *final(channel),
                    parsed_id(approval_id@),
                    approved,
                )
            },
            _ => {
                &&& *final(channel) == *old(channel)
                &&& step == (if frame is Ended || frame is Failed {
                    DecisionStep::Stop
                } else {
                    DecisionStep::Ignored
                })
            },
        },
{
    match frame {
        Inbound::Message(CommandMessage::CommandDecision { approval_id, approved }) => {
            submit_read_decision(channel, parse_uuid(approval_id.as_str()), approved)
        },
        Inbound::Message(_) => DecisionStep::Ignored,
        Inbound::Unreadable => DecisionStep::Ignored,
        Inbound::Close => DecisionStep::Ignored,
        Inbound::Other => DecisionStep::Ignored,
        Inbound::Ended => DecisionStep::Stop,
        Inbound::Failed => DecisionStep::Stop,
    }
}

} // verus!
