//! The SSH channel owner: how a connection is brought up step by step, and
//! what is written to and read from the single shell channel.
//!
//! The network work itself is done by the caller. This module decides what is
//! asked of the server next and what each answer means.

use vstd::prelude::*;
use vstd::utf8::{decode_utf8, valid_utf8};
use crate::text::same_text;

verus! {

/// Where and as whom to connect.
pub struct SshConfig {
    pub host: String,
    pub port: u16,
    pub username: String,
    pub password: Option<String>,
    pub private_key: Option<String>,
}

/// Seconds of silence after which the transport gives up.
pub const INACTIVITY_TIMEOUT_SECS: u64 = 300;

/// Columns of the terminal asked for on connect.
pub const INITIAL_COLS: u32 = 80;

/// Rows of the terminal asked for on connect.
pub const INITIAL_ROWS: u32 = 24;

/// How the key that a server presents is judged.
#[derive(Debug, Clone, Copy, PartialEq, Eq, Structural)]
pub enum HostKeyPolicy {
    /// The first key seen for a server is trusted, with a warning to the
    /// operator, and remembered; later only that key is accepted.
    TrustOnFirstUse,
    /// Every key is accepted, each time with a warning to the operator.
    AcceptAny,
}

impl Default for HostKeyPolicy {
    /// Trust on first use.
    fn default() -> (policy: Self)
        ensures
            policy == HostKeyPolicy::TrustOnFirstUse,
    {
        HostKeyPolicy::TrustOnFirstUse
    }
}

/// What is done about a presented host key.
#[derive(Debug, Clone, Copy, PartialEq, Eq, Structural)]
pub struct HostKeyDecision {
    /// Whether the connection goes on.
    pub accept: bool,
    /// Whether the key is remembered for the server.
    pub remember: bool,
    /// Whether the operator is warned.
    pub warn: bool,
}

/// What each policy makes of the key `presented` by a server for which
/// `known` is remembered.
pub open spec fn host_key_decision(
    policy: HostKeyPolicy,
    known: Option<Seq<char>>,
    presented: Seq<char>,
) -> HostKeyDecision {
    match policy {
        HostKeyPolicy::AcceptAny => HostKeyDecision { accept: true, remember: false, warn: true },
        HostKeyPolicy::TrustOnFirstUse => match known {
            None => HostKeyDecision { accept: true, remember: true, warn: true },
            Some(key) => HostKeyDecision {
                accept: key == presented,
                remember: false,
                warn: key != presented,
            },
        },
    }
}

/// Judges the key that a server presents, by the fingerprint `presented` and
/// the fingerprint `known` for that server, if one is remembered.
pub fn check_host_key(policy: HostKeyPolicy, known: Option<&str>, presented: &str) -> (decision:
    HostKeyDecision)
    ensures
        decision == host_key_decision(
            policy,
            match known {
                Some(key) => Some(key@),
                None => None,
            },
            presented@,
        ),
{
    match policy {
        HostKeyPolicy::AcceptAny => HostKeyDecision { accept: true, remember: false, warn: true },
        HostKeyPolicy::TrustOnFirstUse => match known {
            None => HostKeyDecision { accept: true, remember: true, warn: true },
            Some(key) => {
                let same = same_text(key, presented);
                HostKeyDecision { accept: same, remember: false, warn: !same }
            },
        },
    }
}

/// How far the bring-up of a connection has come.
#[derive(Debug, Clone, Copy, PartialEq, Eq, Structural)]
pub enum ConnectStage {
    /// The transport is being opened.
    Connecting,
    /// The password was offered.
    PasswordOffered,
    /// The private key is being decoded.
    DecodingKey,
    /// The decoded key was offered.
    KeyOffered,
    /// The session channel is being opened.
    OpeningChannel,
    /// The terminal was asked for.
    RequestingPty,
    /// The shell was asked for.
    RequestingShell,
}

/// How the step that was asked for went.
#[derive(Debug, Clone, Copy, PartialEq, Eq, Structural)]
pub enum StepOutcome {
    /// The step went through. `accepted` is the server's answer to an
    /// offered credential and is looked at after such an offer only.
    Done { accepted: bool },
    /// The step failed.
    Failed,
}

/// What is asked of the server next, or how the bring-up ended.
pub enum ConnectAction {
    /// Open the transport.
    OpenTransport { host: String, port: u16, inactivity_timeout_secs: u64 },
    /// Offer the password.
    AuthenticatePassword { username: String, password: String },
    /// Decode the private key, without passphrase.
    DecodeKey { key_data: String },
    /// Offer the key just decoded.
    AuthenticateKey { username: String },
    /// Open a session channel.
    OpenSession,
    /// Ask for a terminal; pixel sizes are zero and no modes are sent.
    RequestPty { term: String, cols: u32, rows: u32 },
    /// Ask for a shell.
    RequestShell,
    /// The shell is up.
    Ready(SshSession),
    /// The bring-up failed.
    Abort { error: String },
}

/// What a [`ConnectAction`] holds, as plain values.
pub ghost enum ConnectActionView {
    OpenTransport { host: Seq<char>, port: u16, inactivity_timeout_secs: u64 },
    AuthenticatePassword { username: Seq<char>, password: Seq<char> },
    DecodeKey { key_data: Seq<char> },
    AuthenticateKey { username: Seq<char> },
    OpenSession,
    RequestPty { term: Seq<char>, cols: u32, rows: u32 },
    RequestShell,
    Ready,
    Abort { error: Seq<char> },
}

impl View for ConnectAction {
    type V = ConnectActionView;

    open spec fn view(&self) -> ConnectActionView {
        match self {
            ConnectAction::OpenTransport { host, port, inactivity_timeout_secs } => {
                ConnectActionView::OpenTransport {
                    host: host@,
                    port: *port,
                    inactivity_timeout_secs: *inactivity_timeout_secs,
                }
            },
            ConnectAction::AuthenticatePassword { username, password } => {
                ConnectActionView::AuthenticatePassword {
                    username: username@,
                    password: password@,
                }
            },
            ConnectAction::DecodeKey { key_data } => ConnectActionView::DecodeKey {
                key_data: key_data@,
            },
            ConnectAction::AuthenticateKey { username } => ConnectActionView::AuthenticateKey {
                username: username@,
            },
            ConnectAction::OpenSession => ConnectActionView::OpenSession,
            ConnectAction::RequestPty { term, cols, rows } => ConnectActionView::RequestPty {
                term: term@,
                cols: *cols,
                rows: *rows,
            },
            ConnectAction::RequestShell => ConnectActionView::RequestShell,
            ConnectAction::Ready(_) => ConnectActionView::Ready,
            ConnectAction::Abort { error } => ConnectActionView::Abort { error: error@ },
        }
    }
}

/// What can be sent on an established channel.
pub enum ChannelOp {
    /// Bytes for the data stream of the channel.
    Data { data: String },
    /// A window change; pixel sizes are zero.
    WindowChange { cols: u32, rows: u32 },
    /// End of input.
    Eof,
    /// Disconnect as "by application".
    Disconnect { description: String, language: String },
}

/// What a [`ChannelOp`] holds, as plain values.
pub ghost enum ChannelOpView {
    Data { data: Seq<char> },
    WindowChange { cols: u32, rows: u32 },
    Eof,
    Disconnect { description: Seq<char>, language: Seq<char> },
}

impl View for ChannelOp {
    type V = ChannelOpView;

    open spec fn view(&self) -> ChannelOpView {
        match self {
            ChannelOp::Data { data } => ChannelOpView::Data { data: data@ },
            ChannelOp::WindowChange { cols, rows } => ChannelOpView::WindowChange {
                cols: *cols,
                rows: *rows,
            },
            ChannelOp::Eof => ChannelOpView::Eof,
            ChannelOp::Disconnect { description, language } => ChannelOpView::Disconnect {
                description: description@,
                language: language@,
            },
        }
    }
}

/// Something to send on the channel, and the error to report if it cannot
/// be sent.
pub struct ChannelRequest {
    pub op: ChannelOp,
    pub on_failure: String,
}

impl ChannelRequest {
    /// The request sends `op` and reports `on_failure` where that fails.
    pub open spec fn is(self, op: ChannelOpView, on_failure: Seq<char>) -> bool {
        self.op@ == op && self.on_failure@ == on_failure
    }
}

/// What the shell is sent for a command: the command and a newline.
pub open spec fn command_line(command: Seq<char>) -> Seq<char> {
    command + "\n"@
}

/// The request that runs a complete command: the command goes out followed
/// by a newline.
pub fn command_request(command: String) -> (request: ChannelRequest)
    ensures
        request.is(ChannelOpView::Data { data: command_line(command@) }, "Failed to send command"@),
{
    let mut data = command;
    data.append("\n");
    ChannelRequest {
        op: ChannelOp::Data { data },
        on_failure: String::from_str("Failed to send command"),
    }
}

/// A message that arrived on the channel.
pub enum ChannelMsg {
    /// Bytes of the data stream.
    Data { data: Vec<u8> },
    /// Bytes of an extended stream, such as standard error.
    ExtendedData { data: Vec<u8>, ext: u32 },
    /// The other side will send no more.
    Eof,
    /// The remote command ended.
    ExitStatus { exit_status: u32 },
    /// Any other message.
    Other,
}

/// What `String::from_utf8_lossy` makes of a byte sequence: its text, with
/// the replacement character in place of each malformed part.
pub uninterp spec fn lossy_utf8(bytes: Seq<u8>) -> Seq<char>;

/// Decodes bytes with `String::from_utf8_lossy`. The result is the one named
/// by [`lossy_utf8`]; well-formed UTF-8 decodes to the text it encodes.
#[verifier::external_body]
pub(crate) fn decode_lossy(bytes: &[u8]) -> (text: String)
    ensures
        text@ == lossy_utf8(bytes@),
        valid_utf8(bytes@) ==> text@ == decode_utf8(bytes@),
{
    String::from_utf8_lossy(bytes).to_string()
}

/// The error text for each stage at which the bring-up can fail.
pub open spec fn failure_text(stage: ConnectStage) -> Seq<char> {
    match stage {
        ConnectStage::Connecting => "Failed to connect to SSH server"@,
        ConnectStage::PasswordOffered => "Failed to authenticate with password"@,
        ConnectStage::DecodingKey => "Failed to decode private key"@,
        ConnectStage::KeyOffered => "Failed to authenticate with public key"@,
        ConnectStage::OpeningChannel => "Failed to open channel"@,
        ConnectStage::RequestingPty => "Failed to request PTY"@,
        ConnectStage::RequestingShell => "Failed to request shell"@,
    }
}

/// The stage and the request that follow a step that went through. There is
/// no next stage once the bring-up has ended.
pub open spec fn next_step(config: SshConfig, stage: ConnectStage, accepted: bool) -> (
    Option<ConnectStage>,
    ConnectActionView,
) {
    match stage {
        ConnectStage::Connecting => {
            if config.password is Some {
                (
                    Some(ConnectStage::PasswordOffered),
                    ConnectActionView::AuthenticatePassword {
                        username: config.username@,
                        password: config.password->0@,
                    },
                )
            } else if config.private_key is Some {
                (
                    Some(ConnectStage::DecodingKey),
                    ConnectActionView::DecodeKey { key_data: config.private_key->0@ },
                )
            } else {
                (
                    None,
                    ConnectActionView::Abort { error: "No authentication method provided"@ },
                )
            }
        },
        ConnectStage::DecodingKey => (
            Some(ConnectStage::KeyOffered),
            ConnectActionView::AuthenticateKey { username: config.username@ },
        ),
        ConnectStage::PasswordOffered | ConnectStage::KeyOffered => {
            if accepted {
                (Some(ConnectStage::OpeningChannel), ConnectActionView::OpenSession)
            } else {
                (
                    None,
                    ConnectActionView::Abort { error: "Authentication failed"@ },
                )
            }
        },
        ConnectStage::OpeningChannel => (
            Some(ConnectStage::RequestingPty),
            ConnectActionView::RequestPty { term: "xterm"@, cols: INITIAL_COLS, rows: INITIAL_ROWS },
        ),
        ConnectStage::RequestingPty => (
            Some(ConnectStage::RequestingShell),
            ConnectActionView::RequestShell,
        ),
        ConnectStage::RequestingShell => (None, ConnectActionView::Ready),
    }
}

/// The stage and the request that follow any outcome of a step.
pub open spec fn connect_transition(config: SshConfig, stage: ConnectStage, outcome: StepOutcome)
    -> (Option<ConnectStage>, ConnectActionView) {
    match outcome {
        StepOutcome::Done { accepted } => next_step(config, stage, accepted),
        StepOutcome::Failed => (
            None,
            ConnectActionView::Abort { error: failure_text(stage) },
        ),
    }
}

/// An established shell channel. Only a bring-up that went through all its
/// steps hands one out.
pub struct SshSession {
    cols: u32,
    rows: u32,
}

fn failure_message(stage: ConnectStage) -> (text: String)
    ensures
        text@ == failure_text(stage),
{
    match stage {
        ConnectStage::Connecting => String::from_str("Failed to connect to SSH server"),
        ConnectStage::PasswordOffered => String::from_str("Failed to authenticate with password"),
        ConnectStage::DecodingKey => String::from_str("Failed to decode private key"),
        ConnectStage::KeyOffered => String::from_str("Failed to authenticate with public key"),
        ConnectStage::OpeningChannel => String::from_str("Failed to open channel"),
        ConnectStage::RequestingPty => String::from_str("Failed to request PTY"),
        ConnectStage::RequestingShell => String::from_str("Failed to request shell"),
    }
}

impl SshSession {
    /// Starts the bring-up of a connection: the transport is opened first.
    pub fn connect(config: &SshConfig) -> (start: (ConnectStage, ConnectAction))
        ensures
            start.0 == ConnectStage::Connecting,
            start.1@ == (ConnectActionView::OpenTransport {
                host: config.host@,
                port: config.port,
                inactivity_timeout_secs: INACTIVITY_TIMEOUT_SECS,
            }),
    {
        (
            ConnectStage::Connecting,
            ConnectAction::OpenTransport {
                host: config.host.clone(),
                port: config.port,
                inactivity_timeout_secs: INACTIVITY_TIMEOUT_SECS,
            },
        )
    }

    /// Continues the bring-up after the step asked for at `stage` ended with
    /// `outcome`.
    ///
    /// A password is offered in preference to a key; a configuration with
    /// neither is refused once the transport is open. After authentication a
    /// session channel is opened, then an `xterm` terminal of 80 by 24 and a
    /// shell are asked for, and all three must succeed.
    pub fn connect_step(config: &SshConfig, stage: ConnectStage, outcome: StepOutcome) -> (next: (
        Option<ConnectStage>,
        ConnectAction,
    ))
        ensures
            (next.0, next.1@) == connect_transition(*config, stage, outcome),
            next.1 matches ConnectAction::Ready(session) ==> session.size() == (
                INITIAL_COLS,
                INITIAL_ROWS,
            ),
    {
        let accepted = match outcome {
            StepOutcome::Failed => {
                return (None, ConnectAction::Abort { error: failure_message(stage) });
            },
            StepOutcome::Done { accepted } => accepted,
        };
        match stage {
            ConnectStage::Connecting => {
                match &config.password {
                    Some(password) => (
                        Some(ConnectStage::PasswordOffered),
                        ConnectAction::AuthenticatePassword {
                            username: config.username.clone(),
                            password: password.clone(),
                        },
                    ),
                    None => {
                        match &config.private_key {
                            Some(key_data) => (
                                Some(ConnectStage::DecodingKey),
                                ConnectAction::DecodeKey { key_data: key_data.clone() },
                            ),
                            None => (
                                None,
                                ConnectAction::Abort {
                                    error: String::from_str("No authentication method provided"),
                                },
                            ),
                        }
                    },
                }
            },
            ConnectStage::DecodingKey => (
                Some(ConnectStage::KeyOffered),
                ConnectAction::AuthenticateKey { username: config.username.clone() },
            ),
            ConnectStage::PasswordOffered | ConnectStage::KeyOffered => {
                if accepted {
                    (Some(ConnectStage::OpeningChannel), ConnectAction::OpenSession)
                } else {
                    (
                        None,
                        ConnectAction::Abort { error: String::from_str("Authentication failed") },
                    )
                }
            },
            ConnectStage::OpeningChannel => (
                Some(ConnectStage::RequestingPty),
                ConnectAction::RequestPty {
                    term: String::from_str("xterm"),
                    cols: INITIAL_COLS,
                    rows: INITIAL_ROWS,
                },
            ),
            ConnectStage::RequestingPty => (
                Some(ConnectStage::RequestingShell),
                ConnectAction::RequestShell,
            ),
            ConnectStage::RequestingShell => (
                None,
                ConnectAction::Ready(SshSession { cols: INITIAL_COLS, rows: INITIAL_ROWS }),
            ),
        }
    }

    /// The window size last asked for, as columns and rows.
    pub closed spec fn size(&self) -> (u32, u32) {
        (self.cols, self.rows)
    }

    /// Send raw input to the terminal, as typed: the bytes go out unchanged.
    pub fn send_input(&self, data: String) -> (request: ChannelRequest)
        ensures
            request.is(ChannelOpView::Data { data: data@ }, "Failed to send input"@),
    {
        ChannelRequest {
            op: ChannelOp::Data { data },
            on_failure: String::from_str("Failed to send input"),
        }
    }

    /// Execute a complete command: the command goes out followed by a
    /// newline.
    pub fn execute_command(&self, command: String) -> (request: ChannelRequest)
        ensures
            request.is(
                ChannelOpView::Data { data: command_line(command@) },
                "Failed to send command"@,
            ),
    {
        command_request(command)
    }

    /// What the next message of the channel, if any, yields as output.
    ///
    /// Data of either stream is decoded as UTF-8, malformed parts replaced.
    /// Every other message, and the end of the channel, yields nothing.
    pub fn read_output(&self, message: Option<ChannelMsg>) -> (output: Option<String>)
        ensures
            output.is_some() == Self::carries_output(message),
            output matches Some(text) ==> text@ == lossy_utf8(Self::payload(message)),
            output matches Some(text) ==> (valid_utf8(Self::payload(message)) ==> text@
                == decode_utf8(Self::payload(message))),
    {
        match message {
            Some(ChannelMsg::Data { data }) => Some(decode_lossy(data.as_slice())),
            Some(ChannelMsg::ExtendedData { data, ext: _ }) => Some(decode_lossy(data.as_slice())),
            Some(ChannelMsg::Eof) => None,
            Some(ChannelMsg::ExitStatus { exit_status: _ }) => None,
            Some(ChannelMsg::Other) => None,
            None => None,
        }
    }

    /// Whether a message carries output.
    pub open spec fn carries_output(message: Option<ChannelMsg>) -> bool {
        message matches Some(m) && (m is Data || m is ExtendedData)
    }

    /// The bytes a message carries, none for a message without output.
    pub open spec fn payload(message: Option<ChannelMsg>) -> Seq<u8> {
        match message {
            Some(ChannelMsg::Data { data }) => data@,
            Some(ChannelMsg::ExtendedData { data, .. }) => data@,
            _ => Seq::empty(),
        }
    }

    /// Change the window size of the terminal.
    pub fn resize(&mut self, width: u32, height: u32) -> (request: ChannelRequest)
        ensures
            request.is(
                ChannelOpView::WindowChange { cols: width, rows: height },
                "Failed to resize terminal"@,
            ),
            final(self).size() == (width, height),
    {
        self.cols = width;
        self.rows = height;
        ChannelRequest {
            op: ChannelOp::WindowChange { cols: width, rows: height },
            on_failure: String::from_str("Failed to resize terminal"),
        }
    }

    /// Close the channel: end of input first, then the disconnect.
    pub fn close(self) -> (requests: Vec<ChannelRequest>)
        ensures
            requests@.len() == 2,
            requests@[0].is(ChannelOpView::Eof, "Failed to close channel"@),
            requests@[1].is(
                ChannelOpView::Disconnect { description: ""@, language: "English"@ },
                "Failed to disconnect"@,
            ),
    {
        let mut requests = Vec::new();
        requests.push(
            ChannelRequest {
                op: ChannelOp::Eof,
                on_failure: String::from_str("Failed to close channel"),
            },
        );
        requests.push(
            ChannelRequest {
                op: ChannelOp::Disconnect {
                    description: String::from_str(""),
                    language: String::from_str("English"),
                },
                on_failure: String::from_str("Failed to disconnect"),
            },
        );
        requests
    }
}

} // verus!
