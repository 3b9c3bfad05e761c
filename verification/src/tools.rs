//! The tools offered to the assistant: their parameters with the documented
//! defaults, and the catalogue that describes them.

use vstd::prelude::*;

verus! {

/// Parameters for the `ssh_connect` tool.
#[derive(Debug, Clone)]
pub struct SshConnectParams {
    /// SSH server hostname or IP address.
    pub host: String,
    /// SSH server port (default: 22).
    pub port: u16,
    /// Username for SSH authentication.
    pub username: String,
    /// Password for authentication (optional if using key).
    pub password: Option<String>,
    /// Private key content for key-based authentication.
    pub private_key: Option<String>,
}

/// The port used when none is given.
pub fn default_port() -> (port: u16)
    ensures
        port == 22,
{
    22
}

/// Parameters for the `ssh_execute` tool.
#[derive(Debug, Clone)]
pub struct SshExecuteParams {
    /// Command to execute on the remote SSH server.
    pub command: String,
    /// Seconds to wait for the operator's approval (default: 30).
    pub timeout_seconds: u64,
    /// Whether to wait for and return command output (default: true).
    pub wait_for_output: bool,
}

/// The approval timeout, in seconds, used when none is given.
pub fn default_timeout() -> (seconds: u64)
    ensures
        seconds == 30,
{
    30
}

/// Whether output is waited for when the caller does not say.
pub fn default_wait() -> (wait: bool)
    ensures
        wait,
{
    true
}

/// Parameters for the `ssh_read_output` tool.
#[derive(Debug, Clone)]
pub struct SshReadOutputParams {
    /// Number of recent fragments to retrieve (default: 50).
    pub lines: usize,
}

/// The number of fragments read back when none is given.
pub fn default_lines() -> (lines: usize)
    ensures
        lines == 50,
{
    50
}

impl SshConnectParams {
    /// Parameters from what a caller supplied, the port defaulted.
    pub fn with_defaults(
        host: String,
        port: Option<u16>,
        username: String,
        password: Option<String>,
        private_key: Option<String>,
    ) -> (params: Self)
        ensures
            params.host == host,
            params.port == (if port is Some {
                port->0
            } else {
                22
            }),
            params.username == username,
            params.password == password,
            params.private_key == private_key,
    {
        let port = match port {
            Some(given) => given,
            None => default_port(),
        };
        SshConnectParams { host, port, username, password, private_key }
    }
}

impl SshExecuteParams {
    /// Parameters from what a caller supplied, the rest defaulted.
    pub fn with_defaults(command: String, timeout_seconds: Option<u64>, wait_for_output: Option<
        bool,
    >) -> (params: Self)
        ensures
            params.command == command,
            params.timeout_seconds == (if timeout_seconds is Some {
                timeout_seconds->0
            } else {
                30
            }),
            params.wait_for_output == (if wait_for_output is Some {
                wait_for_output->0
            } else {
                true
            }),
    {
        let timeout_seconds = match timeout_seconds {
            Some(given) => given,
            None => default_timeout(),
        };
        let wait_for_output = match wait_for_output {
            Some(given) => given,
            None => default_wait(),
        };
        SshExecuteParams { command, timeout_seconds, wait_for_output }
    }
}

impl SshReadOutputParams {
    /// Parameters from what a caller supplied, the count defaulted.
    pub fn with_defaults(lines: Option<usize>) -> (params: Self)
        ensures
            params.lines == (if lines is Some {
                lines->0
            } else {
                50
            }),
    {
        let lines = match lines {
            Some(given) => given,
            None => default_lines(),
        };
        SshReadOutputParams { lines }
    }
}

/// Response status for the `ssh_execute` tool.
#[derive(Debug, Clone, Copy, PartialEq, Eq, Structural)]
pub enum ExecuteStatus {
    /// Command is awaiting user approval.
    AwaitingApproval,
    /// Command was approved and executed.
    Executed,
    /// Command was rejected by user.
    Rejected,
    /// An error occurred.
    Error,
}

impl ExecuteStatus {
    /// The name of the status on the wire, in snake case.
    pub open spec fn spec_wire_name(self) -> Seq<char> {
        match self {
            ExecuteStatus::AwaitingApproval => "awaiting_approval"@,
            ExecuteStatus::Executed => "executed"@,
            ExecuteStatus::Rejected => "rejected"@,
            ExecuteStatus::Error => "error"@,
        }
    }

    /// The name of the status on the wire, in snake case.
    pub fn wire_name(&self) -> (name: &'static str)
        ensures
            name@ == self.spec_wire_name(),
    {
        match self {
            ExecuteStatus::AwaitingApproval => "awaiting_approval",
            ExecuteStatus::Executed => "executed",
            ExecuteStatus::Rejected => "rejected",
            ExecuteStatus::Error => "error",
        }
    }
}

/// Response for the `ssh_execute` tool.
#[derive(Debug, Clone)]
pub struct ExecuteResponse {
    pub status: ExecuteStatus,
    pub output: Option<String>,
    pub error: Option<String>,
}

/// The three tools.
#[derive(Debug, Clone, Copy, PartialEq, Eq, Structural)]
pub enum ToolKind {
    /// `ssh_connect`
    Connect,
    /// `ssh_execute`
    Execute,
    /// `ssh_read_output`
    ReadOutput,
}

impl ToolKind {
    /// The name under which the tool is called.
    pub open spec fn spec_name(self) -> Seq<char> {
        match self {
            ToolKind::Connect => "ssh_connect"@,
            ToolKind::Execute => "ssh_execute"@,
            ToolKind::ReadOutput => "ssh_read_output"@,
        }
    }

    /// The name under which the tool is called.
    pub fn name(&self) -> (name: &'static str)
        ensures
            name@ == self.spec_name(),
    {
        match self {
            ToolKind::Connect => "ssh_connect",
            ToolKind::Execute => "ssh_execute",
            ToolKind::ReadOutput => "ssh_read_output",
        }
    }
}

/// Tool definition for the MCP protocol. The parameter schema published with
/// it is that of the parameter type of `kind`.
#[derive(Debug, Clone)]
pub struct ToolDefinition {
    pub name: String,
    pub description: String,
    pub kind: ToolKind,
}

/// What a [`ToolDefinition`] holds, as plain values.
pub ghost struct ToolDefinitionView {
    pub name: Seq<char>,
    pub description: Seq<char>,
    pub kind: ToolKind,
}

impl View for ToolDefinition {
    type V = ToolDefinitionView;

    open spec fn view(&self) -> ToolDefinitionView {
        ToolDefinitionView { name: self.name@, description: self.description@, kind: self.kind }
    }
}

/// The catalogue: one definition per tool, in the order in which they are
/// published.
pub open spec fn tool_definitions() -> Seq<ToolDefinitionView> {
    seq![
        ToolDefinitionView {
            name: "ssh_connect"@,
            description: "Connect to a remote SSH server. Must be called before executing commands."@,
            kind: ToolKind::Connect,
        },
        ToolDefinitionView {
            name: "ssh_execute"@,
            description: "Execute a command on the connected SSH server. Requires user approval before execution."@,
            kind: ToolKind::Execute,
        },
        ToolDefinitionView {
            name: "ssh_read_output"@,
            description: "Read recent output from the SSH terminal session."@,
            kind: ToolKind::ReadOutput,
        },
    ]
}

/// Generate tool definitions for the MCP server.
pub fn get_tool_definitions() -> (definitions: Vec<ToolDefinition>)
    ensures
        definitions@.len() == 3,
        forall|i: int| 0 <= i < 3 ==> (#[trigger] definitions@[i])@ == tool_definitions()[i],
{
    let mut definitions = Vec::new();
    definitions.push(
        ToolDefinition {
            name: String::from_str("ssh_connect"),
            description: String::from_str(
                "Connect to a remote SSH server. Must be called before executing commands.",
            ),
            kind: ToolKind::Connect,
        },
    );
    definitions.push(
        ToolDefinition {
            name: String::from_str("ssh_execute"),
            description: String::from_str(
                "Execute a command on the connected SSH server. Requires user approval before execution.",
            ),
            kind: ToolKind::Execute,
        },
    );
    definitions.push(
        ToolDefinition {
            name: String::from_str("ssh_read_output"),
            description: String::from_str("Read recent output from the SSH terminal session."),
            kind: ToolKind::ReadOutput,
        },
    );
    definitions
}

} // verus!
