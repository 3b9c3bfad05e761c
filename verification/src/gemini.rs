//! The supervisor of the assistant's process under its pseudo-terminal: what
//! it is started with, and the bookkeeping of its writer, window and exit.
//!
//! Opening the terminal, starting the process and polling it are done by the
//! caller, who reads the parent environment and reports what comes back.

use vstd::prelude::*;

verus! {

/// The program that is run under the terminal.
pub const PROGRAM: &'static str = "gemini";

/// Rows of the terminal at start.
pub const INITIAL_ROWS: u16 = 24;

/// Columns of the terminal at start.
pub const INITIAL_COLS: u16 = 80;

/// Dimensions of a terminal window. No pixel geometry is ever given.
#[derive(Debug, Clone, Copy, PartialEq, Eq, Structural)]
pub struct PtySize {
    pub rows: u16,
    pub cols: u16,
    pub pixel_width: u16,
    pub pixel_height: u16,
}

/// What the parent environment holds of the variables that matter, each as
/// found or absent.
pub struct ParentEnv {
    pub term: Option<String>,
    pub api_key: Option<String>,
    pub home: Option<String>,
    pub xdg_config_home: Option<String>,
    pub path: Option<String>,
}

/// Where the credential of the child comes from.
#[derive(Debug, Clone, Copy, PartialEq, Eq, Structural)]
pub enum CredentialSource {
    /// From the session.
    Session,
    /// From the parent environment.
    Environment,
    /// There is none: the child authenticates by its own means.
    Absent,
}

/// What to start the child with.
pub struct SpawnPlan {
    pub program: String,
    pub size: PtySize,
    /// Variables set for the child, in order.
    pub env: Vec<(String, String)>,
    pub credential: CredentialSource,
}

/// A credential that is present and not empty.
pub open spec fn usable(key: Option<String>) -> bool {
    key matches Some(k) && k@.len() > 0
}

/// The credential handed to the child: that of the session where it has a
/// usable one, else that of the parent environment, an empty one counting as
/// absent in both places.
pub open spec fn chosen_credential(session_api_key: Option<String>, parent: ParentEnv) -> Option<
    Seq<char>,
> {
    if usable(session_api_key) {
        Some(session_api_key->0@)
    } else if usable(parent.api_key) {
        Some(parent.api_key->0@)
    } else {
        None
    }
}

/// Where the credential handed to the child comes from.
pub open spec fn credential_source(session_api_key: Option<String>, parent: ParentEnv)
    -> CredentialSource {
    if usable(session_api_key) {
        CredentialSource::Session
    } else if usable(parent.api_key) {
        CredentialSource::Environment
    } else {
        CredentialSource::Absent
    }
}

/// One variable, or none where there is no value for it.
pub open spec fn entry(name: Seq<char>, value: Option<Seq<char>>) -> Seq<(Seq<char>, Seq<char>)> {
    match value {
        Some(v) => seq![(name, v)],
        None => Seq::empty(),
    }
}

/// The text of an optional string.
pub open spec fn text_of(value: Option<String>) -> Option<Seq<char>> {
    match value {
        Some(v) => Some(v@),
        None => None,
    }
}

/// The variables set for the child: `TERM` as inherited or `xterm-256color`,
/// the credential where there is one, and `HOME`, `XDG_CONFIG_HOME` and
/// `PATH` as inherited where they are set.
pub open spec fn child_env(session_api_key: Option<String>, parent: ParentEnv) -> Seq<
    (Seq<char>, Seq<char>),
> {
    seq![
        (
            "TERM"@,
            match parent.term {
                Some(term) => term@,
                None => "xterm-256color"@,
            },
        ),
    ] + entry("GEMINI_API_KEY"@, chosen_credential(session_api_key, parent)) + entry(
        "HOME"@,
        text_of(parent.home),
    ) + entry("XDG_CONFIG_HOME"@, text_of(parent.xdg_config_home)) + entry(
        "PATH"@,
        text_of(parent.path),
    )
}

/// The names and values of a list of variables.
pub open spec fn env_view(env: Seq<(String, String)>) -> Seq<(Seq<char>, Seq<char>)> {
    Seq::new(env.len(), |i: int| (env[i].0@, env[i].1@))
}

/// The step at which the start of the child failed.
#[derive(Debug, Clone, Copy, PartialEq, Eq, Structural)]
pub enum SpawnFailure {
    /// The terminal could not be opened.
    OpenPty,
    /// The program could not be started under it.
    SpawnCommand,
}

impl SpawnFailure {
    /// The error reported for the failure.
    pub open spec fn spec_message(self) -> Seq<char> {
        match self {
            SpawnFailure::OpenPty => "Failed to create PTY"@,
            SpawnFailure::SpawnCommand => "Failed to spawn gemini CLI. Is it installed?"@,
        }
    }

    /// The error reported for the failure.
    pub fn message(&self) -> (text: &'static str)
        ensures
            text@ == self.spec_message(),
    {
        match self {
            SpawnFailure::OpenPty => "Failed to create PTY",
            SpawnFailure::SpawnCommand => "Failed to spawn gemini CLI. Is it installed?",
        }
    }
}

/// What a poll of the child gave.
#[derive(Debug, Clone, Copy, PartialEq, Eq, Structural)]
pub enum ChildPoll {
    /// The child has not exited.
    Running,
    /// The child exited, with success or not.
    Exited { success: bool },
    /// The poll failed.
    Failed,
}

/// Manages an interactive assistant session under a pseudo-terminal.
pub struct GeminiTerminal {
    size: PtySize,
    writer_taken: bool,
    exit: Option<bool>,
}

fn push_entry(env: &mut Vec<(String, String)>, name: &str, value: Option<String>)
    ensures
        env_view(final(env)@) == env_view(old(env)@) + entry(name@, text_of(value)),
{
    if let Some(v) = value {
        env.push((String::from_str(name), v));
    }
}

fn usable_key(key: Option<String>) -> (kept: Option<String>)
    ensures
        kept == (if usable(key) {
            key
        } else {
            None
        }),
{
    match key {
        Some(k) => if k.as_str().is_empty() {
            None
        } else {
            Some(k)
        },
        None => None,
    }
}

impl GeminiTerminal {
    /// The window size last set.
    pub closed spec fn size(&self) -> PtySize {
        self.size
    }

    /// Whether the writer was handed out.
    pub closed spec fn writer_taken(&self) -> bool {
        self.writer_taken
    }

    /// The exit recorded by `is_running`: whether the child ended with
    /// success, or nothing while no exit was seen.
    pub closed spec fn recorded_exit(&self) -> Option<bool> {
        self.exit
    }

    /// Plans the start of the assistant under a new terminal of 80 by 24.
    ///
    /// `session_api_key` is the credential of the session, `parent` what the
    /// parent environment holds.
    pub fn spawn(session_api_key: Option<String>, parent: ParentEnv) -> (started: (
        GeminiTerminal,
        SpawnPlan,
    ))
        ensures
            started.0.size() == (PtySize {
                rows: INITIAL_ROWS,
                cols: INITIAL_COLS,
                pixel_width: 0,
                pixel_height: 0,
            }),
            !started.0.writer_taken(),
            started.0.recorded_exit() is None,
            started.1.program@ == PROGRAM@,
            started.1.size == started.0.size(),
            env_view(started.1.env@) == child_env(session_api_key, parent),
            started.1.credential == credential_source(session_api_key, parent),
    {
        let size = PtySize { rows: INITIAL_ROWS, cols: INITIAL_COLS, pixel_width: 0, pixel_height: 0 };
        let mut env: Vec<(String, String)> = Vec::new();
        let term = match parent.term {
            Some(term) => term,
            None => String::from_str("xterm-256color"),
        };
        env.push((String::from_str("TERM"), term));
        assert(env_view(env@) =~= seq![
            (
                "TERM"@,
                match parent.term {
                    Some(term) => term@,
                    None => "xterm-256color"@,
                },
            ),
        ]);
        let session_key = usable_key(session_api_key);
        let parent_key = usable_key(parent.api_key);
        let (key, credential) = match session_key {
            Some(k) => (Some(k), CredentialSource::Session),
            None => match parent_key {
                Some(k) => (Some(k), CredentialSource::Environment),
                None => (None, CredentialSource::Absent),
            },
        };
        push_entry(&mut env, "GEMINI_API_KEY", key);
        push_entry(&mut env, "HOME", parent.home);
        push_entry(&mut env, "XDG_CONFIG_HOME", parent.xdg_config_home);
        push_entry(&mut env, "PATH", parent.path);
        (
            GeminiTerminal { size, writer_taken: false, exit: None },
            SpawnPlan { program: String::from_str(PROGRAM), size, env, credential },
        )
    }

    /// Check if the child process is still running, from what a poll of it
    /// gave. An exit is recorded; a failed poll counts as not running.
    pub fn is_running(&mut self, polled: ChildPoll) -> (running: bool)
        ensures
            running == (polled == ChildPoll::Running),
            final(self).recorded_exit() == (match polled {
                ChildPoll::Exited { success } => Some(success),
                _ => old(self).recorded_exit(),
            }),
            final(self).size() == old(self).size(),
            final(self).writer_taken() == old(self).writer_taken(),
    {
        match polled {
            ChildPoll::Running => true,
            ChildPoll::Exited { success } => {
                self.exit = Some(success);
                false
            },
            ChildPoll::Failed => false,
        }
    }

    /// Take the writer for the input of the terminal. It is granted to the
    /// first caller and to nobody after.
    pub fn take_writer(&mut self) -> (granted: bool)
        ensures
            granted == !old(self).writer_taken(),
            final(self).writer_taken(),
            final(self).size() == old(self).size(),
            final(self).recorded_exit() == old(self).recorded_exit(),
    {
        let granted = !self.writer_taken;
        self.writer_taken = true;
        granted
    }

    /// Resize the terminal: the size to set, without pixel geometry.
    pub fn resize(&mut self, cols: u16, rows: u16) -> (size: PtySize)
        ensures
            size == (PtySize { rows, cols, pixel_width: 0, pixel_height: 0 }),
            final(self).size() == size,
            final(self).writer_taken() == old(self).writer_taken(),
            final(self).recorded_exit() == old(self).recorded_exit(),
    {
        let size = PtySize { rows, cols, pixel_width: 0, pixel_height: 0 };
        self.size = size;
        size
    }
}

/// One use of a supervisor.
pub ghost enum TerminalOp {
    Poll(ChildPoll),
    TakeWriter,
    Resize { cols: u16, rows: u16 },
}

/// Whether the writer is out after a history of uses of a new supervisor.
pub open spec fn writer_out(ops: Seq<TerminalOp>) -> bool
    decreases ops.len(),
{
    if ops.len() == 0 {
        false
    } else {
        writer_out(ops.drop_last()) || ops.last() is TakeWriter
    }
}

/// How often the writer was granted over a history of uses of a new
/// supervisor: each `TakeWriter` counts that found the writer not yet out.
pub open spec fn writer_grants(ops: Seq<TerminalOp>) -> nat
    decreases ops.len(),
{
    if ops.len() == 0 {
        0
    } else if ops.last() is TakeWriter && !writer_out(ops.drop_last()) {
        writer_grants(ops.drop_last()) + 1
    } else {
        writer_grants(ops.drop_last())
    }
}

/// Over any history of uses, the writer is granted at most once: never
/// before the first `TakeWriter`, and exactly once from then on.
pub proof fn lemma_writer_granted_at_most_once(ops: Seq<TerminalOp>)
    ensures
        writer_grants(ops) <= 1,
        writer_grants(ops) == 1 <==> writer_out(ops),
    decreases ops.len(),
{
    if ops.len() > 0 {
        lemma_writer_granted_at_most_once(ops.drop_last());
    }
}

} // verus!
