use gemini_co_cli::gemini::{
    ChildPoll, CredentialSource, GeminiTerminal, ParentEnv, PtySize, SpawnFailure, INITIAL_COLS,
    INITIAL_ROWS, PROGRAM,
};

fn parent(term: Option<&str>, api_key: Option<&str>) -> ParentEnv {
    ParentEnv {
        term: term.map(|t| t.to_string()),
        api_key: api_key.map(|k| k.to_string()),
        home: Some("/home/op".to_string()),
        xdg_config_home: None,
        path: Some("/usr/bin:/bin".to_string()),
    }
}

fn pair(name: &str, value: &str) -> (String, String) {
    (name.to_string(), value.to_string())
}

#[test]
fn spawn_plans_program_and_size() {
    let (_terminal, plan) = GeminiTerminal::spawn(None, parent(None, None));
    assert_eq!(PROGRAM, "gemini");
    assert_eq!(plan.program, "gemini");
    assert_eq!(INITIAL_ROWS, 24);
    assert_eq!(INITIAL_COLS, 80);
    assert_eq!(plan.size, PtySize { rows: 24, cols: 80, pixel_width: 0, pixel_height: 0 });
}

#[test]
fn term_is_inherited_or_defaulted() {
    let (_t, plan) = GeminiTerminal::spawn(None, parent(Some("screen"), None));
    assert_eq!(plan.env[0], pair("TERM", "screen"));
    let (_t, plan) = GeminiTerminal::spawn(None, parent(None, None));
    assert_eq!(plan.env[0], pair("TERM", "xterm-256color"));
}

#[test]
fn session_credential_dominates_environment() {
    let (_t, plan) =
        GeminiTerminal::spawn(Some("session-key".to_string()), parent(None, Some("env-key")));
    assert_eq!(plan.credential, CredentialSource::Session);
    assert_eq!(
        plan.env,
        vec![
            pair("TERM", "xterm-256color"),
            pair("GEMINI_API_KEY", "session-key"),
            pair("HOME", "/home/op"),
            pair("PATH", "/usr/bin:/bin"),
        ]
    );
}

#[test]
fn environment_credential_is_used_without_session_credential() {
    let (_t, plan) = GeminiTerminal::spawn(None, parent(None, Some("env-key")));
    assert_eq!(plan.credential, CredentialSource::Environment);
    assert_eq!(plan.env[1], pair("GEMINI_API_KEY", "env-key"));
}

#[test]
fn empty_credentials_count_as_absent() {
    let (_t, plan) = GeminiTerminal::spawn(Some(String::new()), parent(None, Some("env-key")));
    assert_eq!(plan.credential, CredentialSource::Environment);
    assert_eq!(plan.env[1], pair("GEMINI_API_KEY", "env-key"));
    let (_t, plan) = GeminiTerminal::spawn(Some(String::new()), parent(None, Some("")));
    assert_eq!(plan.credential, CredentialSource::Absent);
    assert_eq!(
        plan.env,
        vec![
            pair("TERM", "xterm-256color"),
            pair("HOME", "/home/op"),
            pair("PATH", "/usr/bin:/bin"),
        ]
    );
    let (_t, plan) = GeminiTerminal::spawn(None, parent(None, None));
    assert_eq!(plan.credential, CredentialSource::Absent);
}

#[test]
fn all_inherited_variables_in_order() {
    let env = ParentEnv {
        term: Some("vt100".to_string()),
        api_key: None,
        home: Some("/root".to_string()),
        xdg_config_home: Some("/root/.config".to_string()),
        path: Some("/bin".to_string()),
    };
    let (_t, plan) = GeminiTerminal::spawn(Some("k".to_string()), env);
    assert_eq!(
        plan.env,
        vec![
            pair("TERM", "vt100"),
            pair("GEMINI_API_KEY", "k"),
            pair("HOME", "/root"),
            pair("XDG_CONFIG_HOME", "/root/.config"),
            pair("PATH", "/bin"),
        ]
    );
    let bare = ParentEnv { term: None, api_key: None, home: None, xdg_config_home: None, path: None };
    let (_t, plan) = GeminiTerminal::spawn(None, bare);
    assert_eq!(plan.env, vec![pair("TERM", "xterm-256color")]);
}

#[test]
fn take_writer_succeeds_at_most_once() {
    let (mut terminal, _plan) = GeminiTerminal::spawn(None, parent(None, None));
    assert!(terminal.take_writer());
    assert!(!terminal.take_writer());
    terminal.resize(100, 30);
    assert!(!terminal.is_running(ChildPoll::Failed));
    assert!(!terminal.take_writer());
}

#[test]
fn is_running_follows_the_poll() {
    let (mut terminal, _plan) = GeminiTerminal::spawn(None, parent(None, None));
    assert!(terminal.is_running(ChildPoll::Running));
    assert!(!terminal.is_running(ChildPoll::Failed));
    assert!(!terminal.is_running(ChildPoll::Exited { success: true }));
    assert!(!terminal.is_running(ChildPoll::Exited { success: false }));
}

#[test]
fn resize_has_no_pixel_geometry() {
    let (mut terminal, _plan) = GeminiTerminal::spawn(None, parent(None, None));
    assert_eq!(
        terminal.resize(132, 43),
        PtySize { rows: 43, cols: 132, pixel_width: 0, pixel_height: 0 }
    );
    assert_eq!(
        terminal.resize(0, 65535),
        PtySize { rows: 65535, cols: 0, pixel_width: 0, pixel_height: 0 }
    );
}

#[test]
fn spawn_failures_have_their_messages() {
    assert_eq!(SpawnFailure::OpenPty.message(), "Failed to create PTY");
    assert_eq!(
        SpawnFailure::SpawnCommand.message(),
        "Failed to spawn gemini CLI. Is it installed?"
    );
}
