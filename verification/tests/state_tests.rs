use gemini_co_cli::state::{AppState, Session};

#[test]
fn new_session_is_fresh() {
    let session: Session<String> = Session::new(Some("key".to_string()));
    assert_eq!(session.mcp_service.session_id, session.id);
    assert_eq!(session.gemini_api_key.as_deref(), Some("key"));
    assert!(session.ssh_to_gemini_tx.is_none());
    assert!(!session.get_mcp_service().is_connected());
    assert!(session.get_ssh_context().is_empty());
    assert_eq!(session.get_approval_channel().pending_count(), 0);
}

#[test]
fn session_with_given_id() {
    let session: Session<u32> = Session::with_id(77, None);
    assert_eq!(session.id, 77);
    assert_eq!(session.get_mcp_service().session_id, 77);
    assert!(session.gemini_api_key.is_none());
}

#[test]
fn session_output_is_bounded_and_ordered() {
    let mut session: Session<u32> = Session::with_id(1, None);
    for i in 0..130 {
        session.add_ssh_output(format!("{}", i));
    }
    let context = session.get_ssh_context();
    assert_eq!(context.len(), 100);
    assert_eq!(context[0], "30");
    assert_eq!(context[99], "129");
    assert_eq!(session.mcp_service.get_ssh_state().get_recent_output(2), vec!["128", "129"]);
}

#[test]
fn session_output_is_copied_to_the_assistant() {
    let mut session: Session<u32> = Session::with_id(1, None);
    let (tx, mut rx) = tokio::sync::mpsc::unbounded_channel::<String>();
    session.set_ssh_to_gemini_channel(tx);
    session.add_ssh_output("alice\n".to_string());
    assert_eq!(rx.try_recv().unwrap(), "alice\n");
    assert!(rx.try_recv().is_err());
    assert_eq!(session.get_ssh_context(), vec!["alice\n".to_string()]);
    drop(rx);
    session.add_ssh_output("later\n".to_string());
    assert_eq!(session.get_ssh_context().len(), 2);
}

#[test]
fn registry_create_lookup_remove() {
    let mut state: AppState<String> = AppState::new();
    assert_eq!(state.session_count(), 0);
    let id = state.create_session(Some("k".to_string()));
    assert_eq!(state.session_count(), 1);
    let session = state.get_session(id).unwrap();
    assert_eq!(session.id, id);
    assert_eq!(session.gemini_api_key.as_deref(), Some("k"));
    assert_eq!(state.get_mcp_service(id).unwrap().session_id, id);
    assert!(state.get_session(id ^ 1).is_none());
    assert!(state.get_mcp_service(id ^ 1).is_none());
    let removed = state.remove_session(id).unwrap();
    assert_eq!(removed.id, id);
    assert!(state.get_session(id).is_none());
    assert!(state.get_mcp_service(id).is_none());
    assert_eq!(state.session_count(), 0);
    assert!(state.remove_session(id).is_none());
}

#[test]
fn create_remove_create_yields_distinct_ids() {
    let mut state: AppState<String> = AppState::new();
    let first = state.create_session(None);
    state.remove_session(first);
    let second = state.create_session(None);
    assert_ne!(first, second);
    assert!(state.get_session(first).is_none());
    assert!(state.get_session(second).is_some());
}

#[test]
fn session_is_put_back_under_its_id() {
    let mut state: AppState<String> = AppState::new();
    state.create_session_as(10, None);
    state.create_session_as(11, Some("k".to_string()));
    let mut session = state.remove_session(10).unwrap();
    session.add_ssh_output("hello".to_string());
    session.mcp_service.install_session("chan".to_string());
    state.insert_session(session);
    assert_eq!(state.session_count(), 2);
    let session = state.get_session(10).unwrap();
    assert_eq!(session.get_ssh_context(), vec!["hello".to_string()]);
    assert!(session.mcp_service.is_connected());
    assert!(!state.get_session(11).unwrap().mcp_service.is_connected());
}

#[test]
fn creating_under_a_used_id_replaces_the_session() {
    let mut state: AppState<String> = AppState::new();
    state.create_session_as(10, Some("old".to_string()));
    state.create_session_as(10, Some("new".to_string()));
    assert_eq!(state.session_count(), 1);
    assert_eq!(state.get_session(10).unwrap().gemini_api_key.as_deref(), Some("new"));
}
