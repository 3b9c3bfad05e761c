use gemini_co_cli::server::{SshOutputBuffer, SshState, OUTPUT_LIMIT};
use gemini_co_cli::text::{decimal_text, join_all, same_text};

#[test]
fn buffer_starts_empty() {
    let buffer = SshOutputBuffer::new();
    assert_eq!(buffer.len(), 0);
    assert!(buffer.recent(10).is_empty());
}

#[test]
fn buffer_keeps_insertion_order() {
    let mut buffer = SshOutputBuffer::new();
    buffer.add("a".to_string());
    buffer.add("b".to_string());
    buffer.add("c".to_string());
    assert_eq!(buffer.recent(2), vec!["b".to_string(), "c".to_string()]);
    assert_eq!(buffer.recent(3), vec!["a".to_string(), "b".to_string(), "c".to_string()]);
    assert_eq!(buffer.recent(50), vec!["a".to_string(), "b".to_string(), "c".to_string()]);
    assert!(buffer.recent(0).is_empty());
}

#[test]
fn buffer_never_exceeds_bound() {
    assert_eq!(OUTPUT_LIMIT, 100);
    let mut buffer = SshOutputBuffer::new();
    for i in 0..250 {
        buffer.add(format!("line {}", i));
        assert!(buffer.len() <= 100);
    }
    assert_eq!(buffer.len(), 100);
    let all = buffer.recent(1000);
    assert_eq!(all.len(), 100);
    assert_eq!(all[0], "line 150");
    assert_eq!(all[99], "line 249");
}

#[test]
fn buffer_at_exact_bound_drops_one() {
    let mut buffer = SshOutputBuffer::new();
    for i in 0..100 {
        buffer.add(format!("{}", i));
    }
    assert_eq!(buffer.len(), 100);
    assert_eq!(buffer.recent(100)[0], "0");
    buffer.add("100".to_string());
    assert_eq!(buffer.len(), 100);
    assert_eq!(buffer.recent(100)[0], "1");
    assert_eq!(buffer.recent(1), vec!["100".to_string()]);
}

#[test]
fn ssh_state_buffers_output() {
    let mut state: SshState<u8> = SshState::new();
    assert!(state.session.is_none());
    state.add_output("one".to_string());
    state.add_output("two".to_string());
    assert_eq!(state.output_len(), 2);
    assert_eq!(state.get_recent_output(1), vec!["two".to_string()]);
    assert_eq!(state.get_recent_output(5), vec!["one".to_string(), "two".to_string()]);
}

#[test]
fn decimal_text_values() {
    assert_eq!(decimal_text(0), "0");
    assert_eq!(decimal_text(7), "7");
    assert_eq!(decimal_text(10), "10");
    assert_eq!(decimal_text(22), "22");
    assert_eq!(decimal_text(65535), "65535");
    assert_eq!(decimal_text(u64::MAX), "18446744073709551615");
}

#[test]
fn join_all_concatenates() {
    assert_eq!(join_all(&vec![]), "");
    assert_eq!(join_all(&vec!["ab".to_string(), "".to_string(), "cd\n".to_string()]), "abcd\n");
}

#[test]
fn same_text_compares() {
    assert!(same_text("tools/list", "tools/list"));
    assert!(!same_text("tools/list", "tools/call"));
    assert!(same_text("", ""));
}
