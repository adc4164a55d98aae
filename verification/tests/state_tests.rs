use logos_scaffold::state::{parse_state_pid, state_file_text};

#[test]
fn state_text_reads_back() {
    for pid in [0u32, 7, 900, 4294967295] {
        let text = state_file_text(pid);
        assert_eq!(text, format!("sequencer_pid={pid}\n"));
        assert_eq!(parse_state_pid(&text), Some(pid));
    }
}

#[test]
fn state_pid_is_read_from_the_first_pid_line() {
    assert_eq!(parse_state_pid("# state\n  sequencer_pid = 12\n"), None);
    assert_eq!(parse_state_pid("# state\n  sequencer_pid= 12 \r\nsequencer_pid=13\n"), Some(12));
    assert_eq!(parse_state_pid("sequencer_pid=+5"), Some(5));
    assert_eq!(parse_state_pid("sequencer_pid=x\nsequencer_pid=3\n"), None);
    assert_eq!(parse_state_pid("sequencer_pid=4294967296\n"), None);
    assert_eq!(parse_state_pid(""), None);
    assert_eq!(parse_state_pid("other=1\n"), None);
}
