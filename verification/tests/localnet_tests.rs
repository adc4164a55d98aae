use logos_scaffold::localnet::{
    exit_wait_message, log_tail, log_view, outside_stop_lines, status_lines, stop_plan, StopStep,
    EXIT_POLL_MILLIS, STOP_EXIT_TIMEOUT_MILLIS,
};
use logos_scaffold::status::{build_status_report, LocalnetProbe};

fn report(tracked_pid: Option<u32>, running: bool, listening: bool, listener: Option<u32>) -> logos_scaffold::status::LocalnetStatusReport {
    build_status_report(
        &LocalnetProbe { tracked_pid, tracked_running: running, listener_present: listening, listener_pid: listener },
        ".scaffold/logs/sequencer.log",
        "127.0.0.1:3040",
    )
}

#[test]
fn status_text_of_managed_localnet() {
    let lines = status_lines(&report(Some(12), true, true, Some(12)), "127.0.0.1:3040");
    assert_eq!(
        lines,
        vec![
            "tracked sequencer: pid=12 running=true",
            "listener 127.0.0.1:3040: reachable (pid=12)",
            "ownership: managed",
            "ready: true",
        ]
    );
}

#[test]
fn status_text_of_stopped_localnet() {
    let lines = status_lines(&report(None, false, false, None), "127.0.0.1:3040");
    assert_eq!(
        lines,
        vec![
            "tracked sequencer: not tracked",
            "listener 127.0.0.1:3040: not reachable",
            "ownership: stopped",
            "ready: false",
            "next steps:",
            "- Run `logos-scaffold localnet start`",
        ]
    );
}

#[test]
fn status_text_with_unknown_listener_pid() {
    let lines = status_lines(&report(Some(3), false, true, None), "127.0.0.1:3040");
    assert_eq!(lines[1], "listener 127.0.0.1:3040: reachable (pid=unknown)");
    assert_eq!(lines[2], "ownership: stale_state");
    assert_eq!(lines.len(), 7);
}

#[test]
fn stop_kills_a_running_tracked_sequencer() {
    let plan = stop_plan(&report(Some(77), true, true, Some(77)), "127.0.0.1:3040");
    assert_eq!(
        plan,
        vec![
            StopStep::Say("$ kill 77 # sequencer".to_string()),
            StopStep::Kill(77),
            StopStep::AwaitExit { pid: 77, timeout_ms: 5000 },
            StopStep::RemoveStateFile,
            StopStep::Say("localnet stopped".to_string()),
        ]
    );
}

#[test]
fn stop_clears_stale_state_without_killing() {
    let plan = stop_plan(&report(Some(77), false, false, None), "127.0.0.1:3040");
    assert_eq!(
        plan,
        vec![
            StopStep::Say("sequencer state is stale (pid=77 not running)".to_string()),
            StopStep::RemoveStateFile,
            StopStep::Say("localnet stopped".to_string()),
        ]
    );
}

#[test]
fn stop_leaves_foreign_listener_alone() {
    let plan = stop_plan(&report(None, false, true, Some(9)), "127.0.0.1:3040");
    assert_eq!(
        plan,
        vec![StopStep::Say(
            "foreign listener detected on 127.0.0.1:3040 (pid=9); not stopping unmanaged process".to_string()
        )]
    );
    let plan = stop_plan(&report(None, false, false, None), "127.0.0.1:3040");
    assert_eq!(plan, vec![StopStep::Say("localnet not running".to_string())]);
}

#[test]
fn stop_outside_project() {
    assert_eq!(
        outside_stop_lines(false, None, None),
        vec!["localnet not running (no listener on 127.0.0.1:3040)"]
    );
    let lines = outside_stop_lines(true, Some(55), Some("sequencer_runner cfg"));
    assert_eq!(lines.len(), 5);
    assert_eq!(lines[0], "listener detected on 127.0.0.1:3040 (pid=55)");
    assert_eq!(lines[3], "listener process: sequencer_runner cfg");
    assert_eq!(lines[4], "Try: kill 55");
    let lines = outside_stop_lines(true, None, None);
    assert_eq!(lines[0], "listener detected on 127.0.0.1:3040 (pid=unknown)");
    assert_eq!(lines[3], "Try: lsof -nP -iTCP:3040 -sTCP:LISTEN");
}

#[test]
fn log_tail_keeps_last_lines() {
    assert_eq!(log_tail(Some("a\nb\r\nc\n"), "x.log", 2), "b\nc");
    assert_eq!(log_tail(Some("a\nb\nc"), "x.log", 60), "a\nb\nc");
    assert_eq!(log_tail(Some(""), "x.log", 60), "<no log output yet>");
    assert_eq!(log_tail(None, "x.log", 60), "<log file missing: x.log>");
    assert_eq!(log_tail(Some("a\nb"), "x.log", 0), "");
}

#[test]
fn log_view_of_logs_command() {
    assert_eq!(log_view(None, "x.log", 5), vec!["log file does not exist yet: x.log"]);
    assert_eq!(log_view(Some(" \n\t\n"), "x.log", 5), vec!["log file is empty: x.log"]);
    assert_eq!(log_view(Some("1\n2\n3\n4\n"), "x.log", 2), vec!["3", "4"]);
    assert_eq!(log_view(Some("1\n\n3"), "x.log", 10), vec!["1", "", "3"]);
}

#[test]
fn stop_waits_for_exit_with_its_message() {
    assert_eq!(STOP_EXIT_TIMEOUT_MILLIS, 5000);
    assert_eq!(EXIT_POLL_MILLIS, 100);
    assert_eq!(exit_wait_message(77), "sequencer (pid=77) is still running after kill");
}
