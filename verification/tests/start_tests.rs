use logos_scaffold::start::{LocalnetError, StartAction, StartEvent, StartRun};

fn run() -> StartRun {
    StartRun::begin("/p/lez", "/p/.scaffold/state/localnet.state", "/p/.scaffold/logs/sequencer.log", 20, 3040, true)
}

fn step(r: &mut StartRun, e: StartEvent) -> Vec<String> {
    r.advance(&e)
}

#[test]
fn fresh_start_until_ready() {
    let mut r = run();
    assert_eq!(r.next_action(), StartAction::EnsureLezDir("/p/lez".to_string()));
    step(&mut r, StartEvent::Completed);
    assert_eq!(r.next_action(), StartAction::CheckBinary("/p/lez/target/release/sequencer_runner".to_string()));
    step(&mut r, StartEvent::Completed);
    assert_eq!(r.next_action(), StartAction::ReadTrackedPid("/p/.scaffold/state/localnet.state".to_string()));
    step(&mut r, StartEvent::TrackedPid(None));
    assert_eq!(r.next_action(), StartAction::QueryListenerPid(3040));
    step(&mut r, StartEvent::ListenerPid(None));
    assert_eq!(r.next_action(), StartAction::ProbePort(3040));
    step(&mut r, StartEvent::PortOpen(false));
    assert_eq!(r.next_action(), StartAction::PatchPort {
            config_path: "/p/lez/sequencer_runner/configs/debug/sequencer_config.json".to_string(),
            port: 3040,
        });
    step(&mut r, StartEvent::Completed);
    assert_eq!(r.next_action(), StartAction::Spawn { lez: "/p/lez".to_string(), risc0_dev_mode: true });
    step(&mut r, StartEvent::Spawned(900));
    assert_eq!(r.next_action(), StartAction::WriteState { path: "/p/.scaffold/state/localnet.state".to_string(), pid: 900 });
    step(&mut r, StartEvent::Completed);
    assert_eq!(r.next_action(), StartAction::StartClock { secs: 20 });
    step(&mut r, StartEvent::Completed);
    assert_eq!(r.next_action(), StartAction::ProbeReadiness { pid: 900, port: 3040 });
    step(&mut r, StartEvent::Readiness { running: true, port_open: false, past_deadline: false });
    assert_eq!(r.next_action(), StartAction::Sleep { millis: 200 });
    step(&mut r, StartEvent::Completed);
    let notes = step(&mut r, StartEvent::Readiness { running: true, port_open: true, past_deadline: false });
    assert_eq!(notes, vec!["localnet ready (sequencer pid=900)"]);
    assert_eq!(r.next_action(), StartAction::Finish(None));
}

#[test]
fn running_tracked_sequencer_is_awaited_not_respawned() {
    let mut r = run();
    step(&mut r, StartEvent::Completed);
    step(&mut r, StartEvent::Completed);
    step(&mut r, StartEvent::TrackedPid(Some(5)));
    assert_eq!(r.next_action(), StartAction::ProbeRunning(5));
    step(&mut r, StartEvent::Running(true));
    assert_eq!(r.next_action(), StartAction::StartClock { secs: 20 });
    step(&mut r, StartEvent::Completed);
    step(&mut r, StartEvent::Readiness { running: false, port_open: false, past_deadline: false });
    assert_eq!(r.next_action(), StartAction::ReadLogTail { path: "/p/.scaffold/logs/sequencer.log".to_string(), lines: 60 });
    step(&mut r, StartEvent::LogTail("boom".to_string()));
    let expected = LocalnetError::ExitedBeforeReady { pid: 5, log_tail: "boom".to_string() };
    assert_eq!(r.next_action(), StartAction::Finish(Some(expected.clone())));
    assert_eq!(expected.message(), "sequencer process exited before becoming ready (pid=5)\nlast logs:\nboom");
}

#[test]
fn stale_state_is_cleared_then_port_conflict_refused() {
    let mut r = run();
    step(&mut r, StartEvent::Completed);
    step(&mut r, StartEvent::Completed);
    step(&mut r, StartEvent::TrackedPid(Some(5)));
    step(&mut r, StartEvent::Running(false));
    assert_eq!(r.next_action(), StartAction::RemoveStateFile("/p/.scaffold/state/localnet.state".to_string()));
    step(&mut r, StartEvent::NotFound);
    step(&mut r, StartEvent::ListenerPid(Some(31)));
    step(&mut r, StartEvent::PortOpen(true));
    let e = LocalnetError::PortInUse { port: 3040, pid: Some(31) };
    assert_eq!(r.next_action(), StartAction::Finish(Some(e.clone())));
    assert_eq!(
        e.message(),
        "cannot start localnet: port 3040 is already in use (pid=31)\nThis may be a sequencer started from another project and may not work with the current project.\nStop that process and retry `logos-scaffold localnet start`.\nTry: kill 31"
    );
    let e = LocalnetError::PortInUse { port: 3040, pid: None };
    assert!(e.message().starts_with("cannot start localnet: port 3040 is already in use (pid=unknown)"));
    assert!(e.message().ends_with("`logos-scaffold localnet start`."));
}

#[test]
fn timeout_of_fresh_sequencer_cleans_up() {
    let mut r = StartRun::begin("lez", "state", "log", 0, 4000, false);
    step(&mut r, StartEvent::Completed);
    step(&mut r, StartEvent::Completed);
    step(&mut r, StartEvent::TrackedPid(None));
    step(&mut r, StartEvent::ListenerPid(None));
    step(&mut r, StartEvent::PortOpen(false));
    step(&mut r, StartEvent::Completed);
    step(&mut r, StartEvent::Spawned(10));
    step(&mut r, StartEvent::Completed);
    assert_eq!(r.next_action(), StartAction::StartClock { secs: 1 });
    step(&mut r, StartEvent::Completed);
    step(&mut r, StartEvent::Readiness { running: true, port_open: false, past_deadline: true });
    step(&mut r, StartEvent::LogTail("<no log output yet>".to_string()));
    assert_eq!(r.next_action(), StartAction::CleanUp { pid: 10, state_path: "state".to_string() });
    step(&mut r, StartEvent::Completed);
    let e = LocalnetError::StartTimeout { timeout_sec: 0, pid: 10, log_tail: "<no log output yet>".to_string() };
    assert_eq!(r.next_action(), StartAction::Finish(Some(e.clone())));
    assert_eq!(e.message(), "localnet start timed out after 0s (pid=10)\nlast logs:\n<no log output yet>");
}

#[test]
fn missing_binary_is_reported_with_its_path() {
    let mut r = run();
    step(&mut r, StartEvent::Completed);
    step(&mut r, StartEvent::NotFound);
    let e = LocalnetError::MissingSequencerBinary { path: "/p/lez/target/release/sequencer_runner".to_string() };
    assert_eq!(r.next_action(), StartAction::Finish(Some(e.clone())));
    assert_eq!(e.message(), "missing sequencer binary at /p/lez/target/release/sequencer_runner; run `logos-scaffold setup`");
}

#[test]
fn unexpected_events_are_ignored() {
    let mut r = run();
    let before = r.clone();
    step(&mut r, StartEvent::Spawned(1));
    assert_eq!(r, before);
}
