use logos_scaffold::config::{Config, FrameworkConfig, FrameworkIdlConfig, LocalnetConfig, RepoRef};
use logos_scaffold::reset::{ResetAction, ResetError, ResetEvent, ResetRun};
use logos_scaffold::status::Project;

fn make_test_project(root: &str) -> Project {
    Project {
        root: root.to_string(),
        config: Config {
            version: "1.0.0".to_string(),
            cache_root: format!("{root}/.scaffold/cache"),
            lssa: RepoRef {
                url: "".to_string(),
                source: "".to_string(),
                path: format!("{root}/.scaffold/cache/repos/lez"),
                pin: "".to_string(),
            },
            wallet_home_dir: ".scaffold/wallet".to_string(),
            localnet: LocalnetConfig { port: 3040, risc0_dev_mode: false },
            framework: FrameworkConfig {
                kind: "".to_string(),
                version: "".to_string(),
                idl: FrameworkIdlConfig { spec: "".to_string(), path: "".to_string() },
            },
        },
    }
}

/// Runs the reset against scripted step reports; returns every action asked
/// for, every line printed and the outcome.
fn drive(run: &mut ResetRun, events: Vec<ResetEvent>) -> (Vec<ResetAction>, Vec<String>) {
    let mut actions = vec![run.next_action()];
    let mut notes = Vec::new();
    for e in events {
        notes.extend(run.advance(&e));
        actions.push(run.next_action());
    }
    (actions, notes)
}

fn outcome(actions: &[ResetAction]) -> Option<Option<ResetError>> {
    match actions.last() {
        Some(ResetAction::Finish(r)) => Some(r.clone()),
        _ => None,
    }
}

#[test]
fn reset_keep_wallet_skips_wallet_deletion() {
    let project = make_test_project("/tmp/t");
    let mut run = ResetRun::begin(&project, true);
    let (actions, notes) = drive(
        &mut run,
        vec![ResetEvent::Completed, ResetEvent::Completed, ResetEvent::Completed, ResetEvent::Failed("setup failed".to_string())],
    );
    let wallet = "/tmp/t/.scaffold/wallet".to_string();
    assert!(!actions.contains(&ResetAction::RemoveDir(wallet)));
    assert!(!actions.contains(&ResetAction::RemoveFile("/tmp/t/.scaffold/state/wallet.state".to_string())));
    assert!(notes.contains(&"skipping wallet deletion (--keep-wallet)".to_string()));
}

#[test]
fn reset_missing_rocksdb_is_not_an_error() {
    let project = make_test_project("/tmp/t");
    let mut run = ResetRun::begin(&project, true);
    let (actions, notes) = drive(
        &mut run,
        vec![ResetEvent::Completed, ResetEvent::NotFound, ResetEvent::NotFound, ResetEvent::Failed("setup: no git".to_string())],
    );
    assert_eq!(actions[1], ResetAction::RemoveDir("/tmp/t/.scaffold/cache/repos/lez/rocksdb".to_string()));
    assert_eq!(notes[0], "sequencer DB not found at /tmp/t/.scaffold/cache/repos/lez/rocksdb; skipping deletion");
    let err_str = outcome(&actions).unwrap().unwrap().message();
    assert!(!err_str.contains("failed to delete sequencer DB"), "reset should not error on missing rocksdb: {err_str}");
}

#[test]
fn reset_missing_wallet_is_not_an_error() {
    let project = make_test_project("/tmp/t");
    let mut run = ResetRun::begin(&project, false);
    let (actions, notes) = drive(
        &mut run,
        vec![
            ResetEvent::Completed,
            ResetEvent::Completed,
            ResetEvent::NotFound,
            ResetEvent::NotFound,
            ResetEvent::Completed,
            ResetEvent::Failed("setup: no git".to_string()),
        ],
    );
    assert_eq!(actions[2], ResetAction::RemoveDir("/tmp/t/.scaffold/wallet".to_string()));
    assert_eq!(actions[3], ResetAction::RemoveFile("/tmp/t/.scaffold/state/wallet.state".to_string()));
    assert_eq!(notes[0], "wallet not found at /tmp/t/.scaffold/wallet; skipping deletion");
    assert_eq!(notes[1], "wallet state not found at /tmp/t/.scaffold/state/wallet.state; skipping deletion");
    let err_str = outcome(&actions).unwrap().unwrap().message();
    assert!(!err_str.contains("failed to delete wallet"), "reset should not error on missing wallet: {err_str}");
}

#[test]
fn reset_verification_poll_timeout_returns_blocks_not_produced_error() {
    let project = make_test_project("/tmp/t");
    let mut run = ResetRun::begin(&project, true);
    let (actions, _) = drive(
        &mut run,
        vec![
            ResetEvent::Completed,
            ResetEvent::Completed,
            ResetEvent::Completed,
            ResetEvent::Completed,
            ResetEvent::Completed,
            ResetEvent::Completed,
            ResetEvent::Completed,
            ResetEvent::Unreachable,
            ResetEvent::Completed,
            ResetEvent::DeadlinePassed,
        ],
    );
    let err = outcome(&actions).unwrap().unwrap();
    let err_str = err.message();
    assert!(
        err_str.contains("not producing blocks") || err_str.contains("verification poll failed"),
        "expected a reset-related error, got: {err_str}"
    );
    assert_eq!(err, ResetError::BlocksNotProduced);
}

#[test]
fn full_reset_runs_steps_in_order() {
    let project = make_test_project("/w");
    let mut run = ResetRun::begin(&project, false);
    let (actions, notes) = drive(
        &mut run,
        vec![
            ResetEvent::Completed,
            ResetEvent::Completed,
            ResetEvent::Completed,
            ResetEvent::Completed,
            ResetEvent::Completed,
            ResetEvent::Completed,
            ResetEvent::Completed,
            ResetEvent::Completed,
            ResetEvent::Completed,
            ResetEvent::BlockHeight(0),
            ResetEvent::Completed,
            ResetEvent::Completed,
            ResetEvent::BlockHeight(17),
        ],
    );
    assert_eq!(
        actions,
        vec![
            ResetAction::StopSequencer,
            ResetAction::RemoveDir("/w/.scaffold/cache/repos/lez/rocksdb".to_string()),
            ResetAction::RemoveDir("/w/.scaffold/wallet".to_string()),
            ResetAction::RemoveFile("/w/.scaffold/state/wallet.state".to_string()),
            ResetAction::RemoveFile("/w/.scaffold/state/localnet.state".to_string()),
            ResetAction::RunSetup,
            ResetAction::StartSequencer {
                lez: "/w/.scaffold/cache/repos/lez".to_string(),
                state_path: "/w/.scaffold/state/localnet.state".to_string(),
                log_path: "/w/.scaffold/logs/sequencer.log".to_string(),
                timeout_sec: 20,
                port: 3040,
                risc0_dev_mode: false,
            },
            ResetAction::StartClock { secs: 30 },
            ResetAction::CheckDeadline,
            ResetAction::PollLastBlock,
            ResetAction::Sleep { millis: 500 },
            ResetAction::CheckDeadline,
            ResetAction::PollLastBlock,
            ResetAction::Finish(None),
        ]
    );
    assert_eq!(notes, vec!["localnet reset complete; sequencer producing blocks (block_height=17)"]);
}

#[test]
fn failures_carry_their_messages() {
    let project = make_test_project("/w");
    let mut run = ResetRun::begin(&project, false);
    let (actions, _) = drive(&mut run, vec![ResetEvent::Completed, ResetEvent::Failed("permission denied".to_string())]);
    assert_eq!(
        outcome(&actions),
        Some(Some(ResetError::DeletionFailed {
            context: "failed to delete sequencer DB at /w/.scaffold/cache/repos/lez/rocksdb".to_string(),
            cause: "permission denied".to_string(),
        }))
    );
    assert_eq!(
        outcome(&actions).unwrap().unwrap().message(),
        "failed to delete sequencer DB at /w/.scaffold/cache/repos/lez/rocksdb"
    );
    let mut run = ResetRun::begin(&project, true);
    let events = vec![ResetEvent::Completed; 8];
    let (_, _) = drive(&mut run, events);
    let notes = run.advance(&ResetEvent::Failed("HTTP 500".to_string()));
    assert!(notes.is_empty());
    let e = ResetError::VerificationPollFailed("HTTP 500".to_string());
    assert_eq!(run.next_action(), ResetAction::Finish(Some(e.clone())));
    assert_eq!(e.message(), "verification poll failed: HTTP 500");
    assert_eq!(
        ResetError::BlocksNotProduced.message(),
        "sequencer started but is not producing blocks after 30s.\nCheck 'logos-scaffold localnet logs --tail 200' for errors.\nRun 'logos-scaffold localnet status' for diagnostics."
    );
}
