use logos_scaffold::config::{Config, FrameworkConfig, FrameworkIdlConfig, LocalnetConfig, RepoRef};
use logos_scaffold::status::{
    build_localnet_status_for_project, build_status_report, localnet_addr, localnet_paths,
    ownership_label, LocalnetOwnership, LocalnetProbe, Project,
};

fn probe(tracked_pid: Option<u32>, running: bool, listening: bool, listener: Option<u32>) -> LocalnetProbe {
    LocalnetProbe { tracked_pid, tracked_running: running, listener_present: listening, listener_pid: listener }
}

fn project(root: &str, port: u16) -> Project {
    Project {
        root: root.to_string(),
        config: Config {
            version: "1.0.0".to_string(),
            cache_root: "/tmp/cache".to_string(),
            lssa: RepoRef {
                url: "".to_string(),
                source: "".to_string(),
                path: "/p/.scaffold/cache/repos/lssa".to_string(),
                pin: "".to_string(),
            },
            wallet_home_dir: ".scaffold/wallet".to_string(),
            localnet: LocalnetConfig { port, risc0_dev_mode: false },
            framework: FrameworkConfig {
                kind: "".to_string(),
                version: "".to_string(),
                idl: FrameworkIdlConfig { spec: "".to_string(), path: "".to_string() },
            },
        },
    }
}

#[test]
fn managed_and_ready() {
    let r = build_status_report(&probe(Some(42), true, true, Some(42)), "log", "127.0.0.1:3040");
    assert_eq!(r.ownership, LocalnetOwnership::Managed);
    assert!(r.ready);
    assert!(r.remediation.is_empty());
    assert_eq!(r.log_path, "log");
}

#[test]
fn foreign_listener_on_tracked_port() {
    let r = build_status_report(&probe(Some(42), true, true, Some(7)), "log", "127.0.0.1:3040");
    assert_eq!(r.ownership, LocalnetOwnership::Foreign);
    assert!(r.ready);
    assert_eq!(
        r.remediation,
        vec![
            "Stop the external listener on 127.0.0.1:3040 or choose a clean environment".to_string(),
            "Then run `logos-scaffold localnet start`".to_string(),
        ]
    );
}

#[test]
fn running_without_known_listener_pid_is_not_ready_yet() {
    let r = build_status_report(&probe(Some(42), true, true, None), "log", "a");
    assert_eq!(r.ownership, LocalnetOwnership::ManagedNotReady);
    let r = build_status_report(&probe(Some(42), true, false, Some(42)), "log", "a");
    assert_eq!(r.ownership, LocalnetOwnership::ManagedNotReady);
    assert!(!r.ready);
    assert_eq!(r.listener_pid, None);
    assert_eq!(r.remediation.len(), 2);
}

#[test]
fn stale_state_and_stopped() {
    let r = build_status_report(&probe(Some(42), false, true, Some(5)), "log", "a");
    assert_eq!(r.ownership, LocalnetOwnership::StaleState);
    assert!(!r.ready);
    assert_eq!(r.remediation[0], "Run `logos-scaffold localnet stop` to clean stale state");
    let r = build_status_report(&probe(None, true, false, Some(5)), "log", "a");
    assert_eq!(r.ownership, LocalnetOwnership::Stopped);
    assert!(!r.tracked_running);
    assert_eq!(r.remediation, vec!["Run `logos-scaffold localnet start`".to_string()]);
    let r = build_status_report(&probe(None, false, true, None), "log", "a");
    assert_eq!(r.ownership, LocalnetOwnership::Foreign);
}

#[test]
fn labels() {
    assert_eq!(ownership_label(LocalnetOwnership::Managed), "managed");
    assert_eq!(ownership_label(LocalnetOwnership::Foreign), "foreign");
    assert_eq!(ownership_label(LocalnetOwnership::StaleState), "stale_state");
    assert_eq!(ownership_label(LocalnetOwnership::ManagedNotReady), "managed_not_ready");
    assert_eq!(ownership_label(LocalnetOwnership::Stopped), "stopped");
}

#[test]
fn project_status_uses_project_paths_and_port() {
    let p = project("/work/app", 3055);
    let r = build_localnet_status_for_project(&p, &probe(None, false, true, None));
    assert_eq!(r.log_path, "/work/app/.scaffold/logs/sequencer.log");
    assert_eq!(r.remediation[0], "Stop the external listener on 127.0.0.1:3055 or choose a clean environment");
    assert_eq!(localnet_addr(3040), "127.0.0.1:3040");
}

#[test]
fn project_paths() {
    let paths = localnet_paths(&project("/work/app/", 8080));
    assert_eq!(paths.state_path, "/work/app/.scaffold/state/localnet.state");
    assert_eq!(paths.logs_dir, "/work/app/.scaffold/logs");
    assert_eq!(paths.log_path, "/work/app/.scaffold/logs/sequencer.log");
    assert_eq!(paths.lez, "/p/.scaffold/cache/repos/lssa");
    assert_eq!(paths.addr, "127.0.0.1:8080");
}
