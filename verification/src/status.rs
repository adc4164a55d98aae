//! The localnet status model: who owns the sequencer port, whether the
//! localnet is ready, and what the user should do next.

use vstd::prelude::*;
use crate::config::Config;
use crate::text::{decimal, join_path, path_join, views};

verus! {

/// A project: its root directory and its configuration.
#[derive(Debug, Clone, PartialEq, Eq)]
pub struct Project {
    pub root: String,
    pub config: Config,
}

/// Who the localnet belongs to, as the status command reports it.
#[derive(Debug, Clone, Copy, PartialEq, Eq, Structural)]
pub enum LocalnetOwnership {
    /// The tracked sequencer runs and owns the port.
    Managed,
    /// Another process listens on the port.
    Foreign,
    /// A sequencer is tracked but no longer runs.
    StaleState,
    /// The tracked sequencer runs but the port is not (known to be) its own.
    ManagedNotReady,
    /// Nothing is tracked and nothing listens.
    Stopped,
}

/// What the status command observed: the pid recorded in the localnet state,
/// whether that process runs, whether the port accepts connections, and the
/// pid of the process that listens on it, where one was found.
#[derive(Debug, Clone, Copy, PartialEq, Eq, Structural)]
pub struct LocalnetProbe {
    pub tracked_pid: Option<u32>,
    pub tracked_running: bool,
    pub listener_present: bool,
    pub listener_pid: Option<u32>,
}

/// The status of the localnet.
#[derive(Debug, Clone, PartialEq, Eq)]
pub struct LocalnetStatusReport {
    pub tracked_pid: Option<u32>,
    pub tracked_running: bool,
    pub listener_present: bool,
    pub listener_pid: Option<u32>,
    pub ownership: LocalnetOwnership,
    pub ready: bool,
    pub log_path: String,
    pub remediation: Vec<String>,
}

/// Who owns the localnet, from what was observed.
pub open spec fn ownership_of(
    tracked_pid: Option<u32>,
    tracked_running: bool,
    listener_present: bool,
    listener_pid: Option<u32>,
) -> LocalnetOwnership {
    match tracked_pid {
        Some(pid) => {
            if tracked_running && listener_present {
                match listener_pid {
                    Some(l) => if l == pid {
                        LocalnetOwnership::Managed
                    } else {
                        LocalnetOwnership::Foreign
                    },
                    None => LocalnetOwnership::ManagedNotReady,
                }
            } else if tracked_running {
                LocalnetOwnership::ManagedNotReady
            } else {
                LocalnetOwnership::StaleState
            }
        },
        None => if listener_present {
            LocalnetOwnership::Foreign
        } else {
            LocalnetOwnership::Stopped
        },
    }
}

/// The next steps that the status command suggests.
pub open spec fn remediation_of(
    ownership: LocalnetOwnership,
    ready: bool,
    addr: Seq<char>,
) -> Seq<Seq<char>> {
    match ownership {
        LocalnetOwnership::Managed => if ready {
            Seq::<Seq<char>>::empty()
        } else {
            seq!["Wait a moment and re-run `logos-scaffold localnet status`"@]
        },
        LocalnetOwnership::ManagedNotReady => seq![
            "Run `logos-scaffold localnet logs --tail 200` to inspect startup issues"@,
            "Run `logos-scaffold localnet stop` then `logos-scaffold localnet start`"@,
        ],
        LocalnetOwnership::StaleState => seq![
            "Run `logos-scaffold localnet stop` to clean stale state"@,
            "Run `logos-scaffold localnet start` to restart localnet"@,
        ],
        LocalnetOwnership::Foreign => seq![
            "Stop the external listener on "@ + addr + " or choose a clean environment"@,
            "Then run `logos-scaffold localnet start`"@,
        ],
        LocalnetOwnership::Stopped => seq!["Run `logos-scaffold localnet start`"@],
    }
}

/// Who owns the localnet, from what was observed.
pub fn classify_ownership(probe: &LocalnetProbe) -> (o: LocalnetOwnership)
    ensures
        o == ownership_of(
            probe.tracked_pid,
            probe.tracked_running,
            probe.listener_present,
            probe.listener_pid,
        ),
{
    match probe.tracked_pid {
        Some(pid) => {
            if probe.tracked_running && probe.listener_present {
                match probe.listener_pid {
                    Some(l) => if l == pid {
                        LocalnetOwnership::Managed
                    } else {
                        LocalnetOwnership::Foreign
                    },
                    None => LocalnetOwnership::ManagedNotReady,
                }
            } else if probe.tracked_running {
                LocalnetOwnership::ManagedNotReady
            } else {
                LocalnetOwnership::StaleState
            }
        },
        None => if probe.listener_present {
            LocalnetOwnership::Foreign
        } else {
            LocalnetOwnership::Stopped
        },
    }
}

/// The next steps that the status command suggests.
pub fn remediation_steps(ownership: LocalnetOwnership, ready: bool, localnet_addr: &str) -> (r: Vec<
    String,
>)
    ensures
        views(r@) == remediation_of(ownership, ready, localnet_addr@),
{
    let mut r: Vec<String> = Vec::new();
    match ownership {
        LocalnetOwnership::Managed => {
            if !ready {
                r.push(String::from_str("Wait a moment and re-run `logos-scaffold localnet status`"));
            }
        },
        LocalnetOwnership::ManagedNotReady => {
            r.push(
                String::from_str(
                    "Run `logos-scaffold localnet logs --tail 200` to inspect startup issues",
                ),
            );
            r.push(
                String::from_str(
                    "Run `logos-scaffold localnet stop` then `logos-scaffold localnet start`",
                ),
            );
        },
        LocalnetOwnership::StaleState => {
            r.push(String::from_str("Run `logos-scaffold localnet stop` to clean stale state"));
            r.push(String::from_str("Run `logos-scaffold localnet start` to restart localnet"));
        },
        LocalnetOwnership::Foreign => {
            let mut first = String::from_str("Stop the external listener on ");
            first.append(localnet_addr);
            first.append(" or choose a clean environment");
            r.push(first);
            r.push(String::from_str("Then run `logos-scaffold localnet start`"));
        },
        LocalnetOwnership::Stopped => {
            r.push(String::from_str("Run `logos-scaffold localnet start`"));
        },
    }
    assert(views(r@) =~= remediation_of(ownership, ready, localnet_addr@));
    r
}

/// The status report for what was observed. The listener's pid counts only
/// where a listener is present, and the tracked process counts as running
/// only where a pid is tracked.
pub fn build_status_report(probe: &LocalnetProbe, log_path: &str, localnet_addr: &str) -> (r:
    LocalnetStatusReport)
    ensures
        r.tracked_pid == probe.tracked_pid,
        r.tracked_running == (probe.tracked_pid is Some && probe.tracked_running),
        r.listener_present == probe.listener_present,
        r.listener_pid == (if probe.listener_present {
            probe.listener_pid
        } else {
            None
        }),
        r.ownership == ownership_of(r.tracked_pid, r.tracked_running, r.listener_present, r.listener_pid),
        r.ready == (r.tracked_running && r.listener_present),
        r.log_path@ == log_path@,
        views(r.remediation@) == remediation_of(r.ownership, r.ready, localnet_addr@),
{
    let tracked_running = probe.tracked_pid.is_some() && probe.tracked_running;
    let listener_pid = if probe.listener_present {
        probe.listener_pid
    } else {
        None
    };
    let seen = LocalnetProbe {
        tracked_pid: probe.tracked_pid,
        tracked_running,
        listener_present: probe.listener_present,
        listener_pid,
    };
    let ownership = classify_ownership(&seen);
    let ready = tracked_running && probe.listener_present;
    let remediation = remediation_steps(ownership, ready, localnet_addr);
    LocalnetStatusReport {
        tracked_pid: probe.tracked_pid,
        tracked_running,
        listener_present: probe.listener_present,
        listener_pid,
        ownership,
        ready,
        log_path: String::from_str(log_path),
        remediation,
    }
}

/// The word the status command prints for an ownership.
pub open spec fn ownership_text(o: LocalnetOwnership) -> Seq<char> {
    match o {
        LocalnetOwnership::Managed => "managed"@,
        LocalnetOwnership::Foreign => "foreign"@,
        LocalnetOwnership::StaleState => "stale_state"@,
        LocalnetOwnership::ManagedNotReady => "managed_not_ready"@,
        LocalnetOwnership::Stopped => "stopped"@,
    }
}

/// The word the status command prints for an ownership.
pub fn ownership_label(ownership: LocalnetOwnership) -> (s: &'static str)
    ensures
        s@ == ownership_text(ownership),
{
    match ownership {
        LocalnetOwnership::Managed => "managed",
        LocalnetOwnership::Foreign => "foreign",
        LocalnetOwnership::StaleState => "stale_state",
        LocalnetOwnership::ManagedNotReady => "managed_not_ready",
        LocalnetOwnership::Stopped => "stopped",
    }
}

/// The loopback address of the sequencer on `port`.
pub open spec fn localnet_addr_text(port: u16) -> Seq<char> {
    "127.0.0.1:"@ + decimal(port as nat)
}

/// The loopback address of the sequencer on `port`.
pub fn localnet_addr(port: u16) -> (s: String)
    ensures
        s@ == localnet_addr_text(port),
{
    let mut s = String::from_str("127.0.0.1:");
    let d = crate::text::decimal_string(port as u64);
    s.append(d.as_str());
    s
}

/// Where a project keeps the sequencer's log.
pub open spec fn project_log_path(root: Seq<char>) -> Seq<char> {
    join_path(root, ".scaffold/logs/sequencer.log"@)
}

/// Where a project keeps the state of its localnet.
pub open spec fn project_state_path(root: Seq<char>) -> Seq<char> {
    join_path(root, ".scaffold/state/localnet.state"@)
}

/// Where a project keeps the state of its localnet.
pub fn localnet_state_path(project: &Project) -> (s: String)
    ensures
        s@ == project_state_path(project.root@),
{
    path_join(project.root.as_str(), ".scaffold/state/localnet.state")
}

/// The status report of a project's localnet, from what was observed on the
/// project's port.
pub fn build_localnet_status_for_project(project: &Project, probe: &LocalnetProbe) -> (r:
    LocalnetStatusReport)
    ensures
        r.tracked_pid == probe.tracked_pid,
        r.tracked_running == (probe.tracked_pid is Some && probe.tracked_running),
        r.listener_present == probe.listener_present,
        r.listener_pid == (if probe.listener_present {
            probe.listener_pid
        } else {
            None
        }),
        r.ownership == ownership_of(r.tracked_pid, r.tracked_running, r.listener_present, r.listener_pid),
        r.ready == (r.tracked_running && r.listener_present),
        r.log_path@ == project_log_path(project.root@),
        views(r.remediation@) == remediation_of(
            r.ownership,
            r.ready,
            localnet_addr_text(project.config.localnet.port),
        ),
{
    let log_path = path_join(project.root.as_str(), ".scaffold/logs/sequencer.log");
    let addr = localnet_addr(project.config.localnet.port);
    build_status_report(probe, log_path.as_str(), addr.as_str())
}


/// What the status model promises: the localnet is stopped exactly when
/// nothing is tracked and nothing listens; the state is stale exactly when
/// the tracked sequencer no longer runs; it is managed exactly when it is
/// ready and the listener is the tracked sequencer; a ready localnet is
/// managed, foreign or managed-but-not-ready; and the status suggests no next
/// step exactly when the localnet is managed.
pub proof fn lemma_ownership_laws(
    tracked_pid: Option<u32>,
    tracked_running: bool,
    listener_present: bool,
    listener_pid: Option<u32>,
    addr: Seq<char>,
)
    requires
        tracked_running ==> tracked_pid is Some,
    ensures
        (ownership_of(tracked_pid, tracked_running, listener_present, listener_pid)
            == LocalnetOwnership::Stopped) <==> (tracked_pid is None && !listener_present),
        (ownership_of(tracked_pid, tracked_running, listener_present, listener_pid)
            == LocalnetOwnership::StaleState) <==> (tracked_pid is Some && !tracked_running),
        (ownership_of(tracked_pid, tracked_running, listener_present, listener_pid)
            == LocalnetOwnership::Managed) <==> (tracked_running && listener_present
            && listener_pid == tracked_pid),
        (tracked_running && listener_present) ==> (ownership_of(
            tracked_pid,
            tracked_running,
            listener_present,
            listener_pid,
        ) == LocalnetOwnership::Managed || ownership_of(
            tracked_pid,
            tracked_running,
            listener_present,
            listener_pid,
        ) == LocalnetOwnership::Foreign || ownership_of(
            tracked_pid,
            tracked_running,
            listener_present,
            listener_pid,
        ) == LocalnetOwnership::ManagedNotReady),
        (remediation_of(
            ownership_of(tracked_pid, tracked_running, listener_present, listener_pid),
            tracked_running && listener_present,
            addr,
        ).len() == 0) <==> (ownership_of(tracked_pid, tracked_running, listener_present, listener_pid)
            == LocalnetOwnership::Managed),
{
}


/// Where a project keeps what its localnet needs.
#[derive(Debug, Clone, PartialEq, Eq)]
pub struct LocalnetPaths {
    /// The LSSA checkout that holds the sequencer.
    pub lez: String,
    /// The localnet state (the tracked sequencer's pid).
    pub state_path: String,
    /// The directory of the logs.
    pub logs_dir: String,
    /// The sequencer's log.
    pub log_path: String,
    /// The sequencer's address.
    pub addr: String,
}

/// Where a project keeps what its localnet needs: the checkout is the
/// configured LSSA path, the state and the logs lie under `.scaffold/`, and
/// the sequencer listens on the configured port of the loopback address.
pub fn localnet_paths(project: &Project) -> (r: LocalnetPaths)
    ensures
        r.lez@ == project.config.lssa.path@,
        r.state_path@ == project_state_path(project.root@),
        r.logs_dir@ == join_path(project.root@, ".scaffold/logs"@),
        r.log_path@ == join_path(join_path(project.root@, ".scaffold/logs"@), "sequencer.log"@),
        r.addr@ == localnet_addr_text(project.config.localnet.port),
{
    let logs_dir = path_join(project.root.as_str(), ".scaffold/logs");
    let log_path = path_join(logs_dir.as_str(), "sequencer.log");
    LocalnetPaths {
        lez: project.config.lssa.path.clone(),
        state_path: localnet_state_path(project),
        logs_dir,
        log_path,
        addr: localnet_addr(project.config.localnet.port),
    }
}

/// What a `localnet` command asks for.
#[derive(Debug, Clone, Copy, PartialEq, Eq, Structural)]
pub enum LocalnetAction {
    Start { timeout_sec: u64 },
    Stop,
    Status { json: bool },
    Logs { tail: usize },
    Reset { keep_wallet: bool },
}

/// Ownership from what was observed, over every probe: with nothing tracked,
/// a listener is foreign whatever its pid; a localnet is managed-but-not-ready
/// only where the tracked sequencer runs; foreign only where something
/// listens.
pub proof fn lemma_ownership_untracked_listener(
    tracked_pid: Option<u32>,
    tracked_running: bool,
    listener_present: bool,
    listener_pid: Option<u32>,
)
    ensures
        (tracked_pid is None && listener_present) ==> ownership_of(
            tracked_pid,
            tracked_running,
            listener_present,
            listener_pid,
        ) == LocalnetOwnership::Foreign,
        ownership_of(tracked_pid, tracked_running, listener_present, listener_pid)
            == LocalnetOwnership::ManagedNotReady ==> (tracked_pid is Some && tracked_running),
        ownership_of(tracked_pid, tracked_running, listener_present, listener_pid)
            == LocalnetOwnership::Foreign ==> listener_present,
{
}

} // verus!
