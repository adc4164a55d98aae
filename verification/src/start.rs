//! `localnet start` as a state machine: the decisions between the steps of a
//! start, from what each step reported to the next step, with the errors it
//! can end in.

use vstd::prelude::*;
use crate::localnet::pid_text;
use crate::text::{decimal, join_path, path_join, u32_text, views};

verus! {

/// Where, under the LSSA checkout, the sequencer binary is built.
pub const SEQUENCER_BIN_REL_PATH: &'static str = "target/release/sequencer_runner";

/// Where, under the LSSA checkout, the sequencer reads its configuration.
pub const SEQUENCER_CONFIG_REL_PATH: &'static str = "sequencer_runner/configs/debug/sequencer_config.json";

/// How many log lines a start error quotes.
pub const START_LOG_TAIL_LINES: usize = 60;

/// How long to wait between two readiness probes.
pub const READINESS_POLL_MILLIS: u64 = 200;

/// Why the localnet did not start.
#[derive(Debug, Clone, PartialEq, Eq)]
pub enum LocalnetError {
    /// The sequencer binary has not been built.
    MissingSequencerBinary { path: String },
    /// The sequencer exited before it listened on its port.
    ExitedBeforeReady { pid: u32, log_tail: String },
    /// The sequencer did not listen on its port in time.
    StartTimeout { timeout_sec: u64, pid: u32, log_tail: String },
    /// Another process listens on the port.
    PortInUse { port: u16, pid: Option<u32> },
    /// A step failed with this message.
    StepFailed(String),
}

/// The mathematical value of a [`LocalnetError`].
pub enum LocalnetErrorView {
    MissingSequencerBinary(Seq<char>),
    ExitedBeforeReady(u32, Seq<char>),
    StartTimeout(u64, u32, Seq<char>),
    PortInUse(u16, Option<u32>),
    StepFailed(Seq<char>),
}

impl View for LocalnetError {
    type V = LocalnetErrorView;

    open spec fn view(&self) -> LocalnetErrorView {
        match self {
            LocalnetError::MissingSequencerBinary { path } => LocalnetErrorView::MissingSequencerBinary(path@),
            LocalnetError::ExitedBeforeReady { pid, log_tail } => LocalnetErrorView::ExitedBeforeReady(*pid, log_tail@),
            LocalnetError::StartTimeout { timeout_sec, pid, log_tail } => LocalnetErrorView::StartTimeout(*timeout_sec, *pid, log_tail@),
            LocalnetError::PortInUse { port, pid } => LocalnetErrorView::PortInUse(*port, *pid),
            LocalnetError::StepFailed(m) => LocalnetErrorView::StepFailed(m@),
        }
    }
}

/// The message of a start error.
pub open spec fn localnet_error_text(e: LocalnetErrorView) -> Seq<char> {
    match e {
        LocalnetErrorView::MissingSequencerBinary(path) => "missing sequencer binary at "@ + path
            + "; run `logos-scaffold setup`"@,
        LocalnetErrorView::ExitedBeforeReady(pid, tail) => "sequencer process exited before becoming ready (pid="@
            + decimal(pid as nat) + ")\nlast logs:\n"@ + tail,
        LocalnetErrorView::StartTimeout(secs, pid, tail) => "localnet start timed out after "@
            + decimal(secs as nat) + "s (pid="@ + decimal(pid as nat) + ")\nlast logs:\n"@ + tail,
        LocalnetErrorView::PortInUse(port, pid) => "cannot start localnet: port "@ + decimal(
            port as nat,
        ) + " is already in use (pid="@ + pid_text(pid) + ")"@
            + "\nThis may be a sequencer started from another project and may not work with the current project."@
            + "\nStop that process and retry `logos-scaffold localnet start`."@ + match pid {
            Some(p) => "\nTry: kill "@ + decimal(p as nat),
            None => Seq::<char>::empty(),
        },
        LocalnetErrorView::StepFailed(m) => m,
    }
}

impl LocalnetError {
    /// A copy of this error.
    pub fn duplicate(&self) -> (r: LocalnetError)
        ensures
            r@ == self@,
    {
        match self {
            LocalnetError::MissingSequencerBinary { path } => LocalnetError::MissingSequencerBinary {
                path: path.clone(),
            },
            LocalnetError::ExitedBeforeReady { pid, log_tail } => LocalnetError::ExitedBeforeReady {
                pid: *pid,
                log_tail: log_tail.clone(),
            },
            LocalnetError::StartTimeout { timeout_sec, pid, log_tail } => LocalnetError::StartTimeout {
                timeout_sec: *timeout_sec,
                pid: *pid,
                log_tail: log_tail.clone(),
            },
            LocalnetError::PortInUse { port, pid } => LocalnetError::PortInUse { port: *port, pid: *pid },
            LocalnetError::StepFailed(m) => LocalnetError::StepFailed(m.clone()),
        }
    }

    /// The message that the command line prints for this error.
    pub fn message(&self) -> (s: String)
        ensures
            s@ == localnet_error_text(self@),
    {
        match self {
            LocalnetError::MissingSequencerBinary { path } => {
                let mut s = String::from_str("missing sequencer binary at ");
                s.append(path.as_str());
                s.append("; run `logos-scaffold setup`");
                s
            },
            LocalnetError::ExitedBeforeReady { pid, log_tail } => {
                let mut s = String::from_str("sequencer process exited before becoming ready (pid=");
                let d = u32_text(*pid);
                s.append(d.as_str());
                s.append(")\nlast logs:\n");
                s.append(log_tail.as_str());
                s
            },
            LocalnetError::StartTimeout { timeout_sec, pid, log_tail } => {
                let mut s = String::from_str("localnet start timed out after ");
                let t = crate::text::decimal_string(*timeout_sec);
                s.append(t.as_str());
                s.append("s (pid=");
                let d = u32_text(*pid);
                s.append(d.as_str());
                s.append(")\nlast logs:\n");
                s.append(log_tail.as_str());
                s
            },
            LocalnetError::PortInUse { port, pid } => {
                let mut s = String::from_str("cannot start localnet: port ");
                let d = crate::text::decimal_string(*port as u64);
                s.append(d.as_str());
                s.append(" is already in use (pid=");
                let p = crate::localnet::pid_string(*pid);
                s.append(p.as_str());
                s.append(")");
                s.append(
                    "\nThis may be a sequencer started from another project and may not work with the current project.",
                );
                s.append("\nStop that process and retry `logos-scaffold localnet start`.");
                match pid {
                    Some(p) => {
                        s.append("\nTry: kill ");
                        let d = u32_text(*p);
                        s.append(d.as_str());
                    },
                    None => {
                        assert(s@ + Seq::<char>::empty() == s@);
                    },
                }
                s
            },
            LocalnetError::StepFailed(m) => m.clone(),
        }
    }
}


/// Where a start stands.
#[derive(Debug, Clone, Copy, PartialEq, Eq, Structural)]
pub enum StartPhase {
    EnsuringLez,
    CheckingBinary,
    ReadingState,
    ProbingTracked,
    ClearingStale,
    QueryingListener,
    ProbingPort,
    Patching,
    Spawning,
    WritingState,
    StartingClock,
    Probing,
    Sleeping,
    ReadingLogTail,
    CleaningUp,
    Done,
    Failed,
}

/// What the step that the start asked for reported.
#[derive(Debug, Clone, PartialEq, Eq)]
pub enum StartEvent {
    /// The step was done (for a file check: the file is there).
    Completed,
    /// The file to check or delete is not there.
    NotFound,
    /// The step failed, with this message.
    Failed(String),
    /// The pid that the localnet state records, if any.
    TrackedPid(Option<u32>),
    /// Whether the tracked process runs.
    Running(bool),
    /// The pid of the process that listens on the port, if one was found.
    ListenerPid(Option<u32>),
    /// Whether the port accepts connections.
    PortOpen(bool),
    /// The sequencer was spawned with this pid.
    Spawned(u32),
    /// A readiness probe: whether the sequencer runs, whether (if it runs)
    /// the port accepts connections, and whether the deadline has passed.
    Readiness { running: bool, port_open: bool, past_deadline: bool },
    /// The last lines of the log.
    LogTail(String),
}

/// The mathematical value of a [`StartEvent`].
pub enum StartEventView {
    Completed,
    NotFound,
    Failed(Seq<char>),
    TrackedPid(Option<u32>),
    Running(bool),
    ListenerPid(Option<u32>),
    PortOpen(bool),
    Spawned(u32),
    Readiness(bool, bool, bool),
    LogTail(Seq<char>),
}

impl View for StartEvent {
    type V = StartEventView;

    open spec fn view(&self) -> StartEventView {
        match self {
            StartEvent::Completed => StartEventView::Completed,
            StartEvent::NotFound => StartEventView::NotFound,
            StartEvent::Failed(m) => StartEventView::Failed(m@),
            StartEvent::TrackedPid(p) => StartEventView::TrackedPid(*p),
            StartEvent::Running(b) => StartEventView::Running(*b),
            StartEvent::ListenerPid(p) => StartEventView::ListenerPid(*p),
            StartEvent::PortOpen(b) => StartEventView::PortOpen(*b),
            StartEvent::Spawned(p) => StartEventView::Spawned(*p),
            StartEvent::Readiness { running, port_open, past_deadline } => StartEventView::Readiness(
                *running,
                *port_open,
                *past_deadline,
            ),
            StartEvent::LogTail(t) => StartEventView::LogTail(t@),
        }
    }
}

/// What the start asks to be done next.
#[derive(Debug, Clone, PartialEq, Eq)]
pub enum StartAction {
    /// Check that the LSSA checkout exists.
    EnsureLezDir(String),
    /// Check that the sequencer binary exists.
    CheckBinary(String),
    /// Read the pid that the localnet state at this path records.
    ReadTrackedPid(String),
    /// Check whether this process runs.
    ProbeRunning(u32),
    /// Delete the stale localnet state at this path, if it is there.
    RemoveStateFile(String),
    /// Find the process that listens on this port.
    QueryListenerPid(u16),
    /// Check whether this port accepts connections.
    ProbePort(u16),
    /// Write this port into the sequencer configuration at this path (with
    /// `sequencer_config_with_port`).
    PatchPort { config_path: String, port: u16 },
    /// Spawn the sequencer in this checkout.
    Spawn { lez: String, risc0_dev_mode: bool },
    /// Record this pid in the localnet state at this path.
    WriteState { path: String, pid: u32 },
    /// Set the readiness deadline this many seconds from now.
    StartClock { secs: u64 },
    /// Probe whether this process runs and this port accepts connections.
    ProbeReadiness { pid: u32, port: u16 },
    /// Wait this many milliseconds.
    Sleep { millis: u64 },
    /// Read the last lines of the log at this path.
    ReadLogTail { path: String, lines: usize },
    /// Kill this process if it is alive, and delete the localnet state at
    /// this path if it is there, whatever fails.
    CleanUp { pid: u32, state_path: String },
    /// The start is over: it succeeded, or failed with this error.
    Finish(Option<LocalnetError>),
}

/// The mathematical value of a [`StartAction`].
pub enum StartActionView {
    EnsureLezDir(Seq<char>),
    CheckBinary(Seq<char>),
    ReadTrackedPid(Seq<char>),
    ProbeRunning(u32),
    RemoveStateFile(Seq<char>),
    QueryListenerPid(u16),
    ProbePort(u16),
    PatchPort(Seq<char>, u16),
    Spawn(Seq<char>, bool),
    WriteState(Seq<char>, u32),
    StartClock(u64),
    ProbeReadiness(u32, u16),
    Sleep(u64),
    ReadLogTail(Seq<char>, usize),
    CleanUp(u32, Seq<char>),
    Finish(Option<LocalnetErrorView>),
}

impl View for StartAction {
    type V = StartActionView;

    open spec fn view(&self) -> StartActionView {
        match self {
            StartAction::EnsureLezDir(p) => StartActionView::EnsureLezDir(p@),
            StartAction::CheckBinary(p) => StartActionView::CheckBinary(p@),
            StartAction::ReadTrackedPid(p) => StartActionView::ReadTrackedPid(p@),
            StartAction::ProbeRunning(pid) => StartActionView::ProbeRunning(*pid),
            StartAction::RemoveStateFile(p) => StartActionView::RemoveStateFile(p@),
            StartAction::QueryListenerPid(port) => StartActionView::QueryListenerPid(*port),
            StartAction::ProbePort(port) => StartActionView::ProbePort(*port),
            StartAction::PatchPort { config_path, port } => StartActionView::PatchPort(
                config_path@,
                *port,
            ),
            StartAction::Spawn { lez, risc0_dev_mode } => StartActionView::Spawn(lez@, *risc0_dev_mode),
            StartAction::WriteState { path, pid } => StartActionView::WriteState(path@, *pid),
            StartAction::StartClock { secs } => StartActionView::StartClock(*secs),
            StartAction::ProbeReadiness { pid, port } => StartActionView::ProbeReadiness(*pid, *port),
            StartAction::Sleep { millis } => StartActionView::Sleep(*millis),
            StartAction::ReadLogTail { path, lines } => StartActionView::ReadLogTail(path@, *lines),
            StartAction::CleanUp { pid, state_path } => StartActionView::CleanUp(*pid, state_path@),
            StartAction::Finish(e) => StartActionView::Finish(
                match e {
                    Some(e) => Some(e@),
                    None => None,
                },
            ),
        }
    }
}

/// A start in progress. `fresh` tells whether this run spawned the sequencer
/// it waits for; `timed_out` whether the wait ended at the deadline.
#[derive(Debug, Clone, PartialEq, Eq)]
pub struct StartRun {
    pub phase: StartPhase,
    pub lez: String,
    pub sequencer_bin: String,
    pub config_path: String,
    pub state_path: String,
    pub log_path: String,
    pub timeout_sec: u64,
    pub port: u16,
    pub risc0_dev_mode: bool,
    pub pid: u32,
    pub fresh: bool,
    pub listener_pid: Option<u32>,
    pub timed_out: bool,
    pub failure: Option<LocalnetError>,
}

/// The mathematical value of a [`StartRun`].
pub struct StartModel {
    pub phase: StartPhase,
    pub lez: Seq<char>,
    pub sequencer_bin: Seq<char>,
    pub config_path: Seq<char>,
    pub state_path: Seq<char>,
    pub log_path: Seq<char>,
    pub timeout_sec: u64,
    pub port: u16,
    pub risc0_dev_mode: bool,
    pub pid: u32,
    pub fresh: bool,
    pub listener_pid: Option<u32>,
    pub timed_out: bool,
    pub failure: Option<LocalnetErrorView>,
}

impl View for StartRun {
    type V = StartModel;

    open spec fn view(&self) -> StartModel {
        StartModel {
            phase: self.phase,
            lez: self.lez@,
            sequencer_bin: self.sequencer_bin@,
            config_path: self.config_path@,
            state_path: self.state_path@,
            log_path: self.log_path@,
            timeout_sec: self.timeout_sec,
            port: self.port,
            risc0_dev_mode: self.risc0_dev_mode,
            pid: self.pid,
            fresh: self.fresh,
            listener_pid: self.listener_pid,
            timed_out: self.timed_out,
            failure: match self.failure {
                Some(e) => Some(e@),
                None => None,
            },
        }
    }
}

/// The model in another phase.
pub open spec fn start_in(m: StartModel, p: StartPhase) -> StartModel {
    StartModel { phase: p, ..m }
}

/// The model after a failure.
pub open spec fn start_failed(m: StartModel, e: LocalnetErrorView) -> StartModel {
    StartModel { phase: StartPhase::Failed, failure: Some(e), ..m }
}

/// The line printed when the sequencer is ready.
pub open spec fn ready_note(pid: u32) -> Seq<char> {
    "localnet ready (sequencer pid="@ + decimal(pid as nat) + ")"@
}

/// The error that ends a wait, with the log lines read.
pub open spec fn wait_error(m: StartModel, tail: Seq<char>) -> LocalnetErrorView {
    if m.timed_out {
        LocalnetErrorView::StartTimeout(m.timeout_sec, m.pid, tail)
    } else {
        LocalnetErrorView::ExitedBeforeReady(m.pid, tail)
    }
}

/// What an event does to a start: the next model and the lines to print. An
/// event that does not answer the pending step changes nothing, and the step
/// is asked for again.
pub open spec fn start_next(m: StartModel, e: StartEventView) -> (StartModel, Seq<Seq<char>>) {
    let none = Seq::<Seq<char>>::empty();
    match m.phase {
        StartPhase::EnsuringLez => match e {
            StartEventView::Completed => (start_in(m, StartPhase::CheckingBinary), none),
            StartEventView::Failed(msg) => (start_failed(m, LocalnetErrorView::StepFailed(msg)), none),
            _ => (m, none),
        },
        StartPhase::CheckingBinary => match e {
            StartEventView::Completed => (start_in(m, StartPhase::ReadingState), none),
            StartEventView::NotFound => (
                start_failed(m, LocalnetErrorView::MissingSequencerBinary(m.sequencer_bin)),
                none,
            ),
            _ => (m, none),
        },
        StartPhase::ReadingState => match e {
            StartEventView::TrackedPid(Some(p)) => (
                StartModel { phase: StartPhase::ProbingTracked, pid: p, ..m },
                none,
            ),
            StartEventView::TrackedPid(None) => (start_in(m, StartPhase::QueryingListener), none),
            _ => (m, none),
        },
        StartPhase::ProbingTracked => match e {
            StartEventView::Running(true) => (
                StartModel { phase: StartPhase::StartingClock, fresh: false, ..m },
                none,
            ),
            StartEventView::Running(false) => (start_in(m, StartPhase::ClearingStale), none),
            _ => (m, none),
        },
        StartPhase::ClearingStale => match e {
            StartEventView::Completed => (start_in(m, StartPhase::QueryingListener), none),
            StartEventView::NotFound => (start_in(m, StartPhase::QueryingListener), none),
            StartEventView::Failed(msg) => (start_failed(m, LocalnetErrorView::StepFailed(msg)), none),
            _ => (m, none),
        },
        StartPhase::QueryingListener => match e {
            StartEventView::ListenerPid(l) => (
                StartModel { phase: StartPhase::ProbingPort, listener_pid: l, ..m },
                none,
            ),
            _ => (m, none),
        },
        StartPhase::ProbingPort => match e {
            StartEventView::PortOpen(true) => (
                start_failed(m, LocalnetErrorView::PortInUse(m.port, m.listener_pid)),
                none,
            ),
            StartEventView::PortOpen(false) => (start_in(m, StartPhase::Patching), none),
            _ => (m, none),
        },
        StartPhase::Patching => match e {
            StartEventView::Completed => (start_in(m, StartPhase::Spawning), none),
            StartEventView::Failed(msg) => (start_failed(m, LocalnetErrorView::StepFailed(msg)), none),
            _ => (m, none),
        },
        StartPhase::Spawning => match e {
            StartEventView::Spawned(p) => (
                StartModel { phase: StartPhase::WritingState, pid: p, ..m },
                none,
            ),
            StartEventView::Failed(msg) => (start_failed(m, LocalnetErrorView::StepFailed(msg)), none),
            _ => (m, none),
        },
        StartPhase::WritingState => match e {
            StartEventView::Completed => (
                StartModel { phase: StartPhase::StartingClock, fresh: true, ..m },
                none,
            ),
            StartEventView::Failed(msg) => (start_failed(m, LocalnetErrorView::StepFailed(msg)), none),
            _ => (m, none),
        },
        StartPhase::StartingClock => match e {
            StartEventView::Completed => (start_in(m, StartPhase::Probing), none),
            _ => (m, none),
        },
        StartPhase::Probing => match e {
            StartEventView::Readiness(running, port_open, past_deadline) => if running && port_open {
                (start_in(m, StartPhase::Done), seq![ready_note(m.pid)])
            } else if !running {
                (StartModel { phase: StartPhase::ReadingLogTail, timed_out: false, ..m }, none)
            } else if past_deadline {
                (StartModel { phase: StartPhase::ReadingLogTail, timed_out: true, ..m }, none)
            } else {
                (start_in(m, StartPhase::Sleeping), none)
            },
            _ => (m, none),
        },
        StartPhase::Sleeping => match e {
            StartEventView::Completed => (start_in(m, StartPhase::Probing), none),
            _ => (m, none),
        },
        StartPhase::ReadingLogTail => match e {
            StartEventView::LogTail(t) => if m.fresh {
                (
                    StartModel {
                        phase: StartPhase::CleaningUp,
                        failure: Some(wait_error(m, t)),
                        ..m
                    },
                    none,
                )
            } else {
                (start_failed(m, wait_error(m, t)), none)
            },
            _ => (m, none),
        },
        StartPhase::CleaningUp => match e {
            StartEventView::Completed => (start_in(m, StartPhase::Failed), none),
            _ => (m, none),
        },
        StartPhase::Done => (m, none),
        StartPhase::Failed => (m, none),
    }
}

/// How long to wait for readiness: the timeout, at least one second.
pub open spec fn wait_secs(timeout_sec: u64) -> u64 {
    if timeout_sec < 1 {
        1
    } else {
        timeout_sec
    }
}

/// The step that a start asks for in its phase.
pub open spec fn start_action(m: StartModel) -> StartActionView {
    match m.phase {
        StartPhase::EnsuringLez => StartActionView::EnsureLezDir(m.lez),
        StartPhase::CheckingBinary => StartActionView::CheckBinary(m.sequencer_bin),
        StartPhase::ReadingState => StartActionView::ReadTrackedPid(m.state_path),
        StartPhase::ProbingTracked => StartActionView::ProbeRunning(m.pid),
        StartPhase::ClearingStale => StartActionView::RemoveStateFile(m.state_path),
        StartPhase::QueryingListener => StartActionView::QueryListenerPid(m.port),
        StartPhase::ProbingPort => StartActionView::ProbePort(m.port),
        StartPhase::Patching => StartActionView::PatchPort(m.config_path, m.port),
        StartPhase::Spawning => StartActionView::Spawn(m.lez, m.risc0_dev_mode),
        StartPhase::WritingState => StartActionView::WriteState(m.state_path, m.pid),
        StartPhase::StartingClock => StartActionView::StartClock(wait_secs(m.timeout_sec)),
        StartPhase::Probing => StartActionView::ProbeReadiness(m.pid, m.port),
        StartPhase::Sleeping => StartActionView::Sleep(200),
        StartPhase::ReadingLogTail => StartActionView::ReadLogTail(m.log_path, 60),
        StartPhase::CleaningUp => StartActionView::CleanUp(m.pid, m.state_path),
        StartPhase::Done => StartActionView::Finish(None),
        StartPhase::Failed => StartActionView::Finish(m.failure),
    }
}

/// A start as it begins: checking the LSSA checkout.
pub open spec fn start_begin(
    lez: Seq<char>,
    state_path: Seq<char>,
    log_path: Seq<char>,
    timeout_sec: u64,
    port: u16,
    risc0_dev_mode: bool,
) -> StartModel {
    StartModel {
        phase: StartPhase::EnsuringLez,
        lez,
        sequencer_bin: join_path(lez, SEQUENCER_BIN_REL_PATH@),
        config_path: join_path(lez, SEQUENCER_CONFIG_REL_PATH@),
        state_path,
        log_path,
        timeout_sec,
        port,
        risc0_dev_mode,
        pid: 0,
        fresh: false,
        listener_pid: None,
        timed_out: false,
        failure: None,
    }
}


impl StartRun {
    /// Begins a start of the sequencer in the LSSA checkout `lez`, recording
    /// it in `state_path`, logging to `log_path`, on `port`.
    pub fn begin(
        lez: &str,
        state_path: &str,
        log_path: &str,
        timeout_sec: u64,
        port: u16,
        risc0_dev_mode: bool,
    ) -> (r: StartRun)
        ensures
            r@ == start_begin(lez@, state_path@, log_path@, timeout_sec, port, risc0_dev_mode),
    {
        StartRun {
            phase: StartPhase::EnsuringLez,
            lez: String::from_str(lez),
            sequencer_bin: path_join(lez, SEQUENCER_BIN_REL_PATH),
            config_path: path_join(lez, SEQUENCER_CONFIG_REL_PATH),
            state_path: String::from_str(state_path),
            log_path: String::from_str(log_path),
            timeout_sec,
            port,
            risc0_dev_mode,
            pid: 0,
            fresh: false,
            listener_pid: None,
            timed_out: false,
            failure: None,
        }
    }

    /// The step that the start asks for now.
    pub fn next_action(&self) -> (a: StartAction)
        ensures
            a@ == start_action(self@),
    {
        match self.phase {
            StartPhase::EnsuringLez => StartAction::EnsureLezDir(self.lez.clone()),
            StartPhase::CheckingBinary => StartAction::CheckBinary(self.sequencer_bin.clone()),
            StartPhase::ReadingState => StartAction::ReadTrackedPid(self.state_path.clone()),
            StartPhase::ProbingTracked => StartAction::ProbeRunning(self.pid),
            StartPhase::ClearingStale => StartAction::RemoveStateFile(self.state_path.clone()),
            StartPhase::QueryingListener => StartAction::QueryListenerPid(self.port),
            StartPhase::ProbingPort => StartAction::ProbePort(self.port),
            StartPhase::Patching => StartAction::PatchPort {
                config_path: self.config_path.clone(),
                port: self.port,
            },
            StartPhase::Spawning => StartAction::Spawn {
                lez: self.lez.clone(),
                risc0_dev_mode: self.risc0_dev_mode,
            },
            StartPhase::WritingState => StartAction::WriteState {
                path: self.state_path.clone(),
                pid: self.pid,
            },
            StartPhase::StartingClock => StartAction::StartClock {
                secs: if self.timeout_sec < 1 {
                    1
                } else {
                    self.timeout_sec
                },
            },
            StartPhase::Probing => StartAction::ProbeReadiness { pid: self.pid, port: self.port },
            StartPhase::Sleeping => StartAction::Sleep { millis: READINESS_POLL_MILLIS },
            StartPhase::ReadingLogTail => StartAction::ReadLogTail {
                path: self.log_path.clone(),
                lines: START_LOG_TAIL_LINES,
            },
            StartPhase::CleaningUp => StartAction::CleanUp {
                pid: self.pid,
                state_path: self.state_path.clone(),
            },
            StartPhase::Done => StartAction::Finish(None),
            StartPhase::Failed => StartAction::Finish(
                match &self.failure {
                    Some(e) => Some(e.duplicate()),
                    None => None,
                },
            ),
        }
    }

    /// The error that ends a wait, with the log lines read.
    fn wait_failure(&self, tail: &String) -> (e: LocalnetError)
        ensures
            e@ == wait_error(self@, tail@),
    {
        if self.timed_out {
            LocalnetError::StartTimeout {
                timeout_sec: self.timeout_sec,
                pid: self.pid,
                log_tail: tail.clone(),
            }
        } else {
            LocalnetError::ExitedBeforeReady { pid: self.pid, log_tail: tail.clone() }
        }
    }

    /// Ends the start with `e`.
    fn fail(&mut self, e: LocalnetError)
        ensures
            final(self)@ == start_failed(old(self)@, e@),
    {
        self.phase = StartPhase::Failed;
        self.failure = Some(e);
    }

    /// Takes in what the pending step reported; returns the lines to print.
    pub fn advance(&mut self, event: &StartEvent) -> (notes: Vec<String>)
        ensures
            final(self)@ == start_next(old(self)@, event@).0,
            views(notes@) == start_next(old(self)@, event@).1,
    {
        let mut notes: Vec<String> = Vec::new();
        match self.phase {
            StartPhase::EnsuringLez => match event {
                StartEvent::Completed => {
                    self.phase = StartPhase::CheckingBinary;
                },
                StartEvent::Failed(msg) => {
                    self.fail(LocalnetError::StepFailed(msg.clone()));
                },
                _ => {},
            },
            StartPhase::CheckingBinary => match event {
                StartEvent::Completed => {
                    self.phase = StartPhase::ReadingState;
                },
                StartEvent::NotFound => {
                    let path = self.sequencer_bin.clone();
                    self.fail(LocalnetError::MissingSequencerBinary { path });
                },
                _ => {},
            },
            StartPhase::ReadingState => match event {
                StartEvent::TrackedPid(Some(p)) => {
                    self.phase = StartPhase::ProbingTracked;
                    self.pid = *p;
                },
                StartEvent::TrackedPid(None) => {
                    self.phase = StartPhase::QueryingListener;
                },
                _ => {},
            },
            StartPhase::ProbingTracked => match event {
                StartEvent::Running(true) => {
                    self.phase = StartPhase::StartingClock;
                    self.fresh = false;
                },
                StartEvent::Running(false) => {
                    self.phase = StartPhase::ClearingStale;
                },
                _ => {},
            },
            StartPhase::ClearingStale => match event {
                StartEvent::Completed => {
                    self.phase = StartPhase::QueryingListener;
                },
                StartEvent::NotFound => {
                    self.phase = StartPhase::QueryingListener;
                },
                StartEvent::Failed(msg) => {
                    self.fail(LocalnetError::StepFailed(msg.clone()));
                },
                _ => {},
            },
            StartPhase::QueryingListener => match event {
                StartEvent::ListenerPid(l) => {
                    self.phase = StartPhase::ProbingPort;
                    self.listener_pid = *l;
                },
                _ => {},
            },
            StartPhase::ProbingPort => match event {
                StartEvent::PortOpen(true) => {
                    let e = LocalnetError::PortInUse { port: self.port, pid: self.listener_pid };
                    self.fail(e);
                },
                StartEvent::PortOpen(false) => {
                    self.phase = StartPhase::Patching;
                },
                _ => {},
            },
            StartPhase::Patching => match event {
                StartEvent::Completed => {
                    self.phase = StartPhase::Spawning;
                },
                StartEvent::Failed(msg) => {
                    self.fail(LocalnetError::StepFailed(msg.clone()));
                },
                _ => {},
            },
            StartPhase::Spawning => match event {
                StartEvent::Spawned(p) => {
                    self.phase = StartPhase::WritingState;
                    self.pid = *p;
                },
                StartEvent::Failed(msg) => {
                    self.fail(LocalnetError::StepFailed(msg.clone()));
                },
                _ => {},
            },
            StartPhase::WritingState => match event {
                StartEvent::Completed => {
                    self.phase = StartPhase::StartingClock;
                    self.fresh = true;
                },
                StartEvent::Failed(msg) => {
                    self.fail(LocalnetError::StepFailed(msg.clone()));
                },
                _ => {},
            },
            StartPhase::StartingClock => match event {
                StartEvent::Completed => {
                    self.phase = StartPhase::Probing;
                },
                _ => {},
            },
            StartPhase::Probing => match event {
                StartEvent::Readiness { running, port_open, past_deadline } => {
                    if *running && *port_open {
                        self.phase = StartPhase::Done;
                        let mut note = String::from_str("localnet ready (sequencer pid=");
                        let d = u32_text(self.pid);
                        note.append(d.as_str());
                        note.append(")");
                        notes.push(note);
                    } else if !*running {
                        self.phase = StartPhase::ReadingLogTail;
                        self.timed_out = false;
                    } else if *past_deadline {
                        self.phase = StartPhase::ReadingLogTail;
                        self.timed_out = true;
                    } else {
                        self.phase = StartPhase::Sleeping;
                    }
                },
                _ => {},
            },
            StartPhase::Sleeping => match event {
                StartEvent::Completed => {
                    self.phase = StartPhase::Probing;
                },
                _ => {},
            },
            StartPhase::ReadingLogTail => match event {
                StartEvent::LogTail(t) => {
                    let e = self.wait_failure(t);
                    if self.fresh {
                        self.phase = StartPhase::CleaningUp;
                        self.failure = Some(e);
                    } else {
                        self.fail(e);
                    }
                },
                _ => {},
            },
            StartPhase::CleaningUp => match event {
                StartEvent::Completed => {
                    self.phase = StartPhase::Failed;
                },
                _ => {},
            },
            StartPhase::Done => {},
            StartPhase::Failed => {},
        }
        assert(views(notes@) =~= start_next(old(self)@, event@).1);
        notes
    }
}


/// A start spawns the sequencer only after it found the port closed: the
/// spawning step is entered only from the patching step, and that only from
/// a port probe that found the port closed; a port found open ends the start
/// with `PortInUse`, naming the listener's pid where one was found.
pub proof fn lemma_start_checks_port(m: StartModel, e: StartEventView)
    ensures
        (start_next(m, e).0.phase == StartPhase::Spawning && m.phase != StartPhase::Spawning)
            ==> m.phase == StartPhase::Patching,
        (start_next(m, e).0.phase == StartPhase::Patching && m.phase != StartPhase::Patching)
            ==> (m.phase == StartPhase::ProbingPort && e == StartEventView::PortOpen(false)),
        (m.phase == StartPhase::ProbingPort && e == StartEventView::PortOpen(true)) ==> (
        start_next(m, e).0.phase == StartPhase::Failed && start_next(m, e).0.failure == Some(
            LocalnetErrorView::PortInUse(m.port, m.listener_pid),
        )),
{
}

/// A start succeeds only on a probe that found the sequencer running and its
/// port open, and then says so with the sequencer's pid.
pub proof fn lemma_start_success(m: StartModel, e: StartEventView)
    ensures
        (start_next(m, e).0.phase == StartPhase::Done && m.phase != StartPhase::Done) ==> (
        m.phase == StartPhase::Probing && (e matches StartEventView::Readiness(r, p, _) && r && p)
            && start_next(m, e).1 == seq![ready_note(m.pid)]),
{
}

/// A sequencer that this run spawned and that did not become ready is
/// cleaned up before the start fails: the error comes from a readiness
/// failure only through the clean-up step, which kills the process and
/// deletes the localnet state; an exit is reported as `ExitedBeforeReady`, a
/// deadline as `StartTimeout`, each with the log lines read.
pub proof fn lemma_start_cleans_up(m: StartModel, e: StartEventView)
    ensures
        (m.phase == StartPhase::ReadingLogTail && m.fresh && e is LogTail) ==> start_next(
            m,
            e,
        ).0.phase == StartPhase::CleaningUp,
        (m.phase == StartPhase::ReadingLogTail && start_next(m, e).0.phase == StartPhase::Failed)
            ==> !m.fresh,
        m.phase == StartPhase::ReadingLogTail ==> (e matches StartEventView::LogTail(t) ==> (
        start_next(m, e).0.failure == Some(
            if m.timed_out {
                LocalnetErrorView::StartTimeout(m.timeout_sec, m.pid, t)
            } else {
                LocalnetErrorView::ExitedBeforeReady(m.pid, t)
            },
        ))),
        (m.phase == StartPhase::Probing && (e matches StartEventView::Readiness(r, _, _) && !r))
            ==> (start_next(m, e).0.phase == StartPhase::ReadingLogTail
            && !start_next(m, e).0.timed_out),
        (m.phase == StartPhase::Probing && (e matches StartEventView::Readiness(r, p, d) && r && !p
            && d)) ==> (start_next(m, e).0.phase == StartPhase::ReadingLogTail && start_next(
            m,
            e,
        ).0.timed_out),
{
}

/// A start with no binary fails with `MissingSequencerBinary`, naming the
/// binary's path under the checkout; the readiness wait lasts at least one
/// second; a finished start stays as it is.
pub proof fn lemma_start_basics(m: StartModel, e: StartEventView)
    ensures
        (m.phase == StartPhase::CheckingBinary && e == StartEventView::NotFound) ==> start_next(
            m,
            e,
        ).0.failure == Some(LocalnetErrorView::MissingSequencerBinary(m.sequencer_bin)),
        wait_secs(m.timeout_sec) >= 1,
        m.timeout_sec >= 1 ==> wait_secs(m.timeout_sec) == m.timeout_sec,
        (m.phase == StartPhase::Done || m.phase == StartPhase::Failed) ==> start_next(m, e).0
            == m,
{
}

/// A probe that finds the sequencer running with its port open ends the
/// start at once, with success and the ready line naming the sequencer,
/// whether this run spawned it or found it already running. A tracked
/// sequencer found running is not spawned again: the start goes straight to
/// waiting for it, with its pid.
pub proof fn lemma_start_ready_ends(m: StartModel, e: StartEventView, p: u32, d: bool)
    ensures
        m.phase == StartPhase::Probing ==> ({
            let n = start_next(m, StartEventView::Readiness(true, true, d));
            &&& n.0.phase == StartPhase::Done
            &&& n.1 == seq![ready_note(m.pid)]
            &&& start_action(n.0) == StartActionView::Finish(None)
        }),
        (m.phase == StartPhase::Probing && !d) ==> ({
            let s1 = start_next(m, StartEventView::Readiness(true, false, false)).0;
            let s2 = start_next(s1, StartEventView::Completed).0;
            &&& s1.phase == StartPhase::Sleeping
            &&& s2.phase == StartPhase::Probing
            &&& s2.pid == m.pid
            &&& s2.failure == m.failure
        }),
        m.phase == StartPhase::ReadingState ==> ({
            let m1 = start_next(m, StartEventView::TrackedPid(Some(p))).0;
            let m2 = start_next(m1, StartEventView::Running(true)).0;
            let m3 = start_next(m2, StartEventView::Completed).0;
            &&& m1.pid == p
            &&& m2.phase == StartPhase::StartingClock
            &&& m2.pid == p
            &&& m3.phase == StartPhase::Probing
            &&& start_action(m3) == StartActionView::ProbeReadiness(p, m.port)
        }),
{
}

} // verus!
