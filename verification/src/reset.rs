//! `localnet reset` as a state machine: the decisions between the steps, from
//! what each step reported to the next step.
//!
//! The steps run in a fixed order: stop the sequencer, delete its database,
//! delete the wallet and the wallet state (unless the wallet is kept), delete
//! the localnet state, run setup, start the sequencer, and poll until it
//! produces blocks or the deadline passes.

use vstd::prelude::*;
use crate::status::{Project, project_state_path, project_log_path, localnet_state_path};
use crate::text::{decimal, join_path, path_join, views};

verus! {

/// Why a reset stopped short.
#[derive(Debug, Clone, PartialEq, Eq)]
pub enum ResetError {
    /// The sequencer started but produced no block before the deadline.
    BlocksNotProduced,
    /// Asking the sequencer for its last block failed otherwise than by not
    /// reaching it.
    VerificationPollFailed(String),
    /// A step failed; the text says which and why.
    StepFailed(String),
    /// A deletion failed: `context` says what was being deleted, `cause` what
    /// the system said.
    DeletionFailed { context: String, cause: String },
}

/// The mathematical value of a [`ResetError`].
pub enum ResetErrorView {
    BlocksNotProduced,
    VerificationPollFailed(Seq<char>),
    StepFailed(Seq<char>),
    DeletionFailed(Seq<char>, Seq<char>),
}

impl View for ResetError {
    type V = ResetErrorView;

    open spec fn view(&self) -> ResetErrorView {
        match self {
            ResetError::BlocksNotProduced => ResetErrorView::BlocksNotProduced,
            ResetError::VerificationPollFailed(m) => ResetErrorView::VerificationPollFailed(m@),
            ResetError::StepFailed(m) => ResetErrorView::StepFailed(m@),
            ResetError::DeletionFailed { context, cause } => ResetErrorView::DeletionFailed(
                context@,
                cause@,
            ),
        }
    }
}

/// The message of a reset error.
pub open spec fn reset_error_text(e: ResetErrorView) -> Seq<char> {
    match e {
        ResetErrorView::BlocksNotProduced => "sequencer started but is not producing blocks after 30s.\nCheck 'logos-scaffold localnet logs --tail 200' for errors.\nRun 'logos-scaffold localnet status' for diagnostics."@,
        ResetErrorView::VerificationPollFailed(m) => "verification poll failed: "@ + m,
        ResetErrorView::StepFailed(m) => m,
        ResetErrorView::DeletionFailed(context, _) => context,
    }
}

impl ResetError {
    /// A copy of this error.
    pub fn duplicate(&self) -> (r: ResetError)
        ensures
            r@ == self@,
    {
        match self {
            ResetError::BlocksNotProduced => ResetError::BlocksNotProduced,
            ResetError::VerificationPollFailed(m) => ResetError::VerificationPollFailed(m.clone()),
            ResetError::StepFailed(m) => ResetError::StepFailed(m.clone()),
            ResetError::DeletionFailed { context, cause } => ResetError::DeletionFailed {
                context: context.clone(),
                cause: cause.clone(),
            },
        }
    }

    /// The message that the command line prints for this error.
    pub fn message(&self) -> (s: String)
        ensures
            s@ == reset_error_text(self@),
    {
        match self {
            ResetError::BlocksNotProduced => String::from_str(
                "sequencer started but is not producing blocks after 30s.\nCheck 'logos-scaffold localnet logs --tail 200' for errors.\nRun 'logos-scaffold localnet status' for diagnostics.",
            ),
            ResetError::VerificationPollFailed(m) => {
                let mut s = String::from_str("verification poll failed: ");
                s.append(m.as_str());
                s
            },
            ResetError::StepFailed(m) => m.clone(),
            ResetError::DeletionFailed { context, .. } => context.clone(),
        }
    }
}

/// Where a reset stands.
#[derive(Debug, Clone, Copy, PartialEq, Eq, Structural)]
pub enum ResetPhase {
    Stopping,
    DeletingDb,
    DeletingWallet,
    DeletingWalletState,
    DeletingLocalnetState,
    RunningSetup,
    Starting,
    StartingClock,
    CheckingDeadline,
    Polling,
    Sleeping,
    Done,
    Failed,
}

/// What the step that the reset asked for reported.
#[derive(Debug, Clone, PartialEq, Eq)]
pub enum ResetEvent {
    /// The step was done (for a deletion: the path was there and is gone;
    /// for the deadline check: time is left).
    Completed,
    /// The path to delete was not there.
    NotFound,
    /// The step failed, with this message.
    Failed(String),
    /// The deadline for block production has passed.
    DeadlinePassed,
    /// The sequencer reported this last block height.
    BlockHeight(u64),
    /// The sequencer could not be reached.
    Unreachable,
}

/// The mathematical value of a [`ResetEvent`].
pub enum ResetEventView {
    Completed,
    NotFound,
    Failed(Seq<char>),
    DeadlinePassed,
    BlockHeight(u64),
    Unreachable,
}

impl View for ResetEvent {
    type V = ResetEventView;

    open spec fn view(&self) -> ResetEventView {
        match self {
            ResetEvent::Completed => ResetEventView::Completed,
            ResetEvent::NotFound => ResetEventView::NotFound,
            ResetEvent::Failed(m) => ResetEventView::Failed(m@),
            ResetEvent::DeadlinePassed => ResetEventView::DeadlinePassed,
            ResetEvent::BlockHeight(h) => ResetEventView::BlockHeight(*h),
            ResetEvent::Unreachable => ResetEventView::Unreachable,
        }
    }
}

/// What the reset asks to be done next.
#[derive(Debug, Clone, PartialEq, Eq)]
pub enum ResetAction {
    /// Stop the localnet as `localnet stop` does.
    StopSequencer,
    /// Delete this directory and all it holds, if it is there.
    RemoveDir(String),
    /// Delete this file, if it is there.
    RemoveFile(String),
    /// Run `setup`.
    RunSetup,
    /// Start the localnet as `localnet start` does: the sequencer of the
    /// checkout `lez`, recorded in `state_path`, logging to `log_path`, with
    /// this timeout, port and dev mode.
    StartSequencer {
        lez: String,
        state_path: String,
        log_path: String,
        timeout_sec: u64,
        port: u16,
        risc0_dev_mode: bool,
    },
    /// Set the deadline for block production this many seconds from now.
    StartClock { secs: u64 },
    /// Report whether the deadline has passed.
    CheckDeadline,
    /// Ask the sequencer for its last block.
    PollLastBlock,
    /// Wait this many milliseconds.
    Sleep { millis: u64 },
    /// The reset is over: it succeeded, or failed with this error.
    Finish(Option<ResetError>),
}

/// The mathematical value of a [`ResetAction`].
pub enum ResetActionView {
    StopSequencer,
    RemoveDir(Seq<char>),
    RemoveFile(Seq<char>),
    RunSetup,
    StartSequencer(Seq<char>, Seq<char>, Seq<char>, u64, u16, bool),
    StartClock(u64),
    CheckDeadline,
    PollLastBlock,
    Sleep(u64),
    Finish(Option<ResetErrorView>),
}

impl View for ResetAction {
    type V = ResetActionView;

    open spec fn view(&self) -> ResetActionView {
        match self {
            ResetAction::StopSequencer => ResetActionView::StopSequencer,
            ResetAction::RemoveDir(p) => ResetActionView::RemoveDir(p@),
            ResetAction::RemoveFile(p) => ResetActionView::RemoveFile(p@),
            ResetAction::RunSetup => ResetActionView::RunSetup,
            ResetAction::StartSequencer {
                lez,
                state_path,
                log_path,
                timeout_sec,
                port,
                risc0_dev_mode,
            } => ResetActionView::StartSequencer(
                lez@,
                state_path@,
                log_path@,
                *timeout_sec,
                *port,
                *risc0_dev_mode,
            ),
            ResetAction::StartClock { secs } => ResetActionView::StartClock(*secs),
            ResetAction::CheckDeadline => ResetActionView::CheckDeadline,
            ResetAction::PollLastBlock => ResetActionView::PollLastBlock,
            ResetAction::Sleep { millis } => ResetActionView::Sleep(*millis),
            ResetAction::Finish(e) => ResetActionView::Finish(
                match e {
                    Some(e) => Some(e@),
                    None => None,
                },
            ),
        }
    }
}

/// A reset in progress.
#[derive(Debug, Clone, PartialEq, Eq)]
pub struct ResetRun {
    pub phase: ResetPhase,
    pub keep_wallet: bool,
    pub rocksdb_path: String,
    pub wallet_path: String,
    pub wallet_state_path: String,
    pub state_path: String,
    pub lez: String,
    pub log_path: String,
    pub port: u16,
    pub risc0_dev_mode: bool,
    pub failure: Option<ResetError>,
    pub block_height: u64,
}

/// The mathematical value of a [`ResetRun`].
pub struct ResetModel {
    pub phase: ResetPhase,
    pub keep_wallet: bool,
    pub rocksdb_path: Seq<char>,
    pub wallet_path: Seq<char>,
    pub wallet_state_path: Seq<char>,
    pub state_path: Seq<char>,
    pub lez: Seq<char>,
    pub log_path: Seq<char>,
    pub port: u16,
    pub risc0_dev_mode: bool,
    pub failure: Option<ResetErrorView>,
    pub block_height: u64,
}

impl View for ResetRun {
    type V = ResetModel;

    open spec fn view(&self) -> ResetModel {
        ResetModel {
            phase: self.phase,
            keep_wallet: self.keep_wallet,
            rocksdb_path: self.rocksdb_path@,
            wallet_path: self.wallet_path@,
            wallet_state_path: self.wallet_state_path@,
            state_path: self.state_path@,
            lez: self.lez@,
            log_path: self.log_path@,
            port: self.port,
            risc0_dev_mode: self.risc0_dev_mode,
            failure: match self.failure {
                Some(e) => Some(e@),
                None => None,
            },
            block_height: self.block_height,
        }
    }
}


/// The model in another phase.
pub open spec fn in_phase(m: ResetModel, p: ResetPhase) -> ResetModel {
    ResetModel { phase: p, ..m }
}

/// The model after a failure.
pub open spec fn failed_with(m: ResetModel, e: ResetErrorView) -> ResetModel {
    ResetModel { phase: ResetPhase::Failed, failure: Some(e), ..m }
}

/// Where the reset goes once the database is gone: to the wallet, unless the
/// wallet is kept, in which case it says so and goes to the localnet state.
pub open spec fn after_db(m: ResetModel, notes: Seq<Seq<char>>) -> (ResetModel, Seq<Seq<char>>) {
    if m.keep_wallet {
        (
            in_phase(m, ResetPhase::DeletingLocalnetState),
            notes.push("skipping wallet deletion (--keep-wallet)"@),
        )
    } else {
        (in_phase(m, ResetPhase::DeletingWallet), notes)
    }
}

/// The line printed when the sequencer produces blocks.
pub open spec fn success_note(height: u64) -> Seq<char> {
    "localnet reset complete; sequencer producing blocks (block_height="@ + decimal(height as nat)
        + ")"@
}

/// What an event does to a reset: the next model and the lines to print.
/// An event that does not answer the pending step changes nothing, and the
/// step is asked for again.
pub open spec fn reset_next(m: ResetModel, e: ResetEventView) -> (ResetModel, Seq<Seq<char>>) {
    let none = Seq::<Seq<char>>::empty();
    match m.phase {
        ResetPhase::Stopping => match e {
            ResetEventView::Completed => (in_phase(m, ResetPhase::DeletingDb), none),
            ResetEventView::Failed(msg) => (failed_with(m, ResetErrorView::StepFailed(msg)), none),
            _ => (m, none),
        },
        ResetPhase::DeletingDb => match e {
            ResetEventView::Completed => after_db(m, none),
            ResetEventView::NotFound => after_db(
                m,
                seq!["sequencer DB not found at "@ + m.rocksdb_path + "; skipping deletion"@],
            ),
            ResetEventView::Failed(cause) => (
                failed_with(
                    m,
                    ResetErrorView::DeletionFailed(
                        "failed to delete sequencer DB at "@ + m.rocksdb_path,
                        cause,
                    ),
                ),
                none,
            ),
            _ => (m, none),
        },
        ResetPhase::DeletingWallet => match e {
            ResetEventView::Completed => (in_phase(m, ResetPhase::DeletingWalletState), none),
            ResetEventView::NotFound => (
                in_phase(m, ResetPhase::DeletingWalletState),
                seq!["wallet not found at "@ + m.wallet_path + "; skipping deletion"@],
            ),
            ResetEventView::Failed(cause) => (
                failed_with(
                    m,
                    ResetErrorView::DeletionFailed(
                        "failed to delete wallet at "@ + m.wallet_path,
                        cause,
                    ),
                ),
                none,
            ),
            _ => (m, none),
        },
        ResetPhase::DeletingWalletState => match e {
            ResetEventView::Completed => (in_phase(m, ResetPhase::DeletingLocalnetState), none),
            ResetEventView::NotFound => (
                in_phase(m, ResetPhase::DeletingLocalnetState),
                seq!["wallet state not found at "@ + m.wallet_state_path + "; skipping deletion"@],
            ),
            ResetEventView::Failed(cause) => (
                failed_with(
                    m,
                    ResetErrorView::DeletionFailed(
                        "failed to delete wallet state at "@ + m.wallet_state_path,
                        cause,
                    ),
                ),
                none,
            ),
            _ => (m, none),
        },
        ResetPhase::DeletingLocalnetState => match e {
            ResetEventView::Completed => (in_phase(m, ResetPhase::RunningSetup), none),
            ResetEventView::NotFound => (in_phase(m, ResetPhase::RunningSetup), none),
            ResetEventView::Failed(cause) => (
                failed_with(m, ResetErrorView::StepFailed(cause)),
                none,
            ),
            _ => (m, none),
        },
        ResetPhase::RunningSetup => match e {
            ResetEventView::Completed => (in_phase(m, ResetPhase::Starting), none),
            ResetEventView::Failed(msg) => (failed_with(m, ResetErrorView::StepFailed(msg)), none),
            _ => (m, none),
        },
        ResetPhase::Starting => match e {
            ResetEventView::Completed => (in_phase(m, ResetPhase::StartingClock), none),
            ResetEventView::Failed(msg) => (failed_with(m, ResetErrorView::StepFailed(msg)), none),
            _ => (m, none),
        },
        ResetPhase::StartingClock => match e {
            ResetEventView::Completed => (in_phase(m, ResetPhase::CheckingDeadline), none),
            _ => (m, none),
        },
        ResetPhase::CheckingDeadline => match e {
            ResetEventView::Completed => (in_phase(m, ResetPhase::Polling), none),
            ResetEventView::DeadlinePassed => (
                failed_with(m, ResetErrorView::BlocksNotProduced),
                none,
            ),
            _ => (m, none),
        },
        ResetPhase::Polling => match e {
            ResetEventView::BlockHeight(h) => if h > 0 {
                (
                    ResetModel { phase: ResetPhase::Done, block_height: h, ..m },
                    seq![success_note(h)],
                )
            } else {
                (in_phase(m, ResetPhase::Sleeping), none)
            },
            ResetEventView::Unreachable => (in_phase(m, ResetPhase::Sleeping), none),
            ResetEventView::Failed(msg) => (
                failed_with(m, ResetErrorView::VerificationPollFailed(msg)),
                none,
            ),
            _ => (m, none),
        },
        ResetPhase::Sleeping => match e {
            ResetEventView::Completed => (in_phase(m, ResetPhase::CheckingDeadline), none),
            _ => (m, none),
        },
        ResetPhase::Done => (m, none),
        ResetPhase::Failed => (m, none),
    }
}

/// The step that a reset asks for in its phase.
pub open spec fn reset_action(m: ResetModel) -> ResetActionView {
    match m.phase {
        ResetPhase::Stopping => ResetActionView::StopSequencer,
        ResetPhase::DeletingDb => ResetActionView::RemoveDir(m.rocksdb_path),
        ResetPhase::DeletingWallet => ResetActionView::RemoveDir(m.wallet_path),
        ResetPhase::DeletingWalletState => ResetActionView::RemoveFile(m.wallet_state_path),
        ResetPhase::DeletingLocalnetState => ResetActionView::RemoveFile(m.state_path),
        ResetPhase::RunningSetup => ResetActionView::RunSetup,
        ResetPhase::Starting => ResetActionView::StartSequencer(
            m.lez,
            m.state_path,
            m.log_path,
            20,
            m.port,
            m.risc0_dev_mode,
        ),
        ResetPhase::StartingClock => ResetActionView::StartClock(30),
        ResetPhase::CheckingDeadline => ResetActionView::CheckDeadline,
        ResetPhase::Polling => ResetActionView::PollLastBlock,
        ResetPhase::Sleeping => ResetActionView::Sleep(500),
        ResetPhase::Done => ResetActionView::Finish(None),
        ResetPhase::Failed => ResetActionView::Finish(m.failure),
    }
}

/// A reset of `project`'s localnet as it begins: stopping the sequencer.
pub open spec fn reset_begin(
    root: Seq<char>,
    lssa_path: Seq<char>,
    wallet_home_dir: Seq<char>,
    port: u16,
    risc0_dev_mode: bool,
    keep_wallet: bool,
) -> ResetModel {
    ResetModel {
        phase: ResetPhase::Stopping,
        keep_wallet,
        rocksdb_path: join_path(lssa_path, "rocksdb"@),
        wallet_path: join_path(root, wallet_home_dir),
        wallet_state_path: join_path(root, ".scaffold/state/wallet.state"@),
        state_path: project_state_path(root),
        lez: lssa_path,
        log_path: project_log_path(root),
        port,
        risc0_dev_mode,
        failure: None,
        block_height: 0,
    }
}

/// `a + b + c` as a string.
fn concat3(a: &str, b: &str, c: &str) -> (s: String)
    ensures
        s@ == a@ + b@ + c@,
{
    let mut s = String::from_str(a);
    s.append(b);
    s.append(c);
    s
}

/// The error of a failed deletion.
fn deletion_failure(what: &str, path: &String, cause: &String) -> (e: ResetError)
    ensures
        e@ == ResetErrorView::DeletionFailed(what@ + path@, cause@),
{
    let mut context = String::from_str(what);
    context.append(path.as_str());
    ResetError::DeletionFailed { context, cause: cause.clone() }
}

impl ResetRun {
    /// Begins a reset of `project`'s localnet; the wallet and its state are
    /// kept where `keep_wallet` is set.
    pub fn begin(project: &Project, keep_wallet: bool) -> (r: ResetRun)
        ensures
            r@ == reset_begin(
                project.root@,
                project.config.lssa.path@,
                project.config.wallet_home_dir@,
                project.config.localnet.port,
                project.config.localnet.risc0_dev_mode,
                keep_wallet,
            ),
    {
        let root = project.root.as_str();
        ResetRun {
            phase: ResetPhase::Stopping,
            keep_wallet,
            rocksdb_path: path_join(project.config.lssa.path.as_str(), "rocksdb"),
            wallet_path: path_join(root, project.config.wallet_home_dir.as_str()),
            wallet_state_path: path_join(root, ".scaffold/state/wallet.state"),
            state_path: localnet_state_path(project),
            lez: project.config.lssa.path.clone(),
            log_path: path_join(root, ".scaffold/logs/sequencer.log"),
            port: project.config.localnet.port,
            risc0_dev_mode: project.config.localnet.risc0_dev_mode,
            failure: None,
            block_height: 0,
        }
    }

    /// The step that the reset asks for now.
    pub fn next_action(&self) -> (a: ResetAction)
        ensures
            a@ == reset_action(self@),
    {
        match self.phase {
            ResetPhase::Stopping => ResetAction::StopSequencer,
            ResetPhase::DeletingDb => ResetAction::RemoveDir(self.rocksdb_path.clone()),
            ResetPhase::DeletingWallet => ResetAction::RemoveDir(self.wallet_path.clone()),
            ResetPhase::DeletingWalletState => ResetAction::RemoveFile(self.wallet_state_path.clone()),
            ResetPhase::DeletingLocalnetState => ResetAction::RemoveFile(self.state_path.clone()),
            ResetPhase::RunningSetup => ResetAction::RunSetup,
            ResetPhase::Starting => ResetAction::StartSequencer {
                lez: self.lez.clone(),
                state_path: self.state_path.clone(),
                log_path: self.log_path.clone(),
                timeout_sec: 20,
                port: self.port,
                risc0_dev_mode: self.risc0_dev_mode,
            },
            ResetPhase::StartingClock => ResetAction::StartClock { secs: 30 },
            ResetPhase::CheckingDeadline => ResetAction::CheckDeadline,
            ResetPhase::Polling => ResetAction::PollLastBlock,
            ResetPhase::Sleeping => ResetAction::Sleep { millis: 500 },
            ResetPhase::Done => ResetAction::Finish(None),
            ResetPhase::Failed => ResetAction::Finish(
                match &self.failure {
                    Some(e) => Some(e.duplicate()),
                    None => None,
                },
            ),
        }
    }

    /// Moves to the phase after the database, as `after_db` says.
    fn leave_db(&mut self, notes: &mut Vec<String>)
        requires
            old(self).phase == ResetPhase::DeletingDb,
        ensures
            final(self)@ == after_db(old(self)@, views(old(notes)@)).0,
            views(final(notes)@) == after_db(old(self)@, views(old(notes)@)).1,
    {
        if self.keep_wallet {
            self.phase = ResetPhase::DeletingLocalnetState;
            notes.push(String::from_str("skipping wallet deletion (--keep-wallet)"));
            assert(views(notes@) =~= views(old(notes)@).push(
                "skipping wallet deletion (--keep-wallet)"@,
            ));
        } else {
            self.phase = ResetPhase::DeletingWallet;
        }
    }

    /// Takes in what the pending step reported; returns the lines to print.
    pub fn advance(&mut self, event: &ResetEvent) -> (notes: Vec<String>)
        ensures
            final(self)@ == reset_next(old(self)@, event@).0,
            views(notes@) == reset_next(old(self)@, event@).1,
    {
        let mut notes: Vec<String> = Vec::new();
        assert(views(notes@) =~= Seq::<Seq<char>>::empty());
        match self.phase {
            ResetPhase::Stopping => match event {
                ResetEvent::Completed => {
                    self.phase = ResetPhase::DeletingDb;
                },
                ResetEvent::Failed(msg) => {
                    self.phase = ResetPhase::Failed;
                    self.failure = Some(ResetError::StepFailed(msg.clone()));
                },
                _ => {},
            },
            ResetPhase::DeletingDb => match event {
                ResetEvent::Completed => {
                    self.leave_db(&mut notes);
                },
                ResetEvent::NotFound => {
                    notes.push(
                        concat3(
                            "sequencer DB not found at ",
                            self.rocksdb_path.as_str(),
                            "; skipping deletion",
                        ),
                    );
                    self.leave_db(&mut notes);
                },
                ResetEvent::Failed(cause) => {
                    self.phase = ResetPhase::Failed;
                    self.failure = Some(
                        deletion_failure("failed to delete sequencer DB at ", &self.rocksdb_path, cause),
                    );
                },
                _ => {},
            },
            ResetPhase::DeletingWallet => match event {
                ResetEvent::Completed => {
                    self.phase = ResetPhase::DeletingWalletState;
                },
                ResetEvent::NotFound => {
                    self.phase = ResetPhase::DeletingWalletState;
                    notes.push(
                        concat3("wallet not found at ", self.wallet_path.as_str(), "; skipping deletion"),
                    );
                },
                ResetEvent::Failed(cause) => {
                    self.phase = ResetPhase::Failed;
                    self.failure = Some(
                        deletion_failure("failed to delete wallet at ", &self.wallet_path, cause),
                    );
                },
                _ => {},
            },
            ResetPhase::DeletingWalletState => match event {
                ResetEvent::Completed => {
                    self.phase = ResetPhase::DeletingLocalnetState;
                },
                ResetEvent::NotFound => {
                    self.phase = ResetPhase::DeletingLocalnetState;
                    notes.push(
                        concat3(
                            "wallet state not found at ",
                            self.wallet_state_path.as_str(),
                            "; skipping deletion",
                        ),
                    );
                },
                ResetEvent::Failed(cause) => {
                    self.phase = ResetPhase::Failed;
                    self.failure = Some(
                        deletion_failure(
                            "failed to delete wallet state at ",
                            &self.wallet_state_path,
                            cause,
                        ),
                    );
                },
                _ => {},
            },
            ResetPhase::DeletingLocalnetState => match event {
                ResetEvent::Completed => {
                    self.phase = ResetPhase::RunningSetup;
                },
                ResetEvent::NotFound => {
                    self.phase = ResetPhase::RunningSetup;
                },
                ResetEvent::Failed(cause) => {
                    self.phase = ResetPhase::Failed;
                    self.failure = Some(ResetError::StepFailed(cause.clone()));
                },
                _ => {},
            },
            ResetPhase::RunningSetup => match event {
                ResetEvent::Completed => {
                    self.phase = ResetPhase::Starting;
                },
                ResetEvent::Failed(msg) => {
                    self.phase = ResetPhase::Failed;
                    self.failure = Some(ResetError::StepFailed(msg.clone()));
                },
                _ => {},
            },
            ResetPhase::Starting => match event {
                ResetEvent::Completed => {
                    self.phase = ResetPhase::StartingClock;
                },
                ResetEvent::Failed(msg) => {
                    self.phase = ResetPhase::Failed;
                    self.failure = Some(ResetError::StepFailed(msg.clone()));
                },
                _ => {},
            },
            ResetPhase::StartingClock => match event {
                ResetEvent::Completed => {
                    self.phase = ResetPhase::CheckingDeadline;
                },
                _ => {},
            },
            ResetPhase::CheckingDeadline => match event {
                ResetEvent::Completed => {
                    self.phase = ResetPhase::Polling;
                },
                ResetEvent::DeadlinePassed => {
                    self.phase = ResetPhase::Failed;
                    self.failure = Some(ResetError::BlocksNotProduced);
                },
                _ => {},
            },
            ResetPhase::Polling => match event {
                ResetEvent::BlockHeight(h) => {
                    if *h > 0 {
                        self.phase = ResetPhase::Done;
                        self.block_height = *h;
                        let d = crate::text::decimal_string(*h);
                        notes.push(
                            concat3(
                                "localnet reset complete; sequencer producing blocks (block_height=",
                                d.as_str(),
                                ")",
                            ),
                        );
                    } else {
                        self.phase = ResetPhase::Sleeping;
                    }
                },
                ResetEvent::Unreachable => {
                    self.phase = ResetPhase::Sleeping;
                },
                ResetEvent::Failed(msg) => {
                    self.phase = ResetPhase::Failed;
                    self.failure = Some(ResetError::VerificationPollFailed(msg.clone()));
                },
                _ => {},
            },
            ResetPhase::Sleeping => match event {
                ResetEvent::Completed => {
                    self.phase = ResetPhase::CheckingDeadline;
                },
                _ => {},
            },
            ResetPhase::Done => {},
            ResetPhase::Failed => {},
        }
        assert(views(notes@) =~= reset_next(old(self)@, event@).1);
        notes
    }
}


/// How far along a reset a phase stands.
pub open spec fn reset_rank(p: ResetPhase) -> int {
    match p {
        ResetPhase::Stopping => 0,
        ResetPhase::DeletingDb => 1,
        ResetPhase::DeletingWallet => 2,
        ResetPhase::DeletingWalletState => 3,
        ResetPhase::DeletingLocalnetState => 4,
        ResetPhase::RunningSetup => 5,
        ResetPhase::Starting => 6,
        ResetPhase::StartingClock => 7,
        ResetPhase::CheckingDeadline => 8,
        ResetPhase::Polling => 8,
        ResetPhase::Sleeping => 8,
        ResetPhase::Done => 9,
        ResetPhase::Failed => 9,
    }
}

/// Whether a reset is over.
pub open spec fn reset_finished(p: ResetPhase) -> bool {
    p == ResetPhase::Done || p == ResetPhase::Failed
}

/// The order of a reset: no event sends a reset back to an earlier step, so
/// the sequencer is stopped before its database is deleted, the database is
/// deleted before setup runs, setup runs before the sequencer starts, and
/// block production is checked only after the start. A phase is entered only
/// from the one before it (the wallet steps skipped where the wallet is
/// kept), the paths and the wallet choice never change, and a finished reset
/// stays as it is.
pub proof fn lemma_reset_order(m: ResetModel, e: ResetEventView)
    ensures
        reset_rank(reset_next(m, e).0.phase) >= reset_rank(m.phase),
        reset_next(m, e).0.keep_wallet == m.keep_wallet,
        reset_next(m, e).0.rocksdb_path == m.rocksdb_path,
        reset_next(m, e).0.wallet_path == m.wallet_path,
        reset_next(m, e).0.wallet_state_path == m.wallet_state_path,
        reset_next(m, e).0.state_path == m.state_path,
        reset_next(m, e).0.lez == m.lez,
        reset_next(m, e).0.log_path == m.log_path,
        reset_next(m, e).0.port == m.port,
        reset_next(m, e).0.risc0_dev_mode == m.risc0_dev_mode,
        reset_next(m, e).0.phase == ResetPhase::DeletingDb ==> m.phase == ResetPhase::DeletingDb
            || m.phase == ResetPhase::Stopping,
        reset_next(m, e).0.phase == ResetPhase::RunningSetup ==> m.phase == ResetPhase::RunningSetup
            || m.phase == ResetPhase::DeletingLocalnetState,
        reset_next(m, e).0.phase == ResetPhase::Starting ==> m.phase == ResetPhase::Starting
            || m.phase == ResetPhase::RunningSetup,
        reset_next(m, e).0.phase == ResetPhase::Polling ==> m.phase == ResetPhase::Polling
            || m.phase == ResetPhase::CheckingDeadline,
        reset_finished(m.phase) ==> reset_next(m, e).0 == m && reset_next(m, e).1.len() == 0,
{
}

/// With the wallet kept, a reset that has not reached the wallet steps never
/// reaches them: neither the wallet nor the wallet state is deleted.
pub proof fn lemma_reset_keeps_wallet(m: ResetModel, e: ResetEventView)
    requires
        m.keep_wallet,
        m.phase != ResetPhase::DeletingWallet,
        m.phase != ResetPhase::DeletingWalletState,
    ensures
        reset_next(m, e).0.phase != ResetPhase::DeletingWallet,
        reset_next(m, e).0.phase != ResetPhase::DeletingWalletState,
{
}

/// A path that is already gone is no error: the reset goes on to the next
/// step.
pub proof fn lemma_reset_missing_is_not_error(m: ResetModel)
    requires
        m.phase == ResetPhase::DeletingDb || m.phase == ResetPhase::DeletingWallet || m.phase
            == ResetPhase::DeletingWalletState || m.phase == ResetPhase::DeletingLocalnetState,
    ensures
        reset_next(m, ResetEventView::NotFound).0.phase != ResetPhase::Failed,
        reset_rank(reset_next(m, ResetEventView::NotFound).0.phase) > reset_rank(m.phase),
{
}

/// A reset deletes only the sequencer database, the wallet, the wallet
/// state and the localnet state: the log is kept for inspection.
pub proof fn lemma_reset_deletes_only_state(m: ResetModel)
    ensures
        reset_action(m) matches ResetActionView::RemoveDir(p) ==> (p == m.rocksdb_path || p
            == m.wallet_path),
        reset_action(m) matches ResetActionView::RemoveFile(p) ==> (p == m.wallet_state_path || p
            == m.state_path),
{
}

/// The start step: the sequencer is started as `localnet start` does, with
/// a 20 s timeout, the project's checkout, localnet state, log file, port and
/// dev mode; a failed start ends the reset with the start's error; block
/// production is checked only after a start that succeeded.
pub proof fn lemma_reset_start_step(m: ResetModel, e: ResetEventView)
    ensures
        m.phase == ResetPhase::Starting ==> reset_action(m) == ResetActionView::StartSequencer(
            m.lez,
            m.state_path,
            m.log_path,
            20,
            m.port,
            m.risc0_dev_mode,
        ),
        m.phase == ResetPhase::Starting ==> (e matches ResetEventView::Failed(msg) ==> (
        reset_next(m, e).0.phase == ResetPhase::Failed && reset_next(m, e).0.failure == Some(
            ResetErrorView::StepFailed(msg),
        ))),
        (reset_next(m, e).0.phase == ResetPhase::StartingClock && m.phase
            != ResetPhase::StartingClock) ==> (m.phase == ResetPhase::Starting && e
            == ResetEventView::Completed),
        (reset_next(m, e).0.phase == ResetPhase::CheckingDeadline && m.phase
            != ResetPhase::CheckingDeadline) ==> (m.phase == ResetPhase::StartingClock || m.phase
            == ResetPhase::Sleeping),
{
}

/// How block production is checked: the reset succeeds only on a positive
/// block height from the sequencer; a height of zero or an unreachable
/// sequencer means polling again after a pause; any other poll error ends the
/// reset with that error; a passed deadline ends it with `BlocksNotProduced`.
pub proof fn lemma_reset_verification(m: ResetModel, e: ResetEventView)
    ensures
        (reset_next(m, e).0.phase == ResetPhase::Done && m.phase != ResetPhase::Done) ==> (
        m.phase == ResetPhase::Polling && (e matches ResetEventView::BlockHeight(h) && h > 0
            && reset_next(m, e).0.block_height == h && reset_next(m, e).1 == seq![success_note(h)])),
        (m.phase == ResetPhase::Polling && (e == ResetEventView::Unreachable
            || e == ResetEventView::BlockHeight(0))) ==> reset_next(m, e).0.phase
            == ResetPhase::Sleeping,
        m.phase == ResetPhase::Polling ==> (e matches ResetEventView::Failed(msg) ==> reset_next(
            m,
            e,
        ).0.failure == Some(ResetErrorView::VerificationPollFailed(msg))),
        (m.phase == ResetPhase::CheckingDeadline && e == ResetEventView::DeadlinePassed)
            ==> reset_next(m, e).0.phase == ResetPhase::Failed && reset_next(m, e).0.failure == Some(
            ResetErrorView::BlocksNotProduced,
        ),
        (reset_next(m, e).0.phase == ResetPhase::Failed && m.phase != ResetPhase::Failed)
            ==> reset_next(m, e).0.failure is Some,
{
}

/// Whether an event reports a deletion step done: the path was deleted, or
/// was not there.
pub open spec fn deletion_done(e: ResetEventView) -> bool {
    e == ResetEventView::Completed || e == ResetEventView::NotFound
}

/// Without `--keep-wallet`, once the database step is done (the database
/// deleted or already absent) the reset deletes the wallet directory, then
/// the wallet state, then the localnet state, each whether or not the one
/// before was there; with `--keep-wallet` it goes from the database straight
/// to the localnet state. A database that was not there is reported and is
/// no error.
pub proof fn lemma_reset_wallet_deleted_unless_kept(
    m: ResetModel,
    e1: ResetEventView,
    e2: ResetEventView,
    e3: ResetEventView,
    e4: ResetEventView,
)
    requires
        m.phase == ResetPhase::DeletingDb,
        deletion_done(e1),
        deletion_done(e2),
        deletion_done(e3),
        deletion_done(e4),
    ensures
        reset_action(m) == ResetActionView::RemoveDir(m.rocksdb_path),
        !m.keep_wallet ==> ({
            let m1 = reset_next(m, e1).0;
            let m2 = reset_next(m1, e2).0;
            let m3 = reset_next(m2, e3).0;
            &&& reset_action(m1) == ResetActionView::RemoveDir(m.wallet_path)
            &&& reset_action(m2) == ResetActionView::RemoveFile(m.wallet_state_path)
            &&& reset_action(m3) == ResetActionView::RemoveFile(m.state_path)
            &&& reset_action(reset_next(m3, e4).0) == ResetActionView::RunSetup
        }),
        m.keep_wallet ==> ({
            let m1 = reset_next(m, e1).0;
            &&& reset_action(m1) == ResetActionView::RemoveFile(m.state_path)
            &&& reset_next(m, e1).1.last() == "skipping wallet deletion (--keep-wallet)"@
            &&& reset_action(reset_next(m1, e2).0) == ResetActionView::RunSetup
        }),
        e1 == ResetEventView::NotFound ==> reset_next(m, e1).1[0] == "sequencer DB not found at "@
            + m.rocksdb_path + "; skipping deletion"@,
        reset_next(m, e1).0.failure == m.failure,
{
}

} // verus!
