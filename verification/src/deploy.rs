//! The state machine of one deploy attempt.
//!
//! The machine performs nothing itself. It names the [`Step`] to perform
//! next; the driver performs it and reports how it went with an [`Event`];
//! [`Deploy::advance`] takes the report and names the next step. Forward
//! progress runs dump, connect, probe, backup, upload, apply. Wherever it
//! ends, in success or failure, the steps of [`cleanup_steps`] follow, and the
//! attempt is done with an [`Outcome`].
//!
//! The pending step says how far the attempt has come: nothing is done while
//! the dump is pending, the dump is made once the connect is, the session is
//! open once the probe is, and so on. Whether a backup stands on the host is
//! kept beside it. An attempt that is done is committed, rolled back or
//! dirty: see [`crate::report::ExitState`].

use vstd::prelude::*;
use vstd::string::*;

use crate::plan::{DeployPlan, DeployPlanView};
use crate::text::text_of;

verus! {

/// One unit of work that the driver performs for the machine.
#[derive(Clone, Copy, Debug, PartialEq, Eq, Structural)]
pub enum Step {
    /// Run the dump tool on the local database and write the local artifact.
    Dump,
    /// Open the session to the host.
    Connect,
    /// Find out whether the live database exists.
    Probe,
    /// Rename the live database to the backup path.
    Backup,
    /// Create the remote dump and stream the local artifact into it.
    Upload,
    /// Run the apply command on the host.
    Apply,
    /// Rename the backup back to the live path.
    Restore,
    /// Delete the uploaded dump.
    RemoveRemoteDump,
    /// Delete the local artifact.
    RemoveLocalDump,
    /// Nothing is left to do.
    Done,
}

/// Where forward progress ended.
#[derive(Clone, Copy, Debug, PartialEq, Eq, Structural)]
pub enum Halt {
    DumpFailed,
    ConnectFailed,
    BackupFailed,
    UploadFailed,
    ApplyFailed,
    /// The apply command exited with status 0.
    Applied,
}

/// The cleanup policy: the steps that follow the end of forward progress, in
/// order. Each is attempted whatever became of the one before. The backup is
/// restored only after a failure that followed its creation, never after a
/// success; the uploaded dump is removed once an apply was attempted; the
/// local artifact is removed last, always.
pub open spec fn cleanup_steps(halt: Halt, backup_taken: bool) -> Seq<Step> {
    match halt {
        Halt::DumpFailed | Halt::ConnectFailed | Halt::BackupFailed => seq![Step::RemoveLocalDump],
        Halt::UploadFailed => if backup_taken {
            seq![Step::Restore, Step::RemoveLocalDump]
        } else {
            seq![Step::RemoveLocalDump]
        },
        Halt::ApplyFailed => if backup_taken {
            seq![Step::Restore, Step::RemoveRemoteDump, Step::RemoveLocalDump]
        } else {
            seq![Step::RemoveRemoteDump, Step::RemoveLocalDump]
        },
        Halt::Applied => seq![Step::RemoveRemoteDump, Step::RemoveLocalDump],
    }
}

/// The cleanup policy as a list.
pub fn cleanup_plan(halt: Halt, backup_taken: bool) -> (steps: Vec<Step>)
    ensures
        steps@ == cleanup_steps(halt, backup_taken),
{
    let mut steps: Vec<Step> = Vec::new();
    match halt {
        Halt::DumpFailed | Halt::ConnectFailed | Halt::BackupFailed => {},
        Halt::UploadFailed => {
            if backup_taken {
                steps.push(Step::Restore);
            }
        },
        Halt::ApplyFailed => {
            if backup_taken {
                steps.push(Step::Restore);
            }
            steps.push(Step::RemoveRemoteDump);
        },
        Halt::Applied => {
            steps.push(Step::RemoveRemoteDump);
        },
    }
    steps.push(Step::RemoveLocalDump);
    steps
}

/// How a step went, as the driver reports it.
#[derive(Debug, PartialEq, Eq)]
pub enum Event {
    Dumped(Result<(), String>),
    Connected(Result<(), String>),
    /// Whether the live database exists.
    Probed(bool),
    BackedUp(Result<(), String>),
    Uploaded(Result<(), String>),
    /// The exit status of the apply command, `None` where it gave none, and
    /// what it wrote.
    Applied { status: Option<i32>, output: String },
    Restored(Result<(), String>),
    RemoteDumpRemoved(Result<(), String>),
    LocalDumpRemoved(Result<(), String>),
}

/// The model of an [`Event`]: a failure is its text, `None` is success.
pub enum EventView {
    Dumped(Option<Seq<char>>),
    Connected(Option<Seq<char>>),
    Probed(bool),
    BackedUp(Option<Seq<char>>),
    Uploaded(Option<Seq<char>>),
    Applied { status: Option<i32>, output: Seq<char> },
    Restored(Option<Seq<char>>),
    RemoteDumpRemoved(Option<Seq<char>>),
    LocalDumpRemoved(Option<Seq<char>>),
}

/// The failure text of a report, `None` for success.
pub open spec fn failure_of(result: Result<(), String>) -> Option<Seq<char>> {
    match result {
        Ok(_) => None,
        Err(text) => Some(text@),
    }
}

impl View for Event {
    type V = EventView;

    open spec fn view(&self) -> EventView {
        match *self {
            Event::Dumped(r) => EventView::Dumped(failure_of(r)),
            Event::Connected(r) => EventView::Connected(failure_of(r)),
            Event::Probed(exists) => EventView::Probed(exists),
            Event::BackedUp(r) => EventView::BackedUp(failure_of(r)),
            Event::Uploaded(r) => EventView::Uploaded(failure_of(r)),
            Event::Applied { status, output } => EventView::Applied { status, output: output@ },
            Event::Restored(r) => EventView::Restored(failure_of(r)),
            Event::RemoteDumpRemoved(r) => EventView::RemoteDumpRemoved(failure_of(r)),
            Event::LocalDumpRemoved(r) => EventView::LocalDumpRemoved(failure_of(r)),
        }
    }
}

/// The step that an event reports on.
pub open spec fn step_of(event: EventView) -> Step {
    match event {
        EventView::Dumped(_) => Step::Dump,
        EventView::Connected(_) => Step::Connect,
        EventView::Probed(_) => Step::Probe,
        EventView::BackedUp(_) => Step::Backup,
        EventView::Uploaded(_) => Step::Upload,
        EventView::Applied { .. } => Step::Apply,
        EventView::Restored(_) => Step::Restore,
        EventView::RemoteDumpRemoved(_) => Step::RemoveRemoteDump,
        EventView::LocalDumpRemoved(_) => Step::RemoveLocalDump,
    }
}

/// One line of the cleanup log: a cleanup step and, where it failed, why.
#[derive(Clone, Debug, PartialEq, Eq)]
pub struct CleanupRecord {
    pub step: Step,
    pub error: Option<String>,
}

/// The model of a [`CleanupRecord`].
pub struct CleanupRecordView {
    pub step: Step,
    pub error: Option<Seq<char>>,
}

impl View for CleanupRecord {
    type V = CleanupRecordView;

    open spec fn view(&self) -> CleanupRecordView {
        CleanupRecordView { step: self.step, error: text_of(self.error) }
    }
}

/// The models of a list of records.
pub open spec fn log_view(log: Seq<CleanupRecord>) -> Seq<CleanupRecordView> {
    log.map_values(|r: CleanupRecord| r@)
}

/// The model of a [`Deploy`]: everything the machine remembers.
pub struct DeployView {
    pub plan: DeployPlanView,
    /// The step whose report is awaited.
    pub pending: Step,
    /// Whether the live database was renamed to the backup path.
    pub backup_taken: bool,
    /// Where forward progress ended, once it has.
    pub halt: Option<Halt>,
    /// The text that came with the end of forward progress: the failure, or
    /// what the apply command wrote.
    pub detail: Seq<char>,
    /// The exit status of the apply command.
    pub status: Option<i32>,
    /// The cleanup steps reported so far.
    pub log: Seq<CleanupRecordView>,
}

/// The step after `done` cleanup steps.
pub open spec fn cleanup_step_at(halt: Halt, backup_taken: bool, done: nat) -> Step {
    let steps = cleanup_steps(halt, backup_taken);
    if done < steps.len() {
        steps[done as int]
    } else {
        Step::Done
    }
}

impl DeployView {
    /// The machine at the start of an attempt.
    pub open spec fn initial(plan: DeployPlanView) -> DeployView {
        DeployView {
            plan,
            pending: Step::Dump,
            backup_taken: false,
            halt: None,
            detail: Seq::empty(),
            status: None,
            log: Seq::empty(),
        }
    }

    /// What holds of every state that the machine reaches.
    pub open spec fn wf(self) -> bool {
        match self.halt {
            None => {
                &&& self.log.len() == 0
                &&& self.status is None
                &&& self.detail.len() == 0
                &&& match self.pending {
                    Step::Dump | Step::Connect | Step::Probe | Step::Backup => !self.backup_taken,
                    Step::Upload | Step::Apply => true,
                    _ => false,
                }
            },
            Some(halt) => {
                let steps = cleanup_steps(halt, self.backup_taken);
                &&& self.log.len() <= steps.len()
                &&& self.pending == cleanup_step_at(halt, self.backup_taken, self.log.len())
                &&& forall|i: int| 0 <= i < self.log.len() ==> (#[trigger] self.log[i]).step == steps[i]
                &&& self.backup_taken ==> halt == Halt::UploadFailed || halt == Halt::ApplyFailed
                    || halt == Halt::Applied
                &&& halt == Halt::Applied <==> self.status == Some(0i32)
                &&& self.status is Some ==> halt == Halt::ApplyFailed || halt == Halt::Applied
            },
        }
    }

    /// Forward progress goes on with `to`.
    pub open spec fn proceed(self, to: Step) -> DeployView {
        DeployView { pending: to, ..self }
    }

    /// Forward progress ends, and cleanup begins.
    pub open spec fn halted(self, halt: Halt, detail: Seq<char>, status: Option<i32>) -> DeployView {
        DeployView {
            pending: cleanup_step_at(halt, self.backup_taken, 0),
            halt: Some(halt),
            detail,
            status,
            ..self
        }
    }

    /// The pending cleanup step is logged, and the next one is awaited.
    pub open spec fn logged(self, error: Option<Seq<char>>) -> DeployView {
        let log = self.log.push(CleanupRecordView { step: self.pending, error });
        DeployView {
            pending: match self.halt {
                Some(halt) => cleanup_step_at(halt, self.backup_taken, log.len()),
                None => Step::Done,
            },
            log,
            ..self
        }
    }

    /// The transition function. A report on another step than the pending
    /// one changes nothing.
    pub open spec fn step(self, event: EventView) -> DeployView {
        if step_of(event) != self.pending {
            self
        } else {
            match event {
                EventView::Dumped(None) => self.proceed(Step::Connect),
                EventView::Dumped(Some(why)) => self.halted(Halt::DumpFailed, why, None),
                EventView::Connected(None) => self.proceed(Step::Probe),
                EventView::Connected(Some(why)) => self.halted(Halt::ConnectFailed, why, None),
                EventView::Probed(true) => self.proceed(Step::Backup),
                EventView::Probed(false) => self.proceed(Step::Upload),
                EventView::BackedUp(None) => DeployView { backup_taken: true, ..self }.proceed(
                    Step::Upload,
                ),
                EventView::BackedUp(Some(why)) => self.halted(Halt::BackupFailed, why, None),
                EventView::Uploaded(None) => self.proceed(Step::Apply),
                EventView::Uploaded(Some(why)) => self.halted(Halt::UploadFailed, why, None),
                EventView::Applied { status, output } => if status == Some(0i32) {
                    self.halted(Halt::Applied, output, status)
                } else {
                    self.halted(Halt::ApplyFailed, output, status)
                },
                EventView::Restored(error) => self.logged(error),
                EventView::RemoteDumpRemoved(error) => self.logged(error),
                EventView::LocalDumpRemoved(error) => self.logged(error),
            }
        }
    }
}

/// The machine keeps its invariant at every step.
pub proof fn lemma_step_keeps_wf(s: DeployView, event: EventView)
    requires
        s.wf(),
    ensures
        s.step(event).wf(),
{
}

/// A cleanup step that fails masks nothing: once forward progress has ended,
/// no report changes where it ended, the text that came with it, the exit
/// status of the apply, or whether a backup was taken. A report is logged, or
/// it is not awaited and changes nothing at all.
pub proof fn cleanup_masks_nothing(s: DeployView, event: EventView)
    requires
        s.wf(),
        s.halt is Some,
    ensures
        s.step(event).halt == s.halt,
        s.step(event).detail == s.detail,
        s.step(event).status == s.status,
        s.step(event).backup_taken == s.backup_taken,
        s.step(event).plan == s.plan,
        s.step(event) == s || s.step(event).log == s.log.push(
            (CleanupRecordView {
                step: s.pending,
                error: match event {
                    EventView::Restored(error) => error,
                    EventView::RemoteDumpRemoved(error) => error,
                    EventView::LocalDumpRemoved(error) => error,
                    _ => None,
                },
            }),
        ),
{
}

/// What became of the backup after a failure.
#[derive(Clone, Debug, PartialEq, Eq)]
pub enum Rollback {
    /// No backup was taken, so there was nothing to restore.
    NoBackup,
    /// The backup was renamed back to the live path.
    Restored,
    /// The backup could not be renamed back. It still lies at the backup
    /// path, and the live path holds no database that can be trusted.
    Failed(String),
}

/// The model of a [`Rollback`].
pub enum RollbackView {
    NoBackup,
    Restored,
    Failed(Seq<char>),
}

impl View for Rollback {
    type V = RollbackView;

    open spec fn view(&self) -> RollbackView {
        match *self {
            Rollback::NoBackup => RollbackView::NoBackup,
            Rollback::Restored => RollbackView::Restored,
            Rollback::Failed(why) => RollbackView::Failed(why@),
        }
    }
}

/// How an attempt ended.
#[derive(Clone, Debug, PartialEq, Eq)]
pub enum Outcome {
    /// The dump was applied. `backup` is the path of the previous database,
    /// where there was one: the reference for a rollback by hand.
    Committed { backup: Option<String> },
    /// No dump was made; the host was never contacted.
    DumpFailed { detail: String },
    /// No session was opened; the host is untouched.
    ConnectFailed { detail: String },
    /// The live database could not be renamed, and is untouched.
    BackupFailed { detail: String },
    /// The dump could not be uploaded.
    UploadFailed { detail: String, rollback: Rollback },
    /// The apply command failed; `output` is what it wrote.
    ApplyFailed { status: Option<i32>, output: String, rollback: Rollback },
}

/// The model of an [`Outcome`].
pub enum OutcomeView {
    Committed { backup: Option<Seq<char>> },
    DumpFailed { detail: Seq<char> },
    ConnectFailed { detail: Seq<char> },
    BackupFailed { detail: Seq<char> },
    UploadFailed { detail: Seq<char>, rollback: RollbackView },
    ApplyFailed { status: Option<i32>, output: Seq<char>, rollback: RollbackView },
}

impl View for Outcome {
    type V = OutcomeView;

    open spec fn view(&self) -> OutcomeView {
        match *self {
            Outcome::Committed { backup } => OutcomeView::Committed { backup: text_of(backup) },
            Outcome::DumpFailed { detail } => OutcomeView::DumpFailed { detail: detail@ },
            Outcome::ConnectFailed { detail } => OutcomeView::ConnectFailed { detail: detail@ },
            Outcome::BackupFailed { detail } => OutcomeView::BackupFailed { detail: detail@ },
            Outcome::UploadFailed { detail, rollback } => OutcomeView::UploadFailed {
                detail: detail@,
                rollback: rollback@,
            },
            Outcome::ApplyFailed { status, output, rollback } => OutcomeView::ApplyFailed {
                status,
                output: output@,
                rollback: rollback@,
            },
        }
    }
}

/// The model of an optional outcome.
pub open spec fn outcome_view(outcome: Option<Outcome>) -> Option<OutcomeView> {
    match outcome {
        Some(o) => Some(o@),
        None => None,
    }
}

impl DeployView {
    /// What became of the backup after a failed upload or apply, once the
    /// attempt is done: read off the first line of the cleanup log, which is
    /// the restore wherever a backup had been taken before the failure.
    pub open spec fn rollback(self) -> RollbackView
        recommends
            self.pending == Step::Done,
            self.halt == Some(Halt::UploadFailed) || self.halt == Some(Halt::ApplyFailed),
    {
        if self.log.len() > 0 && self.log[0].step == Step::Restore {
            match self.log[0].error {
                None => RollbackView::Restored,
                Some(why) => RollbackView::Failed(why),
            }
        } else {
            RollbackView::NoBackup
        }
    }

    /// The outcome of the attempt, once nothing is left to do.
    pub open spec fn outcome(self) -> Option<OutcomeView> {
        if self.pending != Step::Done {
            None
        } else {
            match self.halt {
                None => None,
                Some(Halt::Applied) => Some(
                    OutcomeView::Committed {
                        backup: if self.backup_taken {
                            Some(self.plan.backup_path)
                        } else {
                            None
                        },
                    },
                ),
                Some(Halt::DumpFailed) => Some(OutcomeView::DumpFailed { detail: self.detail }),
                Some(Halt::ConnectFailed) => Some(OutcomeView::ConnectFailed { detail: self.detail }),
                Some(Halt::BackupFailed) => Some(OutcomeView::BackupFailed { detail: self.detail }),
                Some(Halt::UploadFailed) => Some(
                    OutcomeView::UploadFailed { detail: self.detail, rollback: self.rollback() },
                ),
                Some(Halt::ApplyFailed) => Some(
                    OutcomeView::ApplyFailed {
                        status: self.status,
                        output: self.detail,
                        rollback: self.rollback(),
                    },
                ),
            }
        }
    }
}

/// One deploy attempt in progress.
#[derive(Debug, PartialEq, Eq)]
pub struct Deploy {
    plan: DeployPlan,
    pending: Step,
    backup_taken: bool,
    halt: Option<Halt>,
    detail: String,
    status: Option<i32>,
    log: Vec<CleanupRecord>,
}

impl View for Deploy {
    type V = DeployView;

    closed spec fn view(&self) -> DeployView {
        DeployView {
            plan: self.plan@,
            pending: self.pending,
            backup_taken: self.backup_taken,
            halt: self.halt,
            detail: self.detail@,
            status: self.status,
            log: log_view(self.log@),
        }
    }
}

impl Event {
    /// The step that this event reports on.
    pub fn step(&self) -> (step: Step)
        ensures
            step == step_of(self@),
    {
        match self {
            Event::Dumped(_) => Step::Dump,
            Event::Connected(_) => Step::Connect,
            Event::Probed(_) => Step::Probe,
            Event::BackedUp(_) => Step::Backup,
            Event::Uploaded(_) => Step::Upload,
            Event::Applied { .. } => Step::Apply,
            Event::Restored(_) => Step::Restore,
            Event::RemoteDumpRemoved(_) => Step::RemoveRemoteDump,
            Event::LocalDumpRemoved(_) => Step::RemoveLocalDump,
        }
    }
}

/// The failure text of a report, `None` for success.
fn into_failure(result: Result<(), String>) -> (error: Option<String>)
    ensures
        text_of(error) == failure_of(result),
{
    match result {
        Ok(_) => None,
        Err(why) => Some(why),
    }
}

impl Deploy {
    #[verifier::type_invariant]
    spec fn well_formed(self) -> bool {
        self@.wf()
    }

    /// Starts an attempt that follows `plan`. The first step is the dump.
    pub fn begin(plan: DeployPlan) -> (deploy: Deploy)
        ensures
            deploy@ == DeployView::initial(plan@),
    {
        let deploy = Deploy {
            plan,
            pending: Step::Dump,
            backup_taken: false,
            halt: None,
            detail: String::new(),
            status: None,
            log: Vec::new(),
        };
        assert(log_view(deploy.log@) =~= Seq::empty());
        deploy
    }

    /// The step that the driver is to perform next.
    pub fn pending(&self) -> (step: Step)
        ensures
            step == self@.pending,
    {
        self.pending
    }

    /// The names and paths of this attempt.
    pub fn plan(&self) -> (plan: &DeployPlan)
        ensures
            plan@ == self@.plan,
    {
        &self.plan
    }

    /// Whether the live database has been renamed to the backup path.
    pub fn backup_taken(&self) -> (taken: bool)
        ensures
            taken == self@.backup_taken,
    {
        self.backup_taken
    }

    /// Where forward progress ended, once it has.
    pub fn halt(&self) -> (halt: Option<Halt>)
        ensures
            halt == self@.halt,
    {
        self.halt
    }

    /// The cleanup steps reported so far, each with its failure if it failed.
    pub fn cleanup_log(&self) -> (log: &Vec<CleanupRecord>)
        ensures
            log_view(log@) == self@.log,
    {
        &self.log
    }

    /// Whether `event` reports on the pending step.
    pub fn expects(&self, event: &Event) -> (yes: bool)
        ensures
            yes == (step_of(event@) == self@.pending),
    {
        event.step() == self.pending
    }

    fn proceed(self, to: Step, backup_taken: bool) -> (next: Deploy)
        requires
            self@.wf(),
            (DeployView { backup_taken, ..self@ }).proceed(to).wf(),
        ensures
            next@ == (DeployView { backup_taken, ..self@ }).proceed(to),
    {
        let Deploy { plan, pending: _, backup_taken: _, halt, detail, status, log } = self;
        Deploy { plan, pending: to, backup_taken, halt, detail, status, log }
    }

    fn halted(self, halt: Halt, detail: String, status: Option<i32>) -> (next: Deploy)
        requires
            self@.wf(),
            self@.halted(halt, detail@, status).wf(),
        ensures
            next@ == self@.halted(halt, detail@, status),
    {
        let steps = cleanup_plan(halt, self.backup_taken);
        let first = steps[0];
        let Deploy { plan, pending: _, backup_taken, halt: _, detail: _, status: _, log } = self;
        Deploy { plan, pending: first, backup_taken, halt: Some(halt), detail, status, log }
    }

    fn logged(self, error: Option<String>) -> (next: Deploy)
        requires
            self@.wf(),
            self@.logged(text_of(error)).wf(),
        ensures
            next@ == self@.logged(text_of(error)),
    {
        let Deploy { plan, pending, backup_taken, halt, detail, status, log } = self;
        let mut log = log;
        let ghost before = log@;
        let record = CleanupRecord { step: pending, error };
        log.push(record);
        assert(log_view(log@) =~= log_view(before).push(record@));
        let next_step = match halt {
            Some(h) => {
                let steps = cleanup_plan(h, backup_taken);
                if log.len() < steps.len() {
                    steps[log.len()]
                } else {
                    Step::Done
                }
            },
            None => Step::Done,
        };
        Deploy { plan, pending: next_step, backup_taken, halt, detail, status, log }
    }

    /// Takes the report on the pending step and moves on: to the next step
    /// of forward progress, or, where the report ends it, to the first step
    /// of cleanup; from a cleanup step to the next, whatever its report.
    /// A report on any other step leaves the machine as it is.
    pub fn advance(self, event: Event) -> (next: Deploy)
        ensures
            next@ == self@.step(event@),
    {
        proof {
            use_type_invariant(&self);
            lemma_step_keeps_wf(self@, event@);
        }
        if !self.expects(&event) {
            return self;
        }
        let taken = self.backup_taken;
        match event {
            Event::Dumped(Ok(_)) => self.proceed(Step::Connect, taken),
            Event::Dumped(Err(why)) => self.halted(Halt::DumpFailed, why, None),
            Event::Connected(Ok(_)) => self.proceed(Step::Probe, taken),
            Event::Connected(Err(why)) => self.halted(Halt::ConnectFailed, why, None),
            Event::Probed(true) => self.proceed(Step::Backup, taken),
            Event::Probed(false) => self.proceed(Step::Upload, taken),
            Event::BackedUp(Ok(_)) => self.proceed(Step::Upload, true),
            Event::BackedUp(Err(why)) => self.halted(Halt::BackupFailed, why, None),
            Event::Uploaded(Ok(_)) => self.proceed(Step::Apply, taken),
            Event::Uploaded(Err(why)) => self.halted(Halt::UploadFailed, why, None),
            Event::Applied { status, output } => {
                let succeeded = match status {
                    Some(code) => code == 0,
                    None => false,
                };
                if succeeded {
                    self.halted(Halt::Applied, output, status)
                } else {
                    self.halted(Halt::ApplyFailed, output, status)
                }
            },
            Event::Restored(result) => self.logged(into_failure(result)),
            Event::RemoteDumpRemoved(result) => self.logged(into_failure(result)),
            Event::LocalDumpRemoved(result) => self.logged(into_failure(result)),
        }
    }

    fn rollback(&self) -> (rollback: Rollback)
        ensures
            rollback@ == self@.rollback(),
    {
        if self.log.len() == 0 || self.log[0].step != Step::Restore {
            Rollback::NoBackup
        } else {
            match &self.log[0].error {
                None => Rollback::Restored,
                Some(why) => Rollback::Failed(why.clone()),
            }
        }
    }

    /// The outcome of the attempt: `None` while a step is pending.
    pub fn outcome(&self) -> (outcome: Option<Outcome>)
        ensures
            outcome_view(outcome) == self@.outcome(),
            outcome is Some <==> self@.pending == Step::Done,
    {
        proof {
            use_type_invariant(self);
        }
        if self.pending != Step::Done {
            return None;
        }
        match self.halt {
            None => None,
            Some(Halt::Applied) => {
                let backup = if self.backup_taken {
                    Some(String::from_str(self.plan.backup_path()))
                } else {
                    None
                };
                Some(Outcome::Committed { backup })
            },
            Some(Halt::DumpFailed) => Some(Outcome::DumpFailed { detail: self.detail.clone() }),
            Some(Halt::ConnectFailed) => Some(
                Outcome::ConnectFailed { detail: self.detail.clone() },
            ),
            Some(Halt::BackupFailed) => Some(Outcome::BackupFailed { detail: self.detail.clone() }),
            Some(Halt::UploadFailed) => Some(
                Outcome::UploadFailed { detail: self.detail.clone(), rollback: self.rollback() },
            ),
            Some(Halt::ApplyFailed) => Some(
                Outcome::ApplyFailed {
                    status: self.status,
                    output: self.detail.clone(),
                    rollback: self.rollback(),
                },
            ),
        }
    }
}

} // verus!
