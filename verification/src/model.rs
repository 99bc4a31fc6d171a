//! What the protocol guarantees of the files it touches.
//!
//! The machine of [`crate::deploy`] never sees a file. This module states, as
//! a relation between the world before and after each step, what the driver's
//! reports are taken to mean: a probe that finds no database is right, while
//! one that finds one may only be cautious; a rename moves a file that is
//! there or changes nothing; a failed upload leaves both databases alone; an
//! apply that fails leaves no trustworthy database at the live path unless it
//! left the path alone. The live database, its backup and the uploaded dump
//! are three files, as [`crate::plan::remote_paths_differ`] shows of their
//! paths. Over every run that agrees with this relation, the theorems at the
//! end of the module hold.

use vstd::prelude::*;

use crate::deploy::{
    cleanup_steps, lemma_step_keeps_wf, DeployView, EventView, Halt, OutcomeView, RollbackView,
    Step, step_of,
};
use crate::plan::DeployPlanView;
use crate::report::{exit_state_of, ExitState};

verus! {

/// What a remote database path holds.
pub enum Slot {
    /// No file.
    Absent,
    /// A complete database with these bytes.
    Database(Seq<u8>),
    /// What an apply that failed left behind: not a database to rely on.
    Partial,
}

/// The files that an attempt touches.
pub struct World {
    /// What the live path holds.
    pub live: Slot,
    /// What the backup path holds.
    pub backup: Slot,
    /// Whether the uploaded dump, or part of it, lies on the host.
    pub remote_dump: bool,
    /// Whether the local artifact exists.
    pub artifact: bool,
}

/// What performing `step` with the report `event` does to the world.
pub open spec fn performs(step: Step, event: EventView, before: World, after: World) -> bool {
    &&& step_of(event) == step
    &&& match event {
        EventView::Dumped(error) => {
            &&& after.live == before.live
            &&& after.backup == before.backup
            &&& after.remote_dump == before.remote_dump
            &&& error is None ==> after.artifact
        },
        EventView::Connected(_) => after == before,
        EventView::Probed(exists) => after == before && (!exists ==> before.live is Absent),
        EventView::BackedUp(None) => before.live !is Absent && after == World {
            live: Slot::Absent,
            backup: before.live,
            ..before
        },
        EventView::Uploaded(None) => after == World { remote_dump: true, ..before },
        EventView::Uploaded(Some(_)) => {
            &&& after.live == before.live
            &&& after.backup == before.backup
            &&& after.artifact == before.artifact
        },
        EventView::Applied { status, output } => {
            &&& after.backup == before.backup
            &&& after.remote_dump == before.remote_dump
            &&& after.artifact == before.artifact
            &&& if status == Some(0i32) {
                after.live is Database
            } else {
                after.live == before.live || after.live is Partial
            }
        },
        EventView::Restored(None) => after == World {
            live: before.backup,
            backup: Slot::Absent,
            ..before
        },
        EventView::RemoteDumpRemoved(None) => after == World { remote_dump: false, ..before },
        EventView::LocalDumpRemoved(None) => after == World { artifact: false, ..before },
        EventView::BackedUp(Some(_)) | EventView::Restored(Some(_)) | EventView::RemoteDumpRemoved(
            Some(_),
        ) | EventView::LocalDumpRemoved(Some(_)) => after == before,
    }
}

/// One step of a run: the report on the pending step, and the world after
/// the step was performed.
pub struct Moment {
    pub event: EventView,
    pub after: World,
}

/// Whether `run` is a run of the machine from the state `s` in the world `w`:
/// each report answers the step then pending, and the world changes as
/// [`performs`] says.
pub open spec fn follows(s: DeployView, w: World, run: Seq<Moment>) -> bool
    decreases run.len(),
{
    run.len() == 0 || {
        &&& performs(s.pending, run[0].event, w, run[0].after)
        &&& follows(s.step(run[0].event), run[0].after, run.drop_first())
    }
}

/// The state of the machine after the reports of `run`.
pub open spec fn state_after(s: DeployView, run: Seq<Moment>) -> DeployView
    decreases run.len(),
{
    if run.len() == 0 {
        s
    } else {
        state_after(s.step(run[0].event), run.drop_first())
    }
}

/// The world after `run`.
pub open spec fn world_after(w: World, run: Seq<Moment>) -> World {
    if run.len() == 0 {
        w
    } else {
        run.last().after
    }
}

/// Whether the restore has been reported, and went well.
pub open spec fn restored(s: DeployView) -> bool {
    s.log.len() > 0 && s.log[0].step == Step::Restore && s.log[0].error is None
}

/// Whether no upload has been attempted yet.
pub open spec fn before_upload(s: DeployView) -> bool {
    match s.halt {
        None => s.pending != Step::Apply,
        Some(Halt::DumpFailed) | Some(Halt::ConnectFailed) | Some(Halt::BackupFailed) => true,
        _ => false,
    }
}

/// What the state of the machine says of the world, given the world `origin`
/// in which the attempt began.
pub open spec fn consistent(s: DeployView, w: World, origin: World) -> bool {
    let prior = origin.live;
    let untouched = w.live == prior && w.backup == origin.backup;
    let nothing_to_keep = prior is Absent && w.backup == origin.backup;
    &&& s.backup_taken ==> prior !is Absent
    &&& match s.halt {
        None => match s.pending {
            Step::Upload | Step::Apply => if s.backup_taken {
                w.live is Absent && w.backup == prior
            } else {
                nothing_to_keep && w.live is Absent
            },
            _ => untouched,
        },
        Some(Halt::DumpFailed) | Some(Halt::ConnectFailed) | Some(Halt::BackupFailed) => untouched,
        Some(Halt::UploadFailed) => if !s.backup_taken {
            nothing_to_keep && w.live is Absent
        } else if restored(s) {
            w.live == prior && w.backup is Absent
        } else {
            w.live is Absent && w.backup == prior
        },
        Some(Halt::ApplyFailed) => if !s.backup_taken {
            nothing_to_keep && w.live !is Database
        } else if restored(s) {
            w.live == prior && w.backup is Absent
        } else {
            w.live !is Database && w.backup == prior
        },
        Some(Halt::Applied) => {
            &&& w.live is Database
            &&& if s.backup_taken {
                w.backup == prior
            } else {
                nothing_to_keep
            }
        },
    }
    &&& before_upload(s) ==> w.remote_dump == origin.remote_dump
    &&& forall|i: int|
        0 <= i < s.log.len() && (#[trigger] s.log[i]).step == Step::RemoveRemoteDump
            && s.log[i].error is None ==> !w.remote_dump
    &&& forall|i: int|
        0 <= i < s.log.len() && (#[trigger] s.log[i]).step == Step::RemoveLocalDump
            && s.log[i].error is None ==> !w.artifact
}

/// The steps of forward progress that lead to `halt`, in order. The backup
/// is among them exactly where the probe found a database.
pub open spec fn forward_steps(halt: Halt, backup_taken: bool) -> Seq<Step> {
    let probed = seq![Step::Dump, Step::Connect, Step::Probe];
    let ready = if backup_taken {
        probed.push(Step::Backup)
    } else {
        probed
    };
    match halt {
        Halt::DumpFailed => seq![Step::Dump],
        Halt::ConnectFailed => seq![Step::Dump, Step::Connect],
        Halt::BackupFailed => probed.push(Step::Backup),
        Halt::UploadFailed => ready.push(Step::Upload),
        Halt::ApplyFailed | Halt::Applied => ready.push(Step::Upload).push(Step::Apply),
    }
}

/// The steps that were performed to bring the machine to the state `s`.
pub open spec fn history(s: DeployView) -> Seq<Step> {
    let probed = seq![Step::Dump, Step::Connect, Step::Probe];
    let ready = if s.backup_taken {
        probed.push(Step::Backup)
    } else {
        probed
    };
    match s.halt {
        None => match s.pending {
            Step::Dump => Seq::empty(),
            Step::Connect => seq![Step::Dump],
            Step::Probe => seq![Step::Dump, Step::Connect],
            Step::Backup => probed,
            Step::Upload => ready,
            _ => ready.push(Step::Upload),
        },
        Some(halt) => forward_steps(halt, s.backup_taken) + cleanup_steps(
            halt,
            s.backup_taken,
        ).take(s.log.len() as int),
    }
}

/// The steps that the reports of `run` report on.
pub open spec fn steps_performed(run: Seq<Moment>) -> Seq<Step> {
    run.map_values(|m: Moment| step_of(m.event))
}

/// The number of steps that an attempt in state `s` can still take.
pub open spec fn steps_left(s: DeployView) -> nat {
    match s.halt {
        None => match s.pending {
            Step::Dump => 9,
            Step::Connect => 8,
            Step::Probe => 7,
            Step::Backup => 6,
            Step::Upload => 5,
            Step::Apply => 4,
            _ => 0,
        },
        Some(halt) => (cleanup_steps(halt, s.backup_taken).len() - s.log.len()) as nat,
    }
}

proof fn lemma_step_keeps_consistent(
    s: DeployView,
    w: World,
    origin: World,
    event: EventView,
    after: World,
)
    requires
        s.wf(),
        consistent(s, w, origin),
        performs(s.pending, event, w, after),
    ensures
        consistent(s.step(event), after, origin),
        steps_left(s.step(event)) < steps_left(s),
        history(s.step(event)) == history(s).push(s.pending),
{
    if s.halt is None {
        assert(history(s.step(event)) =~= history(s).push(s.pending));
    }
}

/// Every run keeps the machine well formed and in agreement with the world,
/// and is no longer than the steps that were left.
pub proof fn lemma_run_keeps_consistent(s: DeployView, w: World, origin: World, run: Seq<Moment>)
    requires
        s.wf(),
        consistent(s, w, origin),
        follows(s, w, run),
    ensures
        state_after(s, run).wf(),
        consistent(state_after(s, run), world_after(w, run), origin),
        run.len() + steps_left(state_after(s, run)) <= steps_left(s),
        history(state_after(s, run)) == history(s) + steps_performed(run),
    decreases run.len(),
{
    if run.len() > 0 {
        let first = run[0];
        let rest = run.drop_first();
        lemma_step_keeps_wf(s, first.event);
        lemma_step_keeps_consistent(s, w, origin, first.event, first.after);
        lemma_run_keeps_consistent(s.step(first.event), first.after, origin, rest);
        assert(history(s).push(s.pending) + steps_performed(rest) =~= history(s)
            + steps_performed(run));
    }
}

/// Whether `run` is an attempt that follows `plan` from its first step, in a
/// world that is `origin` when it begins.
pub open spec fn is_attempt(plan: DeployPlanView, origin: World, run: Seq<Moment>) -> bool {
    follows(DeployView::initial(plan), origin, run)
}

/// The state of the machine after the attempt `run`.
pub open spec fn end_of(plan: DeployPlanView, run: Seq<Moment>) -> DeployView {
    state_after(DeployView::initial(plan), run)
}

/// Whether the attempt `run` is over.
pub open spec fn is_finished(plan: DeployPlanView, run: Seq<Moment>) -> bool {
    end_of(plan, run).pending == Step::Done
}

/// The plan of an attempt never changes.
pub proof fn lemma_run_keeps_plan(s: DeployView, run: Seq<Moment>)
    ensures
        state_after(s, run).plan == s.plan,
    decreases run.len(),
{
    if run.len() > 0 {
        lemma_run_keeps_plan(s.step(run[0].event), run.drop_first());
    }
}

/// Past the probe, a backup was taken if and only if a database was live.
pub open spec fn probe_obeyed(s: DeployView, origin: World) -> bool {
    match s.halt {
        None => s.pending == Step::Apply ==> s.backup_taken == (origin.live !is Absent),
        Some(Halt::ApplyFailed) | Some(Halt::Applied) => s.backup_taken == (origin.live
            !is Absent),
        _ => true,
    }
}

proof fn lemma_probe_decides_backup(s: DeployView, w: World, origin: World, run: Seq<Moment>)
    requires
        s.wf(),
        consistent(s, w, origin),
        probe_obeyed(s, origin),
        follows(s, w, run),
    ensures
        probe_obeyed(state_after(s, run), origin),
    decreases run.len(),
{
    if run.len() > 0 {
        let first = run[0];
        lemma_step_keeps_wf(s, first.event);
        lemma_step_keeps_consistent(s, w, origin, first.event, first.after);
        lemma_probe_decides_backup(s.step(first.event), first.after, origin, run.drop_first());
    }
}

/// The steps of a finished attempt, in order, are the steps of forward
/// progress up to where it ended, then the steps of the cleanup policy, and
/// no others. So an attempt whose dump fails never connects, one whose
/// backup fails never uploads, and a restore is never performed after a
/// success.
pub proof fn attempt_performs_planned_steps(plan: DeployPlanView, origin: World, run: Seq<Moment>)
    requires
        is_attempt(plan, origin, run),
        is_finished(plan, run),
    ensures
        end_of(plan, run).halt is Some,
        steps_performed(run) == forward_steps(
            end_of(plan, run).halt->0,
            end_of(plan, run).backup_taken,
        ) + cleanup_steps(end_of(plan, run).halt->0, end_of(plan, run).backup_taken),
{
    lemma_run_keeps_consistent(DeployView::initial(plan), origin, origin, run);
}

/// An attempt that ends before the upload changes nothing on the host:
/// after a failed dump, connect or backup, the live path, the backup path
/// and the place of the remote dump are as they were.
pub proof fn abort_leaves_host_untouched(plan: DeployPlanView, origin: World, run: Seq<Moment>)
    requires
        is_attempt(plan, origin, run),
        end_of(plan, run).halt == Some(Halt::DumpFailed) || end_of(plan, run).halt == Some(
            Halt::ConnectFailed,
        ) || end_of(plan, run).halt == Some(Halt::BackupFailed),
    ensures
        world_after(origin, run).live == origin.live,
        world_after(origin, run).backup == origin.backup,
        world_after(origin, run).remote_dump == origin.remote_dump,
{
    lemma_run_keeps_consistent(DeployView::initial(plan), origin, origin, run);
}

/// An attempt ends: none takes more than nine steps.
pub proof fn attempt_is_bounded(plan: DeployPlanView, origin: World, run: Seq<Moment>)
    requires
        is_attempt(plan, origin, run),
    ensures
        run.len() <= 9,
{
    lemma_run_keeps_consistent(DeployView::initial(plan), origin, origin, run);
}

/// The database that was live when the attempt began is never lost: at every
/// point of every attempt its bytes lie at the live path or at the backup
/// path.
pub proof fn prior_database_survives(plan: DeployPlanView, origin: World, run: Seq<Moment>)
    requires
        is_attempt(plan, origin, run),
        origin.live !is Absent,
    ensures
        world_after(origin, run).live == origin.live || world_after(origin, run).backup
            == origin.live,
{
    lemma_run_keeps_consistent(DeployView::initial(plan), origin, origin, run);
}

/// Where no database is live when the attempt begins, no backup is taken and
/// the backup path is left as it was. If the apply then fails, no database
/// lies at the live path, and the outcome says that there was no backup to
/// restore.
pub proof fn first_deploy_takes_no_backup(plan: DeployPlanView, origin: World, run: Seq<Moment>)
    requires
        is_attempt(plan, origin, run),
        origin.live is Absent,
    ensures
        ({
            let end = end_of(plan, run);
            let world = world_after(origin, run);
            &&& !end.backup_taken
            &&& world.backup == origin.backup
            &&& end.halt == Some(Halt::ApplyFailed) ==> world.live !is Database
            &&& end.halt == Some(Halt::ApplyFailed) && end.pending == Step::Done ==> end.outcome()
                == Some(
                (OutcomeView::ApplyFailed {
                    status: end.status,
                    output: end.detail,
                    rollback: RollbackView::NoBackup,
                }),
            )
        }),
{
    lemma_run_keeps_consistent(DeployView::initial(plan), origin, origin, run);
}

/// Where the backup was taken, the apply failed and the restore succeeded,
/// the live path holds after the attempt exactly what it held before, and
/// the backup path is empty again.
pub proof fn failed_apply_restores_live(plan: DeployPlanView, origin: World, run: Seq<Moment>)
    requires
        is_attempt(plan, origin, run),
        is_finished(plan, run),
        end_of(plan, run).halt == Some(Halt::ApplyFailed),
        end_of(plan, run).rollback() == RollbackView::Restored,
    ensures
        end_of(plan, run).backup_taken,
        world_after(origin, run).live == origin.live,
        world_after(origin, run).backup is Absent,
{
    lemma_run_keeps_consistent(DeployView::initial(plan), origin, origin, run);
}

/// After a failed upload or apply the outcome tells the truth about the
/// restore: it reports `Restored` only where the live path holds again what
/// it held before, a failure only where the previous database still lies at
/// the backup path, and `NoBackup` only where no database was live.
pub proof fn rollback_is_reported(plan: DeployPlanView, origin: World, run: Seq<Moment>)
    requires
        is_attempt(plan, origin, run),
        is_finished(plan, run),
        end_of(plan, run).halt == Some(Halt::ApplyFailed) || end_of(plan, run).halt == Some(
            Halt::UploadFailed,
        ),
    ensures
        match end_of(plan, run).rollback() {
            RollbackView::NoBackup => origin.live is Absent && !end_of(plan, run).backup_taken,
            RollbackView::Restored => world_after(origin, run).live == origin.live,
            RollbackView::Failed(_) => world_after(origin, run).backup == origin.live
                && world_after(origin, run).live !is Database,
        },
{
    lemma_run_keeps_consistent(DeployView::initial(plan), origin, origin, run);
    lemma_probe_decides_backup(DeployView::initial(plan), origin, origin, run);
}

/// After a successful attempt a database lies at the live path, and the
/// database that was live before lies at the backup path, byte for byte: the
/// machine never asks for its removal. The outcome names the backup path
/// exactly where a backup was taken.
pub proof fn success_keeps_backup(plan: DeployPlanView, origin: World, run: Seq<Moment>)
    requires
        is_attempt(plan, origin, run),
        is_finished(plan, run),
        end_of(plan, run).halt == Some(Halt::Applied),
    ensures
        ({
            let end = end_of(plan, run);
            let world = world_after(origin, run);
            &&& world.live is Database
            &&& origin.live !is Absent ==> world.backup == origin.live && end.outcome() == Some(
                (OutcomeView::Committed { backup: Some(plan.backup_path) }),
            )
            &&& origin.live is Absent ==> world.backup == origin.backup && end.outcome() == Some(
                (OutcomeView::Committed { backup: None }),
            )
        }),
{
    let start = DeployView::initial(plan);
    lemma_run_keeps_consistent(start, origin, origin, run);
    lemma_run_keeps_plan(start, run);
    lemma_probe_decides_backup(start, origin, origin, run);
}

/// Every finished attempt has an outcome, and its exit state tells the
/// operator where the database is that was live before: after a success at
/// the backup path, after an abort or a rollback at the live path, and in the
/// dirty state at the backup path, with no database at the live path.
pub proof fn exit_state_locates_prior_database(
    plan: DeployPlanView,
    origin: World,
    run: Seq<Moment>,
)
    requires
        is_attempt(plan, origin, run),
        is_finished(plan, run),
        origin.live !is Absent,
    ensures
        end_of(plan, run).outcome() is Some,
        match exit_state_of(end_of(plan, run).outcome()->0) {
            ExitState::Success => world_after(origin, run).backup == origin.live,
            ExitState::AbortedBeforeMutation | ExitState::RolledBack => world_after(
                origin,
                run,
            ).live == origin.live,
            ExitState::Dirty => world_after(origin, run).backup == origin.live && world_after(
                origin,
                run,
            ).live !is Database,
        },
{
    let start = DeployView::initial(plan);
    let end = end_of(plan, run);
    lemma_run_keeps_consistent(start, origin, origin, run);
    lemma_probe_decides_backup(start, origin, origin, run);
    if end.halt == Some(Halt::ApplyFailed) || end.halt == Some(Halt::UploadFailed) {
        rollback_is_reported(plan, origin, run);
    }
}

/// The removal of the local artifact is the last step of every attempt,
/// whatever ended forward progress: an attempt is finished only after that
/// removal was reported. Where it succeeded, no local artifact is left.
pub proof fn local_artifact_is_removed(plan: DeployPlanView, origin: World, run: Seq<Moment>)
    requires
        is_attempt(plan, origin, run),
        is_finished(plan, run),
    ensures
        end_of(plan, run).log.len() > 0,
        end_of(plan, run).log.last().step == Step::RemoveLocalDump,
        end_of(plan, run).log.last().error is None ==> !world_after(origin, run).artifact,
{
    lemma_run_keeps_consistent(DeployView::initial(plan), origin, origin, run);
}

/// Once an apply was attempted, the uploaded dump is removed from the host
/// whether the apply succeeded or failed: the attempt is finished only after
/// the removal was reported, and where it succeeded no dump is left there.
pub proof fn remote_dump_is_removed(plan: DeployPlanView, origin: World, run: Seq<Moment>)
    requires
        is_attempt(plan, origin, run),
        is_finished(plan, run),
        end_of(plan, run).halt == Some(Halt::Applied) || end_of(plan, run).halt == Some(
            Halt::ApplyFailed,
        ),
    ensures
        ({
            let end = end_of(plan, run);
            let at = end.log.len() - 2;
            &&& end.log.len() >= 2
            &&& end.log[at].step == Step::RemoveRemoteDump
            &&& end.log[at].error is None ==> !world_after(origin, run).remote_dump
        }),
{
    lemma_run_keeps_consistent(DeployView::initial(plan), origin, origin, run);
}

/// The cleanup policy restores the backup only where one was taken and the
/// attempt failed after that, then before anything else; it never removes
/// the backup; and it ends with the removal of the local artifact.
pub proof fn cleanup_policy_restores_first_and_removes_last(halt: Halt, backup_taken: bool)
    ensures
        ({
            let steps = cleanup_steps(halt, backup_taken);
            let restores = backup_taken && (halt == Halt::UploadFailed || halt
                == Halt::ApplyFailed);
            &&& steps.len() >= 1
            &&& steps.last() == Step::RemoveLocalDump
            &&& steps.contains(Step::Restore) == restores
            &&& restores ==> steps[0] == Step::Restore
            &&& steps.contains(Step::RemoveRemoteDump) == (halt == Halt::ApplyFailed || halt
                == Halt::Applied)
            &&& forall|i: int|
                0 <= i < steps.len() ==> steps[i] == Step::Restore || steps[i]
                    == Step::RemoveRemoteDump || steps[i] == Step::RemoveLocalDump
        }),
{
}

} // verus!
