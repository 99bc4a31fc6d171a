//! What the operator is told when an attempt is over: one of four exit
//! states, and a message that says what became of the database.

use vstd::prelude::*;
use vstd::string::*;

use crate::deploy::{Outcome, OutcomeView, Rollback, RollbackView};

verus! {

/// The four ways an attempt can end, as the operator has to tell them apart.
#[derive(Clone, Copy, Debug, PartialEq, Eq, Structural)]
pub enum ExitState {
    /// The dump was applied.
    Success,
    /// The attempt stopped before anything on the host was changed.
    AbortedBeforeMutation,
    /// The attempt failed on the host, and the host holds again what it held
    /// before, as far as there was a database.
    RolledBack,
    /// The restore failed. The previous database lies at the backup path and
    /// has to be put back by hand.
    Dirty,
}

/// The exit state that an outcome amounts to.
pub open spec fn exit_state_of(outcome: OutcomeView) -> ExitState {
    match outcome {
        OutcomeView::Committed { .. } => ExitState::Success,
        OutcomeView::DumpFailed { .. } | OutcomeView::ConnectFailed { .. } => {
            ExitState::AbortedBeforeMutation
        },
        OutcomeView::BackupFailed { .. } => ExitState::RolledBack,
        OutcomeView::UploadFailed { rollback, .. } | OutcomeView::ApplyFailed { rollback, .. } => {
            match rollback {
                RollbackView::Failed(_) => ExitState::Dirty,
                _ => ExitState::RolledBack,
            }
        },
    }
}

/// What the message says of the backup after a failure.
pub open spec fn rollback_text(rollback: RollbackView) -> Seq<char> {
    match rollback {
        RollbackView::NoBackup => "no backup available: there was no database to restore"@,
        RollbackView::Restored => "the previous database was restored"@,
        RollbackView::Failed(why) => "RESTORE FAILED, manual intervention required: "@ + why,
    }
}

/// The message for an outcome.
pub open spec fn message_of(outcome: OutcomeView) -> Seq<char> {
    match outcome {
        OutcomeView::Committed { backup: Some(path) } => "deploy succeeded; backup location: "@
            + path,
        OutcomeView::Committed { backup: None } => "deploy succeeded; no backup was taken"@,
        OutcomeView::DumpFailed { detail } => "dump failed, nothing was changed: "@ + detail,
        OutcomeView::ConnectFailed { detail } => "connection failed, nothing was changed: "@
            + detail,
        OutcomeView::BackupFailed { detail } => "backup failed, the live database is untouched: "@
            + detail,
        OutcomeView::UploadFailed { detail, rollback } => "upload failed: "@ + detail + "; "@
            + rollback_text(rollback),
        OutcomeView::ApplyFailed { output, rollback, .. } => "apply failed; "@ + rollback_text(
            rollback,
        ) + "; remote output: "@ + output,
    }
}

impl Rollback {
    /// What to tell the operator of the backup.
    pub fn describe(&self) -> (text: String)
        ensures
            text@ == rollback_text(self@),
    {
        match self {
            Rollback::NoBackup => String::from_str(
                "no backup available: there was no database to restore",
            ),
            Rollback::Restored => String::from_str("the previous database was restored"),
            Rollback::Failed(why) => {
                let mut text = String::from_str("RESTORE FAILED, manual intervention required: ");
                text.append(why.as_str());
                text
            },
        }
    }
}

impl Outcome {
    /// The exit state of this outcome.
    pub fn exit_state(&self) -> (state: ExitState)
        ensures
            state == exit_state_of(self@),
    {
        match self {
            Outcome::Committed { .. } => ExitState::Success,
            Outcome::DumpFailed { .. } => ExitState::AbortedBeforeMutation,
            Outcome::ConnectFailed { .. } => ExitState::AbortedBeforeMutation,
            Outcome::BackupFailed { .. } => ExitState::RolledBack,
            Outcome::UploadFailed { rollback, .. } => match rollback {
                Rollback::Failed(_) => ExitState::Dirty,
                _ => ExitState::RolledBack,
            },
            Outcome::ApplyFailed { rollback, .. } => match rollback {
                Rollback::Failed(_) => ExitState::Dirty,
                _ => ExitState::RolledBack,
            },
        }
    }

    /// The message that tells the operator how the attempt ended.
    pub fn message(&self) -> (text: String)
        ensures
            text@ == message_of(self@),
    {
        match self {
            Outcome::Committed { backup: Some(path) } => {
                let mut text = String::from_str("deploy succeeded; backup location: ");
                text.append(path.as_str());
                text
            },
            Outcome::Committed { backup: None } => String::from_str(
                "deploy succeeded; no backup was taken",
            ),
            Outcome::DumpFailed { detail } => {
                let mut text = String::from_str("dump failed, nothing was changed: ");
                text.append(detail.as_str());
                text
            },
            Outcome::ConnectFailed { detail } => {
                let mut text = String::from_str("connection failed, nothing was changed: ");
                text.append(detail.as_str());
                text
            },
            Outcome::BackupFailed { detail } => {
                let mut text = String::from_str("backup failed, the live database is untouched: ");
                text.append(detail.as_str());
                text
            },
            Outcome::UploadFailed { detail, rollback } => {
                let mut text = String::from_str("upload failed: ");
                text.append(detail.as_str());
                text.append("; ");
                text.append(rollback.describe().as_str());
                text
            },
            Outcome::ApplyFailed { output, rollback, .. } => {
                let mut text = String::from_str("apply failed; ");
                text.append(rollback.describe().as_str());
                text.append("; remote output: ");
                text.append(output.as_str());
                text
            },
        }
    }
}

} // verus!
