//! How one synchronisation ended.

use vstd::prelude::*;

verus! {

/// The stage at which a synchronisation failed.
#[derive(Debug, Clone, Copy, PartialEq, Eq)]
pub enum SyncStage {
    /// Writing the report to the local store.
    LocalPersist,
    /// Naming the file of the archive: the team or the member is no safe
    /// segment of a path.
    RemoteTarget,
    /// Committing the report to the archive.
    Commit,
}

/// The result of one synchronisation.
#[derive(Debug, Clone, PartialEq, Eq)]
pub enum SyncOutcome {
    /// The report lies in `local_file` and was committed to `remote_path`;
    /// the archive answered with `status`.
    Success { local_file: String, remote_path: String, status: u16 },
    /// The synchronisation stopped at `stage`. `remote_status` is what the
    /// archive answered, where it answered; `detail` is the text of the
    /// failure: the system's words for a local one, the name that was
    /// refused for one of the target, the unchanged body of the answer for
    /// a remote one.
    Failure { stage: SyncStage, remote_status: Option<u16>, detail: String },
}

/// A `SyncOutcome` with its texts as sequences of characters.
pub enum OutcomeView {
    Success { local_file: Seq<char>, remote_path: Seq<char>, status: u16 },
    Failure { stage: SyncStage, remote_status: Option<u16>, detail: Seq<char> },
}

impl View for SyncOutcome {
    type V = OutcomeView;

    open spec fn view(&self) -> OutcomeView {
        match *self {
            SyncOutcome::Success { local_file, remote_path, status } => OutcomeView::Success {
                local_file: local_file@,
                remote_path: remote_path@,
                status,
            },
            SyncOutcome::Failure { stage, remote_status, detail } => OutcomeView::Failure {
                stage,
                remote_status,
                detail: detail@,
            },
        }
    }
}

impl SyncOutcome {
    /// Whether the synchronisation succeeded.
    pub fn is_success(&self) -> (b: bool)
        ensures
            b == (self@ is Success),
    {
        match self {
            SyncOutcome::Success { .. } => true,
            SyncOutcome::Failure { .. } => false,
        }
    }
}

} // verus!
