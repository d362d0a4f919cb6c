//! The commit of a report to the archive and the reading of its answer.

use vstd::prelude::*;
use vstd::string::StringExecFns;
use crate::outcome::{OutcomeView, SyncOutcome, SyncStage};
use crate::probe::{is_success, is_success_status};
use crate::target::BRANCH;

verus! {

/// What precedes the member in a commit message.
pub const MESSAGE_HEAD: &'static str = "📝 [";

/// What stands between the member and the date in a commit message.
pub const MESSAGE_LINK: &'static str = "] Sync log for ";

/// The body of a write to the archive. `sha` is the precondition of the
/// write: the version that the file must have to be replaced. Without it
/// the write creates the file.
#[derive(Debug, Clone, PartialEq, Eq)]
pub struct CommitRequest {
    pub message: String,
    pub content: String,
    pub branch: String,
    pub sha: Option<String>,
}

/// An authenticated write of one file of the archive.
#[derive(Debug, Clone, PartialEq, Eq)]
pub struct CommitCall {
    pub url: String,
    pub authorization: String,
    pub user_agent: String,
    pub request: CommitRequest,
}

/// How a `CommitCall` ended.
#[derive(Debug, Clone, PartialEq, Eq)]
pub enum CommitReply {
    /// The archive answered with `status` and `body`.
    Answered { status: u16, body: String },
    /// No answer came; `error` is what the transport said.
    Unreachable { error: String },
}

/// The message of the commit of `member`'s report for the date `dashed`.
pub open spec fn commit_message_text(member: Seq<char>, dashed: Seq<char>) -> Seq<char> {
    MESSAGE_HEAD@ + member + MESSAGE_LINK@ + dashed
}

/// The outcome that `reply` decides for a report that lies in
/// `local_file` and was sent to `remote_path`: success where the archive
/// answered with a code of success; otherwise a failure of the commit that
/// carries the code and the unchanged body, or the words of the transport
/// where no answer came.
pub open spec fn commit_outcome_of(
    reply: CommitReply,
    local_file: Seq<char>,
    remote_path: Seq<char>,
) -> OutcomeView {
    match reply {
        CommitReply::Answered { status, body } => if is_success(status as int) {
            OutcomeView::Success { local_file, remote_path, status }
        } else {
            OutcomeView::Failure { stage: SyncStage::Commit, remote_status: Some(status), detail: body@ }
        },
        CommitReply::Unreachable { error } => OutcomeView::Failure {
            stage: SyncStage::Commit,
            remote_status: None,
            detail: error@,
        },
    }
}

/// The message of the commit of `member`'s report for the date `dashed`.
pub fn commit_message(member: &str, dashed: &str) -> (out: String)
    ensures
        out@ == commit_message_text(member@, dashed@),
{
    let mut out = String::from_str(MESSAGE_HEAD);
    out.append(member);
    out.append(MESSAGE_LINK);
    out.append(dashed);
    assert(out@ =~= commit_message_text(member@, dashed@));
    out
}

/// The body of the write of `content`, a report in base64, for `member`
/// and the date `dashed`. The write is conditioned on `version` where the
/// probe found one, and unconditioned where it found none.
pub fn commit_request(member: &str, dashed: &str, content: String, version: Option<String>) -> (r:
    CommitRequest)
    ensures
        r.message@ == commit_message_text(member@, dashed@),
        r.content@ == content@,
        r.branch@ == BRANCH@,
        r.sha == version,
{
    CommitRequest {
        message: commit_message(member, dashed),
        content,
        branch: String::from_str(BRANCH),
        sha: version,
    }
}

/// Reads the answer to a commit.
pub fn commit_outcome(reply: CommitReply, local_file: String, remote_path: String) -> (o:
    SyncOutcome)
    ensures
        o@ == commit_outcome_of(reply, local_file@, remote_path@),
{
    match reply {
        CommitReply::Answered { status, body } => {
            if is_success_status(status) {
                SyncOutcome::Success { local_file, remote_path, status }
            } else {
                SyncOutcome::Failure { stage: SyncStage::Commit, remote_status: Some(status), detail: body }
            }
        },
        CommitReply::Unreachable { error } => SyncOutcome::Failure {
            stage: SyncStage::Commit,
            remote_status: None,
            detail: error,
        },
    }
}

} // verus!
