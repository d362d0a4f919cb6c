//! Sync orchestrator: normalise, store, name the target, probe, encode,
//! commit, in that order.
//!
//! The orchestrator does no work outside this process. Each step hands out
//! the one action that is due and a state that waits for its report; the
//! caller performs the action and passes the report to that state, which
//! yields the next action or the outcome. A state is used up by its step,
//! so no step can be taken twice or out of turn.

use vstd::prelude::*;
use vstd::string::StringExecFns;
use vstd::utf8::encode_utf8;
use crate::commit::{
    commit_message_text, commit_outcome, commit_outcome_of, commit_request, CommitCall,
    CommitReply,
};
use crate::encoding::{base64_text, encode_report, fits_base64};
use crate::json::text_of;
use crate::normalize::{normalize, normalized};
use crate::outcome::{OutcomeView, SyncOutcome, SyncStage};
use crate::probe::{
    authorization, authorization_text, probe_version, remote_version, ProbeCall, ProbeReply,
    USER_AGENT,
};
use crate::store::{LocalWrite, WriteReport};
use crate::date::ReportDate;
use crate::target::{is_safe_path_segment, is_safe_segment, RemoteTarget, BRANCH};

verus! {

/// A synchronisation whose report is being written to the local store.
#[derive(Debug)]
pub struct AwaitingWrite {
    date: ReportDate,
    team: String,
    member: String,
    credential: String,
    content: String,
}

/// A synchronisation whose report is stored and whose target is being
/// probed.
#[derive(Debug)]
pub struct AwaitingProbe {
    target: RemoteTarget,
    credential: String,
    content: String,
    local_file: String,
}

/// A synchronisation whose commit is under way.
#[derive(Debug)]
pub struct AwaitingCommit {
    local_file: String,
    remote_path: String,
}

/// The outcome of a synchronisation that could not store its report:
/// a failure of the local store that carries the system's words.
pub open spec fn local_failure(error: Seq<char>) -> OutcomeView {
    OutcomeView::Failure { stage: SyncStage::LocalPersist, remote_status: None, detail: error }
}

/// Of a team and a member that cannot both name a file of the archive,
/// the name that is refused: the team where it is no safe segment, the
/// member otherwise.
pub open spec fn refused_name(team: Seq<char>, member: Seq<char>) -> Seq<char> {
    if is_safe_segment(team) {
        member
    } else {
        team
    }
}

/// The outcome of a synchronisation whose target cannot be named: a
/// failure of the target that carries the name that was refused.
pub open spec fn target_failure(name: Seq<char>) -> OutcomeView {
    OutcomeView::Failure { stage: SyncStage::RemoteTarget, remote_status: None, detail: name }
}

/// Whether `call` is the probe of `target` on behalf of `credential`.
pub open spec fn is_probe_of(call: ProbeCall, target: RemoteTarget, credential: Seq<char>) -> bool {
    &&& call.url@ == target.url_text()
    &&& call.authorization@ == authorization_text(credential)
    &&& call.user_agent@ == USER_AGENT@
}

/// Whether `call` is the commit of the base64 text `encoded` to `target`
/// on behalf of `credential`, conditioned on `version` where there is one.
pub open spec fn is_commit_of(
    call: CommitCall,
    target: RemoteTarget,
    credential: Seq<char>,
    encoded: Seq<char>,
    version: Option<Seq<char>>,
) -> bool {
    &&& call.url@ == target.url_text()
    &&& call.authorization@ == authorization_text(credential)
    &&& call.user_agent@ == USER_AGENT@
    &&& call.request.message@ == commit_message_text(
        target.member_text(),
        target.date_value().dashed_text(),
    )
    &&& call.request.content@ == encoded
    &&& call.request.branch@ == BRANCH@
    &&& text_of(call.request.sha) == version
}

/// Starts the synchronisation of the report `raw_content` of `member`, of
/// the team `team`, for `date`. The report is normalised; the action that
/// is due is to write the normal form to the file named after the date, in
/// `directory`. It is due whatever the two names are: they are looked at
/// once the report is stored. The state keeps the normal form for the
/// commit.
pub fn begin(
    date: ReportDate,
    team: &str,
    member: &str,
    raw_content: &str,
    credential: &str,
    directory: &str,
) -> (r: (AwaitingWrite, LocalWrite))
    ensures
        r.1.directory@ == directory@,
        r.1.file_name@ == date.file_name_text(),
        r.1.content@ == normalized(raw_content@),
        r.0.date() == date,
        r.0.team() == team@,
        r.0.member() == member@,
        r.0.credential() == credential@,
        r.0.content() == normalized(raw_content@),
{
    let content = normalize(raw_content);
    let write = LocalWrite {
        directory: String::from_str(directory),
        file_name: date.file_name(),
        content: content.clone(),
    };
    let state = AwaitingWrite {
        date,
        team: String::from_str(team),
        member: String::from_str(member),
        credential: String::from_str(credential),
        content,
    };
    (state, write)
}

impl AwaitingWrite {
    /// The date of the report.
    pub closed spec fn date(self) -> ReportDate {
        self.date
    }

    /// The team that the report is filed under.
    pub closed spec fn team(self) -> Seq<char> {
        self.team@
    }

    /// The member whose report it is.
    pub closed spec fn member(self) -> Seq<char> {
        self.member@
    }

    /// The credential that the archive is approached with.
    pub closed spec fn credential(self) -> Seq<char> {
        self.credential@
    }

    /// The normalised report.
    pub closed spec fn content(self) -> Seq<char> {
        self.content@
    }

    /// Takes the report of the local write. Where the file was not
    /// written, the synchronisation ends in a failure of the local store.
    /// Where it was written, the file of the archive is named: with a team
    /// and a member that are safe segments of a path, the probe of that
    /// file is due; with a name that is not, the synchronisation ends in a
    /// failure of the target, and the stored report stays where it is. In
    /// neither failure is the archive approached.
    pub fn on_write(self, report: WriteReport) -> (r: Result<(AwaitingProbe, ProbeCall), SyncOutcome>)
        ensures
            match report {
                WriteReport::Written { path } => if is_safe_segment(self.team())
                    && is_safe_segment(self.member()) {
                    r matches Ok((state, call)) && {
                        &&& state.target().team_text() == self.team()
                        &&& state.target().member_text() == self.member()
                        &&& state.target().date_value() == self.date()
                        &&& is_probe_of(call, state.target(), self.credential())
                        &&& state.credential() == self.credential()
                        &&& state.content() == self.content()
                        &&& state.local_file() == path@
                    }
                } else {
                    r matches Err(outcome) && outcome@ == target_failure(
                        refused_name(self.team(), self.member()),
                    )
                },
                WriteReport::Failed { error } => r matches Err(outcome) && outcome@
                    == local_failure(error@),
            },
    {
        match report {
            WriteReport::Written { path } => {
                match RemoteTarget::new(self.team.as_str(), self.member.as_str(), self.date) {
                    Some(target) => {
                        let call = ProbeCall {
                            url: target.url(),
                            authorization: authorization(self.credential.as_str()),
                            user_agent: String::from_str(USER_AGENT),
                        };
                        let state = AwaitingProbe {
                            target,
                            credential: self.credential,
                            content: self.content,
                            local_file: path,
                        };
                        Ok((state, call))
                    },
                    None => {
                        let detail = if is_safe_path_segment(self.team.as_str()) {
                            self.member
                        } else {
                            self.team
                        };
                        Err(
                            SyncOutcome::Failure {
                                stage: SyncStage::RemoteTarget,
                                remote_status: None,
                                detail,
                            },
                        )
                    },
                }
            },
            WriteReport::Failed { error } => Err(
                SyncOutcome::Failure {
                    stage: SyncStage::LocalPersist,
                    remote_status: None,
                    detail: error,
                },
            ),
        }
    }
}

impl AwaitingProbe {
    /// The file of the archive that the report goes to.
    pub closed spec fn target(self) -> RemoteTarget {
        self.target
    }

    /// The credential that the archive is approached with.
    pub closed spec fn credential(self) -> Seq<char> {
        self.credential@
    }

    /// The normalised report.
    pub closed spec fn content(self) -> Seq<char> {
        self.content@
    }

    /// Where the report lies in the local store.
    pub closed spec fn local_file(self) -> Seq<char> {
        self.local_file@
    }

    /// Takes the reply to the probe. The commit is due: it carries the
    /// base64 text of the normalised report's bytes, and as its
    /// precondition the version that the reply establishes, or none where
    /// the reply establishes none. `None` where the base64 text would be
    /// too long to be allocated.
    pub fn on_probe(self, reply: ProbeReply) -> (r: Option<(AwaitingCommit, CommitCall)>)
        ensures
            r is Some <==> fits_base64(encode_utf8(self.content()).len()),
            r matches Some((state, call)) ==> {
                &&& is_commit_of(
                    call,
                    self.target(),
                    self.credential(),
                    base64_text(encode_utf8(self.content())),
                    remote_version(reply),
                )
                &&& state.local_file() == self.local_file()
                &&& state.remote_path() == self.target().path_text()
            },
    {
        let encoded = match encode_report(self.content.as_str()) {
            Some(encoded) => encoded,
            None => {
                return None;
            },
        };
        let version = probe_version(&reply);
        let dashed = self.target.date().dashed();
        let request = commit_request(self.target.member(), dashed.as_str(), encoded, version);
        let call = CommitCall {
            url: self.target.url(),
            authorization: authorization(self.credential.as_str()),
            user_agent: String::from_str(USER_AGENT),
            request,
        };
        let state = AwaitingCommit { local_file: self.local_file, remote_path: self.target.path() };
        Some((state, call))
    }
}

impl AwaitingCommit {
    /// Where the report lies in the local store.
    pub closed spec fn local_file(self) -> Seq<char> {
        self.local_file@
    }

    /// The path of the report in the archive.
    pub closed spec fn remote_path(self) -> Seq<char> {
        self.remote_path@
    }

    /// Takes the reply to the commit and ends the synchronisation: in
    /// success where the archive answered with a code from 200 to 299, in
    /// a failure of the commit otherwise, which carries the code and the
    /// unchanged body of the answer.
    pub fn on_commit(self, reply: CommitReply) -> (outcome: SyncOutcome)
        ensures
            outcome@ == commit_outcome_of(reply, self.local_file(), self.remote_path()),
    {
        commit_outcome(reply, self.local_file, self.remote_path)
    }
}

} // verus!
