use chronicle::commit::{CommitCall, CommitReply, CommitRequest};
use chronicle::date::ReportDate;
use chronicle::outcome::{SyncOutcome, SyncStage};
use chronicle::probe::{ProbeCall, ProbeReply};
use chronicle::store::{LocalWrite, WriteReport};
use chronicle::sync::{begin, AwaitingCommit, AwaitingProbe, AwaitingWrite};

const URL: &str =
    "https://api.github.com/repos/AIEC-Team/AIEC-agent-hub/contents/成员日志 members/core/alice/2024-01-01_log.md";
const REMOTE_PATH: &str = "成员日志 members/core/alice/2024-01-01_log.md";
const LOCAL_FILE: &str = "/home/alice/reports/2024.01.01.md";

fn day() -> ReportDate {
    ReportDate::parse("2024-01-01").unwrap()
}

fn started(raw: &str, directory: &str) -> (AwaitingWrite, LocalWrite) {
    begin(day(), "core", "alice", raw, "s3cret", directory)
}

fn stored(raw: &str) -> (AwaitingProbe, ProbeCall) {
    let (state, _) = started(raw, "/home/alice/reports");
    state.on_write(WriteReport::Written { path: LOCAL_FILE.to_string() }).unwrap()
}

fn probed(reply: ProbeReply) -> (AwaitingCommit, CommitCall) {
    let (state, _) = stored("```\nHello\n```");
    state.on_probe(reply).unwrap()
}

fn answered(status: u16, body: &str) -> ProbeReply {
    ProbeReply::Answered { status, body: body.to_string() }
}

#[test]
fn first_action_writes_the_normal_form_under_the_dotted_name() {
    let (_, write) = started("```\nHello\n```", "/home/alice/reports");
    assert_eq!(
        write,
        LocalWrite {
            directory: "/home/alice/reports".to_string(),
            file_name: "2024.01.01.md".to_string(),
            content: "Hello\n".to_string(),
        }
    );
}

#[test]
fn same_inputs_give_the_same_write() {
    let (_, first) = started("\n  report \n\n", "dir");
    let (_, second) = started("\n  report \n\n", "dir");
    assert_eq!(first, second);
    assert_eq!(first.content, "  report\n");
}

#[test]
fn failed_write_ends_the_sync_before_the_archive_is_approached() {
    let (state, _) = started("Hello", "/nowhere");
    let outcome = state
        .on_write(WriteReport::Failed { error: "Permission denied (os error 13)".to_string() })
        .unwrap_err();
    assert_eq!(
        outcome,
        SyncOutcome::Failure {
            stage: SyncStage::LocalPersist,
            remote_status: None,
            detail: "Permission denied (os error 13)".to_string(),
        }
    );
    assert!(!outcome.is_success());
}

#[test]
fn stored_report_is_followed_by_the_probe_of_its_target() {
    let (_, call) = stored("Hello");
    assert_eq!(
        call,
        ProbeCall {
            url: URL.to_string(),
            authorization: "token s3cret".to_string(),
            user_agent: "Chronicle-App".to_string(),
        }
    );
}

#[test]
fn absent_file_is_committed_without_precondition() {
    let (_, call) = probed(answered(404, "{\"message\":\"Not Found\"}"));
    assert_eq!(
        call,
        CommitCall {
            url: URL.to_string(),
            authorization: "token s3cret".to_string(),
            user_agent: "Chronicle-App".to_string(),
            request: CommitRequest {
                message: "📝 [alice] Sync log for 2024-01-01".to_string(),
                content: "SGVsbG8K".to_string(),
                branch: "main".to_string(),
                sha: None,
            },
        }
    );
}

#[test]
fn present_file_is_committed_with_its_version_as_precondition() {
    let body = "{\"name\":\"2024-01-01_log.md\",\"sha\":\"95b966ae1c166bd92f8ae7d1c313e738c731dfc3\",\"size\":6}";
    let (_, call) = probed(answered(200, body));
    assert_eq!(call.request.sha.as_deref(), Some("95b966ae1c166bd92f8ae7d1c313e738c731dfc3"));
    assert_eq!(call.request.content, "SGVsbG8K");
}

#[test]
fn inconclusive_probes_count_as_absence() {
    let with_sha = "{\"sha\":\"abc\"}";
    for reply in [
        answered(401, with_sha),
        answered(403, with_sha),
        answered(404, with_sha),
        answered(500, with_sha),
        answered(503, with_sha),
        answered(199, with_sha),
        answered(300, with_sha),
        answered(200, ""),
        answered(200, "not json"),
        answered(200, "{\"sha\":"),
        answered(200, "{}"),
        answered(200, "{\"sha\":null}"),
        answered(200, "{\"sha\":42}"),
        answered(200, "[{\"sha\":\"abc\"}]"),
        answered(200, "\"abc\""),
        ProbeReply::Unreachable,
    ] {
        let shown = format!("{:?}", reply);
        let (_, call) = probed(reply);
        assert_eq!(call.request.sha, None, "{}", shown);
    }
}

#[test]
fn every_code_of_success_confirms_the_version() {
    for status in [200, 201, 204, 299] {
        let (_, call) = probed(answered(status, "{\"sha\":\"abc\"}"));
        assert_eq!(call.request.sha.as_deref(), Some("abc"), "{}", status);
    }
}

#[test]
fn commit_answered_with_success_ends_in_success() {
    for status in [200, 201, 299] {
        let (state, _) = probed(answered(404, ""));
        let outcome = state.on_commit(CommitReply::Answered { status, body: "{}".to_string() });
        assert_eq!(
            outcome,
            SyncOutcome::Success {
                local_file: LOCAL_FILE.to_string(),
                remote_path: REMOTE_PATH.to_string(),
                status,
            }
        );
        assert!(outcome.is_success());
    }
}

#[test]
fn conflict_ends_in_failure_with_code_and_body() {
    let (state, _) = probed(answered(200, "{\"sha\":\"stale\"}"));
    let body = "{\"message\":\"is at 1234 but expected stale\",\"status\":\"409\"}";
    let outcome = state.on_commit(CommitReply::Answered { status: 409, body: body.to_string() });
    assert_eq!(
        outcome,
        SyncOutcome::Failure {
            stage: SyncStage::Commit,
            remote_status: Some(409),
            detail: body.to_string(),
        }
    );
}

#[test]
fn codes_outside_success_end_in_failure() {
    for status in [100, 199, 300, 301, 401, 403, 404, 422, 500] {
        let (state, _) = probed(ProbeReply::Unreachable);
        let outcome = state.on_commit(CommitReply::Answered { status, body: "raw".to_string() });
        assert_eq!(
            outcome,
            SyncOutcome::Failure { stage: SyncStage::Commit, remote_status: Some(status), detail: "raw".to_string() }
        );
    }
}

#[test]
fn commit_without_answer_ends_in_failure_without_code() {
    let (state, _) = probed(ProbeReply::Unreachable);
    let outcome = state.on_commit(CommitReply::Unreachable { error: "timed out".to_string() });
    assert_eq!(
        outcome,
        SyncOutcome::Failure { stage: SyncStage::Commit, remote_status: None, detail: "timed out".to_string() }
    );
}

#[test]
fn report_without_prior_remote_file_is_created() {
    let date = ReportDate::parse("2024-01-01").unwrap();
    let (state, write) =
        begin(date, "core", "alice", "```\nHello\n```", "s3cret", "/home/alice/reports");
    assert_eq!(write.file_name, "2024.01.01.md");
    assert_eq!(write.content, "Hello\n");
    let (state, probe) = state
        .on_write(WriteReport::Written { path: LOCAL_FILE.to_string() })
        .unwrap();
    assert_eq!(probe.url, URL);
    let (state, commit) = state.on_probe(answered(404, "{\"message\":\"Not Found\"}")).unwrap();
    assert_eq!(commit.url, URL);
    assert_eq!(commit.request.sha, None);
    assert_eq!(commit.request.content, "SGVsbG8K");
    assert_eq!(commit.request.branch, "main");
    let outcome = state.on_commit(CommitReply::Answered { status: 201, body: "{}".to_string() });
    assert_eq!(
        outcome,
        SyncOutcome::Success {
            local_file: LOCAL_FILE.to_string(),
            remote_path: REMOTE_PATH.to_string(),
            status: 201,
        }
    );
}

#[test]
fn committed_content_is_the_normal_form_not_the_raw_text() {
    let (state, _) = stored("```markdown\n日报 ✅\n```\n");
    let (_, call) = state.on_probe(ProbeReply::Unreachable).unwrap();
    assert_eq!(call.request.content, "5pel5oqlIOKchQo=");
}

#[test]
fn report_is_stored_before_the_names_are_looked_at() {
    let (_, write) = begin(day(), "../etc", "alice", "Hello", "s3cret", "/reports");
    assert_eq!(
        write,
        LocalWrite {
            directory: "/reports".to_string(),
            file_name: "2024.01.01.md".to_string(),
            content: "Hello\n".to_string(),
        }
    );
}

#[test]
fn refused_team_ends_the_sync_after_the_write_and_before_any_probe() {
    let (state, _) = begin(day(), "a/b", "alice", "Hello", "s3cret", "/reports");
    let outcome = state.on_write(WriteReport::Written { path: LOCAL_FILE.to_string() }).unwrap_err();
    assert_eq!(
        outcome,
        SyncOutcome::Failure {
            stage: SyncStage::RemoteTarget,
            remote_status: None,
            detail: "a/b".to_string(),
        }
    );
}

#[test]
fn refused_member_ends_the_sync_after_the_write_and_before_any_probe() {
    let (state, _) = begin(day(), "core", "..", "Hello", "s3cret", "/reports");
    let outcome = state.on_write(WriteReport::Written { path: LOCAL_FILE.to_string() }).unwrap_err();
    assert_eq!(
        outcome,
        SyncOutcome::Failure {
            stage: SyncStage::RemoteTarget,
            remote_status: None,
            detail: "..".to_string(),
        }
    );
}

#[test]
fn refused_team_is_named_before_a_refused_member() {
    let (state, _) = begin(day(), "", "a?b", "Hello", "s3cret", "/reports");
    let outcome = state.on_write(WriteReport::Written { path: LOCAL_FILE.to_string() }).unwrap_err();
    assert_eq!(
        outcome,
        SyncOutcome::Failure {
            stage: SyncStage::RemoteTarget,
            remote_status: None,
            detail: String::new(),
        }
    );
}

#[test]
fn failed_write_is_reported_whatever_the_names() {
    let (state, _) = begin(day(), "a/b", "..", "Hello", "s3cret", "/reports");
    let outcome = state.on_write(WriteReport::Failed { error: "disk full".to_string() }).unwrap_err();
    assert_eq!(
        outcome,
        SyncOutcome::Failure {
            stage: SyncStage::LocalPersist,
            remote_status: None,
            detail: "disk full".to_string(),
        }
    );
}
