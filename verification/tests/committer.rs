use chronicle::commit::{
    commit_message, commit_outcome, commit_request, CommitReply, CommitRequest,
};
use chronicle::encoding::encode_report;
use chronicle::outcome::{SyncOutcome, SyncStage};

#[test]
fn message_names_member_and_date() {
    assert_eq!(commit_message("alice", "2024-03-05"), "📝 [alice] Sync log for 2024-03-05");
    assert_eq!(commit_message("张三", "2024-01-01"), "📝 [张三] Sync log for 2024-01-01");
}

#[test]
fn request_without_version_creates() {
    let request = commit_request("alice", "2024-03-05", "SGVsbG8K".to_string(), None);
    assert_eq!(
        request,
        CommitRequest {
            message: "📝 [alice] Sync log for 2024-03-05".to_string(),
            content: "SGVsbG8K".to_string(),
            branch: "main".to_string(),
            sha: None,
        }
    );
}

#[test]
fn request_with_version_updates_that_version() {
    let request = commit_request("alice", "2024-03-05", "SGVsbG8K".to_string(), Some("abc".to_string()));
    assert_eq!(request.sha.as_deref(), Some("abc"));
    assert_eq!(request.content, "SGVsbG8K");
    assert_eq!(request.branch, "main");
}

#[test]
fn created_and_ok_are_success() {
    for status in [200, 201] {
        let outcome = commit_outcome(
            CommitReply::Answered { status, body: "{\"content\":{}}".to_string() },
            "reports/2024.03.05.md".to_string(),
            "remote/path.md".to_string(),
        );
        assert_eq!(
            outcome,
            SyncOutcome::Success {
                local_file: "reports/2024.03.05.md".to_string(),
                remote_path: "remote/path.md".to_string(),
                status,
            }
        );
    }
}

#[test]
fn conflict_is_a_failure_that_keeps_the_body() {
    let outcome = commit_outcome(
        CommitReply::Answered { status: 409, body: " {\"message\": \"conflict\"}\n".to_string() },
        "local".to_string(),
        "remote".to_string(),
    );
    assert_eq!(
        outcome,
        SyncOutcome::Failure {
            stage: SyncStage::Commit,
            remote_status: Some(409),
            detail: " {\"message\": \"conflict\"}\n".to_string(),
        }
    );
}

#[test]
fn edges_of_success_are_told_apart() {
    let at = |status: u16| {
        commit_outcome(
            CommitReply::Answered { status, body: String::new() },
            "l".to_string(),
            "r".to_string(),
        )
        .is_success()
    };
    assert!(!at(199));
    assert!(at(200));
    assert!(at(299));
    assert!(!at(300));
}

#[test]
fn silence_is_a_failure_that_keeps_the_words_of_the_transport() {
    let outcome = commit_outcome(
        CommitReply::Unreachable { error: "connection reset".to_string() },
        "local".to_string(),
        "remote".to_string(),
    );
    assert_eq!(
        outcome,
        SyncOutcome::Failure {
            stage: SyncStage::Commit,
            remote_status: None,
            detail: "connection reset".to_string(),
        }
    );
}

#[test]
fn reports_are_encoded_in_padded_standard_base64() {
    assert_eq!(encode_report("").as_deref(), Some(""));
    assert_eq!(encode_report("f").as_deref(), Some("Zg=="));
    assert_eq!(encode_report("fo").as_deref(), Some("Zm8="));
    assert_eq!(encode_report("foo").as_deref(), Some("Zm9v"));
    assert_eq!(encode_report("foob").as_deref(), Some("Zm9vYg=="));
    assert_eq!(encode_report("fooba").as_deref(), Some("Zm9vYmE="));
    assert_eq!(encode_report("foobar").as_deref(), Some("Zm9vYmFy"));
    assert_eq!(encode_report("Hello\n").as_deref(), Some("SGVsbG8K"));
}

#[test]
fn encoding_uses_the_standard_alphabet() {
    assert_eq!(encode_report("\u{3ff}\u{3fe}>?").as_deref(), Some("z7/Pvj4/"));
    assert_eq!(encode_report("日报").as_deref(), Some("5pel5oql"));
}
