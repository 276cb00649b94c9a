use janitor_services::publish::errors::{
    CheckMpError, DebdiffError, ForgeError, PublishError, WorkerInvalidResponse,
};
use janitor_services::time::TimeDelta;

fn failure() -> PublishError {
    PublishError::Failure {
        code: "merge-conflict".to_string(),
        description: "Could not merge".to_string(),
    }
}

fn busy() -> PublishError {
    PublishError::BranchBusy("https://github.com/foo/bar".to_string())
}

#[test]
fn test_publish_error_failure_code() {
    let err = failure();
    assert_eq!(err.code(), "merge-conflict");
    assert_eq!(err.description(), "Could not merge");
}

#[test]
fn test_publish_error_nothing_to_do() {
    let err = PublishError::NothingToDo("No changes detected".to_string());
    assert_eq!(err.code(), "nothing-to-do");
    assert_eq!(err.description(), "No changes detected");
}

#[test]
fn test_publish_error_branch_busy() {
    let err = busy();
    assert_eq!(err.code(), "branch-busy");
    assert_eq!(err.description(), "Branch is busy");
}

#[test]
fn test_publish_error_display() {
    assert_eq!(
        failure().to_text(),
        "PublishError::Failure: merge-conflict: Could not merge"
    );
    let err = PublishError::NothingToDo("No changes".to_string());
    assert_eq!(err.to_text(), "PublishError::PublishNothingToDo: No changes");
    assert_eq!(
        busy().to_text(),
        "PublishError::BranchBusy: Branch is busy: https://github.com/foo/bar"
    );
}

#[test]
fn test_publish_error_serialize() {
    let fields = failure().to_fields();
    assert_eq!(fields.code, "merge-conflict");
    assert_eq!(fields.description, "Could not merge");

    let fields = PublishError::NothingToDo("No changes".to_string()).to_fields();
    assert_eq!(fields.code, "nothing-to-do");
    assert_eq!(fields.description, "No changes");

    let fields = busy().to_fields();
    assert_eq!(fields.code, "branch-busy");
    assert_eq!(fields.description, "Branch is busy: https://github.com/foo/bar");
}

#[test]
fn test_check_mp_error_display() {
    let err = CheckMpError::NoRunForMergeProposal("https://github.com/foo/bar/pull/1".to_string());
    assert_eq!(
        err.to_text(),
        "No run for merge proposal: https://github.com/foo/bar/pull/1"
    );
    let err = CheckMpError::BranchRateLimited { retry_after: Some(TimeDelta::seconds(30 * 60)) };
    assert_eq!(err.to_text(), "Branch is rate limited");
    assert_eq!(CheckMpError::UnexpectedHttpStatus.to_text(), "Unexpected HTTP status");
    assert_eq!(CheckMpError::ForgeLoginRequired.to_text(), "Forge login required");
}

#[test]
fn test_debdiff_error_display() {
    let err = DebdiffError::MissingRun("run-123".to_string());
    assert_eq!(err.to_text(), "Missing run: run-123");
    assert_eq!(
        DebdiffError::NoUnchangedRun.to_text(),
        "No unchanged run to compare against yet"
    );
    let err = DebdiffError::Unavailable("service down".to_string());
    assert_eq!(err.to_text(), "Unavailable: service down");
}

#[test]
fn test_worker_invalid_response_display() {
    let err = WorkerInvalidResponse::WorkerError("process crashed".to_string());
    assert_eq!(err.to_text(), "Worker error: process crashed");
    let io = std::io::Error::new(std::io::ErrorKind::NotFound, "file not found");
    let err = WorkerInvalidResponse::Io(io.to_string());
    assert_eq!(err.to_text(), "IO error: file not found");
}

#[test]
fn publish_error_display_messages() {
    let display = PublishError::AuthenticationFailed.to_text();
    assert!(display.to_lowercase().contains("authentication"));
    let display = PublishError::NetworkError("Connection timeout".into()).to_text();
    assert!(display.contains("Connection timeout"));
    let display = PublishError::DatabaseError("no rows returned".into()).to_text();
    assert!(display.to_lowercase().contains("database"));
}

#[test]
fn check_mp_error_from_brz_login_required() {
    let converted = CheckMpError::from_forge(ForgeError::LoginRequired);
    assert!(matches!(converted, CheckMpError::ForgeLoginRequired));
}

#[test]
fn other_forge_errors_keep_their_text() {
    match CheckMpError::from_forge(ForgeError::Other("no such branch".to_string())) {
        CheckMpError::Brz(text) => assert_eq!(text, "no such branch"),
        other => panic!("unexpected {:?}", other),
    }
    let converted = CheckMpError::from_forge(ForgeError::UnexpectedHttpStatus);
    assert!(matches!(converted, CheckMpError::UnexpectedHttpStatus));
}

#[test]
fn check_mp_error_no_run_display_includes_url() {
    let err =
        CheckMpError::NoRunForMergeProposal("https://github.com/owner/repo/pull/123".to_string());
    assert!(err.to_text().contains("github.com/owner/repo/pull/123"));
}
