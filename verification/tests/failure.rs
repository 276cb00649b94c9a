use janitor_services::publish::failure::{classify_publish_failure_action, PublishFailureAction};

#[test]
fn test_classify_merge_conflict_reschedules_regular() {
    match classify_publish_failure_action("merge-conflict", "success", None) {
        PublishFailureAction::RescheduleRegular { description, requester } => {
            assert!(description.is_none());
            assert!(requester.contains("merge conflict"));
        }
        other => panic!("expected RescheduleRegular, got {:?}", other),
    }
}

#[test]
fn test_classify_diverged_branches_reschedules_regular() {
    match classify_publish_failure_action("diverged-branches", "success", None) {
        PublishFailureAction::RescheduleRegular { description, requester } => {
            assert!(description.is_none());
            assert!(requester.contains("diverged"));
        }
        other => panic!("expected RescheduleRegular, got {:?}", other),
    }
}

#[test]
fn test_classify_missing_build_diff_self_success_reschedules_refresh() {
    match classify_publish_failure_action("missing-build-diff-self", "success", None) {
        PublishFailureAction::RescheduleRegularRefresh { description, requester } => {
            assert_eq!(description, "Missing build artifacts, rescheduling");
            assert!(requester.contains("self"));
        }
        other => panic!("expected RescheduleRegularRefresh, got {:?}", other),
    }
}

#[test]
fn test_classify_missing_build_diff_self_failed_only_rewrites() {
    match classify_publish_failure_action("missing-build-diff-self", "failure", None) {
        PublishFailureAction::RewriteDescription { description } => {
            assert!(description.contains("not actually successful"));
        }
        other => panic!("expected RewriteDescription, got {:?}", other),
    }
}

#[test]
fn test_classify_missing_build_diff_control_failed_unchanged_only_rewrites() {
    let action = classify_publish_failure_action(
        "missing-build-diff-control",
        "success",
        Some(("failure", "rev-abc")),
    );
    match action {
        PublishFailureAction::RewriteDescription { description } => {
            assert!(description.contains("last control run failed"));
            assert!(description.contains("failure"));
        }
        other => panic!("expected RewriteDescription, got {:?}", other),
    }
}

#[test]
fn test_classify_missing_build_diff_control_success_unchanged_reschedules_control() {
    let action = classify_publish_failure_action(
        "missing-build-diff-control",
        "success",
        Some(("success", "rev-abc")),
    );
    match action {
        PublishFailureAction::RescheduleControl {
            description,
            refresh,
            explicit_revision,
            requester,
        } => {
            assert!(description.contains("Rescheduling"));
            assert!(refresh);
            assert_eq!(explicit_revision, Some("rev-abc".to_string()));
            assert!(requester.contains("control"));
        }
        other => panic!("expected RescheduleControl, got {:?}", other),
    }
}

#[test]
fn test_classify_missing_build_diff_control_no_unchanged_requests_control() {
    match classify_publish_failure_action("missing-build-diff-control", "success", None) {
        PublishFailureAction::RescheduleControl {
            description,
            refresh,
            explicit_revision,
            requester,
        } => {
            assert!(description.contains("requesting control run"));
            assert!(!refresh);
            assert_eq!(explicit_revision, None);
            assert!(requester.contains("control run"));
        }
        other => panic!("expected RescheduleControl, got {:?}", other),
    }
}

#[test]
fn test_classify_unknown_code_is_no_action() {
    assert!(matches!(
        classify_publish_failure_action("some-other-error", "success", None),
        PublishFailureAction::NoAction
    ));
    assert!(matches!(
        classify_publish_failure_action("", "success", None),
        PublishFailureAction::NoAction
    ));
}
