use janitor_services::publish::consider::{
    change_set_state_allows_publish, previous_mp_blocks_publish, rate_limit_remaining,
    resolve_target_branch_url, should_skip_for_push_limit, should_skip_main_after_aux_failure,
    wants_push_mode,
};
use janitor_services::publish::state::UnpublishedBranch;
use janitor_services::text_map::TextMap;

fn ub(role: &str, mode: Option<&str>) -> UnpublishedBranch {
    UnpublishedBranch {
        role: role.to_string(),
        remote_name: None,
        base_revision: None,
        revision: None,
        publish_mode: mode.map(str::to_string),
        max_frequency_days: None,
        name: None,
    }
}

#[test]
fn test_wants_push_mode_empty() {
    assert!(!wants_push_mode(&[]));
}

#[test]
fn test_wants_push_mode_only_propose() {
    assert!(!wants_push_mode(&[ub("main", Some("propose"))]));
}

#[test]
fn test_wants_push_mode_push() {
    assert!(wants_push_mode(&[ub("main", Some("push"))]));
}

#[test]
fn test_wants_push_mode_attempt_push() {
    assert!(wants_push_mode(&[ub("main", Some("attempt-push"))]));
}

#[test]
fn test_wants_push_mode_mixed_picks_up_push() {
    assert!(wants_push_mode(&[
        ub("aux", Some("propose")),
        ub("main", Some("push")),
    ]));
}

#[test]
fn test_wants_push_mode_none_mode_is_ignored() {
    assert!(!wants_push_mode(&[ub("main", None)]));
}

#[test]
fn test_should_skip_for_push_limit_no_limit() {
    assert!(!should_skip_for_push_limit(true, None));
    assert!(!should_skip_for_push_limit(false, None));
}

#[test]
fn test_should_skip_for_push_limit_zero_with_push() {
    assert!(should_skip_for_push_limit(true, Some(0)));
}

#[test]
fn test_should_skip_for_push_limit_zero_without_push() {
    assert!(!should_skip_for_push_limit(false, Some(0)));
}

#[test]
fn test_should_skip_for_push_limit_positive() {
    assert!(!should_skip_for_push_limit(true, Some(5)));
    assert!(!should_skip_for_push_limit(false, Some(5)));
}

#[test]
fn test_previous_mp_blocks_publish_empty() {
    assert!(!previous_mp_blocks_publish(&[]));
}

#[test]
fn test_previous_mp_blocks_publish_rejected() {
    let statuses = vec![("main".to_string(), "rejected".to_string())];
    assert!(previous_mp_blocks_publish(&statuses));
}

#[test]
fn test_previous_mp_blocks_publish_closed() {
    let statuses = vec![("main".to_string(), "closed".to_string())];
    assert!(previous_mp_blocks_publish(&statuses));
}

#[test]
fn test_previous_mp_blocks_publish_open_does_not_block() {
    let statuses = vec![
        ("main".to_string(), "open".to_string()),
        ("aux".to_string(), "merged".to_string()),
    ];
    assert!(!previous_mp_blocks_publish(&statuses));
}

#[test]
fn test_previous_mp_blocks_publish_any_blocking_wins() {
    let statuses = vec![
        ("main".to_string(), "open".to_string()),
        ("aux".to_string(), "rejected".to_string()),
    ];
    assert!(previous_mp_blocks_publish(&statuses));
}

#[test]
fn test_resolve_target_branch_url_explicit() {
    assert_eq!(
        resolve_target_branch_url(Some("https://target/r"), "https://run/r"),
        "https://target/r"
    );
}

#[test]
fn test_resolve_target_branch_url_falls_back_when_none() {
    assert_eq!(
        resolve_target_branch_url(None, "https://run/r"),
        "https://run/r"
    );
}

#[test]
fn test_resolve_target_branch_url_falls_back_when_empty() {
    assert_eq!(
        resolve_target_branch_url(Some(""), "https://run/r"),
        "https://run/r"
    );
}

#[test]
fn test_should_skip_main_after_aux_failure_no_aux() {
    let modes: TextMap<Option<String>> = TextMap::new();
    assert!(!should_skip_main_after_aux_failure("main", &modes));
}

#[test]
fn test_should_skip_main_after_aux_failure_aux_succeeded() {
    let mut modes: TextMap<Option<String>> = TextMap::new();
    modes.insert("aux".to_string(), Some("push".to_string()));
    assert!(!should_skip_main_after_aux_failure("main", &modes));
}

#[test]
fn test_should_skip_main_after_aux_failure_aux_failed() {
    let mut modes: TextMap<Option<String>> = TextMap::new();
    modes.insert("aux".to_string(), None);
    assert!(should_skip_main_after_aux_failure("main", &modes));
}

#[test]
fn test_should_skip_main_after_aux_failure_role_is_aux() {
    let mut modes: TextMap<Option<String>> = TextMap::new();
    modes.insert("aux1".to_string(), None);
    assert!(!should_skip_main_after_aux_failure("aux2", &modes));
}

#[test]
fn test_change_set_state_allows_publish_publishing() {
    assert!(change_set_state_allows_publish("publishing"));
}

#[test]
fn test_change_set_state_allows_publish_ready() {
    assert!(change_set_state_allows_publish("ready"));
}

#[test]
fn test_change_set_state_allows_publish_other_states_block() {
    assert!(!change_set_state_allows_publish("done"));
    assert!(!change_set_state_allows_publish("working"));
    assert!(!change_set_state_allows_publish("draft"));
    assert!(!change_set_state_allows_publish(""));
    assert!(!change_set_state_allows_publish("PUBLISHING")); // case-sensitive
}

#[test]
fn test_rate_limit_remaining_both_known() {
    assert_eq!(rate_limit_remaining(Some(3), Some(10)), Some(7));
    assert_eq!(rate_limit_remaining(Some(0), Some(10)), Some(10));
    assert_eq!(rate_limit_remaining(Some(10), Some(10)), Some(0));
}

#[test]
fn test_rate_limit_remaining_current_missing() {
    assert_eq!(rate_limit_remaining(None, Some(10)), None);
}

#[test]
fn test_rate_limit_remaining_max_missing() {
    assert_eq!(rate_limit_remaining(Some(3), None), None);
}

#[test]
fn test_rate_limit_remaining_both_missing() {
    assert_eq!(rate_limit_remaining(None, None), None);
}

#[test]
fn test_rate_limit_remaining_saturates_when_current_exceeds_max() {
    assert_eq!(rate_limit_remaining(Some(15), Some(10)), Some(0));
}
