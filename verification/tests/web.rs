use janitor_services::publish::api_types::ErrorResponse;
use janitor_services::publish::existing::steps::CampaignFacts;
use janitor_services::publish::health::{check_health, ComponentHealth, HealthStatus};
use janitor_services::publish::run::{ResultBranch, Run};
use janitor_services::publish::types::{ForgeMpStatus, Mode};
use janitor_services::publish::web::answer::{not_found, Missing};
use janitor_services::publish::web::blockers::{
    get_blockers, BlockerRateLimitDetails, BlockersStep, LimiterAnswer, ReviewRow, RunDetails,
};
use janitor_services::publish::web::credentials::{
    is_public_key_file, pgp_keys_in, ssh_keys_in,
};
use janitor_services::publish::web::limits::{
    all_rate_limits, autopublish_limit, bucket_rate_limit, check_straggler, default_ndays,
    refreshed_status, requested_url, StragglerAction,
};
use janitor_services::publish::web::listing::{
    absorbed_query, absorbed_since, merge_proposal_list_query, merged_by_lookup,
};
use janitor_services::publish::web::policies::{
    delete_policy_status, project_per_branch_policy, put_policies, PerBranchPolicy,
    PolicyDeletion, PolicyDocument, PolicyRow, PolicyStream, ReplacementEnd, ReplacementStep,
};
use janitor_services::publish::web::publishing::{
    publish, publish_ids, PublishEnd, PublishStep, RoleOrder,
};
use janitor_services::publish::web::transition::{
    classify_mp_status_transition, update_merge_proposal, ForgeClose, ForgeOpen,
    MpStatusTransition, UpdateEnd, UpdateStep,
};
use janitor_services::text_map::TextMap;
use janitor_services::time::Timestamp;

fn at(secs: i64) -> Timestamp {
    Timestamp { secs, nanos: 0 }
}

/// Closed -> closed in any combination is a no-op update.
#[test]
fn test_classify_mp_status_transition_closed_to_closed() {
    let closed = ["closed", "abandoned", "rejected", "applied"];
    for from in &closed {
        for to in &closed {
            assert_eq!(
                classify_mp_status_transition(from, to),
                MpStatusTransition::NoOpUpdate,
                "expected NoOpUpdate for {} -> {}",
                from,
                to,
            );
        }
    }
}

/// open -> any closed status is a real forge action.
#[test]
fn test_classify_mp_status_transition_open_to_closed() {
    for to in &["closed", "abandoned", "rejected", "applied"] {
        assert_eq!(
            classify_mp_status_transition("open", to),
            MpStatusTransition::CloseOnForge,
            "expected CloseOnForge for open -> {}",
            to,
        );
    }
}

/// closed -> open is forbidden - the publisher cannot reopen
/// proposals.
#[test]
fn test_classify_mp_status_transition_closed_to_open_forbidden() {
    for from in &["closed", "abandoned", "rejected", "applied"] {
        assert_eq!(
            classify_mp_status_transition(from, "open"),
            MpStatusTransition::Forbidden,
            "expected Forbidden for {} -> open",
            from,
        );
    }
}

/// open -> open is forbidden too - there's no DB or forge action
/// the operator could be requesting.
#[test]
fn test_classify_mp_status_transition_open_to_open_forbidden() {
    assert_eq!(
        classify_mp_status_transition("open", "open"),
        MpStatusTransition::Forbidden
    );
}

/// Unknown status strings are classified as Forbidden, never
/// silently coerced to one of the known buckets.
#[test]
fn test_classify_mp_status_transition_unknown_status_forbidden() {
    // Unknown current
    assert_eq!(
        classify_mp_status_transition("merged", "closed"),
        MpStatusTransition::Forbidden
    );
    // Unknown new
    assert_eq!(
        classify_mp_status_transition("open", "merged"),
        MpStatusTransition::Forbidden
    );
    // Both unknown
    assert_eq!(
        classify_mp_status_transition("foo", "bar"),
        MpStatusTransition::Forbidden
    );
    // Empty strings
    assert_eq!(
        classify_mp_status_transition("", "closed"),
        MpStatusTransition::Forbidden
    );
}

/// Empty document projects to three empty vectors.
#[test]
fn test_project_per_branch_policy_empty() {
    let doc = PolicyDocument::default();
    let (roles, modes, freqs) = project_per_branch_policy(&doc);
    assert_eq!(roles, Vec::<String>::new());
    assert_eq!(modes, Vec::<String>::new());
    assert_eq!(freqs, Vec::<Option<i32>>::new());
}

/// Single-entry document projects to one-element parallel
/// vectors with the field values intact.
#[test]
fn test_project_per_branch_policy_single_entry() {
    let mut per_branch = TextMap::new();
    per_branch.insert(
        "main".to_string(),
        PerBranchPolicy {
            mode: "propose".to_string(),
            max_frequency_days: Some(7),
        },
    );
    let doc = PolicyDocument {
        rate_limit_bucket: None,
        per_branch,
    };
    let (roles, modes, freqs) = project_per_branch_policy(&doc);
    assert_eq!(roles, vec!["main".to_string()]);
    assert_eq!(modes, vec!["propose".to_string()]);
    assert_eq!(freqs, vec![Some(7)]);
}

/// max_frequency_days=None must round-trip as None, not 0 or
/// silently dropped.
#[test]
fn test_project_per_branch_policy_none_frequency() {
    let mut per_branch = TextMap::new();
    per_branch.insert(
        "main".to_string(),
        PerBranchPolicy {
            mode: "push".to_string(),
            max_frequency_days: None,
        },
    );
    let doc = PolicyDocument {
        rate_limit_bucket: None,
        per_branch,
    };
    let (roles, modes, freqs) = project_per_branch_policy(&doc);
    assert_eq!(roles, vec!["main".to_string()]);
    assert_eq!(modes, vec!["push".to_string()]);
    assert_eq!(freqs, vec![None]);
}

/// Multi-entry document: vectors must stay parallel - index i
/// in `roles` aligns with index i in `modes` and `freqs`.
#[test]
fn test_project_per_branch_policy_multi_entry_parallel() {
    let mut per_branch = TextMap::new();
    per_branch.insert(
        "main".to_string(),
        PerBranchPolicy {
            mode: "propose".to_string(),
            max_frequency_days: Some(7),
        },
    );
    per_branch.insert(
        "aux".to_string(),
        PerBranchPolicy {
            mode: "push".to_string(),
            max_frequency_days: None,
        },
    );
    let doc = PolicyDocument {
        rate_limit_bucket: Some("bucket-a".to_string()),
        per_branch,
    };
    let (roles, modes, freqs) = project_per_branch_policy(&doc);
    assert_eq!(roles.len(), 2);
    assert_eq!(modes.len(), 2);
    assert_eq!(freqs.len(), 2);

    let mut paired: Vec<(String, String, Option<i32>)> = roles
        .into_iter()
        .zip(modes.into_iter())
        .zip(freqs.into_iter())
        .map(|((r, m), f)| (r, m, f))
        .collect();
    paired.sort_by(|a, b| a.0.cmp(&b.0));
    assert_eq!(
        paired,
        vec![
            ("aux".to_string(), "push".to_string(), None),
            ("main".to_string(), "propose".to_string(), Some(7)),
        ]
    );
}

fn row(name: &str, role: &str, mode: &str) -> PolicyRow {
    PolicyRow {
        name: name.to_string(),
        rate_limit_bucket: Some("b".to_string()),
        role: role.to_string(),
        mode: mode.to_string(),
        frequency_days: None,
    }
}

#[test]
fn policies_are_streamed_one_by_one() {
    let mut stream = PolicyStream::new();
    assert!(stream.read(row("p", "main", "push")).is_none());
    assert!(stream.read(row("p", "aux", "propose")).is_none());
    let (name, document) = stream.read(row("q", "main", "skip")).unwrap();
    assert_eq!(name, "p");
    assert_eq!(document.per_branch.len(), 2);
    assert_eq!(document.per_branch.get("aux").unwrap().mode, "propose");
    let (last, _) = stream.finish().unwrap();
    assert_eq!(last, "q");
    assert!(stream.finish().is_none());
    assert_eq!(stream.frame("\"p\"", "{}"), "\"p\":{}");
    assert_eq!(stream.frame("\"q\"", "{}"), ",\"q\":{}");
}

#[test]
fn policies_are_replaced_together() {
    let mut f = put_policies(vec!["a".to_string(), "b".to_string()]);
    assert!(matches!(f.next(), ReplacementStep::Store { position: 0 }));
    f.note_stored(true);
    assert!(matches!(f.next(), ReplacementStep::Store { position: 1 }));
    f.note_stored(true);
    assert!(matches!(f.next(), ReplacementStep::Prune));
    f.note_pruned(true);
    assert!(matches!(f.next(), ReplacementStep::Commit));
    f.note_committed(true);
    match f.next() {
        ReplacementStep::Done(end) => {
            assert!(matches!(end, ReplacementEnd::Replaced));
            assert_eq!(end.http_status(), 200);
        }
        other => panic!("unexpected step: {:?}", other),
    }
    let mut failed = put_policies(vec!["a".to_string()]);
    failed.note_stored(false);
    match failed.next() {
        ReplacementStep::Done(end) => {
            assert!(matches!(&end, ReplacementEnd::UpdateFailed { name } if name == "a"));
            assert_eq!(end.http_status(), 500);
            assert!(end.message().is_some());
        }
        other => panic!("unexpected step: {:?}", other),
    }
    let mut broken = put_policies(vec![]);
    broken.note_pruned(false);
    assert!(matches!(
        broken.next(),
        ReplacementStep::Done(ReplacementEnd::DatabaseError)
    ));
}

#[test]
fn policies_in_use_stay() {
    let in_use = delete_policy_status(PolicyDeletion::InUse);
    let gone = delete_policy_status(PolicyDeletion::Gone);
    assert!(gone < 300);
    assert_eq!(in_use, 412);
    assert_eq!(delete_policy_status(PolicyDeletion::Failed), 500);
}

#[test]
fn proposals_are_closed_on_the_forge_first() {
    let mut f = update_merge_proposal(
        "https://example.com/mr/1".to_string(),
        "rejected".to_string(),
        Some("no, thanks".to_string()),
    );
    assert!(matches!(f.next(), UpdateStep::LoadStatus));
    f.note_status(Some("open".to_string()));
    assert!(matches!(f.next(), UpdateStep::Open { url } if url == "https://example.com/mr/1"));
    f.note_opened(ForgeOpen::Opened);
    assert!(matches!(f.next(), UpdateStep::PostComment { comment } if comment == "no, thanks"));
    f.note_commented(true);
    assert!(matches!(f.next(), UpdateStep::Close));
    f.note_closed(ForgeClose::Closed);
    assert!(matches!(f.next(), UpdateStep::Store));
    f.note_stored();
    match f.next() {
        UpdateStep::Done(end) => {
            assert_eq!(end.http_status(), 200);
            assert_eq!(end.message(), "success");
        }
        other => panic!("unexpected step: {:?}", other),
    }
}

fn update_end(set_up: impl Fn(&mut janitor_services::publish::web::transition::ProposalRequest)) -> UpdateEnd {
    let mut f = update_merge_proposal("https://e.com/1".to_string(), "closed".to_string(), None);
    set_up(&mut f);
    match f.next() {
        UpdateStep::Done(end) => end,
        other => panic!("unexpected step: {:?}", other),
    }
}

#[test]
fn proposal_updates_fail_in_many_ways() {
    let missing = update_end(|f| f.note_status(None));
    assert_eq!(missing.http_status(), 404);
    assert_eq!(missing.message(), "No such merge proposal");
    let forbidden = update_end(|f| f.note_status(Some("merged".to_string())));
    assert_eq!(forbidden.http_status(), 400);
    assert_eq!(forbidden.message(), "no transition from merged to closed");
    let broken = update_end(|f| f.note_database_error());
    assert_eq!(broken.http_status(), 500);
    assert_eq!(broken.message(), "Database error");
    let unopened = update_end(|f| {
        f.note_status(Some("open".to_string()));
        f.note_opened(ForgeOpen::Failed);
    });
    assert_eq!(unopened.message(), "Failed to open merge proposal");
    let cut_off = update_end(|f| {
        f.note_status(Some("open".to_string()));
        f.note_opened(ForgeOpen::CutOff);
    });
    assert_eq!(cut_off.message(), "Task join error");
    let denied = update_end(|f| {
        f.note_status(Some("open".to_string()));
        f.note_opened(ForgeOpen::Opened);
        f.note_closed(ForgeClose::PermissionDenied("no".to_string()));
    });
    assert_eq!(denied.http_status(), 403);
    assert_eq!(
        denied.message(),
        "Permission denied closing merge request: no"
    );
    let unclosed = update_end(|f| {
        f.note_status(Some("open".to_string()));
        f.note_opened(ForgeOpen::Opened);
        f.note_closed(ForgeClose::Failed);
    });
    assert_eq!(unclosed.message(), "Failed to close merge request");
    let mut odd = update_merge_proposal("no url".to_string(), "closed".to_string(), None);
    odd.note_status(Some("open".to_string()));
    assert!(matches!(
        odd.next(),
        UpdateStep::Done(UpdateEnd::InvalidUrl)
    ));
}

fn run(roles: &[&str]) -> Run {
    Run {
        id: "run-1".to_string(),
        command: "fix".to_string(),
        suite: "fixes".to_string(),
        codebase: "cb".to_string(),
        change_set: "cs".to_string(),
        result_code: "success".to_string(),
        failure_transient: None,
        finish_time: at(0),
        value: None,
        main_branch_revision: None,
        revision: None,
        vcs_type: "git".to_string(),
        branch_url: "https://example.com/cb".to_string(),
        target_branch_url: None,
        result_branches: Some(
            roles
                .iter()
                .map(|role| ResultBranch {
                    role: role.to_string(),
                    remote_name: "".to_string(),
                    base_revision: None,
                    revision: None,
                })
                .collect(),
        ),
    }
}

#[test]
fn publishing_on_request_goes_by_the_policy() {
    let mut f = publish("fixes".to_string(), "cb".to_string(), None, None);
    assert!(matches!(f.next(), PublishStep::LoadRun));
    f.note_run(Some(run(&["main", "aux", "odd"])));
    assert!(matches!(f.next(), PublishStep::LoadPolicy));
    let mut policy = TextMap::new();
    policy.insert("main".to_string(), ("push".to_string(), None));
    policy.insert("aux".to_string(), ("build-only".to_string(), None));
    f.note_policy(policy);
    assert!(matches!(f.next(), PublishStep::Start));
    let orders = f.orders();
    assert_eq!(orders.len(), 3);
    assert_eq!(orders[0].mode, Some(Mode::Push));
    assert_eq!(orders[1].mode, None);
    assert_eq!(orders[2].mode, None);
    f.note_started();
    match f.next() {
        PublishStep::Done(end) => assert_eq!(end.http_status(), 202),
        other => panic!("unexpected step: {:?}", other),
    }
}

#[test]
fn publishing_on_request_can_come_to_nothing() {
    let mut f = publish("fixes".to_string(), "cb".to_string(), None, None);
    f.note_run(Some(run(&["main", "aux", "odd", "none"])));
    let mut policy = TextMap::new();
    policy.insert("main".to_string(), ("skip".to_string(), None));
    policy.insert("aux".to_string(), ("build-only".to_string(), None));
    policy.insert("odd".to_string(), ("dance".to_string(), None));
    f.note_policy(policy);
    match f.next() {
        PublishStep::Done(end) => {
            assert!(matches!(end, PublishEnd::NothingToDo));
            assert_eq!(end.http_status(), 200);
        }
        other => panic!("unexpected step: {:?}", other),
    }
    assert_eq!(f.orders().len(), 4);
    assert!(f.orders().iter().all(|order| order.mode.is_none()));
}

#[test]
fn orders_start_publishes() {
    let facts = || CampaignFacts {
        value_threshold: Some(10),
        branch_name: None,
    };
    let order = RoleOrder {
        role: "main".to_string(),
        mode: Some(Mode::Push),
    };
    let started = order
        .start(
            run(&["main"]),
            Some("bucket".to_string()),
            Some("someone".to_string()),
            facts(),
        )
        .unwrap();
    assert_eq!(started.mode, Mode::Push);
    assert_eq!(started.role, "main");
    assert_eq!(started.rate_limit_bucket.as_deref(), Some("bucket"));
    assert_eq!(started.allow_create_proposal, Some(true));
    assert!(!started.require_binary_diff);
    assert_eq!(started.requester.unwrap().to_text(), "someone");
    assert_eq!(started.base_target.as_deref(), Some("https://example.com/cb"));
    let skipped = RoleOrder {
        role: "aux".to_string(),
        mode: None,
    };
    assert!(skipped.start(run(&["aux"]), None, None, facts()).is_none());
}

#[test]
fn publishing_on_request_can_be_refused() {
    let odd = publish(
        "fixes".to_string(),
        "cb".to_string(),
        Some("dance".to_string()),
        None,
    );
    match odd.next() {
        PublishStep::Done(end) => {
            assert!(matches!(&end, PublishEnd::InvalidMode(mode) if mode == "dance"));
            assert_eq!(end.http_status(), 400);
        }
        other => panic!("unexpected step: {:?}", other),
    }
    let mut none = publish("fixes".to_string(), "cb".to_string(), None, None);
    none.note_run(None);
    match none.next() {
        PublishStep::Done(end) => assert_eq!(end.http_status(), 400),
        other => panic!("unexpected step: {:?}", other),
    }
    let ids = publish_ids(&vec![("main".to_string(), "id-1".to_string())]);
    assert_eq!(ids.get("main").unwrap(), "id-1");
}

fn details() -> RunDetails {
    RunDetails {
        id: "run-1".to_string(),
        codebase: "cb".to_string(),
        campaign: "fixes".to_string(),
        finish_time: at(0),
        run_command: "fix".to_string(),
        publish_status: "approved".to_string(),
        rate_limit_bucket: Some("bucket".to_string()),
        revision: Some("rev".to_string()),
        policy_command: "fix --more".to_string(),
        result_code: "success".to_string(),
        change_set_state: "ready".to_string(),
        change_set: "cs".to_string(),
        inactive: false,
    }
}

#[test]
fn blockers_are_listed() {
    let mut f = get_blockers("run-1".to_string());
    assert!(matches!(f.next(), BlockersStep::LoadRun));
    f.note_run(Some(details()));
    assert!(matches!(f.next(), BlockersStep::LoadReviews));
    f.note_reviews(vec![ReviewRow {
        reviewer: "someone".to_string(),
        reviewed_at: at(1),
        comment: None,
        verdict: "approved".to_string(),
    }]);
    assert!(matches!(f.next(), BlockersStep::CountAttempts { revision } if revision == "rev"));
    f.note_attempts(3);
    assert!(matches!(f.next(), BlockersStep::LoadPreviousProposals { .. }));
    f.note_previous(vec![("u".to_string(), "rejected".to_string())]);
    assert!(matches!(f.next(), BlockersStep::AskLimiter { bucket } if bucket.as_deref() == Some("bucket")));
    f.note_limiter(LimiterAnswer::Full {
        open: Some(5),
        max_open: Some(5),
    });
    assert!(matches!(f.next(), BlockersStep::Ready));
    let blockers = f.blockers(at(8 * 3600 - 1)).unwrap();
    assert!(blockers.success.result);
    assert!(blockers.inactive.result);
    assert!(!blockers.command.result);
    assert_eq!(blockers.command.details.correct, "fix --more");
    assert!(blockers.publish_status.result);
    assert_eq!(
        blockers
            .publish_status
            .details
            .reviews
            .get("someone")
            .unwrap()
            .verdict,
        "approved"
    );
    assert!(!blockers.backoff.result);
    assert_eq!(blockers.backoff.details.next_try_time.secs, 8 * 3600);
    assert!(!blockers.propose_rate_limit.result);
    assert!(matches!(
        blockers.propose_rate_limit.details,
        BlockerRateLimitDetails::Full {
            open: Some(5),
            max_open: Some(5)
        }
    ));
    assert!(blockers.change_set.result);
    assert!(!blockers.previous_mp.result);
    assert_eq!(blockers.previous_mp.details[0].url, "u");
}

#[test]
fn blockers_need_the_limiter_even_without_a_bucket() {
    let mut f = get_blockers("run-1".to_string());
    let mut free = details();
    free.rate_limit_bucket = None;
    free.revision = None;
    f.note_run(Some(free));
    f.note_reviews(vec![]);
    f.note_previous(vec![]);
    assert!(matches!(f.next(), BlockersStep::AskLimiter { bucket: None }));
    f.note_limiter(LimiterAnswer::Allowed);
    assert!(matches!(f.next(), BlockersStep::Ready));
    let blockers = f.blockers(at(0)).unwrap();
    assert!(blockers.propose_rate_limit.result);
    assert!(matches!(
        blockers.propose_rate_limit.details,
        BlockerRateLimitDetails::Bucket(None)
    ));
    f.note_limiter_error();
    assert!(matches!(f.next(), BlockersStep::LimiterUnavailable));
}

#[test]
fn blockers_need_a_run() {
    let mut f = get_blockers("run-1".to_string());
    f.note_run(None);
    assert!(matches!(f.next(), BlockersStep::NoRun));
    assert!(f.blockers(at(0)).is_none());
    let mut g = get_blockers("run-1".to_string());
    g.note_database_error();
    assert!(matches!(g.next(), BlockersStep::DatabaseError));
}

#[test]
fn missing_things_are_named() {
    let policy = not_found(Missing::Policy, "p".to_string());
    assert_eq!(policy.name.as_deref(), Some("p"));
    assert_eq!(policy.url, None);
    let proposal = not_found(Missing::Proposal, "u".to_string());
    assert_eq!(proposal.reason, "No such merge proposal");
    assert_eq!(proposal.url.as_deref(), Some("u"));
    let run = not_found(Missing::Run, "r".to_string());
    assert_eq!(run.reason, "No such publish-ready run");
    assert_eq!(run.run_id.as_deref(), Some("r"));
}

#[test]
fn error_answers_are_built() {
    let error = ErrorResponse::new("x".to_string())
        .with_details("y".to_string())
        .with_code("z".to_string());
    assert_eq!(error.error, "x");
    assert_eq!(error.details.as_deref(), Some("y"));
    assert_eq!(error.code.as_deref(), Some("z"));
    let internal = ErrorResponse::internal_server_error();
    assert_eq!(internal.error, "Internal server error");
    assert_eq!(internal.code.as_deref(), Some("internal_error"));
}

#[test]
fn rate_limits_are_shown() {
    let one = bucket_rate_limit(Some(3), Some(10));
    assert_eq!(one.remaining, Some(7));
    let all = all_rate_limits(
        &vec![
            ("a".to_string(), 12, Some(10)),
            ("b".to_string(), 1, None),
        ],
        vec![("github".to_string(), at(5))],
        Some(2),
    );
    assert_eq!(all.per_bucket.len(), 2);
    assert_eq!(all.per_bucket[0].1.remaining, Some(0));
    assert_eq!(all.per_bucket[1].1.remaining, None);
    assert_eq!(all.per_forge.len(), 1);
    assert_eq!(all.push_limit, Some(2));
    assert_eq!(autopublish_limit(None, Some(4)), Some(4));
    assert_eq!(autopublish_limit(Some(1), Some(4)), Some(1));
    assert_eq!(default_ndays(), 5);
}

#[test]
fn stragglers_are_renamed_or_deleted() {
    let url = "https://example.com/mr/1";
    let same = url.to_string();
    let moved = "https://example.com/mr/2".to_string();
    assert!(matches!(
        check_straggler(url, 200, &same),
        StragglerAction::Keep
    ));
    assert!(matches!(check_straggler(url, 200, &moved), StragglerAction::Rename(to) if to == moved));
    assert!(matches!(
        check_straggler(url, 404, &same),
        StragglerAction::Delete
    ));
    assert!(matches!(
        check_straggler(url, 500, &moved),
        StragglerAction::Keep
    ));
    assert_eq!(refreshed_status(true, true), ForgeMpStatus::Merged);
    assert_eq!(refreshed_status(false, true), ForgeMpStatus::Closed);
    assert_eq!(refreshed_status(false, false), ForgeMpStatus::Open);
}

#[test]
fn lists_are_asked_for() {
    assert!(merge_proposal_list_query(true, true)
        .contains(" WHERE run.codebase = $1 AND run.suite = $2"));
    assert!(merge_proposal_list_query(false, true).contains(" WHERE run.suite = $1"));
    assert!(!merge_proposal_list_query(false, false).contains("WHERE"));
    assert!(absorbed_query(true).contains(" WHERE absorbed_at >= $1 ORDER BY"));
    assert!(!absorbed_query(false).contains("WHERE"));
    assert_eq!(absorbed_since(None).unwrap(), None);
    let since = absorbed_since(Some("1970-01-02T01:00:00.5+01:00"))
        .unwrap()
        .unwrap();
    assert_eq!(since.secs, 86_400);
    assert_eq!(since.nanos, 500_000_000);
    assert_eq!(
        absorbed_since(Some("yesterday")).unwrap_err().error,
        "Invalid date format for 'since' parameter"
    );
    let url = Some("https://example.com/mr/1".to_string());
    let by = Some("someone".to_string());
    assert_eq!(
        merged_by_lookup(&url, &by),
        Some(("https://example.com/mr/1".to_string(), "someone".to_string()))
    );
    assert_eq!(merged_by_lookup(&None, &by), None);
}

#[test]
fn keys_are_read() {
    assert!(is_public_key_file("id_rsa.pub"));
    assert!(!is_public_key_file(".pub"));
    assert!(!is_public_key_file("id_rsa"));
    assert_eq!(
        ssh_keys_in("ssh-rsa AAAA me\n\n  ssh-ed25519 BBBB  \n"),
        vec!["ssh-rsa AAAA me", "ssh-ed25519 BBBB"]
    );
}

fn component(status: HealthStatus) -> ComponentHealth {
    ComponentHealth {
        name: "database".to_string(),
        status,
        error: None,
        details: None,
    }
}

#[test]
fn health_is_that_of_the_worst_component() {
    let check = |parts: Vec<ComponentHealth>| {
        check_health("publish".to_string(), "1".to_string(), parts, at(0))
    };
    let fine = check(vec![component(HealthStatus::Healthy)]);
    assert_eq!(fine.status, HealthStatus::Healthy);
    assert_eq!(fine.http_status(), 200);
    assert!(fine.is_ready());
    let worse = check(vec![
        component(HealthStatus::Healthy),
        component(HealthStatus::Unhealthy),
        component(HealthStatus::Degraded),
    ]);
    assert_eq!(worse.status, HealthStatus::Unhealthy);
    assert_eq!(worse.http_status(), 503);
    let slow = check(vec![
        component(HealthStatus::Degraded),
        component(HealthStatus::Healthy),
    ]);
    assert_eq!(slow.status, HealthStatus::Degraded);
    assert_eq!(slow.http_status(), 200);
    assert_eq!(check(vec![]).status, HealthStatus::Healthy);
}

#[test]
fn proposals_are_refreshed_by_their_url() {
    assert_eq!(
        requested_url("HTTPS://Example.com/mr/../mr/1", ""),
        Ok("https://example.com/mr/1".to_string())
    );
    assert_eq!(
        requested_url("mr/1", "relative URL without a base"),
        Err("Invalid url parameter: relative URL without a base".to_string())
    );
    assert_eq!(
        requested_url("", "relative URL without a base"),
        Err("Invalid url parameter: relative URL without a base".to_string())
    );
}

#[test]
fn keys_that_are_no_text_are_left_out() {
    let exported = vec![b"one".to_vec(), vec![0xff, 0xfe], "zw\u{f6}lf".as_bytes().to_vec()];
    assert_eq!(pgp_keys_in(&exported), vec!["one", "zw\u{f6}lf"]);
    assert!(pgp_keys_in(&vec![]).is_empty());
}
