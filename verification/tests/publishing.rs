use janitor_services::publish::command::{
    drop_env, open_again_after, open_branch_retrying, BranchOpenError,
};
use janitor_services::publish::consider::{
    consider_publish_run, policy_failure, status_only, ConsiderStep, NotConsidered,
};
use janitor_services::publish::direct::{
    direct_outcome, publish_and_store, DirectEnd, DirectError, DirectStep,
};
use janitor_services::publish::errors::{PublishError, PublishOneError, WorkerInvalidResponse};
use janitor_services::publish::existing::check::update_outcome;
use janitor_services::publish::existing::steps::{CampaignFacts, UpdateOutcome};
use janitor_services::publish::failure::{control_run_of, handle_publish_failure};
use janitor_services::publish::policy::publish::{
    modes_to_look_for, policy_outcome, publish_from_policy, settle_mode,
};
use janitor_services::publish::policy::steps::{
    LastPublished, PolicyEnd, PolicyOutcome, PolicyPublish, PolicyStep,
};
use janitor_services::publish::publish_one::{
    crash_error, worker_exit, PublishMaterial, PublishOneArgs, PublishOneStep, PublishWorker,
    WorkerExit, WorkerReply,
};
use janitor_services::publish::queue::{
    publish_pending_ready, scan_ts_is_recent, sleep_remaining, PendingGate,
};
use janitor_services::publish::record::{
    change_set_is_done, store_publish, StoredOutcome, Storing,
};
use janitor_services::publish::redis::{
    get_publish_policy, process_approved_run, ApprovedEnd, ApprovedStep, MergeProposalEvent,
    PublishEvent, PublishStatusMessage,
};
use janitor_services::publish::run::{ResultBranch, Run};
use janitor_services::publish::schedule::{
    changed_command_requester, Queue, Requester, ScheduleRequest,
};
use janitor_services::publish::state::UnpublishedBranch;
use janitor_services::publish::types::{MergeProposalStatus, Mode};
use janitor_services::publish::worker::{
    run_sufficient_for_proposal, PublishCall, PublishOneResult,
};
use janitor_services::text_map::TextMap;
use janitor_services::time::{TimeDelta, Timestamp};

const DAY: i64 = 86_400;

fn at(secs: i64) -> Timestamp {
    Timestamp { secs, nanos: 0 }
}

fn run() -> Run {
    Run {
        id: "run-1".to_string(),
        command: "fix".to_string(),
        suite: "fixes".to_string(),
        codebase: "cb".to_string(),
        change_set: "cs".to_string(),
        result_code: "success".to_string(),
        failure_transient: None,
        finish_time: at(1_000_000),
        value: Some(20),
        main_branch_revision: Some("main-rev".to_string()),
        revision: Some("rev".to_string()),
        vcs_type: "git".to_string(),
        branch_url: "https://example.com/cb".to_string(),
        target_branch_url: None,
        result_branches: Some(vec![ResultBranch {
            role: "main".to_string(),
            remote_name: "".to_string(),
            base_revision: Some("base".to_string()),
            revision: Some("rev".to_string()),
        }]),
    }
}

fn campaign() -> CampaignFacts {
    CampaignFacts {
        value_threshold: Some(10),
        branch_name: Some("fixes".to_string()),
    }
}

fn result(is_new: bool) -> PublishOneResult {
    PublishOneResult {
        proposal_url: Some("https://example.com/cb/mr/1".to_string()),
        proposal_web_url: None,
        is_new: Some(is_new),
        branch_name: "fixes".to_string(),
        target_branch_url: "https://example.com/cb".to_string(),
        target_branch_web_url: None,
        mode: Mode::Propose,
    }
}

fn from_policy(mode: Mode, max_frequency_days: Option<i32>, command: &str) -> PolicyPublish {
    publish_from_policy(
        run(),
        "main".to_string(),
        Some("bucket".to_string()),
        "https://example.com/cb".to_string(),
        mode,
        max_frequency_days,
        command.to_string(),
        false,
        false,
        Some(Requester::PublishPending),
        campaign(),
    )
}

#[test]
fn test_run_sufficient_for_proposal_no_threshold() {
    // When there's no threshold configured, should always be sufficient
    assert!(run_sufficient_for_proposal(None, Some(0)));
    assert!(run_sufficient_for_proposal(None, Some(100)));
    assert!(run_sufficient_for_proposal(None, None));
}

#[test]
fn test_run_sufficient_for_proposal_with_threshold() {
    assert!(run_sufficient_for_proposal(Some(50), Some(50)));
    assert!(run_sufficient_for_proposal(Some(50), Some(100)));
    assert!(!run_sufficient_for_proposal(Some(50), Some(10)));
    // None value with threshold should still be true (assume yes)
    assert!(run_sufficient_for_proposal(Some(50), None));
}

#[test]
fn test_drop_env() {
    let mut args = vec![
        "FOO=bar".to_string(),
        "BAZ=qux".to_string(),
        "actual".to_string(),
        "command".to_string(),
    ];
    drop_env(&mut args);
    assert_eq!(args, vec!["actual", "command"]);
}

#[test]
fn test_drop_env_no_env_vars() {
    let mut args = vec!["actual".to_string(), "command".to_string()];
    let original = args.clone();
    drop_env(&mut args);
    assert_eq!(args, original);
}

#[test]
fn test_drop_env_empty() {
    let mut args = vec![];
    drop_env(&mut args);
    assert!(args.is_empty());
}

#[test]
fn test_drop_env_only_env_vars() {
    let mut args = vec!["FOO=bar".to_string(), "BAZ=qux".to_string()];
    drop_env(&mut args);
    assert!(args.is_empty());
}

#[test]
fn test_drop_env_with_equals_in_arg() {
    let mut args = vec![
        "FOO=bar".to_string(),
        "command".to_string(),
        "--option=value".to_string(),
    ];
    drop_env(&mut args);
    assert_eq!(args, vec!["command", "--option=value"]);
}

fn reset_error() -> BranchOpenError {
    BranchOpenError::Unavailable {
        url: "http://localhost:9923/codebase".to_string(),
        description: "Transport error: Connection closed early".to_string(),
    }
}

fn other_error() -> BranchOpenError {
    BranchOpenError::Missing {
        url: "http://localhost:9923/codebase".to_string(),
        description: "Local branch missing".to_string(),
    }
}

#[test]
fn test_open_branch_retrying_retries_once_after_a_reset() {
    let mut calls = 0;
    let result = open_branch_retrying(|| {
        calls += 1;
        if calls == 1 {
            Err(reset_error())
        } else {
            Ok("branch")
        }
    });
    assert_eq!(result.unwrap(), "branch");
    assert_eq!(calls, 2);
}

#[test]
fn test_open_branch_retrying_does_not_retry_other_errors() {
    let mut calls = 0;
    let result = open_branch_retrying(|| {
        calls += 1;
        Err::<&str, _>(other_error())
    });
    assert!(result.is_err());
    assert_eq!(calls, 1, "a non-reset failure must not be retried");
}

#[test]
fn test_open_branch_retrying_gives_up_after_one_retry() {
    let mut calls = 0;
    let result = open_branch_retrying(|| {
        calls += 1;
        Err::<&str, _>(reset_error())
    });
    assert!(result.is_err());
    assert_eq!(calls, 2, "retry happens once, not in a loop");
}

#[test]
fn test_open_branch_retrying_does_not_call_twice_on_success() {
    let mut calls = 0;
    let result = open_branch_retrying(|| {
        calls += 1;
        Ok::<_, BranchOpenError>("branch")
    });
    assert_eq!(result.unwrap(), "branch");
    assert_eq!(calls, 1);
}

#[test]
fn test_publish_event_channel() {
    assert_eq!(PublishEvent::channel(), "publish");
}

#[test]
fn test_merge_proposal_event_channel() {
    assert_eq!(MergeProposalEvent::channel(), "merge-proposal");
}

#[test]
fn test_publish_status_message_channel() {
    assert_eq!(PublishStatusMessage::channel(), "publish-status");
}

#[test]
fn new_proposals_are_announced() {
    let event =
        MergeProposalEvent::for_new_proposal(&result(true), "cb", "fixes", at(5)).unwrap();
    assert_eq!(event.url, "https://example.com/cb/mr/1");
    assert_eq!(event.status, "open");
    assert_eq!(event.codebase, "cb");
    assert_eq!(event.campaign, "fixes");
    assert_eq!(event.target_branch_url, "https://example.com/cb");
    assert!(MergeProposalEvent::for_new_proposal(&result(false), "cb", "fixes", at(5)).is_none());
}

#[test]
fn policy_publish_goes_through_all_steps() {
    let mut f = from_policy(Mode::AttemptPush, Some(7), "fix");
    assert!(matches!(f.next(), PolicyStep::FindRoleBranch { url, .. }
        if url == "https://example.com/cb"));
    f.note_role_target("https://example.com/cb".to_string());
    assert!(matches!(f.next(), PolicyStep::LookForPublish { revision, mode: Mode::AttemptPush, .. }
        if revision == "rev"));
    f.note_already_published(false);
    assert!(matches!(f.next(), PolicyStep::LookForOpenProposal { codebase, .. }
        if codebase == "cb"));
    f.note_open_proposal(false);
    assert!(matches!(f.next(), PolicyStep::AskBucket { bucket } if bucket == "bucket"));
    f.note_bucket_allows(true);
    assert!(matches!(f.next(), PolicyStep::FindLastPublished { .. }));
    f.note_last_published(Some(LastPublished {
        at: at(0),
        seen: at(8 * DAY),
    }));
    assert!(matches!(f.next(), PolicyStep::FindUnchangedRun { revision, .. } if revision == "base"));
    f.note_unchanged_run(Some(("control".to_string(), "success".to_string())));
    assert!(matches!(f.next(), PolicyStep::DeriveBranchName { role } if role == "main"));
    f.note_derived_name("fixes".to_string());
    assert!(matches!(f.next(), PolicyStep::FindVcsManager { vcs_type } if vcs_type == "git"));
    f.note_manager_known(true);
    match f.next() {
        PolicyStep::Publish(call) => {
            assert_eq!(call.unchanged_id.as_deref(), Some("control"));
            assert_eq!(call.revision, "rev");
            assert_eq!(call.derived_branch_name, "fixes");
            assert!(call.allow_create_proposal);
            assert_eq!(call.existing_mp_url, None);
        }
        other => panic!("unexpected step: {:?}", other),
    }
    f.note_outcome(PolicyOutcome::Published(result(true)));
    match f.next() {
        PolicyStep::Store(storing) => {
            assert_eq!(storing.mode, Mode::Propose);
            assert_eq!(storing.main_branch_revision.as_deref(), Some("base"));
            assert_eq!(
                storing.requester.unwrap().to_text(),
                "publisher (publish pending)"
            );
        }
        other => panic!("unexpected step: {:?}", other),
    }
    f.note_stored();
    assert!(matches!(f.next(), PolicyStep::CountProposal { .. }));
    f.note_counted();
    assert!(matches!(f.next(), PolicyStep::Announce(_)));
    f.note_announced();
    match f.next() {
        PolicyStep::Done(end) => assert_eq!(end.mode(), Some(Mode::Propose)),
        other => panic!("unexpected step: {:?}", other),
    }
}

#[test]
fn policy_publish_stops_early() {
    let no_command = from_policy(Mode::Push, None, "");
    assert!(matches!(
        no_command.next(),
        PolicyStep::Done(PolicyEnd::NoCommand)
    ));
    let mut changed = from_policy(Mode::Push, None, "other");
    match changed.next() {
        PolicyStep::RescheduleChangedCommand(request) => {
            assert_eq!(request.campaign, "fixes");
            assert_eq!(request.codebase, "cb");
            assert_eq!(request.change_set.as_deref(), Some("cs"));
            assert_eq!(request.bucket.as_str(), "update-new-mp");
            assert!(request.refresh);
            assert_eq!(request.command.as_deref(), Some("other"));
            assert_eq!(
                request.requester.to_text(),
                "publisher (changed policy: \"fix\" -> \"other\")"
            );
        }
        other => panic!("unexpected step: {:?}", other),
    }
    changed.note_rescheduled();
    assert!(matches!(
        changed.next(),
        PolicyStep::Done(PolicyEnd::CommandChanged)
    ));
    let skipped = from_policy(Mode::Skip, None, "fix");
    assert!(matches!(
        skipped.next(),
        PolicyStep::Done(PolicyEnd::NotWanted)
    ));
    let mut again = from_policy(Mode::Push, None, "fix");
    again.note_role_target("https://example.com/cb".to_string());
    again.note_already_published(true);
    assert!(matches!(
        again.next(),
        PolicyStep::Done(PolicyEnd::AlreadyPublished)
    ));
}

#[test]
fn policy_publish_keeps_the_limits() {
    let mut full = from_policy(Mode::Propose, None, "fix");
    full.note_role_target("https://example.com/cb".to_string());
    full.note_already_published(false);
    full.note_open_proposal(false);
    full.note_bucket_allows(false);
    assert!(matches!(full.next(), PolicyStep::Done(PolicyEnd::HeldBack)));
    let mut recent = from_policy(Mode::Propose, Some(7), "fix");
    recent.note_role_target("https://example.com/cb".to_string());
    recent.note_already_published(false);
    recent.note_open_proposal(false);
    recent.note_bucket_allows(true);
    recent.note_last_published(Some(LastPublished {
        at: at(0),
        seen: at(7 * DAY - 1),
    }));
    assert!(matches!(
        recent.next(),
        PolicyStep::Done(PolicyEnd::HeldBack)
    ));
    // An open proposal is updated whatever the limits.
    let mut open = from_policy(Mode::Propose, Some(7), "fix");
    open.note_role_target("https://example.com/cb".to_string());
    open.note_already_published(false);
    open.note_open_proposal(true);
    assert!(matches!(open.next(), PolicyStep::FindUnchangedRun { .. }));
}

#[test]
fn policy_failures_are_recorded_and_busy_branches_are_not() {
    let mut failed = from_policy(Mode::Push, None, "fix");
    failed.note_role_target("https://example.com/cb".to_string());
    failed.note_already_published(false);
    failed.note_unchanged_run(None);
    failed.note_derived_name("fixes".to_string());
    failed.note_manager_known(true);
    failed.note_outcome(PolicyOutcome::Failed {
        code: "merge-conflict".to_string(),
        description: "x".to_string(),
    });
    match failed.next() {
        PolicyStep::Store(storing) => assert_eq!(storing.outcome.code(), "merge-conflict"),
        other => panic!("unexpected step: {:?}", other),
    }
    failed.note_stored();
    failed.note_announced();
    match failed.next() {
        PolicyStep::Done(end) => assert_eq!(end.mode(), None),
        other => panic!("unexpected step: {:?}", other),
    }
    let mut busy = from_policy(Mode::Push, None, "fix");
    busy.note_role_target("https://example.com/cb".to_string());
    busy.note_already_published(false);
    busy.note_unchanged_run(None);
    busy.note_derived_name("fixes".to_string());
    busy.note_manager_known(true);
    busy.note_outcome(PolicyOutcome::Busy);
    assert!(matches!(busy.next(), PolicyStep::Done(PolicyEnd::Busy)));
}

#[test]
fn modes_settle_by_what_came_of_them() {
    assert_eq!(
        modes_to_look_for(Mode::AttemptPush),
        vec![Mode::Propose, Mode::Push]
    );
    assert_eq!(modes_to_look_for(Mode::Push), vec![Mode::Push]);
    assert_eq!(settle_mode(Mode::AttemptPush, true), Mode::Propose);
    assert_eq!(settle_mode(Mode::AttemptPush, false), Mode::Push);
    assert_eq!(settle_mode(Mode::PushDerived, true), Mode::PushDerived);
}

#[test]
fn requesters_quote_the_commands() {
    assert_eq!(
        changed_command_requester("\"a\"", "\"b\""),
        "publisher (changed policy: \"a\" -> \"b\")"
    );
    let requester = Requester::ChangedCommand {
        old_command: "a \"x\"".to_string(),
        new_command: "b".to_string(),
    };
    assert_eq!(
        requester.to_text(),
        changed_command_requester("\"a \\\"x\\\"\"", "\"b\"")
    );
    assert_eq!(requester.clone().to_text(), requester.to_text());
    assert_eq!(Requester::Runner.to_text(), "runner");
    assert_eq!(Queue::ExistingProposals.as_str(), "update-existing-mp");
    assert_eq!(Queue::Named("q".to_string()).as_str(), "q");
}

#[test]
fn errors_are_outcomes_or_not() {
    let busy = || Err(PublishError::BranchBusy("https://example.com/cb".to_string()));
    let failed = || {
        Err(PublishError::Failure {
            code: "c".to_string(),
            description: "d".to_string(),
        })
    };
    let refused = || Err(PublishError::ServiceUnavailable("x".to_string()));
    assert!(matches!(direct_outcome(Ok(result(true))), PolicyOutcome::Published(_)));
    assert!(matches!(direct_outcome(busy()), PolicyOutcome::Busy));
    assert!(matches!(direct_outcome(failed()), PolicyOutcome::Failed { code, description }
        if code == "c" && description == "d"));
    assert!(matches!(direct_outcome(refused()), PolicyOutcome::Refused(_)));
    assert!(matches!(policy_outcome(Ok(result(true))), Ok(PolicyOutcome::Published(_))));
    assert!(matches!(policy_outcome(busy()), Ok(PolicyOutcome::Busy)));
    assert!(matches!(policy_outcome(failed()), Err(PublishError::Failure { .. })));
    assert!(matches!(policy_outcome(refused()), Ok(PolicyOutcome::Refused(_))));
    assert!(matches!(update_outcome(busy()), Ok(UpdateOutcome::Busy)));
    assert!(matches!(update_outcome(refused()), Err(PublishError::ServiceUnavailable(_))));
}

#[test]
fn ends_are_results() {
    let e = || PublishError::ServiceUnavailable("x".to_string());
    assert!(matches!(PolicyEnd::Refused(e()).result(), Err(PublishError::ServiceUnavailable(_))));
    assert!(matches!(PolicyEnd::Published(Mode::Push).result(), Ok(Some(Mode::Push))));
    assert!(matches!(PolicyEnd::HeldBack.result(), Ok(None)));
    assert!(matches!(DirectEnd::Refused(e()).result(), Err(DirectError::Refused(_))));
    assert!(matches!(
        DirectEnd::InvalidTarget.result(),
        Err(DirectError::InvalidTarget)
    ));
    assert!(DirectEnd::NoBranchForRole.result().is_ok());
    assert!(DirectEnd::Busy.result().is_ok());
}

#[test]
fn control_runs_need_a_main_branch_revision() {
    let mut run = run();
    assert_eq!(
        control_run_of(&run),
        Some(("cb".to_string(), "main-rev".to_string()))
    );
    run.main_branch_revision = None;
    assert_eq!(control_run_of(&run), None);
}

#[test]
fn failures_ask_for_whole_runs() {
    let failure = |code: &str| PublishError::Failure {
        code: code.to_string(),
        description: "d".to_string(),
    };
    let plan = handle_publish_failure(
        &failure("merge-conflict"),
        &run(),
        &None,
        Queue::ExistingProposals,
    );
    assert_eq!((plan.code.as_str(), plan.description.as_str()), ("merge-conflict", "d"));
    match plan.schedule {
        Some(ScheduleRequest::Regular(request)) => {
            assert_eq!(request.campaign, "fixes");
            assert_eq!(request.codebase, "cb");
            assert_eq!(request.change_set.as_deref(), Some("cs"));
            assert_eq!(request.bucket.as_str(), "update-existing-mp");
            assert!(!request.refresh);
            assert_eq!(request.requester.to_text(), "publisher (pre-creation merge conflict)");
            assert_eq!(request.command, None);
        }
        other => panic!("unexpected request: {:?}", other),
    }
    let plan = handle_publish_failure(
        &failure("missing-build-diff-control"),
        &run(),
        &None,
        Queue::NewProposals,
    );
    match plan.schedule {
        Some(ScheduleRequest::Control(request)) => {
            assert_eq!(request.codebase, "cb");
            assert_eq!(request.main_branch_revision, "main-rev");
            assert_eq!(request.bucket.as_str(), "update-new-mp");
            assert!(!request.refresh);
        }
        other => panic!("unexpected request: {:?}", other),
    }
}

#[test]
fn another_attempt_is_made_only_after_a_reset() {
    let again = open_again_after(Err(reset_error()), || Ok::<_, BranchOpenError>("second"));
    assert_eq!(again.unwrap(), "second");
    let first = open_again_after(Ok("first"), || Ok::<_, BranchOpenError>("second"));
    assert_eq!(first.unwrap(), "first");
    let missing = open_again_after(Err(other_error()), || Ok::<_, BranchOpenError>("second"));
    assert!(matches!(missing, Err(BranchOpenError::Missing { .. })));
}

#[test]
fn calls_become_publishes() {
    let call = PublishCall {
        target_branch_url: "https://example.com/cb".to_string(),
        mode: Mode::Propose,
        role: "main".to_string(),
        revision: "rev".to_string(),
        unchanged_id: None,
        derived_branch_name: "fixes".to_string(),
        rate_limit_bucket: None,
        require_binary_diff: true,
        allow_create_proposal: false,
        existing_mp_url: None,
    };
    let material = PublishMaterial {
        local_branch_url: "https://local/cb".to_string(),
        tags: None,
        commit_message_template: Some("m".to_string()),
        title_template: None,
        codemod_result: "null".to_string(),
    };
    let args = PublishOneArgs::of(&run(), call, material);
    assert_eq!(args.log_id, "run-1");
    assert_eq!(args.campaign, "fixes");
    assert_eq!(args.command, "fix");
    assert_eq!(args.unchanged_id, "");
    assert_eq!(args.extra_context.as_deref(), Some("{}"));
    assert!(args.require_binary_diff);
    assert!(!args.allow_create_proposal);
    assert_eq!(args.commit_message_template.as_deref(), Some("m"));
}

#[test]
fn direct_publish_records_what_happened() {
    let mut f = publish_and_store(
        run(),
        Mode::Push,
        "main".to_string(),
        Some("bucket".to_string()),
        None,
        true,
        Some(Requester::Named("someone".to_string())),
        campaign(),
    );
    assert!(matches!(f.next(), DirectStep::FindRoleBranch { url, .. }
        if url == "https://example.com/cb"));
    f.note_role_target("https://example.com/cb".to_string());
    assert!(matches!(f.next(), DirectStep::FindUnchangedRun { revision, .. }
        if revision == "main-rev"));
    f.note_unchanged_run(None);
    f.note_derived_name("fixes".to_string());
    f.note_manager_known(true);
    match f.next() {
        DirectStep::Publish(call) => {
            assert!(call.require_binary_diff);
            assert!(call.allow_create_proposal);
        }
        other => panic!("unexpected step: {:?}", other),
    }
    f.note_outcome(PolicyOutcome::Failed {
        code: "diverged-branches".to_string(),
        description: "x".to_string(),
    });
    match f.next() {
        DirectStep::Store(storing) => {
            assert_eq!(storing.requester.unwrap().to_text(), "someone");
            assert_eq!(storing.run_id, "run-1");
            assert_eq!(storing.change_set, "cs");
        }
        other => panic!("unexpected step: {:?}", other),
    }
    f.note_stored();
    assert!(matches!(f.next(), DirectStep::Announce(_)));
    f.note_announced();
    assert!(matches!(f.next(), DirectStep::Done(DirectEnd::Recorded)));
}

#[test]
fn direct_publish_needs_a_branch() {
    let f = publish_and_store(
        run(),
        Mode::Push,
        "aux".to_string(),
        None,
        None,
        false,
        None,
        campaign(),
    );
    assert!(matches!(
        f.next(),
        DirectStep::Done(DirectEnd::NoBranchForRole)
    ));
    let mut broken = run();
    broken.target_branch_url = Some("no url".to_string());
    let g = publish_and_store(
        broken,
        Mode::Push,
        "main".to_string(),
        None,
        None,
        false,
        None,
        campaign(),
    );
    assert!(matches!(
        g.next(),
        DirectStep::Done(DirectEnd::InvalidTarget)
    ));
}

fn branch(role: &str, mode: Option<&str>) -> UnpublishedBranch {
    UnpublishedBranch {
        role: role.to_string(),
        remote_name: None,
        base_revision: None,
        revision: None,
        publish_mode: mode.map(str::to_string),
        max_frequency_days: Some(3),
        name: None,
    }
}

#[test]
fn runs_are_considered_branch_by_branch() {
    let mut f = consider_publish_run(
        run(),
        vec![
            branch("aux", Some("propose")),
            branch("main", Some("push")),
            branch("other", None),
        ],
        None,
        true,
    );
    assert!(matches!(f.next(), ConsiderStep::CountAttempts { revision } if revision == "rev"));
    f.note_attempts(1, at(1_000_000 + 2 * 3600));
    assert!(matches!(f.next(), ConsiderStep::LoadPreviousProposals { .. }));
    f.note_previous_proposals(&[]);
    assert!(matches!(f.next(), ConsiderStep::PublishBranch { position: 0, mode: Mode::Propose, .. }));
    let order = f
        .order(&"bucket".to_string(), &"fix".to_string(), true)
        .unwrap();
    assert_eq!(order.role, "aux");
    assert_eq!(order.rate_limit_bucket.as_deref(), Some("bucket"));
    assert_eq!(order.target_branch_url, "https://example.com/cb");
    assert_eq!(order.max_frequency_days, Some(3));
    assert_eq!(order.command, "fix");
    assert!(order.require_binary_diff);
    assert!(!order.force);
    assert!(matches!(order.requester, Some(Requester::PublishPending)));
    let started = order.start(run(), campaign());
    assert_eq!(started.role, "aux");
    assert!(!started.force);
    // The first branch could not be published, so the main one is left alone.
    f.note_published(None);
    assert!(matches!(f.next(), ConsiderStep::SkipBranch { position: 1, .. }));
    f.note_skipped();
    assert!(matches!(f.next(), ConsiderStep::SkipBranch { position: 2, .. }));
    f.note_skipped();
    assert!(matches!(f.next(), ConsiderStep::Done));
    assert_eq!(f.modes.get("aux"), Some(&None));
    assert_eq!(f.modes.get("main"), None);
}

#[test]
fn runs_are_not_considered_too_early_or_after_a_rejection() {
    let branches = || vec![branch("main", Some("push"))];
    let mut early = consider_publish_run(run(), branches(), None, true);
    early.note_attempts(2, at(1_000_000 + 4 * 3600 - 1));
    assert!(matches!(
        early.next(),
        ConsiderStep::NotConsidered(NotConsidered::ExponentialBackoff)
    ));
    let mut rejected = consider_publish_run(run(), branches(), None, true);
    rejected.note_attempts(0, at(1_000_000));
    rejected.note_previous_proposals(&[("u".to_string(), "rejected".to_string())]);
    assert!(matches!(
        rejected.next(),
        ConsiderStep::NotConsidered(NotConsidered::RejectedLastMp)
    ));
    let mut limited = consider_publish_run(run(), branches(), Some(0), true);
    limited.note_attempts(0, at(1_000_000));
    assert!(matches!(
        limited.next(),
        ConsiderStep::NotConsidered(NotConsidered::PushLimitReached)
    ));
    let unknown = consider_publish_run(run(), branches(), None, false);
    assert!(matches!(
        unknown.next(),
        ConsiderStep::NotConsidered(NotConsidered::NoCampaignConfig)
    ));
    let mut no_revision = run();
    no_revision.revision = None;
    let without = consider_publish_run(no_revision, branches(), None, true);
    assert!(matches!(
        without.next(),
        ConsiderStep::NotConsidered(NotConsidered::NoRevision)
    ));
}

#[test]
fn what_is_not_considered_has_a_status() {
    let modes = status_only(NotConsidered::NoRevision);
    assert_eq!(modes.len(), 1);
    assert_eq!(
        modes.get("__status").unwrap().as_deref(),
        Some(NotConsidered::NoRevision.as_str())
    );
    let failure = policy_failure(&run(), "main", "boom");
    assert!(failure.to_text().contains("boom"));
}

#[test]
fn pending_runs_stop_at_the_limit() {
    let mut tally = publish_pending_ready(Some(1));
    assert!(tally.has_room(10));
    assert_eq!(
        tally.gate(),
        PendingGate::Consider {
            push_limit: Some(1)
        }
    );
    let mut modes: TextMap<Option<String>> = TextMap::new();
    modes.insert("main".to_string(), Some("push".to_string()));
    modes.insert("aux".to_string(), None);
    tally.note_considered(&modes);
    assert_eq!(tally.published, 1);
    assert_eq!(tally.actions.get("push"), Some(&1));
    assert_eq!(tally.actions.get("gated:aux"), Some(&1));
    assert_eq!(tally.gate(), PendingGate::Stop);
    tally.note_error();
    tally.note_timeout();
    assert_eq!(tally.errors, 2);
}

#[test]
fn pre_flight_reasons_are_counted() {
    let mut tally = publish_pending_ready(None);
    tally.note_considered(&status_only(NotConsidered::ExponentialBackoff));
    assert_eq!(tally.published, 0);
    assert_eq!(
        tally.actions.get(NotConsidered::ExponentialBackoff.as_str()),
        Some(&1)
    );
    assert_eq!(tally.gate(), PendingGate::Consider { push_limit: None });
}

#[test]
fn scans_grow_old() {
    assert!(!scan_ts_is_recent(None, at(0)));
    assert!(scan_ts_is_recent(Some(at(0)), at(7 * DAY)));
    assert!(!scan_ts_is_recent(Some(at(0)), at(7 * DAY + 1)));
}

#[test]
fn the_rest_of_an_interval_is_slept() {
    assert_eq!(
        sleep_remaining(at(100), at(130), TimeDelta::seconds(60)),
        Some(30_000)
    );
    assert_eq!(
        sleep_remaining(at(100), at(160), TimeDelta::seconds(60)),
        None
    );
    assert_eq!(
        sleep_remaining(at(100), at(200), TimeDelta::seconds(60)),
        None
    );
}

fn message() -> PublishStatusMessage {
    PublishStatusMessage {
        run_id: "run-1".to_string(),
        publish_status: "approved".to_string(),
        codebase: "cb".to_string(),
        campaign: "fixes".to_string(),
    }
}

#[test]
fn approved_runs_are_published_role_by_role() {
    assert!(message().is_approved());
    let policy = get_publish_policy(
        Some((Some("fix".to_string()), Some("bucket".to_string()))),
        &vec![
            ("main".to_string(), "push".to_string(), Some(7)),
            ("odd".to_string(), "dance".to_string(), None),
        ],
    )
    .unwrap();
    assert_eq!(policy.command.as_deref(), Some("fix"));
    let mut f = process_approved_run(message(), true);
    assert!(matches!(f.next(), ApprovedStep::FindBranchUrl { codebase } if codebase == "cb"));
    f.note_branch_url(Some("https://example.com/cb".to_string()));
    assert!(matches!(f.next(), ApprovedStep::LoadRun { run_id } if run_id == "run-1"));
    f.note_run(Some(run()));
    assert!(matches!(f.next(), ApprovedStep::FindCampaign { campaign } if campaign == "fixes"));
    f.note_campaign(true);
    assert!(matches!(f.next(), ApprovedStep::LoadPolicy { .. }));
    f.note_policy(Some(policy));
    assert!(matches!(
        f.next(),
        ApprovedStep::PublishRole {
            position: 0,
            mode: Mode::Push,
            max_frequency_days: Some(7),
            ..
        }
    ));
    let order = f.order(true).unwrap();
    assert_eq!(order.role, "main");
    assert_eq!(order.mode, Mode::Push);
    assert_eq!(order.target_branch_url, "https://example.com/cb");
    assert!(order.force);
    assert!(order.require_binary_diff);
    assert_eq!(order.requester.unwrap().to_text(), "runner");
    f.note_role_done();
    assert!(f.order(true).is_none());
    assert!(matches!(f.next(), ApprovedStep::SkipRole { position: 1 }));
    f.note_role_done();
    assert!(matches!(f.next(), ApprovedStep::End(ApprovedEnd::Done)));
}

#[test]
fn approved_runs_wait_for_a_scan() {
    let f = process_approved_run(message(), false);
    assert!(matches!(f.next(), ApprovedStep::End(ApprovedEnd::Deferred)));
    let mut no_codebase = process_approved_run(message(), true);
    no_codebase.note_branch_url(None);
    assert!(matches!(
        no_codebase.next(),
        ApprovedStep::End(ApprovedEnd::NoCodebase)
    ));
    let mut odd = process_approved_run(message(), true);
    odd.note_branch_url(Some("no url".to_string()));
    assert!(matches!(
        odd.next(),
        ApprovedStep::End(ApprovedEnd::InvalidBranchUrl)
    ));
    assert!(get_publish_policy(None, &vec![]).is_none());
}

fn worker() -> PublishWorker {
    PublishWorker {
        template_env_path: Some("/templates".to_string()),
        external_url: None,
        differ_url: "http://localhost:9920/".to_string(),
        announces: true,
        locks: true,
    }
}

fn args() -> PublishOneArgs {
    PublishOneArgs {
        campaign: "fixes".to_string(),
        codebase: "cb".to_string(),
        command: "fix".to_string(),
        target_branch_url: "https://example.com/cb".to_string(),
        mode: Mode::Propose,
        role: "main".to_string(),
        revision: "rev".to_string(),
        log_id: "run-1".to_string(),
        unchanged_id: "control".to_string(),
        derived_branch_name: "fixes".to_string(),
        rate_limit_bucket: Some("bucket".to_string()),
        local_branch_url: "https://local/cb".to_string(),
        require_binary_diff: false,
        allow_create_proposal: true,
        reviewers: Some(vec!["someone".to_string()]),
        tags: Some(vec![
            ("t".to_string(), "1".to_string()),
            ("t".to_string(), "2".to_string()),
        ]),
        commit_message_template: None,
        title_template: None,
        codemod_result: "{}".to_string(),
        existing_mp_url: None,
        extra_context: None,
        derived_owner: None,
        auto_merge: None,
    }
}

#[test]
fn worker_is_asked_for_what_is_wanted() {
    let request = worker().request(&args());
    assert_eq!(request.source_branch_name.as_deref(), Some("fixes/main"));
    assert_eq!(request.revision_id, "rev");
    assert_eq!(request.unchanged_id.as_deref(), Some("control"));
    assert_eq!(request.tags.unwrap().get("t").unwrap(), "2");
    assert_eq!(
        worker().command_line(),
        vec!["janitor-publish-one", "--template-env-path=/templates"]
    );
}

#[test]
fn publishing_holds_the_lock() {
    let mut f = worker().publish_one(&args(), true);
    assert_eq!(f.lock_name(), "publish:https://example.com/cb");
    assert!(matches!(f.next(), PublishOneStep::Lock));
    f.note_locked(true);
    assert!(matches!(f.next(), PublishOneStep::Work));
    f.note_reply(WorkerReply::Result(Ok(result(true))));
    assert!(matches!(f.next(), PublishOneStep::Unlock));
    f.note_unlocked();
    assert!(matches!(f.next(), PublishOneStep::Announce));
    f.note_announced();
    assert!(matches!(f.next(), PublishOneStep::CountBucket { bucket } if bucket == "bucket"));
    f.note_counted();
    assert!(matches!(f.next(), PublishOneStep::Done(Ok(_))));
}

#[test]
fn proposals_are_counted_only_with_a_limiter_at_hand() {
    let mut f = worker().publish_one(&args(), false);
    f.note_locked(true);
    f.note_reply(WorkerReply::Result(Ok(result(true))));
    f.note_unlocked();
    f.note_announced();
    assert!(matches!(f.next(), PublishOneStep::Done(Ok(_))));
}

#[test]
fn publishing_a_busy_branch_fails() {
    let mut f = worker().publish_one(&args(), true);
    f.note_locked(false);
    assert!(matches!(f.next(), PublishOneStep::Done(Err(PublishError::BranchBusy(url)))
        if url == "https://example.com/cb"));
}

#[test]
fn worker_failures_come_through() {
    let mut f = worker().publish_one(&args(), true);
    f.note_locked(true);
    f.note_reply(WorkerReply::Error(Ok(PublishOneError {
        code: "merge-conflict".to_string(),
        description: "x".to_string(),
    })));
    f.note_unlocked();
    assert!(matches!(f.next(), PublishOneStep::Done(Err(PublishError::Failure { code, .. }))
        if code == "merge-conflict"));
    let mut g = worker().publish_one(&args(), true);
    g.note_locked(true);
    g.note_reply(WorkerReply::Invalid(crash_error(&b"panic".to_vec())));
    g.note_unlocked();
    assert!(matches!(g.next(), PublishOneStep::Done(Err(PublishError::Failure { .. }))));
    assert_eq!(worker_exit(Some(0)), WorkerExit::Result);
    assert_eq!(worker_exit(Some(1)), WorkerExit::Error);
    assert_eq!(worker_exit(Some(2)), WorkerExit::Crash);
    assert_eq!(worker_exit(None), WorkerExit::Crash);
    assert!(matches!(crash_error(&b"panic".to_vec()), WorkerInvalidResponse::WorkerError(text)
        if text == "panic"));
    assert!(matches!(crash_error(&vec![0xff]), WorkerInvalidResponse::WorkerError(text)
        if text == "Failed to decode error output"));
}

fn storing(mode: Mode, outcome: StoredOutcome, proposal: bool) -> Storing {
    Storing {
        run_id: "run-1".to_string(),
        change_set: "cs".to_string(),
        codebase: "cb".to_string(),
        requester: None,
        branch_name: Some("fixes".to_string()),
        target_branch_url: "https://example.com/cb".to_string(),
        target_branch_web_url: None,
        main_branch_revision: Some("base".to_string()),
        revision: Some("rev".to_string()),
        role: "main".to_string(),
        mode,
        outcome,
        merge_proposal_url: if proposal {
            Some("https://example.com/cb/mr/1".to_string())
        } else {
            None
        },
    }
}

#[test]
fn publishes_are_stored_by_their_outcome() {
    let proposed = storing(Mode::Propose, StoredOutcome::Published, true);
    assert!(proposed.storable());
    let plan = store_publish(&proposed);
    assert!(plan.record_proposal);
    assert!(!plan.mark_absorbed);
    let pushed = storing(Mode::Push, StoredOutcome::Published, false);
    let plan = store_publish(&pushed);
    assert!(!plan.record_proposal);
    assert!(plan.mark_absorbed);
    let failed = storing(
        Mode::Push,
        StoredOutcome::Failed {
            code: "diverged-branches".to_string(),
            description: "x".to_string(),
        },
        false,
    );
    let plan = store_publish(&failed);
    assert!(!plan.record_proposal && !plan.mark_absorbed && !plan.advance_change_set);
    assert!(change_set_is_done(0));
    assert!(!change_set_is_done(1));
}

#[test]
fn words_for_modes_and_statuses_round_trip() {
    for mode in [
        Mode::PushDerived,
        Mode::Propose,
        Mode::Push,
        Mode::AttemptPush,
        Mode::BuildOnly,
        Mode::Skip,
    ] {
        assert_eq!(Mode::parse(mode.as_str()), Some(mode));
    }
    assert_eq!(Mode::parse("dance"), None);
    for status in [
        MergeProposalStatus::Open,
        MergeProposalStatus::Closed,
        MergeProposalStatus::Merged,
        MergeProposalStatus::Applied,
        MergeProposalStatus::Abandoned,
        MergeProposalStatus::Rejected,
    ] {
        assert_eq!(MergeProposalStatus::parse(status.as_str()), Some(status));
    }
    assert_eq!(MergeProposalStatus::parse("lost"), None);
}
