use chrono::{DateTime, Duration, Utc};
use janitor_services::publish::errors::CheckMpError;
use janitor_services::publish::existing::check::check_existing_mp;
use janitor_services::publish::existing::gate::check_existing_mp_should_skip_per_mp_fetch;
use janitor_services::publish::existing::steps::{
    AbandonMode, CampaignFacts, CloseOutcome, CloseReason, ForgeFacts, LastRun, MpCheck, MpStep,
    OpenedBranch, SourceRun, UpdateOutcome,
};
use janitor_services::publish::proposal_info::ProposalInfo;
use janitor_services::publish::run::{ResultBranch, Run};
use janitor_services::publish::schedule::Requester;
use janitor_services::publish::state::MergeProposalRun;
use janitor_services::publish::types::{ForgeMpStatus, MergeProposalStatus};
use janitor_services::time::{TimeDelta, Timestamp};

fn stamp(t: DateTime<Utc>) -> Timestamp {
    Timestamp { secs: t.timestamp(), nanos: t.timestamp_subsec_nanos() }
}

fn skips(
    forge: ForgeMpStatus,
    persisted: &str,
    last: Option<DateTime<Utc>>,
    now: DateTime<Utc>,
) -> bool {
    check_existing_mp_should_skip_per_mp_fetch(
        forge,
        persisted,
        last.map(stamp),
        stamp(now),
        TimeDelta::hours(24),
    )
}

#[test]
fn test_check_existing_mp_should_skip_no_last_scanned() {
    assert!(!skips(ForgeMpStatus::Open, "open", None, Utc::now()));
}

#[test]
fn test_check_existing_mp_should_skip_recent_matching_open() {
    let now = Utc::now();
    assert!(skips(ForgeMpStatus::Open, "open", Some(now - Duration::hours(1)), now));
}

#[test]
fn test_check_existing_mp_should_not_skip_when_status_changed() {
    let now = Utc::now();
    assert!(!skips(ForgeMpStatus::Merged, "open", Some(now - Duration::hours(1)), now));
}

#[test]
fn test_check_existing_mp_should_not_skip_stale() {
    let now = Utc::now();
    assert!(!skips(ForgeMpStatus::Open, "open", Some(now - Duration::days(3)), now));
}

#[test]
fn test_check_existing_mp_should_skip_closed_family_carry_forward() {
    let now = Utc::now();
    let last = now - Duration::hours(1);
    for persisted in &["closed", "abandoned", "applied", "rejected"] {
        assert!(
            skips(ForgeMpStatus::Closed, persisted, Some(last), now),
            "persisted={} should match forge Closed",
            persisted
        );
    }
}

#[test]
fn test_check_existing_mp_should_skip_terminal_regardless_of_age() {
    let now = Utc::now();
    let stale = now - Duration::days(90);
    assert!(skips(ForgeMpStatus::Merged, "merged", Some(stale), now));
    assert!(skips(ForgeMpStatus::Merged, "merged", None, now));
    for persisted in &["closed", "abandoned", "applied", "rejected"] {
        assert!(
            skips(ForgeMpStatus::Closed, persisted, Some(stale), now),
            "persisted={} + stale forge Closed should still skip",
            persisted
        );
    }
}

#[test]
fn test_check_existing_mp_should_not_skip_unknown_persisted_status() {
    let now = Utc::now();
    assert!(!skips(ForgeMpStatus::Open, "deleted", Some(now - Duration::hours(1)), now));
}

const MP_URL: &str = "https://example.com/mr/7";
const TARGET: &str = "https://example.com/pkg";

fn text(s: &str) -> String {
    s.to_string()
}

fn at(secs: i64) -> Timestamp {
    Timestamp { secs, nanos: 0 }
}

fn last_run() -> Run {
    Run {
        id: text("run-2"),
        command: text("fix"),
        suite: text("fixes"),
        codebase: text("pkg"),
        change_set: text("cs-2"),
        result_code: text("success"),
        failure_transient: None,
        finish_time: at(0),
        value: Some(20),
        main_branch_revision: None,
        revision: Some(text("tip")),
        vcs_type: text("git"),
        branch_url: text(TARGET),
        target_branch_url: None,
        result_branches: Some(vec![ResultBranch {
            role: text("main"),
            remote_name: text("main"),
            base_revision: Some(text("base")),
            revision: Some(text("tip")),
        }]),
    }
}

fn old_run() -> MergeProposalRun {
    MergeProposalRun {
        id: text("run-1"),
        campaign: text("fixes"),
        branch_url: text(TARGET),
        command: text("fix"),
        value: 20,
        role: text("main"),
        remote_branch_name: text("main"),
        revision: text("old-tip"),
        codebase: text("pkg"),
        change_set: text("cs-1"),
    }
}

fn campaign() -> CampaignFacts {
    CampaignFacts { value_threshold: Some(10), branch_name: Some(text("fixes")) }
}

/// A check of an open proposal whose record is up to date, with the runs loaded.
fn loaded(old: MergeProposalRun, last: Run, seen: Timestamp, can_be_merged: Option<bool>) -> MpCheck {
    let persisted = ProposalInfo {
        can_be_merged,
        status: text("open"),
        revision: Some(text("old-tip")),
        target_branch_url: Some(text(TARGET)),
        rate_limit_bucket: Some(text("bucket")),
        codebase: Some(text("pkg")),
        last_scanned: None,
    };
    let mut f = check_existing_mp(text(MP_URL), ForgeMpStatus::Open, false, seen, Some(persisted));
    f.note_forge(ForgeFacts {
        revision: Some(text("old-tip")),
        source_branch_url: None,
        can_be_merged,
        target_branch_url: Some(text(TARGET)),
    });
    f.note_scanned();
    f.note_counted();
    f.note_current_run(Some(SourceRun::new(old)));
    f.note_last_run(Some(LastRun::new(last, seen)));
    f.note_campaign(Some(campaign()));
    f
}

fn unmodified(f: &MpCheck) -> bool {
    matches!(f.next(), MpStep::Done(Ok(false)))
}

fn modified(f: &MpCheck) -> bool {
    matches!(f.next(), MpStep::Done(Ok(true)))
}

#[test]
fn failed_runs_are_tried_again_if_transient_or_old() {
    let day = 24 * 3600;
    for (transient, days, expected) in [
        (Some(true), 1, Some("publisher (transient error)")),
        (Some(false), 31, Some("publisher (retrying old failed run)")),
        (None, 30, None),
    ] {
        let mut last = last_run();
        last.result_code = text("build-failed");
        last.failure_transient = transient;
        let mut f = loaded(old_run(), last, at(days * day), None);
        if let Some(requester) = expected {
            match f.next() {
                MpStep::Reschedule(job) => {
                    assert_eq!(job.requester.to_text(), requester);
                    assert_eq!(job.change_set.as_deref(), Some("cs-2"));
                    assert!(!job.refresh);
                }
                other => panic!("unexpected step: {:?}", other),
            }
            f.note_rescheduled();
        }
        assert!(unmodified(&f));
    }
}

#[test]
fn proposals_of_little_value_are_abandoned() {
    let mut old = old_run();
    old.value = 9;
    let mut f = loaded(old, last_run(), at(0), None);
    match f.next() {
        MpStep::Close(closing) => {
            assert_eq!(closing.mode, AbandonMode::Abandoned);
            assert_eq!(
                closing.reason.comment(),
                "This merge proposal will be closed, since only trivial changes are left."
            );
            assert_eq!(closing.revision, "old-tip");
            assert_eq!(closing.target_branch_url, TARGET);
        }
        other => panic!("unexpected step: {:?}", other),
    }
    f.note_close_outcome(CloseOutcome::PermissionDenied(text("no")));
    assert!(unmodified(&f));
}

#[test]
fn renamed_targets_are_followed() {
    let mut old = old_run();
    old.remote_branch_name = text("master");
    let mut f = loaded(old, last_run(), at(0), None);
    assert!(matches!(f.next(), MpStep::RenameTarget { name } if name == "main"));
    f.note_renamed(true);
    assert!(matches!(f.next(), MpStep::FindRoleBranch { name, .. } if name == "master"));
    f.note_renamed_target(text("https://example.com/pkg,branch=master"));
    assert!(matches!(f.next(), MpStep::CompareBranches { .. }));
    f.note_same_branch(true);
    f.note_derived_name(text("fixes"));
    f.note_manager_known(true);
    match f.next() {
        MpStep::Republish(call) => {
            assert_eq!(call.target_branch_url, "https://example.com/pkg,branch=master");
            assert_eq!(call.unchanged_id, None);
            assert_eq!(call.rate_limit_bucket.as_deref(), Some("bucket"));
        }
        other => panic!("unexpected step: {:?}", other),
    }
    f.note_update(UpdateOutcome::Busy);
    assert!(unmodified(&f));
}

#[test]
fn proposals_whose_target_cannot_be_renamed_are_closed() {
    let mut old = old_run();
    old.remote_branch_name = text("master");
    let mut f = loaded(old, last_run(), at(0), None);
    f.note_renamed(false);
    match f.next() {
        MpStep::Close(closing) => {
            assert!(matches!(closing.reason, CloseReason::BranchChanged { .. }));
            assert_eq!(
                closing.reason.comment(),
                "This merge proposal will be closed, since the branch for the role 'main' has \
                 changed from master to main."
            );
        }
        other => panic!("unexpected step: {:?}", other),
    }
    f.note_close_outcome(CloseOutcome::Closed);
    assert!(modified(&f));
}

#[test]
fn proposals_are_left_alone_on_other_branches_or_the_same_revision() {
    let mut f = loaded(old_run(), last_run(), at(0), None);
    f.note_same_branch(false);
    assert!(unmodified(&f));

    let mut old = old_run();
    old.revision = text("tip");
    let mut f = loaded(old, last_run(), at(0), None);
    f.note_same_branch(true);
    assert!(unmodified(&f));

    let mut f = loaded(old_run(), last_run(), at(0), None);
    f.note_same_branch(true);
    f.note_derived_name(text("fixes"));
    f.note_manager_known(false);
    assert!(unmodified(&f));
}

#[test]
fn conflicts_ask_for_another_run() {
    let mut old = old_run();
    old.id = text("run-2");
    let mut f = loaded(old, last_run(), at(0), Some(false));
    f.note_same_branch(true);
    match f.next() {
        MpStep::Reschedule(job) => {
            assert!(matches!(job.requester, Requester::MergeConflict));
            assert_eq!(job.change_set.as_deref(), Some("cs-1"));
            assert!(job.refresh);
            assert_eq!(job.bucket.as_str(), "update-existing-mp");
            assert_eq!(job.command, None);
        }
        other => panic!("unexpected step: {:?}", other),
    }
    f.note_rescheduled();
    assert!(unmodified(&f));
}

#[test]
fn empty_proposals_are_closed_and_recorded() {
    for (outcome, code, description) in [
        (
            CloseOutcome::Closed,
            "success",
            "Closing merge request for which changes were applied independently",
        ),
        (
            CloseOutcome::PermissionDenied(text("no")),
            "empty-failed-to-close",
            "Permission denied closing merge request: no",
        ),
        (CloseOutcome::Failed, "empty-merge-proposal", "Nothing left"),
    ] {
        let mut f = loaded(old_run(), last_run(), at(0), None);
        f.note_same_branch(true);
        f.note_derived_name(text("fixes"));
        f.note_manager_known(true);
        f.note_update(UpdateOutcome::Failed {
            code: text("empty-merge-proposal"),
            description: text("Nothing left"),
        });
        match f.next() {
            MpStep::Close(closing) => assert_eq!(closing.mode, AbandonMode::Applied),
            other => panic!("unexpected step: {:?}", other),
        }
        f.note_close_outcome(outcome);
        match f.next() {
            MpStep::Store(storing) => {
                assert_eq!(storing.outcome.code(), code);
                assert_eq!(storing.outcome.description(), description);
                assert_eq!(storing.merge_proposal_url.as_deref(), Some(MP_URL));
                assert_eq!(storing.branch_name.as_deref(), Some("fixes"));
            }
            other => panic!("unexpected step: {:?}", other),
        }
        f.note_stored();
        assert!(modified(&f));
    }
}

/// A check of an open proposal that is not recorded and whose source branch is known
/// by its URL alone.
fn orphan() -> MpCheck {
    let mut f = check_existing_mp(text(MP_URL), ForgeMpStatus::Open, false, at(0), None);
    f.note_forge(ForgeFacts {
        revision: None,
        source_branch_url: Some(text("https://example.com/fork,branch=lintian%2Dfixes")),
        can_be_merged: None,
        target_branch_url: Some(text(TARGET)),
    });
    assert!(matches!(f.next(), MpStep::OpenSourceBranch { .. }));
    f.note_source_branch(Some(OpenedBranch { revision: text("fork-tip"), name: None }));
    assert!(matches!(f.next(), MpStep::SplitSourceUrl { .. }));
    f.note_source_url_branch(Some(text("lintian%2Dfixes")));
    assert!(matches!(f.next(), MpStep::GuessCodebase { target_url } if target_url == TARGET));
    f.note_codebase_guess(Some(text("pkg")));
    assert!(matches!(f.next(), MpStep::GuessBucket { branch_name, .. }
        if branch_name == "lintian-fixes"));
    f.note_bucket_guess(None);
    assert!(matches!(f.next(), MpStep::LoadRecordedRun));
    f.note_recorded_run(None);
    match f.next() {
        MpStep::UpdateInfo(update) => {
            assert_eq!(update.status, MergeProposalStatus::Open);
            assert_eq!(update.revision.as_deref(), Some("fork-tip"));
            assert_eq!(update.codebase.as_deref(), Some("pkg"));
            assert_eq!(update.campaign, None);
        }
        other => panic!("unexpected step: {:?}", other),
    }
    f.note_scanned();
    assert!(matches!(f.next(), MpStep::LoadCurrentRun));
    f.note_current_run(None);
    assert!(matches!(f.next(), MpStep::FindCampaign { branch_name }
        if branch_name == "lintian-fixes"));
    f
}

#[test]
fn orphans_of_no_campaign_are_errors() {
    let mut f = orphan();
    f.note_orphan_campaign(None);
    assert!(matches!(f.next(), MpStep::Done(Err(CheckMpError::NoRunForMergeProposal(url)))
        if url == MP_URL));
}

#[test]
fn orphans_without_a_run_get_one() {
    for scheduled in [true, false] {
        let mut f = orphan();
        f.note_orphan_campaign(Some((text("lintian-fixes"), text("main"))));
        assert!(matches!(f.next(), MpStep::LookForRun { campaign, .. }
            if campaign == "lintian-fixes"));
        f.note_orphan_run(false);
        match f.next() {
            MpStep::Reschedule(job) => {
                assert_eq!(job.requester.to_text(), "publisher (orphaned merge proposal)");
                assert_eq!(job.change_set, None);
                assert!(job.refresh);
            }
            other => panic!("unexpected step: {:?}", other),
        }
        f.note_orphan_rescheduled(scheduled);
        if scheduled {
            assert!(unmodified(&f));
        } else {
            assert!(matches!(
                f.next(),
                MpStep::Done(Err(CheckMpError::NoRunForMergeProposal(_)))
            ));
        }
    }
}

#[test]
fn orphans_with_a_run_are_updated_from_it() {
    let mut f = orphan();
    f.note_orphan_campaign(Some((text("fixes"), text("main"))));
    f.note_orphan_run(true);
    assert!(matches!(f.next(), MpStep::LoadLastRun { codebase, campaign }
        if codebase == "pkg" && campaign == "fixes"));
    let mut last = last_run();
    last.result_branches = Some(vec![ResultBranch {
        role: text("main"),
        remote_name: text(""),
        base_revision: None,
        revision: Some(text("tip")),
    }]);
    f.note_last_run(Some(LastRun::new(last, at(0))));
    f.note_campaign(Some(CampaignFacts { value_threshold: None, branch_name: None }));
    f.note_same_branch(true);
    f.note_manager_known(true);
    match f.next() {
        MpStep::Republish(call) => {
            assert_eq!(call.derived_branch_name, "lintian-fixes");
            assert_eq!(call.revision, "tip");
        }
        other => panic!("unexpected step: {:?}", other),
    }
}

#[test]
fn recently_scanned_proposals_are_only_counted() {
    let persisted = ProposalInfo {
        can_be_merged: None,
        status: text("applied"),
        revision: None,
        target_branch_url: None,
        rate_limit_bucket: Some(text("bucket")),
        codebase: None,
        last_scanned: Some(at(0)),
    };
    let mut f =
        check_existing_mp(text(MP_URL), ForgeMpStatus::Closed, false, at(60), Some(persisted));
    assert!(matches!(f.next(), MpStep::BumpLastScanned));
    f.note_scanned();
    assert!(matches!(f.next(), MpStep::CountBucket { status: MergeProposalStatus::Applied, .. }));
    f.note_counted();
    assert!(unmodified(&f));
}
