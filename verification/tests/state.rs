use janitor_services::publish::branches::{
    branches_match, cotenant_base, cotenant_url, derived_branch_name, has_cotenants, may_redirect,
    resolve_redirects, BranchStep,
};
use janitor_services::publish::closing::{
    abandon_mp, close_applied_mp, close_as_decided, ClosingStep,
};
use janitor_services::publish::counts::{bucket_mp_counts, MpCounts};
use janitor_services::publish::debdiff::{
    debdiff_status, debdiff_url, missing_run, unavailable, DebdiffStatus,
};
use janitor_services::publish::errors::{CheckMpError, DebdiffError};
use janitor_services::publish::existing::check::check_existing_mp;
use janitor_services::publish::existing::steps::{
    AbandonMode, CampaignFacts, CloseOutcome, CloseReason, Closing, ForgeFacts, LastRun, MpStep,
    SourceRun, UpdateOutcome,
};
use janitor_services::publish::proposal_info::{
    get_merged_by_user_url, iter_outdated_proposal_info_urls, merged_by_host,
    needs_merge_details, stored_url_error, update_canonical_url, update_proposal_info,
    CanonicalUrlStep, MergeDetails, ProposalInfo, ProposalRecord, UserUrlAnswer,
};
use janitor_services::publish::rate_limiter::RateLimiter;
use janitor_services::publish::run::{ResultBranch, Run};
use janitor_services::publish::scan::{
    check_existing, get_mp_status, statuses_to_list, AfterCheck, ListingErrorNote, ProposalGate,
};
use janitor_services::publish::state::{
    build_guess_codebase_query, get_open_merge_proposal, guess_codebase_url,
    guess_proposal_info_from_revision, is_looked_for, judge_codebase, publish_ready_conditions,
    source_branch_campaign, CodebaseGuess, MergeProposalRun, GUESS_CODEBASE_QUERY_SQL,
    LAST_EFFECTIVE_RUN_SQL, RUN_SQL,
};
use janitor_services::publish::types::{ForgeMpStatus, MergeProposalStatus};
use janitor_services::publish::worker::PublishOneResult;
use janitor_services::publish::types::Mode;
use janitor_services::test_utils::{
    database_name, database_url, hex_of, uuid_hex, TestCounter, TestDatabaseConfig,
};
use janitor_services::time::{TimeDelta, Timestamp};
use janitor_services::urls::normalize_url;

fn at(secs: i64) -> Timestamp {
    Timestamp { secs, nanos: 0 }
}

#[test]
fn test_get_debdiff_without_unchanged_id_skips_the_request() {
    // There is no URL to ask, so no request can be made.
    let err = debdiff_url("http://127.0.0.1:1", None, "log-123").unwrap_err();
    assert!(matches!(err, DebdiffError::NoUnchangedRun));
    assert_eq!(err.to_text(), "No unchanged run to compare against yet");
}

#[test]
fn debdiffs_are_asked_for_by_both_runs() {
    assert_eq!(
        debdiff_url("http://localhost:9920/", Some("old"), "new").unwrap(),
        "http://localhost:9920/debdiff/old/new?filter_boring=true"
    );
    assert!(debdiff_url("nonsense", Some("old"), "new").is_err());
    assert!(matches!(debdiff_status(200), DebdiffStatus::Diff));
    assert!(matches!(debdiff_status(404), DebdiffStatus::Missing));
    assert!(matches!(debdiff_status(503), DebdiffStatus::Unavailable));
    assert!(matches!(debdiff_status(418), DebdiffStatus::Other));
    assert!(matches!(missing_run(None), DebdiffError::MissingRun(id) if id == "unknown"));
    assert!(matches!(unavailable(Some("x".into())), DebdiffError::Unavailable(text) if text == "x"));
}

#[test]
fn run_select_queries_cast_vcs_type_to_text() {
    let src = format!("{}{}", LAST_EFFECTIVE_RUN_SQL, RUN_SQL);
    let cast_count = src.matches("vcs_type::text AS vcs_type").count();
    assert!(
        cast_count >= 2,
        "expected at least two `vcs_type::text AS vcs_type` casts \
         (one in get_last_effective_run, one in get_run); found {}",
        cast_count
    );
}

#[test]
fn guess_codebase_query_sql_has_no_quoted_identifier_artifact() {
    let trimmed = GUESS_CODEBASE_QUERY_SQL.trim();
    assert!(
        trimmed.starts_with("SELECT"),
        "query must start with SELECT, got: {:?}",
        trimmed
    );
    assert!(
        !GUESS_CODEBASE_QUERY_SQL.contains("\"\""),
        "query must not contain stray empty quoted identifiers: {:?}",
        GUESS_CODEBASE_QUERY_SQL
    );
}

#[test]
fn guess_codebase_query_binds_text_array() {
    let placeholder_count = GUESS_CODEBASE_QUERY_SQL
        .match_indices('$')
        .filter(|(i, _)| {
            GUESS_CODEBASE_QUERY_SQL[i + 1..]
                .chars()
                .next()
                .is_some_and(|c| c.is_ascii_digit())
        })
        .count();
    assert_eq!(placeholder_count, 1);
    assert!(GUESS_CODEBASE_QUERY_SQL.contains("$1::text[]"));
}

#[test]
fn build_guess_codebase_query_trims_trailing_slash() {
    let q = build_guess_codebase_query(
        "https://example.com/foo/bar/",
        "https://example.com/foo/bar/",
        None,
    );
    assert_eq!(q.url_trimmed, "https://example.com/foo/bar");
    // Trailing-slash trim applies to every scheme variant, so
    // none of the produced candidates should re-introduce one.
    for c in &q.candidates {
        assert!(
            !c.ends_with('/'),
            "candidate must not retain trailing slash: {}",
            c
        );
    }
    assert!(q
        .candidates
        .contains(&"https://example.com/foo/bar".to_string()));
    assert_eq!(q.branch, None);
}

#[test]
fn build_guess_codebase_query_separates_repo_url_and_branch() {
    let q = build_guess_codebase_query(
        "https://example.com/foo/bar,branch=main",
        "https://example.com/foo/bar",
        Some("main"),
    );
    assert_eq!(q.branch.as_deref(), Some("main"));
    assert!(q.candidates.contains(&q.url_trimmed));
    // Bare repo URL (no segment params) is also a candidate.
    assert!(
        q.candidates
            .iter()
            .any(|c| c == "https://example.com/foo/bar"),
        "expected bare repo URL among candidates; got: {:?}",
        q.candidates
    );
    // ...and so are the ssh / git+ssh aliases of both forms.
    assert!(
        q.candidates
            .iter()
            .any(|c| c.starts_with("git+ssh://") && c.contains(",branch=main")),
        "expected git+ssh alias of the full URL; got: {:?}",
        q.candidates
    );
    assert!(
        q.candidates
            .iter()
            .any(|c| c.starts_with("git+ssh://") && !c.contains(",branch=")),
        "expected git+ssh alias of the bare repo URL; got: {:?}",
        q.candidates
    );
}

#[test]
fn build_guess_codebase_query_dedups_when_repo_url_matches() {
    let q = build_guess_codebase_query(
        "https://example.com/foo/bar",
        "https://example.com/foo/bar",
        None,
    );
    let mut sorted = q.candidates.clone();
    sorted.sort();
    sorted.dedup();
    assert_eq!(
        sorted.len(),
        q.candidates.len(),
        "candidates must already be unique; got: {:?}",
        q.candidates
    );
    assert_eq!(
        q.candidates.len(),
        3,
        "expected one entry per scheme variant; got: {:?}",
        q.candidates
    );
    assert!(q
        .candidates
        .contains(&"https://example.com/foo/bar".to_string()));
}

#[test]
fn branch_names_in_queries_are_unescaped() {
    let q = build_guess_codebase_query(
        "https://example.com/foo,branch=debian%2Fsid",
        "https://example.com/foo",
        Some("debian%2Fsid"),
    );
    assert_eq!(q.branch.as_deref(), Some("debian/sid"));
}

#[test]
fn test_proposal_info_serialization() {
    let info = ProposalInfo {
        can_be_merged: Some(true),
        status: "open".to_string(),
        revision: Some("abc123".to_string()),
        target_branch_url: Some("https://github.com/test/repo".to_string()),
        rate_limit_bucket: Some("default".to_string()),
        codebase: Some("test-codebase".to_string()),
        last_scanned: None,
    };

    assert_eq!(info.status, "open");
    assert_eq!(info.codebase.as_deref(), Some("test-codebase"));
    assert!(info.can_be_merged.unwrap());
}

#[test]
fn codebases_are_judged_by_their_url() {
    assert!(matches!(
        judge_codebase("https://e.com/a", None),
        CodebaseGuess::Unknown
    ));
    assert!(matches!(
        judge_codebase("https://e.com/a", Some(("cb".into(), "https://e.com/a/".into()))),
        CodebaseGuess::Known(name) if name == "cb"
    ));
    assert!(matches!(
        judge_codebase("https://e.com/a", Some(("cb".into(), "https://e.com/b".into()))),
        CodebaseGuess::Compare { branch_url } if branch_url == "https://e.com/b"
    ));
    assert!(is_looked_for(
        "https://e.com/a",
        &Some("x".into()),
        "https://e.com/a",
        &Some("x".into())
    ));
    // The URL alone or the branch alone is enough.
    assert!(is_looked_for(
        "https://e.com/a",
        &Some("x".into()),
        "https://e.com/a/",
        &None
    ));
    assert!(is_looked_for("https://e.com/a", &None, "https://e.com/b", &None));
    assert!(!is_looked_for(
        "https://e.com/a",
        &Some("x".into()),
        "https://e.com/b",
        &None
    ));
}

#[test]
fn guesses_need_one_answer() {
    assert_eq!(
        guess_proposal_info_from_revision(vec![("cb".into(), Some("b".into()))]),
        (Some("cb".to_string()), Some("b".to_string()))
    );
    assert_eq!(
        guess_proposal_info_from_revision(vec![("a".into(), None), ("b".into(), None)]),
        (None, None)
    );
    assert_eq!(
        get_open_merge_proposal(Some(("rev".into(), "https://E.com/1".into()))),
        Some(("rev".to_string(), "https://e.com/1".to_string()))
    );
    assert_eq!(guess_codebase_url("https://e.com/a").as_deref(), Some("https://e.com/a"));
    assert_eq!(guess_codebase_url("nonsense"), None);
    assert_eq!(get_open_merge_proposal(Some(("rev".into(), "x".into()))), None);
    assert_eq!(source_branch_campaign("fixes/main"), "fixes");
    assert_eq!(source_branch_campaign("fixes"), "fixes");
    assert_ne!(publish_ready_conditions(true), publish_ready_conditions(false));
}

#[test]
fn urls_are_normalized() {
    assert_eq!(
        normalize_url("HTTPS://Example.COM:443/a/../b").as_deref(),
        Some("https://example.com/b")
    );
    assert_eq!(normalize_url("no url"), None);
}

fn plain_run() -> Run {
    Run {
        id: "run-1".to_string(),
        command: "fix".to_string(),
        suite: "fixes".to_string(),
        codebase: "cb".to_string(),
        change_set: "cs".to_string(),
        result_code: "success".to_string(),
        failure_transient: None,
        finish_time: at(0),
        value: Some(20),
        main_branch_revision: Some("main-rev".to_string()),
        revision: Some("rev".to_string()),
        vcs_type: "git".to_string(),
        branch_url: "https://example.com/cb".to_string(),
        target_branch_url: None,
        result_branches: Some(vec![ResultBranch {
            role: "main".to_string(),
            remote_name: "".to_string(),
            base_revision: Some("base".to_string()),
            revision: Some("new-rev".to_string()),
        }]),
    }
}

#[test]
fn branch_names_are_derived() {
    let run = plain_run();
    assert_eq!(
        derived_branch_name(Some("janitor-fixes"), None, &run, "main", Some(false)),
        "janitor-fixes"
    );
    let mut two = plain_run();
    let other = two.result_branches.as_ref().unwrap()[0].clone();
    two.result_branches.as_mut().unwrap().push(other);
    assert_eq!(
        derived_branch_name(None, Some("fixes"), &two, "aux", None),
        "fixes/aux"
    );
    assert_eq!(
        derived_branch_name(None, Some("fixes"), &two, "aux", Some(true)),
        "fixes/aux/cb"
    );
    assert_eq!(
        derived_branch_name(Some("janitor-fixes"), None, &run, "main", Some(true)),
        "janitor-fixes/cb"
    );
    assert_eq!(has_cotenants("cb", &vec!["cb".to_string()]), Some(false));
    assert_eq!(
        has_cotenants("cb", &vec!["cb".to_string(), "other".to_string()]),
        Some(true)
    );
    assert_eq!(has_cotenants("cb", &vec![]), None);
    assert_eq!(
        cotenant_url("https://e.com/a,branch=x", Some("https://e.com/a")),
        "https://e.com/a"
    );
    assert_eq!(
        cotenant_base("https://E.com/a,branch=x").as_deref(),
        Some("https://e.com/a,branch=x")
    );
    assert_eq!(cotenant_base("a/b/"), None);
    assert_eq!(cotenant_url("a/b/", None), "a/b");
    assert!(may_redirect("https://example.com/a"));
    assert!(!may_redirect("git+ssh://example.com/a"));
    assert_eq!(resolve_redirects("https://e.com/a", None), "https://e.com/a");
    assert_eq!(
        resolve_redirects("https://e.com/a", Some("https://e.com/b")),
        "https://e.com/b"
    );
}

#[test]
fn branches_with_one_url_are_the_same() {
    let f = branches_match(Some("https://e.com/a".into()), Some("https://e.com/a".into()));
    assert!(matches!(f.next(), BranchStep::Done(true)));
    let g = branches_match(None, Some("https://e.com/a".into()));
    assert!(matches!(g.next(), BranchStep::Done(false)));
    let h = branches_match(Some("https://e.com/a".into()), Some("https://e.com/b".into()));
    assert!(matches!(h.next(), BranchStep::Resolve { .. } | BranchStep::Done(false)));
}

#[test]
fn closing_is_recorded_first() {
    let mut f = abandon_mp(
        "https://e.com/mr/1".into(),
        "rev".into(),
        Some("cb".into()),
        "https://e.com/a",
        Some("fixes".into()),
        Some(true),
        Some("bucket".into()),
        Some("bye".into()),
    );
    match f.next() {
        ClosingStep::Record(record) => {
            assert_eq!(record.url, "https://e.com/mr/1");
            assert_eq!(record.status, MergeProposalStatus::Abandoned);
            assert_eq!(record.revision.as_deref(), Some("rev"));
            assert_eq!(record.codebase.as_deref(), Some("cb"));
            assert_eq!(record.target_branch_url, "https://e.com/a");
            assert_eq!(record.campaign(), "fixes");
            assert_eq!(record.can_be_merged, Some(true));
            assert_eq!(record.rate_limit_bucket.as_deref(), Some("bucket"));
        }
        other => panic!("unexpected step: {:?}", other),
    }
    f.note_recorded(true);
    assert!(matches!(f.next(), ClosingStep::PostComment { comment } if comment == "bye"));
    f.note_commented();
    assert!(matches!(f.next(), ClosingStep::Close));
    f.note_closed(CloseOutcome::Closed);
    assert!(matches!(f.next(), ClosingStep::Done(CloseOutcome::Closed)));
    let mut g = close_applied_mp(
        "https://e.com/mr/1".into(),
        "rev".into(),
        None,
        "https://e.com/a",
        None,
        None,
        None,
        None,
    );
    match g.next() {
        ClosingStep::Record(record) => {
            assert_eq!(record.status, MergeProposalStatus::Applied);
            assert_eq!(record.campaign(), "");
        }
        other => panic!("unexpected step: {:?}", other),
    }
    g.note_recorded(false);
    assert!(matches!(g.next(), ClosingStep::Done(CloseOutcome::Failed)));
    let odd = abandon_mp(
        "https://e.com/mr/1".into(),
        "rev".into(),
        None,
        "no url",
        None,
        None,
        None,
        None,
    );
    assert!(matches!(odd.next(), ClosingStep::Done(CloseOutcome::Failed)));
}

#[test]
fn closing_goes_by_what_a_check_decided() {
    let closing = Closing {
        mode: AbandonMode::Applied,
        reason: CloseReason::AppliedIndependently,
        revision: "rev".into(),
        codebase: Some("cb".into()),
        target_branch_url: "https://e.com/a".into(),
        campaign: "fixes".into(),
        can_be_merged: Some(false),
        rate_limit_bucket: None,
    };
    let f = close_as_decided("https://e.com/mr/1".into(), closing);
    assert!(f.comment.as_deref().unwrap().contains("applied independently"));
    match f.next() {
        ClosingStep::Record(record) => {
            assert_eq!(record.status, MergeProposalStatus::Applied);
            assert_eq!(record.codebase.as_deref(), Some("cb"));
            assert_eq!(record.campaign(), "fixes");
            assert_eq!(record.can_be_merged, Some(false));
        }
        other => panic!("unexpected step: {:?}", other),
    }
}

#[test]
fn proposals_are_counted_by_bucket() {
    let mut counts = MpCounts::new();
    counts.count(MergeProposalStatus::Open, "a".into());
    counts.count(MergeProposalStatus::Open, "a".into());
    counts.count(MergeProposalStatus::Open, "b".into());
    assert_eq!(counts.get(MergeProposalStatus::Open).get("a"), Some(&2));
    assert_eq!(counts.total(MergeProposalStatus::Open), 3);
    assert_eq!(counts.total(MergeProposalStatus::Merged), 0);
    let read = bucket_mp_counts(&vec![
        ("a".to_string(), "open".to_string(), 4),
        ("a".to_string(), "merged".to_string(), 1),
    ]);
    assert_eq!(read.get(MergeProposalStatus::Open).get("a"), Some(&4));
    assert_eq!(read.total(MergeProposalStatus::Merged), 1);
}

#[test]
fn scans_keep_to_their_limits() {
    let mut scan = check_existing(Some(1), Some(1));
    assert!(scan.can_count());
    assert!(matches!(
        scan.note_proposal(None, at(0)),
        ProposalGate::Check {
            check_only: false,
            ..
        }
    ));
    assert!(matches!(scan.note_checked(&Ok(true)), AfterCheck::Continue));
    assert!(!scan.check_only);
    assert!(matches!(scan.note_checked(&Ok(true)), AfterCheck::Continue));
    assert!(scan.check_only);
    assert!(matches!(
        scan.note_checked(&Err(CheckMpError::Database("x".into()))),
        AfterCheck::Continue
    ));
    assert!(matches!(
        scan.note_checked(&Err(CheckMpError::UnexpectedHttpStatus)),
        AfterCheck::GiveUp
    ));
    assert!(!scan.is_complete());
    let mut limiter = RateLimiter::new(false, Some(2));
    assert!(!scan.finish(&mut limiter, &MpCounts::new()));
    assert!(limiter.open.is_none());
}

#[test]
fn forges_are_left_alone_until_their_time() {
    let mut counts = MpCounts::new();
    counts.count(MergeProposalStatus::Open, "a".into());
    let mut limiter = RateLimiter::new(false, Some(2));
    let mut running = check_existing(None, None);
    assert!(matches!(
        running.note_proposal(Some(at(100)), at(99)),
        ProposalGate::ForgeRateLimited
    ));
    assert!(running.was_forge_ratelimited);
    assert!(!running.is_complete());
    assert!(!running.finish(&mut limiter, &counts));
    assert_eq!(limiter.get_open("a"), None);
    let mut over = check_existing(None, None);
    assert!(matches!(
        over.note_proposal(Some(at(100)), at(100)),
        ProposalGate::Check {
            check_only: false,
            forget_limit: true,
        }
    ));
    assert!(matches!(
        over.note_proposal(None, at(100)),
        ProposalGate::Check {
            check_only: false,
            forget_limit: false,
        }
    ));
    assert!(over.is_complete());
    assert!(over.finish(&mut limiter, &counts));
    assert_eq!(limiter.get_open("a"), Some(1));
}

#[test]
fn scans_slow_down_and_go_on() {
    let mut scan = check_existing(None, None);
    let limited = Err(CheckMpError::BranchRateLimited { retry_after: None });
    match scan.note_checked(&limited) {
        AfterCheck::LimitForge { wait } => assert_eq!(wait.nanos, TimeDelta::seconds(1800).nanos),
        other => panic!("unexpected: {:?}", other),
    }
    assert_eq!(scan.unexpected, 0);
    scan.note_checked(&Err(CheckMpError::NoRunForMergeProposal("u".into())));
    assert_eq!(scan.no_run, 1);
    assert_eq!(scan.no_run_first.as_deref(), Some("u"));
    for _ in 0..5 {
        assert!(matches!(scan.note_listing_error(), ListingErrorNote::Report));
    }
    assert!(matches!(
        scan.note_listing_error(),
        ListingErrorNote::LastNote
    ));
    assert!(matches!(scan.note_listing_error(), ListingErrorNote::Silent));
}

#[test]
fn forge_statuses_are_told_apart() {
    assert_eq!(get_mp_status(true, None), Some("merged"));
    assert_eq!(get_mp_status(false, Some(true)), Some("closed"));
    assert_eq!(get_mp_status(false, Some(false)), Some("open"));
    assert_eq!(get_mp_status(false, None), None);
    assert_eq!(
        statuses_to_list(Some(vec![ForgeMpStatus::Merged])),
        vec![ForgeMpStatus::Merged]
    );
    assert!(!statuses_to_list(None).is_empty());
}

#[test]
fn canonical_urls_replace_old_ones() {
    let old = "https://e.com/1".to_string();
    let new = "https://e.com/2".to_string();
    assert!(matches!(
        update_canonical_url(&old, &new, Some("x".into())),
        CanonicalUrlStep::DeleteRecord(url) if url == "x"
    ));
    assert!(matches!(
        update_canonical_url(&old, &new, None),
        CanonicalUrlStep::RenameRecord { from, to } if from == old && to == new
    ));
    assert_eq!(merged_by_host("https://e.com/1").as_deref(), Some("e.com"));
    assert_eq!(merged_by_host("nonsense"), None);
    assert_eq!(
        get_merged_by_user_url(Some(UserUrlAnswer::Found("u".into()))),
        Ok(Some("u".to_string()))
    );
    assert_eq!(
        get_merged_by_user_url(Some(UserUrlAnswer::UnsupportedForge)),
        Ok(None)
    );
    assert_eq!(
        get_merged_by_user_url(Some(UserUrlAnswer::Failed("x".into()))),
        Err("x".to_string())
    );
    assert_eq!(get_merged_by_user_url(None), Ok(None));
}

#[test]
fn merged_proposals_are_absorbed() {
    assert!(needs_merge_details(MergeProposalStatus::Merged));
    assert!(!needs_merge_details(MergeProposalStatus::Closed));
    let record = ProposalRecord {
        url: "u".into(),
        status: MergeProposalStatus::Merged,
        revision: Some("rev".into()),
        codebase: None,
        target_branch_url: "t".into(),
        campaign: Some("fixes".into()),
        can_be_merged: None,
        rate_limit_bucket: None,
    };
    let details = MergeDetails {
        merged_by: Some("someone".into()),
        merged_by_url: None,
        merged_at: Some(at(9)),
    };
    let update = update_proposal_info(record, details);
    assert_eq!(update.absorbed, Some(true));
    assert_eq!(update.merge.merged_by.as_deref(), Some("someone"));
}

fn source_run() -> MergeProposalRun {
    MergeProposalRun {
        id: "run-0".to_string(),
        campaign: "fixes".to_string(),
        branch_url: "https://example.com/cb".to_string(),
        command: "fix".to_string(),
        value: 20,
        role: "main".to_string(),
        remote_branch_name: "".to_string(),
        revision: "old-rev".to_string(),
        codebase: "cb".to_string(),
        change_set: "cs".to_string(),
    }
}

fn persisted() -> ProposalInfo {
    ProposalInfo {
        can_be_merged: None,
        status: "open".to_string(),
        revision: Some("old-rev".to_string()),
        target_branch_url: Some("https://example.com/cb".to_string()),
        rate_limit_bucket: Some("bucket".to_string()),
        codebase: Some("cb".to_string()),
        last_scanned: None,
    }
}

fn forge_facts() -> ForgeFacts {
    ForgeFacts {
        revision: Some("old-rev".to_string()),
        source_branch_url: None,
        can_be_merged: None,
        target_branch_url: Some("https://example.com/cb".to_string()),
    }
}

#[test]
fn open_proposals_are_updated() {
    let mut f = check_existing_mp(
        "https://example.com/mr/1".to_string(),
        ForgeMpStatus::Open,
        false,
        at(1000),
        Some(persisted()),
    );
    assert!(matches!(f.next(), MpStep::FetchForge));
    f.note_forge(forge_facts());
    assert!(matches!(f.next(), MpStep::BumpLastScanned));
    f.note_scanned();
    assert!(matches!(f.next(), MpStep::CountBucket { status: MergeProposalStatus::Open, bucket }
        if bucket == "bucket"));
    f.note_counted();
    assert!(matches!(f.next(), MpStep::LoadCurrentRun));
    f.note_current_run(Some(SourceRun::new(source_run())));
    assert!(matches!(f.next(), MpStep::LoadLastRun { codebase, .. } if codebase == "cb"));
    f.note_last_run(Some(LastRun::new(plain_run(), at(1000))));
    assert!(matches!(f.next(), MpStep::LoadCampaign { name } if name == "fixes"));
    f.note_campaign(Some(CampaignFacts {
        value_threshold: Some(10),
        branch_name: Some("fixes".to_string()),
    }));
    assert!(matches!(f.next(), MpStep::CompareBranches { .. }));
    f.note_same_branch(true);
    assert!(matches!(f.next(), MpStep::DeriveBranchName { .. }));
    f.note_derived_name("fixes".to_string());
    assert!(matches!(f.next(), MpStep::FindUnchangedRun { revision, .. } if revision == "main-rev"));
    f.note_unchanged_run(Some("control".to_string()));
    assert!(matches!(f.next(), MpStep::FindVcsManager { .. }));
    f.note_manager_known(true);
    match f.next() {
        MpStep::Republish(call) => {
            assert_eq!(call.mode, Mode::Propose);
            assert_eq!(call.revision, "new-rev");
            assert_eq!(
                call.existing_mp_url.as_deref(),
                Some("https://example.com/mr/1")
            );
        }
        other => panic!("unexpected step: {:?}", other),
    }
    f.note_update(UpdateOutcome::Updated(PublishOneResult {
        proposal_url: Some("https://example.com/mr/1".to_string()),
        proposal_web_url: None,
        is_new: Some(false),
        branch_name: "fixes".to_string(),
        target_branch_url: "https://example.com/cb".to_string(),
        target_branch_web_url: None,
        mode: Mode::Propose,
    }));
    match f.next() {
        MpStep::Store(storing) => assert_eq!(storing.outcome.description(), "Successfully updated"),
        other => panic!("unexpected step: {:?}", other),
    }
    f.note_stored();
    assert!(matches!(f.next(), MpStep::Done(Ok(true))));
}

#[test]
fn proposals_without_a_use_are_closed() {
    let mut f = check_existing_mp(
        "https://example.com/mr/1".to_string(),
        ForgeMpStatus::Open,
        false,
        at(1000),
        Some(persisted()),
    );
    f.note_forge(forge_facts());
    f.note_scanned();
    f.note_counted();
    f.note_current_run(Some(SourceRun::new(source_run())));
    let mut last = plain_run();
    last.result_code = "nothing-to-do".to_string();
    f.note_last_run(Some(LastRun::new(last, at(1000))));
    f.note_campaign(Some(CampaignFacts {
        value_threshold: None,
        branch_name: None,
    }));
    match f.next() {
        MpStep::Close(closing) => {
            assert!(matches!(closing.reason, CloseReason::AppliedIndependently));
            assert!(!closing.reason.comment().is_empty());
        }
        other => panic!("unexpected step: {:?}", other),
    }
    f.note_close_outcome(CloseOutcome::Closed);
    assert!(matches!(f.next(), MpStep::Done(Ok(true))));
}

#[test]
fn merged_proposals_are_only_recorded() {
    let mut f = check_existing_mp(
        "https://example.com/mr/1".to_string(),
        ForgeMpStatus::Merged,
        false,
        at(1000),
        Some(persisted()),
    );
    f.note_forge(forge_facts());
    assert!(matches!(f.next(), MpStep::LoadRecordedRun));
    f.note_recorded_run(Some(SourceRun::new(source_run())));
    match f.next() {
        MpStep::UpdateInfo(update) => {
            assert_eq!(update.status, MergeProposalStatus::Merged);
            assert_eq!(update.campaign(), "fixes");
            assert_eq!(update.url, "https://example.com/mr/1");
        }
        other => panic!("unexpected step: {:?}", other),
    }
    f.note_scanned();
    f.note_counted();
    assert!(matches!(f.next(), MpStep::Done(Ok(false))));
}

#[test]
fn proposals_nobody_knows_are_errors() {
    let mut f = check_existing_mp(
        "https://example.com/mr/1".to_string(),
        ForgeMpStatus::Open,
        false,
        at(1000),
        Some(persisted()),
    );
    f.note_forge(forge_facts());
    f.note_scanned();
    f.note_counted();
    f.note_current_run(None);
    assert!(matches!(f.next(), MpStep::Done(Err(CheckMpError::NoRunForMergeProposal(url)))
        if url == "https://example.com/mr/1"));
}

#[test]
fn test_databases_have_names_of_their_own() {
    assert_eq!(hex_of(255), "ff");
    assert_eq!(hex_of(0), "0");
    let mut counter = TestCounter::new();
    assert_eq!(uuid_hex(0x1f, &mut counter), "1f_0");
    assert_eq!(uuid_hex(0x1f, &mut counter), "1f_1");
    assert_eq!(counter.next, 2);
    assert_ne!(
        uuid_hex(0x12, &mut TestCounter { next: 0x3 }),
        uuid_hex(0x1, &mut TestCounter { next: 0x23 })
    );
    let config = TestDatabaseConfig::at(Some("postgresql://localhost".to_string()));
    assert!(config.unique_per_test);
    let name = database_name(&config, "abc");
    assert!(name.contains("abc"));
    assert!(database_url(&config, &name).ends_with(&name));
}

#[test]
fn counters_never_repeat_themselves() {
    let mut counter = TestCounter::new();
    let mut seen: Vec<String> = vec![];
    for _ in 0..300 {
        let text = uuid_hex(7, &mut counter);
        assert!(!seen.contains(&text));
        seen.push(text);
    }
    assert_eq!(seen[255], "7_ff");
    let mut last = TestCounter { next: u64::MAX };
    assert_eq!(last.draw(), u64::MAX);
    assert_eq!(last.draw(), 0);
    assert_eq!(last.draw(), 1);
}

#[test]
fn outdated_proposals_are_found_by_their_urls() {
    let rows = vec![
        "HTTPS://Example.com/mr/1".to_string(),
        "https://example.com".to_string(),
    ];
    assert_eq!(
        iter_outdated_proposal_info_urls(&rows),
        Ok(vec![
            "https://example.com/mr/1".to_string(),
            "https://example.com/".to_string(),
        ])
    );
    let broken = vec![
        "https://example.com/mr/1".to_string(),
        "mr/2".to_string(),
        "mr/3".to_string(),
    ];
    assert_eq!(iter_outdated_proposal_info_urls(&broken), Err(1));
    assert_eq!(iter_outdated_proposal_info_urls(&vec![]), Ok(vec![]));
    assert_eq!(
        stored_url_error("relative URL without a base"),
        "Invalid URL in database: relative URL without a base"
    );
}
