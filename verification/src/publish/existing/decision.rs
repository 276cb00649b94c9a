//! How a check decides on its next step.
use crate::publish::errors::CheckMpError;
use crate::publish::existing::gate::{
    CHECK_EXISTING_MP_FRESH_THRESHOLD, EXISTING_RUN_RETRY_INTERVAL_DAYS, skips_fetch,
};
use crate::publish::existing::steps::{
    AbandonMode, CampaignFacts, CloseOutcome, CloseReason, Closing, ForgeFacts, LastRun, MpCheck,
    MpStep, SourceRun, UpdateOutcome,
};
use crate::publish::proposal_info::{ProposalInfo, ProposalRecord};
use crate::publish::record::{StoredOutcome, Storing};
use crate::publish::run::{ResultBranch, result_branch};
use crate::publish::schedule::{Queue, Requester, RunRequest};
use crate::publish::types::{ForgeMpStatus, MergeProposalStatus, Mode, status_of, status_text};
use crate::publish::worker::{PublishCall, run_sufficient};
use crate::text::opt_text;
use crate::time::{TimeDelta, Timestamp, whole_days};
use crate::urls::{normal_form, parsed_url};
use vstd::prelude::*;

verus! {

/// The state to record for a proposal. A proposal that is closed on the forge
/// keeps the reason that we recorded for it.
pub open spec fn effective_status(
    forge: ForgeMpStatus,
    persisted: Option<Seq<char>>,
) -> MergeProposalStatus {
    match forge {
        ForgeMpStatus::Open => MergeProposalStatus::Open,
        ForgeMpStatus::All => MergeProposalStatus::Open,
        ForgeMpStatus::Merged => MergeProposalStatus::Merged,
        ForgeMpStatus::Closed => match persisted {
            Some(text) => if text == "abandoned"@ {
                MergeProposalStatus::Abandoned
            } else if text == "applied"@ {
                MergeProposalStatus::Applied
            } else if text == "rejected"@ {
                MergeProposalStatus::Rejected
            } else {
                MergeProposalStatus::Closed
            },
            None => MergeProposalStatus::Closed,
        },
    }
}

/// Whether the record was found trustworthy.
pub open spec fn mp_skips(f: MpCheck) -> bool {
    &&& f.persisted is Some
    &&& skips_fetch(
        f.status,
        f.persisted->0.status@,
        f.persisted->0.last_scanned,
        f.now,
        TimeDelta { nanos: CHECK_EXISTING_MP_FRESH_THRESHOLD },
    )
}

/// The codebase recorded before.
pub open spec fn persisted_codebase(f: MpCheck) -> Option<String> {
    match f.persisted {
        Some(info) => info.codebase,
        None => None,
    }
}

/// The bucket recorded before.
pub open spec fn persisted_bucket(f: MpCheck) -> Option<String> {
    match f.persisted {
        Some(info) => info.rate_limit_bucket,
        None => None,
    }
}

/// The tip of the source branch: as the forge has it, else as the branch has it,
/// else as it was recorded before.
pub open spec fn mp_revision(f: MpCheck) -> Option<String> {
    let told = match f.forge {
        Some(forge) => forge.revision,
        None => None,
    };
    match (told, f.source_branch) {
        (Some(revision), _) => Some(revision),
        (None, Some(Some(branch))) => Some(branch.revision),
        _ => match f.persisted {
            Some(info) => info.revision,
            None => None,
        },
    }
}

/// The name of the source branch: as the branch has it, else as its URL has it.
pub open spec fn mp_source_name(f: MpCheck) -> Option<String> {
    match opened_name(f) {
        Some(name) => Some(name),
        None => match f.source_url_branch {
            Some(name) => name,
            None => None,
        },
    }
}

/// The name that the opened source branch has.
pub open spec fn opened_name(f: MpCheck) -> Option<String> {
    match f.source_branch {
        Some(Some(branch)) => branch.name,
        _ => None,
    }
}

/// The codebase: as the target branch's URL tells it where the bucket is not
/// known, else as recorded before.
pub open spec fn codebase_by_url(f: MpCheck) -> Option<String> {
    match (persisted_bucket(f), f.codebase_guess) {
        (None, Some(Some(codebase))) => Some(codebase),
        _ => persisted_codebase(f),
    }
}

/// The codebase: as [`codebase_by_url`], else as the revision tells it.
pub open spec fn mp_codebase(f: MpCheck) -> Option<String> {
    match (codebase_by_url(f), persisted_bucket(f), f.revision_guess) {
        (None, None, Some(Some(guess))) => Some(guess.0),
        (codebase, _, _) => codebase,
    }
}

/// The bucket: as recorded before, else as the codebase tells it, else as the
/// revision tells it.
pub open spec fn mp_bucket(f: MpCheck) -> Option<String> {
    match persisted_bucket(f) {
        Some(bucket) => Some(bucket),
        None => match codebase_by_url(f) {
            None => match f.revision_guess {
                Some(Some(guess)) => guess.1,
                _ => None,
            },
            Some(_) => match f.bucket_guess {
                Some(bucket) => bucket,
                None => None,
            },
        },
    }
}

/// The state to record.
pub open spec fn mp_status(f: MpCheck) -> MergeProposalStatus {
    effective_status(
        f.status,
        match f.persisted {
            Some(info) => Some(info.status@),
            None => None,
        },
    )
}

/// Whether the record differs from what is known now.
pub open spec fn mp_needs_update(f: MpCheck, forge: ForgeFacts) -> bool {
    match f.persisted {
        None => true,
        Some(info) => {
            ||| info.status@ != status_text(mp_status(f))
            ||| opt_text(info.revision) != opt_text(mp_revision(f))
            ||| opt_text(info.target_branch_url) != opt_text(forge.target_branch_url)
            ||| opt_text(info.rate_limit_bucket) != opt_text(mp_bucket(f))
            ||| info.can_be_merged != forge.can_be_merged
        },
    }
}

/// The next thing to find out about source branch, codebase and bucket.
pub open spec fn mp_resolve(f: MpCheck, forge: ForgeFacts) -> Option<MpStep> {
    let unknown_bucket = persisted_bucket(f) is None;
    if forge.revision is None && forge.source_branch_url is Some && f.source_branch is None {
        Some(MpStep::OpenSourceBranch { url: forge.source_branch_url->0 })
    } else if opened_name(f) is None && forge.source_branch_url is Some && f.source_url_branch
        is None {
        Some(MpStep::SplitSourceUrl { url: forge.source_branch_url->0 })
    } else if unknown_bucket && forge.target_branch_url is Some && f.codebase_guess is None {
        Some(MpStep::GuessCodebase { target_url: forge.target_branch_url->0 })
    } else if unknown_bucket && codebase_by_url(f) is None && mp_revision(f) is Some
        && f.revision_guess is None {
        Some(MpStep::GuessFromRevision { revision: mp_revision(f)->0 })
    } else if unknown_bucket && codebase_by_url(f) is Some && mp_source_name(f) is Some
        && f.bucket_guess is None {
        Some(
            MpStep::GuessBucket {
                codebase: codebase_by_url(f)->0,
                branch_name: mp_source_name(f)->0,
            },
        )
    } else {
        None
    }
}

/// Counts the proposal unless that is done, then goes on with `rest`.
pub open spec fn mp_count_first(
    f: MpCheck,
    status: MergeProposalStatus,
    bucket: Option<String>,
    rest: MpStep,
) -> MpStep {
    if !f.counted && bucket is Some {
        MpStep::CountBucket { status, bucket: bucket->0 }
    } else {
        rest
    }
}

/// Ends the check of a proposal that nothing is to be done about.
pub open spec fn mp_finish_no_action(
    f: MpCheck,
    status: MergeProposalStatus,
    bucket: Option<String>,
) -> MpStep {
    if !f.scanned {
        MpStep::BumpLastScanned
    } else {
        mp_count_first(f, status, bucket, MpStep::Done(Ok(false)))
    }
}

/// The next step of a check.
pub open spec fn mp_next(f: MpCheck) -> MpStep {
    if mp_skips(f) {
        let status = status_of(f.persisted->0.status@);
        mp_finish_no_action(
            f,
            if status is Some {
                status->0
            } else {
                MergeProposalStatus::Open
            },
            persisted_bucket(f),
        )
    } else {
        match f.forge {
            None => MpStep::FetchForge,
            Some(forge) => match mp_resolve(f, forge) {
                Some(step) => step,
                None => mp_record(f, forge),
            },
        }
    }
}

/// Brings the record up to date, then counts the proposal and acts on it.
pub open spec fn mp_record(f: MpCheck, forge: ForgeFacts) -> MpStep {
    if mp_needs_update(f, forge) {
        match (f.recorded_run, forge.target_branch_url) {
            (None, _) => MpStep::LoadRecordedRun,
            (Some(_), None) => mp_finish_no_action(f, mp_status(f), mp_bucket(f)),
            (Some(run), Some(target)) => if !f.scanned {
                MpStep::UpdateInfo(
                    ProposalRecord {
                        url: f.mp_url,
                        status: mp_status(f),
                        revision: mp_revision(f),
                        codebase: mp_codebase(f),
                        target_branch_url: target,
                        campaign: match run {
                            Some(source) => Some(source.run.campaign),
                            None => None,
                        },
                        can_be_merged: forge.can_be_merged,
                        rate_limit_bucket: mp_bucket(f),
                    },
                )
            } else {
                mp_recorded(f, forge)
            },
        }
    } else if !f.scanned {
        MpStep::BumpLastScanned
    } else {
        mp_recorded(f, forge)
    }
}

/// Counts the proposal, then acts on it if it is open and may be acted on.
pub open spec fn mp_recorded(f: MpCheck, forge: ForgeFacts) -> MpStep {
    mp_count_first(
        f,
        mp_status(f),
        mp_bucket(f),
        if f.status != ForgeMpStatus::Open || f.check_only {
            MpStep::Done(Ok(false))
        } else {
            mp_act(f, forge)
        },
    )
}

/// The run that the proposal came from, or is assumed to have come from.
pub open spec fn mp_source_run(f: MpCheck) -> Option<SourceRun> {
    match (f.recorded_run, f.current_run) {
        (Some(Some(source)), _) => Some(source),
        (_, Some(Some(source))) => Some(source),
        _ => f.recovered_run,
    }
}

/// Acts on an open proposal.
pub open spec fn mp_act(f: MpCheck, forge: ForgeFacts) -> MpStep {
    match mp_source_run(f) {
        Some(source) => mp_act_on(f, forge, source),
        None => match f.current_run {
            None => MpStep::LoadCurrentRun,
            Some(_) => mp_orphan(f),
        },
    }
}

/// Acts on a proposal without a run.
pub open spec fn mp_orphan(f: MpCheck) -> MpStep {
    let no_run = MpStep::Done(Err(CheckMpError::NoRunForMergeProposal(f.mp_url)));
    match (mp_codebase(f), mp_source_name(f)) {
        (Some(codebase), Some(branch_name)) => match f.orphan_campaign {
            None => MpStep::FindCampaign { branch_name },
            Some(None) => no_run,
            Some(Some(found)) => match (f.orphan_has_run, f.orphan_rescheduled) {
                (None, _) => MpStep::LookForRun { codebase, campaign: found.0 },
                (Some(true), _) => MpStep::Done(Ok(false)),
                (Some(false), None) => MpStep::Reschedule(
                    RunRequest {
                        campaign: found.0,
                        codebase,
                        bucket: Queue::ExistingProposals,
                        change_set: None,
                        refresh: true,
                        requester: Requester::OrphanedProposal,
                        command: None,
                    },
                ),
                (Some(false), Some(true)) => MpStep::Done(Ok(false)),
                (Some(false), Some(false)) => no_run,
            },
        },
        _ => no_run,
    }
}

/// Acts on a proposal whose run is known: first finds the last run and the
/// campaign.
pub open spec fn mp_act_on(f: MpCheck, forge: ForgeFacts, source: SourceRun) -> MpStep {
    match (f.last_run, f.campaign) {
        (None, _) => MpStep::LoadLastRun {
            codebase: source.run.codebase,
            campaign: source.run.campaign,
        },
        (Some(None), _) => MpStep::Done(Ok(false)),
        (Some(Some(_)), None) => MpStep::LoadCampaign { name: source.run.campaign },
        (Some(Some(_)), Some(None)) => MpStep::Done(Ok(false)),
        (Some(Some(last)), Some(Some(campaign))) => mp_compare(f, forge, source, last, campaign),
    }
}

/// The target branch to work with.
pub open spec fn mp_target(forge: ForgeFacts, source: SourceRun) -> Option<String> {
    match forge.target_branch_url {
        Some(url) => Some(url),
        None => source.url,
    }
}

/// A value that fits the type of run values.
pub open spec fn value_of(value: i64) -> Option<i32> {
    if i32::MIN <= value <= i32::MAX {
        Some(value as i32)
    } else {
        None
    }
}

/// Acts on what the last run says of the proposal.
pub open spec fn mp_compare(
    f: MpCheck,
    forge: ForgeFacts,
    source: SourceRun,
    last: LastRun,
    campaign: CampaignFacts,
) -> MpStep {
    if last.run.result_code@ == "nothing-to-do"@ {
        mp_close(
            f,
            forge,
            source,
            mp_target(forge, source),
            AbandonMode::Applied,
            CloseReason::AppliedIndependently,
        )
    } else if last.run.result_code@ != "success"@ {
        mp_failed_run(f, last)
    } else if !run_sufficient(campaign.value_threshold, value_of(source.run.value)) {
        mp_close(
            f,
            forge,
            source,
            mp_target(forge, source),
            AbandonMode::Abandoned,
            CloseReason::OnlyTrivialChangesLeft,
        )
    } else {
        match result_branch(last.run, source.run.role@) {
            None => MpStep::Done(Ok(false)),
            Some(branch) => mp_rename(f, forge, source, last, campaign, branch),
        }
    }
}

/// Closes the proposal where its revision and target are known.
pub open spec fn mp_close(
    f: MpCheck,
    forge: ForgeFacts,
    source: SourceRun,
    target: Option<String>,
    mode: AbandonMode,
    reason: CloseReason,
) -> MpStep {
    match (mp_revision(f), target, f.close_outcome) {
        (Some(revision), Some(target_branch_url), None) => MpStep::Close(
            Closing {
                mode,
                reason,
                revision,
                codebase: Some(source.run.codebase),
                target_branch_url,
                campaign: source.run.campaign,
                can_be_merged: forge.can_be_merged,
                rate_limit_bucket: mp_bucket(f),
            },
        ),
        (Some(_), Some(_), Some(CloseOutcome::Closed)) => MpStep::Done(Ok(true)),
        _ => MpStep::Done(Ok(false)),
    }
}

/// Why a failed last run is tried again, if it is.
pub open spec fn retry_reason(last: LastRun) -> Option<Requester> {
    if last.run.failure_transient == Some(true) {
        Some(Requester::TransientError)
    } else if whole_days(last.seen@ - last.run.finish_time@) > EXISTING_RUN_RETRY_INTERVAL_DAYS {
        Some(Requester::OldFailedRun)
    } else {
        None
    }
}

/// Leaves the proposal alone after a failed last run, but may ask for another
/// run.
pub open spec fn mp_failed_run(f: MpCheck, last: LastRun) -> MpStep {
    if retry_reason(last) is Some && !f.rescheduled {
        MpStep::Reschedule(
            RunRequest {
                campaign: last.run.suite,
                codebase: last.run.codebase,
                bucket: Queue::ExistingProposals,
                change_set: Some(last.run.change_set),
                refresh: false,
                requester: retry_reason(last)->0,
                command: None,
            },
        )
    } else {
        MpStep::Done(Ok(false))
    }
}

/// Follows a change of the target branch's name.
pub open spec fn mp_rename(
    f: MpCheck,
    forge: ForgeFacts,
    source: SourceRun,
    last: LastRun,
    campaign: CampaignFacts,
    branch: ResultBranch,
) -> MpStep {
    let target = mp_target(forge, source);
    if branch.remote_name@ == source.run.remote_branch_name@ || branch.remote_name@.len() == 0 {
        mp_branches(f, forge, source, last, campaign, branch, target)
    } else if source.run.remote_branch_name@.len() == 0 {
        MpStep::Done(Ok(false))
    } else {
        match (f.renamed, source.url, f.renamed_target) {
            (None, _, _) => MpStep::RenameTarget { name: branch.remote_name },
            (Some(false), _, _) => mp_close(
                f,
                forge,
                source,
                target,
                AbandonMode::Abandoned,
                CloseReason::BranchChanged {
                    role: source.run.role,
                    from: source.run.remote_branch_name,
                    to: branch.remote_name,
                },
            ),
            (Some(true), None, _) => mp_branches(f, forge, source, last, campaign, branch, target),
            (Some(true), Some(url), None) => MpStep::FindRoleBranch {
                url,
                name: source.run.remote_branch_name,
            },
            (Some(true), Some(_), Some(moved)) => mp_branches(
                f,
                forge,
                source,
                last,
                campaign,
                branch,
                Some(moved),
            ),
        }
    }
}

/// Goes on only where both runs worked on the same branch.
pub open spec fn mp_branches(
    f: MpCheck,
    forge: ForgeFacts,
    source: SourceRun,
    last: LastRun,
    campaign: CampaignFacts,
    branch: ResultBranch,
    target: Option<String>,
) -> MpStep {
    match f.same_branch {
        None => MpStep::CompareBranches { ours: source.url, theirs: last.url },
        Some(false) => MpStep::Done(Ok(false)),
        Some(true) => if last.run.id@ != source.run.id@ {
            mp_republish(f, source, last, campaign, branch, target, forge)
        } else {
            mp_conflict(f, forge, source)
        },
    }
}

/// Asks for a run where the proposal conflicts with its target.
pub open spec fn mp_conflict(f: MpCheck, forge: ForgeFacts, source: SourceRun) -> MpStep {
    if forge.can_be_merged == Some(false) && !f.rescheduled {
        MpStep::Reschedule(
            RunRequest {
                campaign: source.run.campaign,
                codebase: source.run.codebase,
                bucket: Queue::ExistingProposals,
                change_set: Some(source.run.change_set),
                refresh: true,
                requester: Requester::MergeConflict,
                command: None,
            },
        )
    } else {
        MpStep::Done(Ok(false))
    }
}

/// The name of the source branch to publish to.
pub open spec fn mp_branch_name(f: MpCheck) -> Option<String> {
    match mp_source_name(f) {
        Some(name) => Some(name),
        None => f.derived_name,
    }
}

/// Updates the proposal from the last run.
pub open spec fn mp_republish(
    f: MpCheck,
    source: SourceRun,
    last: LastRun,
    campaign: CampaignFacts,
    branch: ResultBranch,
    target: Option<String>,
    forge: ForgeFacts,
) -> MpStep {
    if opt_text(branch.revision) == Some(source.run.revision@) {
        MpStep::Done(Ok(false))
    } else {
        match (target, branch.revision) {
            (Some(target_branch_url), Some(revision)) => match mp_branch_name(f) {
                None => MpStep::DeriveBranchName { role: source.run.role },
                Some(derived_branch_name) => if last.run.main_branch_revision is Some
                    && f.unchanged_run is None {
                    MpStep::FindUnchangedRun {
                        codebase: last.run.codebase,
                        revision: last.run.main_branch_revision->0,
                    }
                } else {
                    match (f.manager_known, f.update) {
                        (None, _) => MpStep::FindVcsManager { vcs_type: last.run.vcs_type },
                        (Some(false), _) => MpStep::Done(Ok(false)),
                        (Some(true), None) => MpStep::Republish(
                            PublishCall {
                                target_branch_url,
                                mode: Mode::Propose,
                                role: source.run.role,
                                revision,
                                unchanged_id: match (
                                    last.run.main_branch_revision,
                                    f.unchanged_run,
                                ) {
                                    (Some(_), Some(id)) => id,
                                    _ => None,
                                },
                                derived_branch_name,
                                rate_limit_bucket: mp_bucket(f),
                                require_binary_diff: false,
                                allow_create_proposal: true,
                                existing_mp_url: Some(f.mp_url),
                            },
                        ),
                        (Some(true), Some(UpdateOutcome::Busy)) => MpStep::Done(Ok(false)),
                        (Some(true), Some(UpdateOutcome::Updated(result))) => mp_store(
                            f,
                            Storing {
                                run_id: last.run.id,
                                change_set: last.run.change_set,
                                codebase: last.run.codebase,
                                branch_name: Some(result.branch_name),
                                target_branch_url: result.target_branch_url,
                                target_branch_web_url: result.target_branch_web_url,
                                main_branch_revision: branch.base_revision,
                                revision: branch.revision,
                                role: source.run.role,
                                mode: Mode::Propose,
                                outcome: StoredOutcome::Updated,
                                requester: Some(Requester::RegularRefresh),
                                merge_proposal_url: result.proposal_url,
                            },
                        ),
                        (Some(true), Some(UpdateOutcome::Failed { code, description })) =>
                            mp_failed_update(
                            f,
                            forge,
                            source,
                            last,
                            campaign,
                            branch,
                            target_branch_url,
                            code,
                            description,
                        ),
                    }
                },
            },
            _ => MpStep::Done(Ok(false)),
        }
    }
}

/// Records the outcome of an update, then ends the check.
pub open spec fn mp_store(f: MpCheck, storing: Storing) -> MpStep {
    if !f.stored {
        MpStep::Store(storing)
    } else {
        MpStep::Done(Ok(true))
    }
}

/// Whether a failed update means that nothing is left in the proposal, and it can
/// be closed.
pub open spec fn mp_is_empty(f: MpCheck, code: String) -> bool {
    code@ == "empty-merge-proposal"@ && mp_revision(f) is Some
}

/// What is recorded of a failed update.
pub open spec fn mp_failure_outcome(f: MpCheck, code: String, description: String) -> StoredOutcome {
    if mp_is_empty(f, code) {
        match f.close_outcome {
            Some(CloseOutcome::Closed) => StoredOutcome::ClosedAsApplied,
            Some(CloseOutcome::PermissionDenied(msg)) => StoredOutcome::EmptyFailedToClose(msg),
            _ => StoredOutcome::Failed { code, description },
        }
    } else {
        StoredOutcome::Failed { code, description }
    }
}

/// Closes a proposal that turned out to be empty, and records a failed update.
pub open spec fn mp_failed_update(
    f: MpCheck,
    forge: ForgeFacts,
    source: SourceRun,
    last: LastRun,
    campaign: CampaignFacts,
    branch: ResultBranch,
    target_branch_url: String,
    code: String,
    description: String,
) -> MpStep {
    if mp_is_empty(f, code) && f.close_outcome is None {
        MpStep::Close(
            Closing {
                mode: AbandonMode::Applied,
                reason: CloseReason::AppliedIndependently,
                revision: mp_revision(f)->0,
                codebase: mp_codebase(f),
                target_branch_url,
                campaign: source.run.campaign,
                can_be_merged: forge.can_be_merged,
                rate_limit_bucket: mp_bucket(f),
            },
        )
    } else {
        mp_store(
            f,
            Storing {
                run_id: last.run.id,
                change_set: last.run.change_set,
                codebase: last.run.codebase,
                branch_name: campaign.branch_name,
                target_branch_url,
                target_branch_web_url: None,
                main_branch_revision: branch.base_revision,
                revision: branch.revision,
                role: source.run.role,
                mode: Mode::Propose,
                outcome: mp_failure_outcome(f, code, description),
                requester: Some(Requester::RegularRefresh),
                merge_proposal_url: Some(f.mp_url),
            },
        )
    }
}

/// A check of which nothing but its subject is known.
pub open spec fn mp_start(
    mp_url: String,
    status: ForgeMpStatus,
    check_only: bool,
    now: Timestamp,
    persisted: Option<ProposalInfo>,
) -> MpCheck {
    MpCheck {
        mp_url,
        status,
        check_only,
        now,
        persisted,
        scanned: false,
        counted: false,
        forge: None,
        source_branch: None,
        source_url_branch: None,
        codebase_guess: None,
        revision_guess: None,
        bucket_guess: None,
        recorded_run: None,
        current_run: None,
        orphan_campaign: None,
        orphan_has_run: None,
        orphan_rescheduled: None,
        recovered_run: None,
        last_run: None,
        campaign: None,
        close_outcome: None,
        rescheduled: false,
        renamed: None,
        renamed_target: None,
        same_branch: None,
        derived_name: None,
        unchanged_run: None,
        manager_known: None,
        update: None,
        stored: false,
    }
}

/// Whether `source` is the run that is assumed for an orphaned proposal of the
/// given codebase, campaign and role.
pub open spec fn is_recovered_run(
    source: SourceRun,
    found: (String, String),
    codebase: String,
    revision: String,
    target: String,
) -> bool {
    &&& source.run.id@.len() == 0
    &&& source.run.campaign == found.0
    &&& source.run.branch_url == target
    &&& source.run.command@.len() == 0
    &&& source.run.value == 0
    &&& source.run.role == found.1
    &&& source.run.remote_branch_name@.len() == 0
    &&& source.run.revision == revision
    &&& source.run.codebase == codebase
    &&& source.run.change_set@.len() == 0
    &&& opt_text(source.url) == normal_form(parsed_url(target@))
}

/// The target branch that the forge reports.
pub open spec fn forge_target(f: MpCheck) -> Option<String> {
    match f.forge {
        Some(forge) => forge.target_branch_url,
        None => None,
    }
}

} // verus!
