//! Running a check.
use crate::publish::errors::{CheckMpError, PublishError};
use crate::publish::existing::decision::{
    codebase_by_url, effective_status, forge_target, is_recovered_run, mp_act, mp_act_on,
    mp_branch_name, mp_branches, mp_bucket, mp_close, mp_codebase, mp_compare, mp_conflict,
    mp_failed_run, mp_failed_update, mp_failure_outcome, mp_finish_no_action, mp_needs_update,
    mp_next, mp_orphan, mp_record, mp_recorded, mp_rename, mp_republish, mp_resolve, mp_revision,
    mp_skips, mp_source_name, mp_source_run, mp_start, mp_status, mp_store, mp_target, opened_name,
    persisted_bucket, persisted_codebase, retry_reason, value_of,
};
use crate::publish::existing::gate::{
    CHECK_EXISTING_MP_FRESH_THRESHOLD, EXISTING_RUN_RETRY_INTERVAL_DAYS,
    check_existing_mp_should_skip_per_mp_fetch,
};
use crate::publish::existing::steps::{
    AbandonMode, CampaignFacts, CloseOutcome, CloseReason, Closing, ForgeFacts, LastRun, MpCheck,
    MpStep, OpenedBranch, SourceRun, UpdateOutcome,
};
use crate::publish::proposal_info::{ProposalInfo, ProposalRecord};
use crate::publish::record::{StoredOutcome, Storing};
use crate::publish::run::{ResultBranch, Run};
use crate::publish::schedule::{Queue, Requester, RunRequest};
use crate::publish::state::{MergeProposalRun, unescape_segment, unescaped};
use crate::publish::types::{ForgeMpStatus, MergeProposalStatus, Mode};
use crate::publish::worker::{PublishCall, PublishOneResult, run_sufficient_for_proposal};
use crate::text::{opt_str_eq, opt_text, str_eq};
use crate::time::{TimeDelta, Timestamp};
use crate::urls::{normal_form, normalize_url, parsed_url};
use vstd::prelude::*;

verus! {

/// The state to record for a proposal.
fn carried_status(forge: ForgeMpStatus, persisted: Option<&str>) -> (r: MergeProposalStatus)
    ensures
        r == effective_status(
            forge,
            match persisted {
                Some(text) => Some(text@),
                None => None,
            },
        ),
{
    match forge {
        ForgeMpStatus::Open => MergeProposalStatus::Open,
        ForgeMpStatus::All => MergeProposalStatus::Open,
        ForgeMpStatus::Merged => MergeProposalStatus::Merged,
        ForgeMpStatus::Closed => match persisted {
            Some(text) => if str_eq(text, "abandoned") {
                MergeProposalStatus::Abandoned
            } else if str_eq(text, "applied") {
                MergeProposalStatus::Applied
            } else if str_eq(text, "rejected") {
                MergeProposalStatus::Rejected
            } else {
                MergeProposalStatus::Closed
            },
            None => MergeProposalStatus::Closed,
        },
    }
}

/// A value that fits the type of run values.
fn narrow_value(value: i64) -> (r: Option<i32>)
    ensures
        r == value_of(value),
{
    if i32::MIN as i64 <= value && value <= i32::MAX as i64 {
        Some(value as i32)
    } else {
        None
    }
}

/// Why a failed last run is tried again, if it is.
fn find_retry_reason(last: &LastRun) -> (r: Option<Requester>)
    ensures
        r == retry_reason(*last),
{
    let transient = match last.run.failure_transient {
        Some(transient) => transient,
        None => false,
    };
    if transient {
        Some(Requester::TransientError)
    } else if last.seen.since(last.run.finish_time).num_days() > EXISTING_RUN_RETRY_INTERVAL_DAYS {
        Some(Requester::OldFailedRun)
    } else {
        None
    }
}

/// The target branch to work with.
fn working_target(forge: &ForgeFacts, source: &SourceRun) -> (r: Option<String>)
    ensures
        r == mp_target(*forge, *source),
{
    match &forge.target_branch_url {
        Some(url) => Some(url.clone()),
        None => source.url.clone(),
    }
}

impl MpCheck {
    fn skips(&self) -> (r: bool)
        ensures
            r == mp_skips(*self),
    {
        match &self.persisted {
            Some(info) => check_existing_mp_should_skip_per_mp_fetch(
                self.status,
                info.status.as_str(),
                info.last_scanned,
                self.now,
                TimeDelta { nanos: CHECK_EXISTING_MP_FRESH_THRESHOLD },
            ),
            None => false,
        }
    }

    fn old_codebase(&self) -> (r: Option<String>)
        ensures
            r == persisted_codebase(*self),
    {
        match &self.persisted {
            Some(info) => info.codebase.clone(),
            None => None,
        }
    }

    fn old_bucket(&self) -> (r: Option<String>)
        ensures
            r == persisted_bucket(*self),
    {
        match &self.persisted {
            Some(info) => info.rate_limit_bucket.clone(),
            None => None,
        }
    }

    fn revision(&self) -> (r: Option<String>)
        ensures
            r == mp_revision(*self),
    {
        if let Some(forge) = &self.forge {
            if let Some(revision) = &forge.revision {
                return Some(revision.clone());
            }
        }
        if let Some(Some(branch)) = &self.source_branch {
            return Some(branch.revision.clone());
        }
        match &self.persisted {
            Some(info) => info.revision.clone(),
            None => None,
        }
    }

    fn opened_source_name(&self) -> (r: Option<String>)
        ensures
            r == opened_name(*self),
    {
        match &self.source_branch {
            Some(Some(branch)) => branch.name.clone(),
            _ => None,
        }
    }

    fn source_name(&self) -> (r: Option<String>)
        ensures
            r == mp_source_name(*self),
    {
        match self.opened_source_name() {
            Some(name) => Some(name),
            None => match &self.source_url_branch {
                Some(name) => name.clone(),
                None => None,
            },
        }
    }

    fn codebase_from_url(&self) -> (r: Option<String>)
        ensures
            r == codebase_by_url(*self),
    {
        if self.old_bucket().is_none() {
            if let Some(Some(codebase)) = &self.codebase_guess {
                return Some(codebase.clone());
            }
        }
        self.old_codebase()
    }

    fn codebase(&self) -> (r: Option<String>)
        ensures
            r == mp_codebase(*self),
    {
        let known = self.codebase_from_url();
        if known.is_none() && self.old_bucket().is_none() {
            if let Some(Some(guess)) = &self.revision_guess {
                return Some(guess.0.clone());
            }
        }
        known
    }

    fn bucket(&self) -> (r: Option<String>)
        ensures
            r == mp_bucket(*self),
    {
        match self.old_bucket() {
            Some(bucket) => Some(bucket),
            None => match self.codebase_from_url() {
                None => match &self.revision_guess {
                    Some(Some(guess)) => guess.1.clone(),
                    _ => None,
                },
                Some(_) => match &self.bucket_guess {
                    Some(bucket) => bucket.clone(),
                    None => None,
                },
            },
        }
    }

    fn new_status(&self) -> (r: MergeProposalStatus)
        ensures
            r == mp_status(*self),
    {
        match &self.persisted {
            Some(info) => carried_status(self.status, Some(info.status.as_str())),
            None => carried_status(self.status, None),
        }
    }

    fn needs_update(&self, forge: &ForgeFacts) -> (r: bool)
        ensures
            r == mp_needs_update(*self, *forge),
    {
        match &self.persisted {
            None => true,
            Some(info) => {
                if !str_eq(info.status.as_str(), self.new_status().as_str()) {
                    return true;
                }
                if !opt_str_eq(&info.revision, &self.revision()) {
                    return true;
                }
                if !opt_str_eq(&info.target_branch_url, &forge.target_branch_url) {
                    return true;
                }
                if !opt_str_eq(&info.rate_limit_bucket, &self.bucket()) {
                    return true;
                }
                match (info.can_be_merged, forge.can_be_merged) {
                    (Some(a), Some(b)) => a != b,
                    (None, None) => false,
                    _ => true,
                }
            },
        }
    }

    fn resolve(&self, forge: &ForgeFacts) -> (r: Option<MpStep>)
        ensures
            r == mp_resolve(*self, *forge),
    {
        if let Some(url) = &forge.source_branch_url {
            if forge.revision.is_none() && self.source_branch.is_none() {
                return Some(MpStep::OpenSourceBranch { url: url.clone() });
            }
            if self.opened_source_name().is_none() && self.source_url_branch.is_none() {
                return Some(MpStep::SplitSourceUrl { url: url.clone() });
            }
        }
        if self.old_bucket().is_some() {
            return None;
        }
        if let Some(url) = &forge.target_branch_url {
            if self.codebase_guess.is_none() {
                return Some(MpStep::GuessCodebase { target_url: url.clone() });
            }
        }
        match self.codebase_from_url() {
            None => match self.revision() {
                Some(revision) => if self.revision_guess.is_none() {
                    Some(MpStep::GuessFromRevision { revision })
                } else {
                    None
                },
                None => None,
            },
            Some(codebase) => match self.source_name() {
                Some(branch_name) => if self.bucket_guess.is_none() {
                    Some(MpStep::GuessBucket { codebase, branch_name })
                } else {
                    None
                },
                None => None,
            },
        }
    }

    fn finish_no_action(&self, status: MergeProposalStatus, bucket: Option<String>) -> (r: MpStep)
        ensures
            r == mp_finish_no_action(*self, status, bucket),
    {
        if !self.scanned {
            return MpStep::BumpLastScanned;
        }
        match bucket {
            Some(bucket) => if !self.counted {
                MpStep::CountBucket { status, bucket }
            } else {
                MpStep::Done(Ok(false))
            },
            None => MpStep::Done(Ok(false)),
        }
    }

    /// What to find out or to do next.
    pub fn next(&self) -> (r: MpStep)
        ensures
            r == mp_next(*self),
    {
        if self.skips() {
            let status = match &self.persisted {
                Some(info) => match MergeProposalStatus::parse(info.status.as_str()) {
                    Some(status) => status,
                    None => MergeProposalStatus::Open,
                },
                None => MergeProposalStatus::Open,
            };
            return self.finish_no_action(status, self.old_bucket());
        }
        match &self.forge {
            None => MpStep::FetchForge,
            Some(forge) => match self.resolve(forge) {
                Some(step) => step,
                None => self.record(forge),
            },
        }
    }

    fn record(&self, forge: &ForgeFacts) -> (r: MpStep)
        ensures
            r == mp_record(*self, *forge),
    {
        if self.needs_update(forge) {
            match &self.recorded_run {
                None => MpStep::LoadRecordedRun,
                Some(run) => match &forge.target_branch_url {
                    None => self.finish_no_action(self.new_status(), self.bucket()),
                    Some(target) => if !self.scanned {
                        MpStep::UpdateInfo(
                            ProposalRecord {
                                url: self.mp_url.clone(),
                                status: self.new_status(),
                                revision: self.revision(),
                                codebase: self.codebase(),
                                target_branch_url: target.clone(),
                                campaign: match run {
                                    Some(source) => Some(source.run.campaign.clone()),
                                    None => None,
                                },
                                can_be_merged: forge.can_be_merged,
                                rate_limit_bucket: self.bucket(),
                            },
                        )
                    } else {
                        self.recorded(forge)
                    },
                },
            }
        } else if !self.scanned {
            MpStep::BumpLastScanned
        } else {
            self.recorded(forge)
        }
    }

    fn recorded(&self, forge: &ForgeFacts) -> (r: MpStep)
        ensures
            r == mp_recorded(*self, *forge),
    {
        if !self.counted {
            if let Some(bucket) = self.bucket() {
                return MpStep::CountBucket { status: self.new_status(), bucket };
            }
        }
        if self.status != ForgeMpStatus::Open || self.check_only {
            MpStep::Done(Ok(false))
        } else {
            self.act(forge)
        }
    }

    fn source_run(&self) -> (r: Option<&SourceRun>)
        ensures
            r is Some == mp_source_run(*self) is Some,
            r is Some ==> *r->0 == mp_source_run(*self)->0,
    {
        if let Some(Some(source)) = &self.recorded_run {
            return Some(source);
        }
        if let Some(Some(source)) = &self.current_run {
            return Some(source);
        }
        match &self.recovered_run {
            Some(source) => Some(source),
            None => None,
        }
    }

    fn act(&self, forge: &ForgeFacts) -> (r: MpStep)
        ensures
            r == mp_act(*self, *forge),
    {
        match self.source_run() {
            Some(source) => self.act_on(forge, source),
            None => match &self.current_run {
                None => MpStep::LoadCurrentRun,
                Some(_) => self.orphan(),
            },
        }
    }

    fn orphan(&self) -> (r: MpStep)
        ensures
            r == mp_orphan(*self),
    {
        match (self.codebase(), self.source_name()) {
            (Some(codebase), Some(branch_name)) => match &self.orphan_campaign {
                None => MpStep::FindCampaign { branch_name },
                Some(None) => MpStep::Done(
                    Err(CheckMpError::NoRunForMergeProposal(self.mp_url.clone())),
                ),
                Some(Some(found)) => match self.orphan_has_run {
                    None => MpStep::LookForRun { codebase, campaign: found.0.clone() },
                    Some(true) => MpStep::Done(Ok(false)),
                    Some(false) => match self.orphan_rescheduled {
                        None => MpStep::Reschedule(
                            RunRequest {
                                campaign: found.0.clone(),
                                codebase,
                                bucket: Queue::ExistingProposals,
                                change_set: None,
                                refresh: true,
                                requester: Requester::OrphanedProposal,
                                command: None,
                            },
                        ),
                        Some(true) => MpStep::Done(Ok(false)),
                        Some(false) => MpStep::Done(
                            Err(CheckMpError::NoRunForMergeProposal(self.mp_url.clone())),
                        ),
                    },
                },
            },
            _ => MpStep::Done(Err(CheckMpError::NoRunForMergeProposal(self.mp_url.clone()))),
        }
    }

    fn act_on(&self, forge: &ForgeFacts, source: &SourceRun) -> (r: MpStep)
        ensures
            r == mp_act_on(*self, *forge, *source),
    {
        match &self.last_run {
            None => MpStep::LoadLastRun {
                codebase: source.run.codebase.clone(),
                campaign: source.run.campaign.clone(),
            },
            Some(None) => MpStep::Done(Ok(false)),
            Some(Some(last)) => match &self.campaign {
                None => MpStep::LoadCampaign { name: source.run.campaign.clone() },
                Some(None) => MpStep::Done(Ok(false)),
                Some(Some(campaign)) => self.compare(forge, source, last, campaign),
            },
        }
    }

    fn compare(
        &self,
        forge: &ForgeFacts,
        source: &SourceRun,
        last: &LastRun,
        campaign: &CampaignFacts,
    ) -> (r: MpStep)
        ensures
            r == mp_compare(*self, *forge, *source, *last, *campaign),
    {
        if str_eq(last.run.result_code.as_str(), "nothing-to-do") {
            return self.close(
                forge,
                source,
                working_target(forge, source),
                AbandonMode::Applied,
                CloseReason::AppliedIndependently,
            );
        }
        if !str_eq(last.run.result_code.as_str(), "success") {
            return self.failed_run(last);
        }
        if !run_sufficient_for_proposal(
            campaign.value_threshold,
            narrow_value(source.run.value),
        ) {
            return self.close(
                forge,
                source,
                working_target(forge, source),
                AbandonMode::Abandoned,
                CloseReason::OnlyTrivialChangesLeft,
            );
        }
        match last.run.get_result_branch(source.run.role.as_str()) {
            None => MpStep::Done(Ok(false)),
            Some(branch) => self.rename(forge, source, last, campaign, branch),
        }
    }

    fn close(
        &self,
        forge: &ForgeFacts,
        source: &SourceRun,
        target: Option<String>,
        mode: AbandonMode,
        reason: CloseReason,
    ) -> (r: MpStep)
        ensures
            r == mp_close(*self, *forge, *source, target, mode, reason),
    {
        match (self.revision(), target) {
            (Some(revision), Some(target_branch_url)) => match &self.close_outcome {
                None => MpStep::Close(
                    Closing {
                        mode,
                        reason,
                        revision,
                        codebase: Some(source.run.codebase.clone()),
                        target_branch_url,
                        campaign: source.run.campaign.clone(),
                        can_be_merged: forge.can_be_merged,
                        rate_limit_bucket: self.bucket(),
                    },
                ),
                Some(CloseOutcome::Closed) => MpStep::Done(Ok(true)),
                Some(_) => MpStep::Done(Ok(false)),
            },
            _ => MpStep::Done(Ok(false)),
        }
    }

    fn failed_run(&self, last: &LastRun) -> (r: MpStep)
        ensures
            r == mp_failed_run(*self, *last),
    {
        match find_retry_reason(last) {
            Some(requester) => if !self.rescheduled {
                MpStep::Reschedule(
                    RunRequest {
                        campaign: last.run.suite.clone(),
                        codebase: last.run.codebase.clone(),
                        bucket: Queue::ExistingProposals,
                        change_set: Some(last.run.change_set.clone()),
                        refresh: false,
                        requester,
                        command: None,
                    },
                )
            } else {
                MpStep::Done(Ok(false))
            },
            None => MpStep::Done(Ok(false)),
        }
    }

    fn rename(
        &self,
        forge: &ForgeFacts,
        source: &SourceRun,
        last: &LastRun,
        campaign: &CampaignFacts,
        branch: &ResultBranch,
    ) -> (r: MpStep)
        ensures
            r == mp_rename(*self, *forge, *source, *last, *campaign, *branch),
    {
        let target = working_target(forge, source);
        if str_eq(branch.remote_name.as_str(), source.run.remote_branch_name.as_str())
            || branch.remote_name.as_str().is_empty() {
            return self.branches(forge, source, last, campaign, branch, target);
        }
        if source.run.remote_branch_name.as_str().is_empty() {
            return MpStep::Done(Ok(false));
        }
        match self.renamed {
            None => MpStep::RenameTarget { name: branch.remote_name.clone() },
            Some(false) => self.close(
                forge,
                source,
                target,
                AbandonMode::Abandoned,
                CloseReason::BranchChanged {
                    role: source.run.role.clone(),
                    from: source.run.remote_branch_name.clone(),
                    to: branch.remote_name.clone(),
                },
            ),
            Some(true) => match &source.url {
                None => self.branches(forge, source, last, campaign, branch, target),
                Some(url) => match &self.renamed_target {
                    None => MpStep::FindRoleBranch {
                        url: url.clone(),
                        name: source.run.remote_branch_name.clone(),
                    },
                    Some(moved) => self.branches(
                        forge,
                        source,
                        last,
                        campaign,
                        branch,
                        Some(moved.clone()),
                    ),
                },
            },
        }
    }

    fn branches(
        &self,
        forge: &ForgeFacts,
        source: &SourceRun,
        last: &LastRun,
        campaign: &CampaignFacts,
        branch: &ResultBranch,
        target: Option<String>,
    ) -> (r: MpStep)
        ensures
            r == mp_branches(*self, *forge, *source, *last, *campaign, *branch, target),
    {
        match self.same_branch {
            None => MpStep::CompareBranches { ours: source.url.clone(), theirs: last.url.clone() },
            Some(false) => MpStep::Done(Ok(false)),
            Some(true) => if !str_eq(last.run.id.as_str(), source.run.id.as_str()) {
                self.republish(source, last, campaign, branch, target, forge)
            } else {
                self.conflict(forge, source)
            },
        }
    }

    fn conflict(&self, forge: &ForgeFacts, source: &SourceRun) -> (r: MpStep)
        ensures
            r == mp_conflict(*self, *forge, *source),
    {
        match forge.can_be_merged {
            Some(false) => if !self.rescheduled {
                MpStep::Reschedule(
                    RunRequest {
                        campaign: source.run.campaign.clone(),
                        codebase: source.run.codebase.clone(),
                        bucket: Queue::ExistingProposals,
                        change_set: Some(source.run.change_set.clone()),
                        refresh: true,
                        requester: Requester::MergeConflict,
                        command: None,
                    },
                )
            } else {
                MpStep::Done(Ok(false))
            },
            _ => MpStep::Done(Ok(false)),
        }
    }

    fn branch_name(&self) -> (r: Option<String>)
        ensures
            r == mp_branch_name(*self),
    {
        match self.source_name() {
            Some(name) => Some(name),
            None => self.derived_name.clone(),
        }
    }

    fn republish(
        &self,
        source: &SourceRun,
        last: &LastRun,
        campaign: &CampaignFacts,
        branch: &ResultBranch,
        target: Option<String>,
        forge: &ForgeFacts,
    ) -> (r: MpStep)
        ensures
            r == mp_republish(*self, *source, *last, *campaign, *branch, target, *forge),
    {
        if let Some(revision) = &branch.revision {
            if str_eq(revision.as_str(), source.run.revision.as_str()) {
                return MpStep::Done(Ok(false));
            }
        }
        let (target_branch_url, revision) = match (target, branch.revision.clone()) {
            (Some(target), Some(revision)) => (target, revision),
            _ => {
                return MpStep::Done(Ok(false));
            },
        };
        let derived_branch_name = match self.branch_name() {
            None => {
                return MpStep::DeriveBranchName { role: source.run.role.clone() };
            },
            Some(name) => name,
        };
        let unchanged_id: Option<String> = match &last.run.main_branch_revision {
            Some(revision) => match &self.unchanged_run {
                None => {
                    return MpStep::FindUnchangedRun {
                        codebase: last.run.codebase.clone(),
                        revision: revision.clone(),
                    };
                },
                Some(id) => id.clone(),
            },
            None => None,
        };
        match self.manager_known {
            None => MpStep::FindVcsManager { vcs_type: last.run.vcs_type.clone() },
            Some(false) => MpStep::Done(Ok(false)),
            Some(true) => match &self.update {
                None => MpStep::Republish(
                    PublishCall {
                        target_branch_url,
                        mode: Mode::Propose,
                        role: source.run.role.clone(),
                        revision,
                        unchanged_id,
                        derived_branch_name,
                        rate_limit_bucket: self.bucket(),
                        require_binary_diff: false,
                        allow_create_proposal: true,
                        existing_mp_url: Some(self.mp_url.clone()),
                    },
                ),
                Some(UpdateOutcome::Busy) => MpStep::Done(Ok(false)),
                Some(UpdateOutcome::Updated(result)) => self.store(
                    Storing {
                        run_id: last.run.id.clone(),
                        change_set: last.run.change_set.clone(),
                        codebase: last.run.codebase.clone(),
                        branch_name: Some(result.branch_name.clone()),
                        target_branch_url: result.target_branch_url.clone(),
                        target_branch_web_url: result.target_branch_web_url.clone(),
                        main_branch_revision: branch.base_revision.clone(),
                        revision: branch.revision.clone(),
                        role: source.run.role.clone(),
                        mode: Mode::Propose,
                        outcome: StoredOutcome::Updated,
                        requester: Some(Requester::RegularRefresh),
                        merge_proposal_url: result.proposal_url.clone(),
                    },
                ),
                Some(UpdateOutcome::Failed { code, description }) => self.failed_update(
                    forge,
                    source,
                    last,
                    campaign,
                    branch,
                    target_branch_url,
                    code,
                    description,
                ),
            },
        }
    }

    fn store(&self, storing: Storing) -> (r: MpStep)
        ensures
            r == mp_store(*self, storing),
    {
        if !self.stored {
            MpStep::Store(storing)
        } else {
            MpStep::Done(Ok(true))
        }
    }

    fn failure_outcome(&self, code: &String, description: &String) -> (r: StoredOutcome)
        ensures
            r == mp_failure_outcome(*self, *code, *description),
    {
        let failed = StoredOutcome::Failed { code: code.clone(), description: description.clone() };
        if str_eq(code.as_str(), "empty-merge-proposal") && self.revision().is_some() {
            match &self.close_outcome {
                Some(CloseOutcome::Closed) => StoredOutcome::ClosedAsApplied,
                Some(CloseOutcome::PermissionDenied(msg)) => StoredOutcome::EmptyFailedToClose(
                    msg.clone(),
                ),
                _ => failed,
            }
        } else {
            failed
        }
    }

    fn failed_update(
        &self,
        forge: &ForgeFacts,
        source: &SourceRun,
        last: &LastRun,
        campaign: &CampaignFacts,
        branch: &ResultBranch,
        target_branch_url: String,
        code: &String,
        description: &String,
    ) -> (r: MpStep)
        ensures
            r == mp_failed_update(
                *self,
                *forge,
                *source,
                *last,
                *campaign,
                *branch,
                target_branch_url,
                *code,
                *description,
            ),
    {
        if str_eq(code.as_str(), "empty-merge-proposal") && self.close_outcome.is_none() {
            if let Some(revision) = self.revision() {
                return MpStep::Close(
                    Closing {
                        mode: AbandonMode::Applied,
                        reason: CloseReason::AppliedIndependently,
                        revision,
                        codebase: self.codebase(),
                        target_branch_url,
                        campaign: source.run.campaign.clone(),
                        can_be_merged: forge.can_be_merged,
                        rate_limit_bucket: self.bucket(),
                    },
                );
            }
        }
        self.store(
            Storing {
                run_id: last.run.id.clone(),
                change_set: last.run.change_set.clone(),
                codebase: last.run.codebase.clone(),
                branch_name: campaign.branch_name.clone(),
                target_branch_url,
                target_branch_web_url: None,
                main_branch_revision: branch.base_revision.clone(),
                revision: branch.revision.clone(),
                role: source.run.role.clone(),
                mode: Mode::Propose,
                outcome: self.failure_outcome(code, description),
                requester: Some(Requester::RegularRefresh),
                merge_proposal_url: Some(self.mp_url.clone()),
            },
        )
    }
}

impl SourceRun {
    /// A run together with its branch URL in normal form.
    pub fn new(run: MergeProposalRun) -> (r: SourceRun)
        ensures
            r.run == run,
            opt_text(r.url) == normal_form(parsed_url(run.branch_url@)),
    {
        let url = normalize_url(run.branch_url.as_str());
        SourceRun { run, url }
    }
}

impl LastRun {
    /// A run looked at at the given time, together with its branch URL in normal
    /// form.
    pub fn new(run: Run, seen: Timestamp) -> (r: LastRun)
        ensures
            r.run == run,
            r.seen == seen,
            opt_text(r.url) == normal_form(parsed_url(run.branch_url@)),
    {
        let url = normalize_url(run.branch_url.as_str());
        LastRun { run, url, seen }
    }
}

/// How an attempt to update a proposal ended, or the failure that has to be dealt
/// with before that can be said.
pub fn update_outcome(result: Result<PublishOneResult, PublishError>) -> (r: Result<
    UpdateOutcome,
    PublishError,
>)
    ensures
        r == (match result {
            Ok(result) => Ok(UpdateOutcome::Updated(result)),
            Err(PublishError::BranchBusy(_)) => Ok(UpdateOutcome::Busy),
            Err(e) => Err(e),
        }),
{
    match result {
        Ok(result) => Ok(UpdateOutcome::Updated(result)),
        Err(PublishError::BranchBusy(_)) => Ok(UpdateOutcome::Busy),
        Err(e) => Err(e),
    }
}

/// Starts the check of a merge proposal.
pub fn check_existing_mp(
    mp_url: String,
    status: ForgeMpStatus,
    check_only: bool,
    now: Timestamp,
    persisted: Option<ProposalInfo>,
) -> (r: MpCheck)
    ensures
        r == mp_start(mp_url, status, check_only, now, persisted),
{
    MpCheck {
        mp_url,
        status,
        check_only,
        now,
        persisted,
        scanned: false,
        counted: false,
        forge: None,
        source_branch: None,
        source_url_branch: None,
        codebase_guess: None,
        revision_guess: None,
        bucket_guess: None,
        recorded_run: None,
        current_run: None,
        orphan_campaign: None,
        orphan_has_run: None,
        orphan_rescheduled: None,
        recovered_run: None,
        last_run: None,
        campaign: None,
        close_outcome: None,
        rescheduled: false,
        renamed: None,
        renamed_target: None,
        same_branch: None,
        derived_name: None,
        unchanged_run: None,
        manager_known: None,
        update: None,
        stored: false,
    }
}

impl MpCheck {
    /// Notes down whether the campaign of an orphaned proposal ever ran. If it
    /// did, and revision and target of the proposal are known, a run is assumed
    /// that the proposal could have come from.
    pub fn note_orphan_run(&mut self, exists: bool)
        ensures
            *final(self) == (MpCheck {
                orphan_has_run: Some(exists),
                recovered_run: final(self).recovered_run,
                ..*old(self)
            }),
            match (
                old(self).orphan_campaign,
                mp_codebase(*old(self)),
                mp_revision(*old(self)),
                forge_target(*old(self)),
            ) {
                (Some(Some(found)), Some(codebase), Some(revision), Some(target)) if exists =>
                    final(self).recovered_run is Some && is_recovered_run(
                    final(self).recovered_run->0,
                    found,
                    codebase,
                    revision,
                    target,
                ),
                _ => final(self).recovered_run == old(self).recovered_run,
            },
    {
        let target = match &self.forge {
            Some(forge) => forge.target_branch_url.clone(),
            None => None,
        };
        let codebase = self.codebase();
        let revision = self.revision();
        self.orphan_has_run = Some(exists);
        if !exists {
            return;
        }
        if let Some(Some(found)) = &self.orphan_campaign {
            if let (Some(codebase), Some(revision), Some(target)) = (codebase, revision, target) {
                let run = MergeProposalRun {
                    id: String::new(),
                    campaign: found.0.clone(),
                    branch_url: target,
                    command: String::new(),
                    value: 0,
                    role: found.1.clone(),
                    remote_branch_name: String::new(),
                    revision,
                    codebase,
                    change_set: String::new(),
                };
                self.recovered_run = Some(SourceRun::new(run));
            }
        }
    }

    /// Notes down what the forge says of the proposal.
    pub fn note_forge(&mut self, answer: ForgeFacts)
        ensures
            *final(self) == (MpCheck { forge: Some(answer), ..*old(self) }),
    {
        self.forge = Some(answer);
    }

    /// Notes down the source branch, where it could be opened.
    pub fn note_source_branch(&mut self, answer: Option<OpenedBranch>)
        ensures
            *final(self) == (MpCheck { source_branch: Some(answer), ..*old(self) }),
    {
        self.source_branch = Some(answer);
    }

    /// Notes down the branch name in the source branch's URL, which holds it with
    /// percent signs.
    pub fn note_source_url_branch(&mut self, escaped: Option<String>)
        ensures
            final(self).source_url_branch is Some,
            opt_text(final(self).source_url_branch->0) == (match escaped {
                Some(escaped) => Some(unescaped(escaped@)),
                None => None,
            }),
            *final(self) == (MpCheck {
                source_url_branch: final(self).source_url_branch,
                ..*old(self)
            }),
    {
        self.source_url_branch = Some(
            match escaped {
                Some(escaped) => Some(unescape_segment(escaped.as_str())),
                None => None,
            },
        );
    }

    /// Notes down the codebase that the target branch's URL tells.
    pub fn note_codebase_guess(&mut self, answer: Option<String>)
        ensures
            *final(self) == (MpCheck { codebase_guess: Some(answer), ..*old(self) }),
    {
        self.codebase_guess = Some(answer);
    }

    /// Notes down codebase and bucket that the revision tells.
    pub fn note_revision_guess(&mut self, answer: Option<(String, Option<String>)>)
        ensures
            *final(self) == (MpCheck { revision_guess: Some(answer), ..*old(self) }),
    {
        self.revision_guess = Some(answer);
    }

    /// Notes down the bucket that codebase and source branch tell.
    pub fn note_bucket_guess(&mut self, answer: Option<String>)
        ensures
            *final(self) == (MpCheck { bucket_guess: Some(answer), ..*old(self) }),
    {
        self.bucket_guess = Some(answer);
    }

    /// Notes down the run of the proposal as it was recorded before.
    pub fn note_recorded_run(&mut self, answer: Option<SourceRun>)
        ensures
            *final(self) == (MpCheck { recorded_run: Some(answer), ..*old(self) }),
    {
        self.recorded_run = Some(answer);
    }

    /// Notes down the run of the proposal as it is recorded now.
    pub fn note_current_run(&mut self, answer: Option<SourceRun>)
        ensures
            *final(self) == (MpCheck { current_run: Some(answer), ..*old(self) }),
    {
        self.current_run = Some(answer);
    }

    /// Notes down that the record is up to date.
    pub fn note_scanned(&mut self)
        ensures
            *final(self) == (MpCheck { scanned: true, ..*old(self) }),
    {
        self.scanned = true;
    }

    /// Notes down that the proposal was counted.
    pub fn note_counted(&mut self)
        ensures
            *final(self) == (MpCheck { counted: true, ..*old(self) }),
    {
        self.counted = true;
    }

    /// Notes down campaign and role that the source branch's name tells.
    pub fn note_orphan_campaign(&mut self, answer: Option<(String, String)>)
        ensures
            *final(self) == (MpCheck { orphan_campaign: Some(answer), ..*old(self) }),
    {
        self.orphan_campaign = Some(answer);
    }

    /// Notes down whether a run could be asked for an orphaned proposal.
    pub fn note_orphan_rescheduled(&mut self, answer: bool)
        ensures
            *final(self) == (MpCheck { orphan_rescheduled: Some(answer), ..*old(self) }),
    {
        self.orphan_rescheduled = Some(answer);
    }

    /// Notes down the last run of the campaign on the codebase.
    pub fn note_last_run(&mut self, answer: Option<LastRun>)
        ensures
            *final(self) == (MpCheck { last_run: Some(answer), ..*old(self) }),
    {
        self.last_run = Some(answer);
    }

    /// Notes down the campaign, where it is still configured.
    pub fn note_campaign(&mut self, answer: Option<CampaignFacts>)
        ensures
            *final(self) == (MpCheck { campaign: Some(answer), ..*old(self) }),
    {
        self.campaign = Some(answer);
    }

    /// Notes down how closing the proposal ended.
    pub fn note_close_outcome(&mut self, answer: CloseOutcome)
        ensures
            *final(self) == (MpCheck { close_outcome: Some(answer), ..*old(self) }),
    {
        self.close_outcome = Some(answer);
    }

    /// Notes down that a run was asked for.
    pub fn note_rescheduled(&mut self)
        ensures
            *final(self) == (MpCheck { rescheduled: true, ..*old(self) }),
    {
        self.rescheduled = true;
    }

    /// Notes down whether the proposal points at the new target branch.
    pub fn note_renamed(&mut self, answer: bool)
        ensures
            *final(self) == (MpCheck { renamed: Some(answer), ..*old(self) }),
    {
        self.renamed = Some(answer);
    }

    /// Notes down the URL of the target branch.
    pub fn note_renamed_target(&mut self, answer: String)
        ensures
            *final(self) == (MpCheck { renamed_target: Some(answer), ..*old(self) }),
    {
        self.renamed_target = Some(answer);
    }

    /// Notes down whether both runs worked on the same branch.
    pub fn note_same_branch(&mut self, answer: bool)
        ensures
            *final(self) == (MpCheck { same_branch: Some(answer), ..*old(self) }),
    {
        self.same_branch = Some(answer);
    }

    /// Notes down the name of the source branch.
    pub fn note_derived_name(&mut self, answer: String)
        ensures
            *final(self) == (MpCheck { derived_name: Some(answer), ..*old(self) }),
    {
        self.derived_name = Some(answer);
    }

    /// Notes down a successful run on the main branch revision.
    pub fn note_unchanged_run(&mut self, answer: Option<String>)
        ensures
            *final(self) == (MpCheck { unchanged_run: Some(answer), ..*old(self) }),
    {
        self.unchanged_run = Some(answer);
    }

    /// Notes down whether branches of this kind can be published.
    pub fn note_manager_known(&mut self, answer: bool)
        ensures
            *final(self) == (MpCheck { manager_known: Some(answer), ..*old(self) }),
    {
        self.manager_known = Some(answer);
    }

    /// Notes down how the update ended.
    pub fn note_update(&mut self, answer: UpdateOutcome)
        ensures
            *final(self) == (MpCheck { update: Some(answer), ..*old(self) }),
    {
        self.update = Some(answer);
    }

    /// Notes down that the outcome of the update was recorded.
    pub fn note_stored(&mut self)
        ensures
            *final(self) == (MpCheck { stored: true, ..*old(self) }),
    {
        self.stored = true;
    }
}

} // verus!
