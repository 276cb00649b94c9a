//! What holds of every check.
use crate::publish::errors::CheckMpError;
use crate::publish::existing::decision::{
    codebase_by_url, effective_status, is_recovered_run, mp_bucket, mp_codebase, mp_next,
    mp_revision, mp_skips, mp_source_name, mp_source_run, mp_start, mp_status, persisted_bucket,
    value_of,
};
use crate::publish::existing::gate::persisted_kind;
use crate::publish::existing::steps::{
    AbandonMode, CloseOutcome, CloseReason, LastRun, MpCheck, MpStep, SourceRun, UpdateOutcome,
};
use crate::publish::proposal_info::ProposalInfo;
use crate::publish::record::StoredOutcome;
use crate::publish::run::{ResultBranch, result_branch};
use crate::publish::schedule::{Queue, Requester};
use crate::publish::types::{ForgeMpStatus, MergeProposalStatus, Mode, status_text};
use crate::publish::worker::run_sufficient;
use crate::text::opt_text;
use crate::time::Timestamp;
use crate::urls::{normal_form, parsed_url};
use vstd::prelude::*;

verus! {

/// Whether a step changes the proposal or asks for a run on its account.
pub open spec fn mp_step_acts(step: MpStep) -> bool {
    ||| step is Close
    ||| step is Reschedule
    ||| step is RenameTarget
    ||| step is Republish
    ||| step is Store
}

/// A proposal that is not open, and any proposal in a pass that only checks, is
/// left alone.
pub proof fn lemma_acts_only_on_open_proposals(f: MpCheck)
    ensures
        mp_step_acts(mp_next(f)) ==> f.status == ForgeMpStatus::Open && !f.check_only,
{
}

/// A check ends only after the record was brought up to date and the proposal
/// was counted towards its bucket, if it has one.
pub proof fn lemma_done_only_after_record_and_count(f: MpCheck)
    ensures
        mp_next(f) is Done ==> f.scanned && (f.counted || (if mp_skips(f) {
            persisted_bucket(f) is None
        } else {
            mp_bucket(f) is None
        })),
{
}

/// A check tells that it modified the proposal only where it closed it or
/// recorded the outcome of an update.
pub proof fn lemma_modified_only_if_closed_or_stored(f: MpCheck)
    ensures
        mp_next(f) matches MpStep::Done(Ok(modified)) ==> modified ==> f.stored || f.close_outcome
            == Some(CloseOutcome::Closed),
{
}

/// A step is asked for only while its answer is missing, so that no step is
/// asked for twice.
#[verifier::rlimit(60)]
pub proof fn lemma_no_step_twice(f: MpCheck)
    ensures
        match mp_next(f) {
            MpStep::FetchForge => f.forge is None,
            MpStep::OpenSourceBranch { url } => f.source_branch is None,
            MpStep::SplitSourceUrl { url } => f.source_url_branch is None,
            MpStep::GuessCodebase { target_url } => f.codebase_guess is None,
            MpStep::GuessFromRevision { revision } => f.revision_guess is None,
            MpStep::GuessBucket { codebase, branch_name } => f.bucket_guess is None,
            MpStep::LoadRecordedRun => f.recorded_run is None,
            MpStep::UpdateInfo(_) => !f.scanned,
            MpStep::BumpLastScanned => !f.scanned,
            MpStep::CountBucket { status, bucket } => !f.counted,
            MpStep::LoadCurrentRun => f.current_run is None,
            MpStep::FindCampaign { branch_name } => f.orphan_campaign is None,
            MpStep::LookForRun { codebase, campaign } => f.orphan_has_run is None,
            MpStep::LoadLastRun { codebase, campaign } => f.last_run is None,
            MpStep::LoadCampaign { name } => f.campaign is None,
            MpStep::Close(_) => f.close_outcome is None,
            MpStep::Reschedule(request) => if request.requester == Requester::OrphanedProposal {
                f.orphan_rescheduled is None
            } else {
                !f.rescheduled
            },
            MpStep::RenameTarget { name } => f.renamed is None,
            MpStep::FindRoleBranch { url, name } => f.renamed_target is None,
            MpStep::CompareBranches { ours, theirs } => f.same_branch is None,
            MpStep::DeriveBranchName { role } => f.derived_name is None,
            MpStep::FindUnchangedRun { codebase, revision } => f.unchanged_run is None,
            MpStep::FindVcsManager { vcs_type } => f.manager_known is None,
            MpStep::Republish(_) => f.update is None,
            MpStep::Store(_) => !f.stored,
            MpStep::Done(_) => true,
        },
{
}

/// A proposal is updated only from a successful last run that is not the one
/// that the proposal came from, on the same branch, with another revision and
/// enough value.
pub proof fn lemma_republishes_only_a_better_run(f: MpCheck)
    ensures
        mp_next(f) matches MpStep::Republish(request) ==> {
            &&& mp_source_run(f) is Some
            &&& f.last_run matches Some(Some(last))
            &&& f.campaign matches Some(Some(campaign))
            &&& last.run.result_code@ == "success"@
            &&& last.run.id@ != mp_source_run(f)->0.run.id@
            &&& request.revision@ != mp_source_run(f)->0.run.revision@
            &&& run_sufficient(campaign.value_threshold, value_of(mp_source_run(f)->0.run.value))
            &&& f.same_branch == Some(true)
        },
{
    if mp_next(f) is Republish {
        reveal_strlit("nothing-to-do");
        reveal_strlit("success");
    }
}

/// A closed proposal keeps the reason that was recorded for it, pass after pass.
pub proof fn lemma_carry_forward_is_stable(persisted: Option<Seq<char>>)
    ensures
        effective_status(
            ForgeMpStatus::Closed,
            Some(status_text(effective_status(ForgeMpStatus::Closed, persisted))),
        ) == effective_status(ForgeMpStatus::Closed, persisted),
{
    reveal_strlit("abandoned");
    reveal_strlit("applied");
    reveal_strlit("rejected");
    reveal_strlit("closed");
    assert("abandoned"@.len() == 9 && "applied"@.len() == 7);
    assert("rejected"@.len() == 8 && "closed"@.len() == 6);
}

/// What is recorded for a proposal always agrees with the state that the forge
/// reports.
pub proof fn lemma_recorded_status_agrees_with_forge(
    forge: ForgeMpStatus,
    persisted: Option<Seq<char>>,
)
    requires
        forge != ForgeMpStatus::All,
    ensures
        persisted_kind(status_text(effective_status(forge, persisted))) == Some(forge),
{
    reveal_strlit("open");
    reveal_strlit("merged");
    reveal_strlit("abandoned");
    reveal_strlit("applied");
    reveal_strlit("rejected");
    reveal_strlit("closed");
    assert("open"@.len() == 4 && "merged"@.len() == 6);
    assert("abandoned"@.len() == 9 && "applied"@.len() == 7);
    assert("rejected"@.len() == 8 && "closed"@.len() == 6);
    assert("closed"@[0] != "merged"@[0]);
}

/// The record of a proposal is trusted just where it names the state that the
/// forge reports and, for an open proposal, is not older than a day. To the forge
/// all of our closed states are one.
pub proof fn lemma_record_is_trusted_for_a_day(f: MpCheck)
    ensures
        mp_skips(f) <==> {
            &&& f.persisted matches Some(info)
            &&& match f.status {
                ForgeMpStatus::Open => info.status@ == "open"@ && info.last_scanned is Some
                    && f.now@ <= info.last_scanned->0@ + 86_400_000_000_000,
                ForgeMpStatus::Merged => info.status@ == "merged"@,
                ForgeMpStatus::Closed => info.status@ == "closed"@ || info.status@
                    == "abandoned"@ || info.status@ == "applied"@ || info.status@ == "rejected"@,
                ForgeMpStatus::All => false,
            }
        },
{
    reveal_strlit("open");
    reveal_strlit("merged");
    reveal_strlit("abandoned");
    reveal_strlit("applied");
    reveal_strlit("rejected");
    reveal_strlit("closed");
    assert("open"@.len() == 4 && "merged"@.len() == 6);
    assert("abandoned"@.len() == 9 && "applied"@.len() == 7);
    assert("rejected"@.len() == 8 && "closed"@.len() == 6);
    assert("closed"@[0] != "merged"@[0]);
}

/// The tip of the source branch is what the forge says it is; what the branch
/// itself says counts where the forge is silent, and what was recorded where both
/// are. The name of the branch is its own, or else the one in its URL.
pub proof fn lemma_source_branch_is_known_best_at_the_source(f: MpCheck)
    ensures
        f.forge is Some && f.forge->0.revision is Some ==> mp_revision(f)
            == f.forge->0.revision,
        (f.forge is None || f.forge->0.revision is None) && f.source_branch is Some
            && f.source_branch->0 is Some ==> mp_revision(f) == Some(
            f.source_branch->0->0.revision,
        ),
        (f.forge is None || f.forge->0.revision is None) && !(f.source_branch is Some
            && f.source_branch->0 is Some) ==> mp_revision(f) == (if f.persisted is Some {
            f.persisted->0.revision
        } else {
            None
        }),
        f.source_branch is Some && f.source_branch->0 is Some && f.source_branch->0->0.name
            is Some ==> mp_source_name(f) == f.source_branch->0->0.name,
        !(f.source_branch is Some && f.source_branch->0 is Some && f.source_branch->0->0.name
            is Some) ==> mp_source_name(f) == (if f.source_url_branch is Some {
            f.source_url_branch->0
        } else {
            None
        }),
{
}

/// A recorded bucket stays, and with it the recorded codebase. Without one, the
/// codebase that the target branch belongs to counts more than the recorded one,
/// and only where there is neither does the revision tell codebase and bucket.
pub proof fn lemma_recorded_bucket_stays(f: MpCheck)
    ensures
        f.persisted is Some && f.persisted->0.rate_limit_bucket is Some ==> mp_bucket(f)
            == f.persisted->0.rate_limit_bucket && mp_codebase(f) == f.persisted->0.codebase,
        (f.persisted is None || f.persisted->0.rate_limit_bucket is None) ==> {
            &&& f.codebase_guess is Some && f.codebase_guess->0 is Some ==> mp_codebase(f)
                == f.codebase_guess->0
            &&& !(f.codebase_guess is Some && f.codebase_guess->0 is Some) && f.persisted is Some
                && f.persisted->0.codebase is Some ==> mp_codebase(f) == f.persisted->0.codebase
            &&& !(f.codebase_guess is Some && f.codebase_guess->0 is Some) && (f.persisted is None
                || f.persisted->0.codebase is None) ==> {
                &&& f.revision_guess is Some && f.revision_guess->0 is Some ==> mp_codebase(f)
                    == Some((f.revision_guess->0->0).0) && mp_bucket(f) == (f.revision_guess->0->0).1
                &&& !(f.revision_guess is Some && f.revision_guess->0 is Some) ==> mp_codebase(f)
                    is None && mp_bucket(f) is None
            }
            &&& (f.codebase_guess is Some && f.codebase_guess->0 is Some) || (f.persisted is Some
                && f.persisted->0.codebase is Some) ==> mp_bucket(f) == (if f.bucket_guess is Some {
                f.bucket_guess->0
            } else {
                None
            })
        },
{
}

/// The run of a proposal is the one that was recorded for it, or else the one
/// that is recorded now, or else the one that is assumed.
pub proof fn lemma_source_run_is_the_recorded_one(f: MpCheck)
    ensures
        f.recorded_run matches Some(Some(source)) ==> mp_source_run(f) == Some(source),
        !(f.recorded_run is Some && f.recorded_run->0 is Some) && f.current_run is Some
            && f.current_run->0 is Some ==> mp_source_run(f) == f.current_run->0,
        !(f.recorded_run is Some && f.recorded_run->0 is Some) && !(f.current_run is Some
            && f.current_run->0 is Some) ==> mp_source_run(f) == f.recovered_run,
{
}

/// Whether a change of the given value is worth less than a threshold.
pub open spec fn is_below(value: i64, threshold: Option<i32>) -> bool {
    threshold is Some && i32::MIN <= value && value < threshold->0
}

/// Whether the branch of a role has another name than the one that a proposal was
/// made for.
pub open spec fn name_changed(source: SourceRun, branch: ResultBranch) -> bool {
    branch.remote_name@.len() > 0 && branch.remote_name@ != source.run.remote_branch_name@
}

/// A proposal is closed only for a cause: its campaign finds nothing to do any
/// more, what is left of it is worth too little, its target branch has another
/// name and cannot be followed, or an update found it empty. It is closed as what
/// it is, and tells why.
#[verifier::rlimit(60)]
pub proof fn lemma_closed_only_for_a_cause(f: MpCheck)
    ensures
        mp_next(f) matches MpStep::Close(closing) ==> {
            &&& f.close_outcome is None
            &&& f.forge matches Some(forge)
            &&& mp_source_run(f) matches Some(source)
            &&& f.last_run matches Some(Some(last))
            &&& f.campaign matches Some(Some(campaign))
            &&& mp_revision(f) == Some(closing.revision)
            &&& closing.campaign == source.run.campaign
            &&& closing.can_be_merged == forge.can_be_merged
            &&& closing.rate_limit_bucket == mp_bucket(f)
            &&& match closing.reason {
                CloseReason::AppliedIndependently => {
                    &&& closing.mode == AbandonMode::Applied
                    &&& if last.run.result_code@ == "success"@ {
                        &&& f.update matches Some(UpdateOutcome::Failed { code, description })
                            && code@ == "empty-merge-proposal"@
                        &&& closing.codebase == mp_codebase(f)
                    } else {
                        &&& last.run.result_code@ == "nothing-to-do"@
                        &&& closing.codebase == Some(source.run.codebase)
                    }
                },
                CloseReason::OnlyTrivialChangesLeft => {
                    &&& closing.mode == AbandonMode::Abandoned
                    &&& last.run.result_code@ == "success"@
                    &&& is_below(source.run.value, campaign.value_threshold)
                    &&& closing.codebase == Some(source.run.codebase)
                },
                CloseReason::BranchChanged { role, from, to } => {
                    &&& closing.mode == AbandonMode::Abandoned
                    &&& last.run.result_code@ == "success"@
                    &&& f.renamed == Some(false)
                    &&& role == source.run.role
                    &&& from == source.run.remote_branch_name
                    &&& result_branch(last.run, role@) matches Some(branch)
                    &&& to == branch.remote_name
                    &&& name_changed(source, branch)
                    &&& closing.codebase == Some(source.run.codebase)
                },
            }
            &&& f.renamed != Some(true) ==> closing.target_branch_url == (
            if forge.target_branch_url is Some {
                forge.target_branch_url->0
            } else {
                source.url->0
            })
        },
{
    reveal_strlit("nothing-to-do");
    reveal_strlit("success");
    assert("nothing-to-do"@.len() == 13 && "success"@.len() == 7);
}

/// Whether all that a check asks before it acts was answered, and the proposal is
/// one to act on.
pub open spec fn is_settled(f: MpCheck) -> bool {
    &&& f.status == ForgeMpStatus::Open
    &&& !f.check_only
    &&& !mp_skips(f)
    &&& f.scanned
    &&& f.counted
    &&& f.forge matches Some(forge) && forge.target_branch_url is Some
    &&& f.source_branch is Some
    &&& f.source_url_branch is Some
    &&& f.codebase_guess is Some
    &&& f.revision_guess is Some
    &&& f.bucket_guess is Some
    &&& f.recorded_run is Some
}

/// An open proposal whose campaign finds nothing to do any more, or of which too
/// little is left, is closed; and where the last run failed, nothing is closed or
/// updated.
#[verifier::rlimit(60)]
pub proof fn lemma_spent_proposals_are_closed(
    f: MpCheck,
    source: SourceRun,
    last: LastRun,
    threshold: Option<i32>,
)
    requires
        is_settled(f),
        mp_source_run(f) == Some(source),
        f.last_run == Some(Some(last)),
        f.campaign is Some && f.campaign->0 is Some,
        f.campaign->0->0.value_threshold == threshold,
        f.close_outcome is None,
    ensures
        last.run.result_code@ == "nothing-to-do"@ && mp_revision(f) is Some ==> {
            &&& mp_next(f) matches MpStep::Close(closing)
            &&& closing.mode == AbandonMode::Applied
        },
        last.run.result_code@ == "success"@ && is_below(source.run.value, threshold) && mp_revision(
            f,
        ) is Some ==> {
            &&& mp_next(f) matches MpStep::Close(closing)
            &&& closing.mode == AbandonMode::Abandoned
        },
        last.run.result_code@ != "nothing-to-do"@ && last.run.result_code@ != "success"@ ==> (
        mp_next(f) is Reschedule || mp_next(f) is Done),
{
    reveal_strlit("nothing-to-do");
    reveal_strlit("success");
    assert("nothing-to-do"@.len() == 13 && "success"@.len() == 7);
}

/// An open proposal with a newer successful run on its branch is updated from it,
/// once all is known that the update needs; where it is up to date, and the forge
/// could not merge it, another run is asked for.
#[verifier::rlimit(80)]
pub proof fn lemma_newer_run_updates_the_proposal(
    f: MpCheck,
    source: SourceRun,
    last: LastRun,
    branch: ResultBranch,
)
    requires
        is_settled(f),
        mp_source_run(f) == Some(source),
        f.last_run == Some(Some(last)),
        f.campaign is Some && f.campaign->0 is Some,
        last.run.result_code@ == "success"@,
        !is_below(source.run.value, f.campaign->0->0.value_threshold),
        result_branch(last.run, source.run.role@) == Some(branch),
        !name_changed(source, branch),
        f.same_branch == Some(true),
    ensures
        last.run.id@ != source.run.id@ && branch.revision is Some && branch.revision->0@
            != source.run.revision@ && f.derived_name is Some && f.unchanged_run is Some
            && f.manager_known == Some(true) && f.update is None ==> mp_next(f) is Republish,
        last.run.id@ != source.run.id@ && branch.revision is Some && branch.revision->0@
            != source.run.revision@ && f.derived_name is Some && f.unchanged_run is Some
            && f.manager_known == Some(true) && f.update is Some && !(f.update->0 is Busy)
            && f.close_outcome is Some && !f.stored ==> mp_next(f) is Store,
        last.run.id@ == source.run.id@ && f.forge->0.can_be_merged == Some(false)
            && !f.rescheduled ==> mp_next(f) is Reschedule,
{
    reveal_strlit("nothing-to-do");
    reveal_strlit("success");
    assert("nothing-to-do"@.len() == 13 && "success"@.len() == 7);
}

/// A proposal is updated as a proposal, in its own place: from the revision that
/// the last run has for its role, to the branch that it wants to be merged into.
#[verifier::rlimit(60)]
pub proof fn lemma_update_is_of_this_proposal(f: MpCheck)
    ensures
        mp_next(f) matches MpStep::Republish(call) ==> {
            &&& f.forge matches Some(forge)
            &&& mp_source_run(f) matches Some(source)
            &&& f.last_run matches Some(Some(last))
            &&& result_branch(last.run, source.run.role@) matches Some(branch)
            &&& call.mode == Mode::Propose
            &&& call.existing_mp_url == Some(f.mp_url)
            &&& call.role == source.run.role
            &&& Some(call.revision) == branch.revision
            &&& call.rate_limit_bucket == mp_bucket(f)
            &&& !call.require_binary_diff
            &&& call.allow_create_proposal
            &&& call.derived_branch_name == (if mp_source_name(f) is Some {
                mp_source_name(f)->0
            } else {
                f.derived_name->0
            })
            &&& call.unchanged_id == (if last.run.main_branch_revision is Some {
                f.unchanged_run->0
            } else {
                None
            })
            &&& call.target_branch_url == (if name_changed(source, branch) && source.url is Some {
                f.renamed_target->0
            } else if forge.target_branch_url is Some {
                forge.target_branch_url->0
            } else {
                source.url->0
            })
            &&& f.manager_known == Some(true)
        },
{
    reveal_strlit("nothing-to-do");
    reveal_strlit("success");
    assert("nothing-to-do"@.len() == 13 && "success"@.len() == 7);
}

/// What is stored of an update is what came of it, under the run that it was made
/// from. A failure is stored as what it was, but for that of an empty proposal,
/// of which it is stored how closing it went.
#[verifier::rlimit(60)]
pub proof fn lemma_stored_is_what_came_of_the_update(f: MpCheck)
    ensures
        mp_next(f) matches MpStep::Store(storing) ==> {
            &&& mp_source_run(f) matches Some(source)
            &&& f.last_run matches Some(Some(last))
            &&& f.campaign matches Some(Some(campaign))
            &&& result_branch(last.run, source.run.role@) matches Some(branch)
            &&& storing.run_id == last.run.id
            &&& storing.change_set == last.run.change_set
            &&& storing.codebase == last.run.codebase
            &&& storing.main_branch_revision == branch.base_revision
            &&& storing.revision == branch.revision
            &&& storing.role == source.run.role
            &&& storing.mode == Mode::Propose
            &&& storing.requester == Some(Requester::RegularRefresh)
            &&& f.update matches Some(update)
            &&& match update {
                UpdateOutcome::Busy => false,
                UpdateOutcome::Updated(result) => {
                    &&& storing.outcome == StoredOutcome::Updated
                    &&& storing.branch_name == Some(result.branch_name)
                    &&& storing.target_branch_url == result.target_branch_url
                    &&& storing.target_branch_web_url == result.target_branch_web_url
                    &&& storing.merge_proposal_url == result.proposal_url
                },
                UpdateOutcome::Failed { code, description } => {
                    &&& storing.branch_name == campaign.branch_name
                    &&& storing.target_branch_web_url is None
                    &&& storing.merge_proposal_url == Some(f.mp_url)
                    &&& if code@ == "empty-merge-proposal"@ && mp_revision(f) is Some {
                        match f.close_outcome {
                            None => false,
                            Some(CloseOutcome::Closed) => storing.outcome
                                == StoredOutcome::ClosedAsApplied,
                            Some(CloseOutcome::PermissionDenied(said)) => storing.outcome
                                == StoredOutcome::EmptyFailedToClose(said),
                            Some(CloseOutcome::Failed) => storing.outcome
                                == (StoredOutcome::Failed { code, description }),
                        }
                    } else {
                        storing.outcome == (StoredOutcome::Failed { code, description })
                    }
                },
            }
        },
{
    reveal_strlit("nothing-to-do");
    reveal_strlit("success");
    assert("nothing-to-do"@.len() == 13 && "success"@.len() == 7);
}

/// A run is asked for only for a cause, for the campaign and codebase that it is
/// about, and goes into the queue of runs that update proposals.
#[verifier::rlimit(60)]
pub proof fn lemma_rescheduled_only_for_a_cause(f: MpCheck)
    ensures
        mp_next(f) matches MpStep::Reschedule(request) ==> {
            &&& request.bucket == Queue::ExistingProposals
            &&& request.command is None
            &&& match mp_source_run(f) {
                None => {
                    &&& request.requester == Requester::OrphanedProposal
                    &&& f.orphan_campaign matches Some(Some(found)) && request.campaign == found.0
                    &&& f.orphan_has_run == Some(false)
                    &&& mp_codebase(f) == Some(request.codebase)
                    &&& request.change_set is None
                    &&& request.refresh
                },
                Some(source) => {
                    &&& f.last_run matches Some(Some(last))
                    &&& last.run.result_code@ != "nothing-to-do"@
                    &&& if last.run.result_code@ == "success"@ {
                        &&& request.requester == Requester::MergeConflict
                        &&& f.forge matches Some(forge) && forge.can_be_merged == Some(false)
                        &&& last.run.id@ == source.run.id@
                        &&& request.campaign == source.run.campaign
                        &&& request.codebase == source.run.codebase
                        &&& request.change_set == Some(source.run.change_set)
                        &&& request.refresh
                    } else {
                        &&& if last.run.failure_transient == Some(true) {
                            request.requester == Requester::TransientError
                        } else {
                            &&& request.requester == Requester::OldFailedRun
                            &&& last.seen@ >= last.run.finish_time@ + 31 * 86_400_000_000_000
                        }
                        &&& request.campaign == last.run.suite
                        &&& request.codebase == last.run.codebase
                        &&& request.change_set == Some(last.run.change_set)
                        &&& !request.refresh
                    }
                },
            }
        },
{
    reveal_strlit("nothing-to-do");
    reveal_strlit("success");
    assert("nothing-to-do"@.len() == 13 && "success"@.len() == 7);
}

/// A failed last run is asked for again just where the failure may go away by
/// itself, or is more than thirty days old.
#[verifier::rlimit(60)]
pub proof fn lemma_failed_runs_are_retried(f: MpCheck, source: SourceRun, last: LastRun)
    requires
        is_settled(f),
        mp_source_run(f) == Some(source),
        f.last_run == Some(Some(last)),
        f.campaign is Some && f.campaign->0 is Some,
        last.run.result_code@ != "nothing-to-do"@,
        last.run.result_code@ != "success"@,
        !f.rescheduled,
    ensures
        mp_next(f) is Reschedule <==> last.run.failure_transient == Some(true) || last.seen@
            >= last.run.finish_time@ + 31 * 86_400_000_000_000,
{
}

/// What is written into the record of a proposal is what is known of it now; and
/// the record is written just where it says something else.
#[verifier::rlimit(60)]
pub proof fn lemma_record_is_what_is_known(f: MpCheck)
    ensures
        mp_next(f) matches MpStep::UpdateInfo(record) ==> {
            &&& f.forge matches Some(forge)
            &&& record.url == f.mp_url
            &&& record.status == mp_status(f)
            &&& record.revision == mp_revision(f)
            &&& record.codebase == mp_codebase(f)
            &&& Some(record.target_branch_url) == forge.target_branch_url
            &&& record.can_be_merged == forge.can_be_merged
            &&& record.rate_limit_bucket == mp_bucket(f)
            &&& f.recorded_run matches Some(run)
            &&& record.campaign == (if run is Some {
                Some(run->0.run.campaign)
            } else {
                None
            })
            &&& f.persisted matches Some(info) ==> info.status@ != status_text(mp_status(f))
                || opt_text(info.revision) != opt_text(mp_revision(f)) || opt_text(
                info.target_branch_url,
            ) != opt_text(forge.target_branch_url) || opt_text(info.rate_limit_bucket) != opt_text(
                mp_bucket(f),
            ) || info.can_be_merged != forge.can_be_merged
        },
        mp_next(f) is BumpLastScanned && !mp_skips(f) ==> {
            &&& f.forge matches Some(forge)
            &&& forge.target_branch_url is None || {
                &&& f.persisted matches Some(info)
                &&& info.status@ == status_text(mp_status(f))
                &&& opt_text(info.revision) == opt_text(mp_revision(f))
                &&& opt_text(info.target_branch_url) == opt_text(forge.target_branch_url)
                &&& opt_text(info.rate_limit_bucket) == opt_text(mp_bucket(f))
                &&& info.can_be_merged == forge.can_be_merged
            }
        },
{
}

/// The state that is recorded of a proposal: a proposal that the forge has as
/// open or merged is just that, and a closed one keeps our reason for it, where
/// there is one.
pub proof fn lemma_closed_proposals_keep_their_reason(f: MpCheck)
    ensures
        f.status == ForgeMpStatus::Open ==> mp_status(f) == MergeProposalStatus::Open,
        f.status == ForgeMpStatus::Merged ==> mp_status(f) == MergeProposalStatus::Merged,
        f.status == ForgeMpStatus::Closed ==> {
            &&& mp_status(f) == MergeProposalStatus::Abandoned <==> f.persisted is Some
                && f.persisted->0.status@ == "abandoned"@
            &&& mp_status(f) == MergeProposalStatus::Applied <==> f.persisted is Some
                && f.persisted->0.status@ == "applied"@
            &&& mp_status(f) == MergeProposalStatus::Rejected <==> f.persisted is Some
                && f.persisted->0.status@ == "rejected"@
            &&& mp_status(f) != MergeProposalStatus::Open
            &&& mp_status(f) != MergeProposalStatus::Merged
        },
{
    reveal_strlit("abandoned");
    reveal_strlit("applied");
    reveal_strlit("rejected");
    assert("abandoned"@.len() == 9 && "applied"@.len() == 7 && "rejected"@.len() == 8);
}

/// A proposal is counted once its record is up to date, towards its own bucket
/// and under its own state.
#[verifier::rlimit(60)]
pub proof fn lemma_counted_towards_its_bucket(f: MpCheck)
    ensures
        mp_next(f) matches MpStep::CountBucket { status, bucket } ==> {
            &&& f.scanned
            &&& if mp_skips(f) {
                &&& f.persisted matches Some(info)
                &&& info.rate_limit_bucket == Some(bucket)
                &&& status_text(status) == info.status@
            } else {
                &&& mp_bucket(f) == Some(bucket)
                &&& status == mp_status(f)
            }
        },
{
    reveal_strlit("open");
    reveal_strlit("merged");
    reveal_strlit("abandoned");
    reveal_strlit("applied");
    reveal_strlit("rejected");
    reveal_strlit("closed");
    assert("open"@.len() == 4 && "merged"@.len() == 6);
    assert("abandoned"@.len() == 9 && "applied"@.len() == 7);
    assert("rejected"@.len() == 8 && "closed"@.len() == 6);
    assert("closed"@[0] != "merged"@[0]);
}

/// What is looked up is about the proposal at hand: its own branches, codebase
/// and run.
#[verifier::rlimit(80)]
pub proof fn lemma_lookups_are_about_the_proposal(f: MpCheck)
    ensures
        match mp_next(f) {
            MpStep::OpenSourceBranch { url } => f.forge matches Some(forge)
                && forge.source_branch_url == Some(url) && forge.revision is None,
            MpStep::SplitSourceUrl { url } => f.forge matches Some(forge)
                && forge.source_branch_url == Some(url),
            MpStep::GuessCodebase { target_url } => f.forge matches Some(forge)
                && forge.target_branch_url == Some(target_url) && persisted_bucket(f) is None,
            MpStep::GuessFromRevision { revision } => mp_revision(f) == Some(revision)
                && codebase_by_url(f) is None && persisted_bucket(f) is None,
            MpStep::GuessBucket { codebase, branch_name } => codebase_by_url(f) == Some(codebase)
                && mp_source_name(f) == Some(branch_name) && persisted_bucket(f) is None,
            MpStep::FindCampaign { branch_name } => mp_source_run(f) is None && mp_source_name(f)
                == Some(branch_name),
            MpStep::LookForRun { codebase, campaign } => {
                &&& mp_source_run(f) is None
                &&& mp_codebase(f) == Some(codebase)
                &&& f.orphan_campaign matches Some(Some(found))
                &&& found.0 == campaign
            },
            MpStep::LoadLastRun { codebase, campaign } => mp_source_run(f) matches Some(source)
                && source.run.codebase == codebase && source.run.campaign == campaign,
            MpStep::LoadCampaign { name } => mp_source_run(f) matches Some(source)
                && source.run.campaign == name,
            MpStep::RenameTarget { name } => {
                &&& mp_source_run(f) matches Some(source)
                &&& f.last_run matches Some(Some(last))
                &&& last.run.result_code@ == "success"@
                &&& result_branch(last.run, source.run.role@) matches Some(branch)
                &&& name_changed(source, branch)
                &&& name == branch.remote_name
            },
            MpStep::FindRoleBranch { url, name } => f.renamed == Some(true) && (mp_source_run(
                f,
            ) matches Some(source) && source.url == Some(url) && source.run.remote_branch_name
                == name),
            MpStep::CompareBranches { ours, theirs } => {
                &&& mp_source_run(f) matches Some(source)
                &&& source.url == ours
                &&& f.last_run matches Some(Some(last))
                &&& last.url == theirs
            },
            MpStep::DeriveBranchName { role } => {
                &&& mp_source_name(f) is None
                &&& mp_source_run(f) matches Some(source)
                &&& source.run.role == role
            },
            MpStep::FindUnchangedRun { codebase, revision } => f.last_run matches Some(Some(last))
                && last.run.codebase == codebase && last.run.main_branch_revision == Some(revision),
            MpStep::FindVcsManager { vcs_type } => f.last_run matches Some(Some(last))
                && last.run.vcs_type == vcs_type,
            _ => true,
        },
{
    reveal_strlit("nothing-to-do");
    reveal_strlit("success");
    assert("nothing-to-do"@.len() == 13 && "success"@.len() == 7);
}

/// A check ends without having changed anything only where there is nothing to
/// change, nothing is known to change it by, or the change was turned down; and
/// it fails only for a proposal whose run cannot be found.
#[verifier::rlimit(100)]
pub proof fn lemma_check_ends_only_for_a_cause(f: MpCheck)
    ensures
        mp_next(f) matches MpStep::Done(Err(e)) ==> {
            &&& e == CheckMpError::NoRunForMergeProposal(f.mp_url)
            &&& mp_source_run(f) is None
            &&& mp_codebase(f) is None || mp_source_name(f) is None || f.orphan_campaign == Some(
                None::<(String, String)>,
            ) || f.orphan_rescheduled == Some(false)
        },
        mp_next(f) == MpStep::Done(Ok(true)) ==> f.status == ForgeMpStatus::Open && !f.check_only,
        mp_next(f) == MpStep::Done(Ok(false)) && !mp_skips(f) && f.status == ForgeMpStatus::Open
            && !f.check_only && f.forge->0.target_branch_url is Some ==> match mp_source_run(f) {
            None => f.orphan_has_run == Some(true) || f.orphan_rescheduled == Some(true),
            Some(source) => match (f.last_run, f.campaign) {
                (Some(Some(last)), Some(Some(campaign))) => if last.run.result_code@
                    == "nothing-to-do"@ {
                    mp_revision(f) is None || (f.close_outcome is Some && !(f.close_outcome->0
                        is Closed))
                } else if last.run.result_code@ != "success"@ {
                    f.rescheduled || !(last.run.failure_transient == Some(true))
                } else if is_below(source.run.value, campaign.value_threshold) {
                    mp_revision(f) is None || (f.close_outcome is Some && !(f.close_outcome->0
                        is Closed))
                } else {
                    match result_branch(last.run, source.run.role@) {
                        None => true,
                        Some(branch) => {
                            ||| name_changed(source, branch)
                                && source.run.remote_branch_name@.len() == 0
                            ||| name_changed(source, branch) && f.renamed == Some(false) && (
                            mp_revision(f) is None || (f.close_outcome is Some
                                && !(f.close_outcome->0 is Closed)))
                            ||| f.same_branch == Some(false)
                            ||| last.run.id@ == source.run.id@ && (f.rescheduled
                                || f.forge->0.can_be_merged != Some(false))
                            ||| last.run.id@ != source.run.id@ && (branch.revision is None
                                || branch.revision->0@ == source.run.revision@)
                            ||| last.run.id@ != source.run.id@ && f.manager_known == Some(false)
                            ||| last.run.id@ != source.run.id@ && f.update == Some(
                                UpdateOutcome::Busy,
                            )
                        },
                    }
                },
                (Some(None), _) => true,
                (_, Some(None)) => true,
                _ => false,
            },
        },
{
    reveal_strlit("nothing-to-do");
    reveal_strlit("success");
    assert("nothing-to-do"@.len() == 13 && "success"@.len() == 7);
}

/// A check starts with what is recorded and what the forge lists of the proposal;
/// nothing else is known yet, and nothing was done.
pub proof fn lemma_check_starts_from_the_record(
    mp_url: String,
    status: ForgeMpStatus,
    check_only: bool,
    now: Timestamp,
    persisted: Option<ProposalInfo>,
)
    ensures
        ({
            let f = mp_start(mp_url, status, check_only, now, persisted);
            &&& f.mp_url == mp_url
            &&& f.status == status
            &&& f.check_only == check_only
            &&& f.now == now
            &&& f.persisted == persisted
            &&& !f.scanned && !f.counted && !f.rescheduled && !f.stored
            &&& f.forge is None && f.source_branch is None && f.source_url_branch is None
            &&& f.codebase_guess is None && f.revision_guess is None && f.bucket_guess is None
            &&& f.recorded_run is None && f.current_run is None && f.recovered_run is None
            &&& f.orphan_campaign is None && f.orphan_has_run is None
            &&& f.orphan_rescheduled is None && f.last_run is None && f.campaign is None
            &&& f.close_outcome is None && f.renamed is None && f.renamed_target is None
            &&& f.same_branch is None && f.derived_name is None && f.unchanged_run is None
            &&& f.manager_known is None && f.update is None
        }),
{
}

/// The run that is assumed for an orphaned proposal is of the campaign and role that
/// were found for it, and of its own codebase, revision and target; of the rest
/// nothing is made up.
pub proof fn lemma_assumed_run_is_of_the_orphan(
    source: SourceRun,
    found: (String, String),
    codebase: String,
    revision: String,
    target: String,
)
    requires
        is_recovered_run(source, found, codebase, revision, target),
    ensures
        (source.run.campaign, source.run.role) == found,
        source.run.codebase == codebase,
        source.run.revision == revision,
        source.run.branch_url == target,
        opt_text(source.url) == normal_form(parsed_url(target@)),
        source.run.id@.len() == 0,
        source.run.command@.len() == 0,
        source.run.remote_branch_name@.len() == 0,
        source.run.change_set@.len() == 0,
        source.run.value == 0,
{
}

} // verus!
