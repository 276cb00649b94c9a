//! What holds of every publish under a policy.
use crate::publish::errors::PublishError;
use crate::publish::existing::steps::CampaignFacts;
use crate::publish::policy::decision::{
    earlier_modes, is_held_back, is_inactive, may_propose, opened_proposal, policy_mode, policy_next,
    policy_result,
};
use crate::publish::policy::publish::policy_start;
use crate::publish::policy::steps::{PolicyEnd, PolicyOutcome, PolicyPublish, PolicyStep};
use crate::publish::record::{StoredOutcome, Storing};
use crate::publish::run::{ResultBranch, Run, result_branch};
use crate::publish::schedule::{Queue, Requester};
use crate::publish::types::Mode;
use crate::publish::worker::run_sufficient;
use vstd::prelude::*;

verus! {

/// A run whose command is not the campaign's any more is never published.
pub proof fn lemma_changed_command_is_never_published(f: PolicyPublish)
    requires
        f.command@ != f.run.command@,
    ensures
        !(policy_next(f) is Publish),
        !(policy_next(f) is Store),
        policy_next(f) matches PolicyStep::Done(end) ==> policy_mode(end) is None,
{
}

/// A policy that wants nothing published has nothing published.
pub proof fn lemma_inactive_mode_is_never_published(f: PolicyPublish)
    requires
        is_inactive(f.mode),
    ensures
        !(policy_next(f) is Publish),
        policy_next(f) matches PolicyStep::Done(end) ==> policy_mode(end) is None,
{
}

/// Where no proposal is open yet, one is opened only if the bucket has room and
/// the last one is old enough.
pub proof fn lemma_limits_are_kept(f: PolicyPublish)
    ensures
        policy_next(f) is Publish ==> !is_held_back(f) && (may_propose(f.mode) ==> f.open_proposal
            is Some),
{
}

/// Without force, the same branch is not published twice.
pub proof fn lemma_not_published_twice(f: PolicyPublish)
    requires
        !f.force,
    ensures
        policy_next(f) is Publish ==> f.already_published == Some(false),
{
}

/// A publish ends in a mode only after its outcome was recorded and announced,
/// and the mode is one that was settled on.
pub proof fn lemma_published_only_if_recorded(f: PolicyPublish)
    ensures
        policy_next(f) matches PolicyStep::Done(end) ==> policy_mode(end) matches Some(mode) ==> {
            &&& f.stored
            &&& f.announced
            &&& f.outcome is Some
            &&& mode != Mode::AttemptPush
            &&& !is_inactive(mode)
        },
{
}

/// A new proposal is counted before a publish ends.
pub proof fn lemma_new_proposal_is_counted(f: PolicyPublish)
    ensures
        policy_next(f) matches PolicyStep::Done(PolicyEnd::Published(_)) ==> f.outcome is Some && (
        opened_proposal(f.outcome->0) ==> f.counted),
{
}

/// A step is asked for only while its answer is missing, so that no step is
/// asked for twice.
pub proof fn lemma_no_step_twice(f: PolicyPublish)
    ensures
        match policy_next(f) {
            PolicyStep::RescheduleChangedCommand(_) => !f.rescheduled,
            PolicyStep::FindRoleBranch { url, name } => f.role_target is None,
            PolicyStep::LookForPublish { target_branch_url, branch_name, revision, mode } =>
                f.already_published is None,
            PolicyStep::LookForOpenProposal { codebase, branch_name } => f.open_proposal is None,
            PolicyStep::AskBucket { bucket } => f.bucket_allows is None,
            PolicyStep::FindLastPublished { campaign, codebase } => f.last_published is None,
            PolicyStep::FindUnchangedRun { codebase, revision } => f.unchanged_run is None,
            PolicyStep::DeriveBranchName { role } => f.derived_name is None,
            PolicyStep::FindVcsManager { vcs_type } => f.manager_known is None,
            PolicyStep::Publish(_) => f.outcome is None,
            PolicyStep::Store(_) => !f.stored,
            PolicyStep::CountProposal { bucket } => !f.counted,
            PolicyStep::Announce(_) => !f.announced,
            PolicyStep::Done(_) => true,
        },
{
}

/// What a policy asks to be published is what it says: the branch of its role, at
/// the revision that the run arrived at, to the branch that was found for it, in
/// the policy's own mode. So a policy that says propose never has anything pushed.
pub proof fn lemma_published_as_the_policy_says(f: PolicyPublish)
    ensures
        policy_next(f) matches PolicyStep::Publish(call) ==> {
            &&& result_branch(f.run, f.role@) matches Some(branch)
            &&& call.mode == f.mode
            &&& call.role == f.role
            &&& f.role_target == Some(call.target_branch_url)
            &&& branch.revision == Some(call.revision)
            &&& f.derived_name == Some(call.derived_branch_name)
            &&& call.rate_limit_bucket == f.rate_limit_bucket
            &&& call.existing_mp_url is None
            &&& call.allow_create_proposal == run_sufficient(
                f.campaign.value_threshold,
                f.run.value,
            )
            &&& call.unchanged_id == (if branch.base_revision is Some && f.unchanged_run is Some
                && f.unchanged_run->0 is Some {
                Some((f.unchanged_run->0->0).0)
            } else {
                None
            })
            &&& call.require_binary_diff <==> f.require_binary_diff && !(f.run.suite@
                == "lintian-fixes"@ && call.unchanged_id is Some && (f.unchanged_run->0->0).1@
                == "debian-upstream-metadata-invalid"@)
        },
{
}

/// Whether something may be published: there is a command and it is the one that
/// was run, the mode is one that publishes, and the run has a revision for the
/// role.
pub open spec fn is_publishable(f: PolicyPublish) -> bool {
    &&& f.command@.len() > 0
    &&& f.command@ == f.run.command@
    &&& f.mode != Mode::BuildOnly
    &&& f.mode != Mode::Skip
    &&& result_branch(f.run, f.role@) matches Some(branch)
    &&& branch.revision is Some
}

/// Whether all that is asked before a publish was answered, in favour of it.
pub open spec fn is_cleared(f: PolicyPublish) -> bool {
    &&& is_publishable(f)
    &&& f.role_target is Some
    &&& f.force || f.already_published == Some(false)
    &&& f.mode == Mode::Propose || f.mode == Mode::AttemptPush ==> f.open_proposal is Some && (
    f.open_proposal == Some(true) || {
        &&& f.rate_limit_bucket is Some ==> f.bucket_allows == Some(true)
        &&& f.max_frequency_days is Some ==> f.last_published is Some && (f.last_published->0
            is None || f.last_published->0->0.seen@ >= f.last_published->0->0.at@
            + f.max_frequency_days->0 * 86_400_000_000_000 && f.max_frequency_days->0 >= 0)
    })
    &&& f.unchanged_run is Some
    &&& f.derived_name is Some
    &&& f.manager_known == Some(true)
}

/// A run that nothing speaks against is published, and what came of it is stored
/// and announced.
pub proof fn lemma_cleared_runs_are_published(f: PolicyPublish)
    requires
        is_cleared(f),
    ensures
        f.outcome is None ==> policy_next(f) is Publish,
        f.outcome is Some && (f.outcome->0 is Published || f.outcome->0 is Failed) ==> {
            &&& !f.stored ==> policy_next(f) is Store
            &&& f.stored && f.counted && !f.announced ==> policy_next(f) is Announce
        },
{
    if f.max_frequency_days is Some && f.last_published is Some && f.last_published->0 is Some {
        let last = f.last_published->0->0;
        let days = f.max_frequency_days->0 as int;
        if last.seen@ >= last.at@ + days * 86_400_000_000_000 && days >= 0 {
            assert((last.seen@ - last.at@) / 86_400_000_000_000 >= days) by (nonlinear_arith)
                requires
                    last.seen@ - last.at@ >= days * 86_400_000_000_000,
            ;
        }
    }
}

/// Whether a record is that of what a publish arrived at.
pub open spec fn is_record_of(
    storing: Storing,
    f: PolicyPublish,
    branch: ResultBranch,
    outcome: PolicyOutcome,
) -> bool {
    &&& storing.run_id == f.run.id
    &&& storing.change_set == f.run.change_set
    &&& storing.codebase == f.run.codebase
    &&& storing.main_branch_revision == branch.base_revision
    &&& storing.revision == branch.revision
    &&& storing.role == f.role
    &&& storing.requester == f.requester
    &&& f.mode != Mode::AttemptPush ==> storing.mode == f.mode
    &&& f.mode == Mode::AttemptPush ==> storing.mode == (if storing.merge_proposal_url is Some {
        Mode::Propose
    } else {
        Mode::Push
    })
    &&& match outcome {
        PolicyOutcome::Published(result) => {
            &&& storing.outcome == StoredOutcome::Published
            &&& storing.branch_name == Some(result.branch_name)
            &&& storing.target_branch_url == result.target_branch_url
            &&& storing.target_branch_web_url == result.target_branch_web_url
            &&& storing.merge_proposal_url == result.proposal_url
        },
        PolicyOutcome::Failed { code, description } => {
            &&& storing.outcome == (StoredOutcome::Failed { code, description })
            &&& storing.branch_name == f.campaign.branch_name
            &&& Some(storing.target_branch_url) == f.role_target
            &&& storing.target_branch_web_url is None
            &&& storing.merge_proposal_url is None
        },
        _ => false,
    }
}

/// What is stored and announced of a publish is what it arrived at: under the
/// run, the role and the mode that it had, a failure with the code and the
/// description that it failed with.
pub proof fn lemma_stored_is_what_was_published(f: PolicyPublish)
    ensures
        policy_next(f) matches PolicyStep::Store(storing) ==> f.outcome is Some && is_record_of(
            storing,
            f,
            result_branch(f.run, f.role@)->0,
            f.outcome->0,
        ),
        policy_next(f) matches PolicyStep::Announce(storing) ==> f.stored && f.outcome is Some
            && is_record_of(storing, f, result_branch(f.run, f.role@)->0, f.outcome->0),
{
}

/// A proposal is counted only where the publish opened it, towards the bucket that
/// was given.
pub proof fn lemma_counted_is_what_was_opened(f: PolicyPublish)
    ensures
        policy_next(f) matches PolicyStep::CountProposal { bucket } ==> {
            &&& bucket == f.rate_limit_bucket
            &&& f.stored
            &&& f.outcome matches Some(PolicyOutcome::Published(result))
            &&& result.proposal_url is Some
            &&& result.is_new == Some(true)
        },
        policy_next(f) is Announce ==> {
            f.outcome matches Some(PolicyOutcome::Published(result)) ==> result.proposal_url is Some
                && result.is_new == Some(true) ==> f.counted
        },
{
}

/// What is looked up is about the run and the role at hand, and only what the
/// answer is needed for is looked up.
pub proof fn lemma_lookups_are_about_the_run(f: PolicyPublish)
    ensures
        match policy_next(f) {
            PolicyStep::RescheduleChangedCommand(request) => {
                &&& f.command@ != f.run.command@
                &&& f.command@.len() > 0
                &&& request.campaign == f.run.suite
                &&& request.codebase == f.run.codebase
                &&& request.bucket == Queue::NewProposals
                &&& request.change_set == Some(f.run.change_set)
                &&& request.refresh
                &&& request.command == Some(f.command)
                &&& request.requester == (Requester::ChangedCommand {
                    old_command: f.run.command,
                    new_command: f.command,
                })
            },
            PolicyStep::FindRoleBranch { url, name } => {
                &&& is_publishable(f)
                &&& url == f.target_branch_url
                &&& result_branch(f.run, f.role@) matches Some(branch)
                &&& name == branch.remote_name
            },
            PolicyStep::LookForPublish { target_branch_url, branch_name, revision, mode } => {
                &&& is_publishable(f)
                &&& !f.force
                &&& f.role_target == Some(target_branch_url)
                &&& branch_name == f.campaign.branch_name
                &&& result_branch(f.run, f.role@) matches Some(branch)
                &&& branch.revision == Some(revision)
                &&& mode == f.mode
            },
            PolicyStep::LookForOpenProposal { codebase, branch_name } => {
                &&& is_publishable(f)
                &&& f.mode == Mode::Propose || f.mode == Mode::AttemptPush
                &&& codebase == f.run.codebase
                &&& branch_name == f.campaign.branch_name
            },
            PolicyStep::AskBucket { bucket } => is_publishable(f) && f.open_proposal == Some(false)
                && f.rate_limit_bucket == Some(bucket),
            PolicyStep::FindLastPublished { campaign, codebase } => {
                &&& is_publishable(f)
                &&& f.open_proposal == Some(false)
                &&& f.max_frequency_days is Some
                &&& campaign == f.run.suite
                &&& codebase == f.run.codebase
            },
            PolicyStep::FindUnchangedRun { codebase, revision } => {
                &&& is_publishable(f)
                &&& codebase == f.run.codebase
                &&& result_branch(f.run, f.role@) matches Some(branch)
                &&& branch.base_revision == Some(revision)
            },
            PolicyStep::DeriveBranchName { role } => is_publishable(f) && role == f.role,
            PolicyStep::FindVcsManager { vcs_type } => is_publishable(f) && vcs_type
                == f.run.vcs_type,
            _ => true,
        },
{
}

/// A publish ends only for a cause, and says which it is.
pub proof fn lemma_ends_have_their_cause(f: PolicyPublish)
    ensures
        policy_next(f) matches PolicyStep::Done(end) ==> match end {
            PolicyEnd::NoCommand => f.command@.len() == 0,
            PolicyEnd::CommandChanged => f.command@ != f.run.command@ && f.rescheduled,
            PolicyEnd::NotWanted => f.mode == Mode::BuildOnly || f.mode == Mode::Skip,
            PolicyEnd::NoResultBranches => f.run.result_branches is None,
            PolicyEnd::NoBranchForRole => f.run.result_branches is Some && result_branch(
                f.run,
                f.role@,
            ) is None,
            PolicyEnd::NoRevision => result_branch(f.run, f.role@) matches Some(branch)
                && branch.revision is None,
            PolicyEnd::AlreadyPublished => is_publishable(f) && !f.force && f.already_published
                == Some(true),
            PolicyEnd::HeldBack => {
                &&& is_publishable(f)
                &&& f.mode == Mode::Propose || f.mode == Mode::AttemptPush
                &&& f.open_proposal == Some(false)
                &&& f.rate_limit_bucket is Some && f.bucket_allows == Some(false) || {
                    &&& f.max_frequency_days matches Some(days)
                    &&& f.last_published matches Some(Some(last))
                    &&& last.seen@ < last.at@ + days * 86_400_000_000_000 || days <= 0
                }
            },
            PolicyEnd::NoVcsManager => is_publishable(f) && f.manager_known == Some(false),
            PolicyEnd::Busy => is_publishable(f) && f.outcome == Some(PolicyOutcome::Busy),
            PolicyEnd::Refused(e) => is_publishable(f) && f.outcome == Some(
                PolicyOutcome::Refused(e),
            ),
            PolicyEnd::Published(mode) => {
                &&& is_publishable(f)
                &&& f.stored && f.announced
                &&& f.outcome is Some
                &&& f.outcome->0 is Failed ==> (f.outcome->0)->code@ == "success"@
                &&& f.outcome->0 is Published || f.outcome->0 is Failed
                &&& f.mode != Mode::AttemptPush ==> mode == f.mode
                &&& f.mode == Mode::AttemptPush ==> mode == (if f.outcome->0 is Published
                    && f.outcome->0->Published_0.proposal_url is Some {
                    Mode::Propose
                } else {
                    Mode::Push
                })
            },
            PolicyEnd::NotPublished => {
                &&& is_publishable(f)
                &&& f.stored && f.announced
                &&& f.outcome matches Some(PolicyOutcome::Failed { code, description })
                &&& code@ != "success"@
            },
        },
{
    if policy_next(f) == PolicyStep::Done(PolicyEnd::HeldBack) {
        if f.max_frequency_days is Some && f.last_published is Some && f.last_published->0 is Some {
            let last = f.last_published->0->0;
            let days = f.max_frequency_days->0 as int;
            if last.seen@ >= last.at@ + days * 86_400_000_000_000 && days > 0 {
                assert((last.seen@ - last.at@) / 86_400_000_000_000 >= days) by (nonlinear_arith)
                    requires
                        last.seen@ - last.at@ >= days * 86_400_000_000_000,
                ;
            }
        }
    }
}

/// What a publish comes to: an error just where it could not be tried, and a mode
/// just where something was published in it.
pub proof fn lemma_result_tells_the_end(end: PolicyEnd, mode: Mode, e: PublishError)
    ensures
        policy_result(end) == Ok::<Option<Mode>, PublishError>(Some(mode)) <==> end
            == PolicyEnd::Published(mode),
        policy_result(end) == Err::<Option<Mode>, PublishError>(e) <==> end == PolicyEnd::Refused(
            e,
        ),
        policy_mode(end) == Some(mode) <==> end == PolicyEnd::Published(mode),
{
}

/// An earlier publish makes another one needless only in a mode that the later one
/// could have ended with; where either a push or a proposal would do, both count.
pub proof fn lemma_earlier_modes_are_its_own(mode: Mode, earlier: Mode)
    ensures
        earlier_modes(mode).contains(earlier) <==> (if mode == Mode::AttemptPush {
            earlier == Mode::Propose || earlier == Mode::Push
        } else {
            earlier == mode
        }),
{
    if mode == Mode::AttemptPush {
        assert(earlier_modes(mode)[0] == Mode::Propose);
        assert(earlier_modes(mode)[1] == Mode::Push);
    } else {
        assert(earlier_modes(mode)[0] == mode);
    }
}

/// A publish starts out with what it was ordered, and with nothing else known.
pub proof fn lemma_starts_as_ordered(
    run: Run,
    role: String,
    rate_limit_bucket: Option<String>,
    target_branch_url: String,
    mode: Mode,
    max_frequency_days: Option<i32>,
    command: String,
    require_binary_diff: bool,
    force: bool,
    requester: Option<Requester>,
    campaign: CampaignFacts,
)
    ensures
        ({
            let f = policy_start(
                run,
                role,
                rate_limit_bucket,
                target_branch_url,
                mode,
                max_frequency_days,
                command,
                require_binary_diff,
                force,
                requester,
                campaign,
            );
            &&& f.run == run && f.role == role && f.mode == mode
            &&& f.rate_limit_bucket == rate_limit_bucket
            &&& f.target_branch_url == target_branch_url
            &&& f.max_frequency_days == max_frequency_days
            &&& f.command == command
            &&& f.require_binary_diff == require_binary_diff
            &&& f.force == force
            &&& f.requester == requester
            &&& f.campaign == campaign
            &&& f.outcome is None && !f.stored && !f.counted && !f.announced && !f.rescheduled
            &&& f.role_target is None && f.already_published is None && f.open_proposal is None
            &&& f.bucket_allows is None && f.last_published is None && f.unchanged_run is None
            &&& f.derived_name is None && f.manager_known is None
        }),
{
}

} // verus!
