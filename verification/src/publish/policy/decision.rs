//! How a publish under a policy decides on its next step.
use crate::publish::errors::PublishError;
use crate::publish::policy::steps::{PolicyEnd, PolicyOutcome, PolicyPublish, PolicyStep};
use crate::publish::record::{StoredOutcome, Storing, stored_code};
use crate::publish::run::{ResultBranch, result_branch};
use crate::publish::schedule::{Queue, Requester, RunRequest};
use crate::publish::types::Mode;
use crate::publish::worker::{PublishCall, run_sufficient};
use crate::time::whole_days;
use vstd::prelude::*;

verus! {

/// Whether a mode publishes nothing.
pub open spec fn is_inactive(mode: Mode) -> bool {
    mode == Mode::BuildOnly || mode == Mode::Skip
}

/// Whether a mode may open a proposal.
pub open spec fn may_propose(mode: Mode) -> bool {
    mode == Mode::Propose || mode == Mode::AttemptPush
}

/// The modes in which an earlier publish makes one in `mode` needless.
pub open spec fn earlier_modes(mode: Mode) -> Seq<Mode> {
    if mode == Mode::AttemptPush {
        seq![Mode::Propose, Mode::Push]
    } else {
        seq![mode]
    }
}

/// The mode that a publish turned out to have.
pub open spec fn settled_mode(mode: Mode, proposed: bool) -> Mode {
    if mode == Mode::AttemptPush {
        if proposed {
            Mode::Propose
        } else {
            Mode::Push
        }
    } else {
        mode
    }
}

/// The run to ask for where the command of the campaign is not the one that was
/// run.
pub open spec fn changed_command_run(f: PolicyPublish) -> RunRequest {
    RunRequest {
        campaign: f.run.suite,
        codebase: f.run.codebase,
        bucket: Queue::NewProposals,
        change_set: Some(f.run.change_set),
        refresh: true,
        requester: Requester::ChangedCommand {
            old_command: f.run.command,
            new_command: f.command,
        },
        command: Some(f.command),
    }
}

/// The next step of a publish.
pub open spec fn policy_next(f: PolicyPublish) -> PolicyStep {
    if f.command@.len() == 0 {
        PolicyStep::Done(PolicyEnd::NoCommand)
    } else if f.command@ != f.run.command@ {
        if !f.rescheduled {
            PolicyStep::RescheduleChangedCommand(changed_command_run(f))
        } else {
            PolicyStep::Done(PolicyEnd::CommandChanged)
        }
    } else if is_inactive(f.mode) {
        PolicyStep::Done(PolicyEnd::NotWanted)
    } else if f.run.result_branches is None {
        PolicyStep::Done(PolicyEnd::NoResultBranches)
    } else {
        match result_branch(f.run, f.role@) {
            None => PolicyStep::Done(PolicyEnd::NoBranchForRole),
            Some(branch) => match (branch.revision, f.role_target) {
                (None, _) => PolicyStep::Done(PolicyEnd::NoRevision),
                (Some(_), None) => PolicyStep::FindRoleBranch {
                    url: f.target_branch_url,
                    name: branch.remote_name,
                },
                (Some(revision), Some(target)) => policy_with_target(f, branch, revision, target),
            },
        }
    }
}

/// Goes on unless the same was published before.
pub open spec fn policy_with_target(
    f: PolicyPublish,
    branch: ResultBranch,
    revision: String,
    target: String,
) -> PolicyStep {
    if !f.force && f.already_published is None {
        PolicyStep::LookForPublish {
            target_branch_url: target,
            branch_name: f.campaign.branch_name,
            revision,
            mode: f.mode,
        }
    } else if !f.force && f.already_published == Some(true) {
        PolicyStep::Done(PolicyEnd::AlreadyPublished)
    } else {
        match policy_guard(f) {
            Some(step) => step,
            None => policy_unguarded(f, branch, revision, target),
        }
    }
}

/// Whether the limits on new proposals apply.
pub open spec fn is_limited(f: PolicyPublish) -> bool {
    may_propose(f.mode) && f.open_proposal == Some(false)
}

/// Whether a limit on new proposals forbids this one: its bucket is full, or the
/// last one is too recent.
pub open spec fn is_held_back(f: PolicyPublish) -> bool {
    &&& is_limited(f)
    &&& {
        ||| f.rate_limit_bucket is Some && f.bucket_allows == Some(false)
        ||| match (f.max_frequency_days, f.last_published) {
            (Some(days), Some(Some(last))) => whole_days(last.seen@ - last.at@) < days,
            _ => false,
        }
    }
}

/// What the limits on new proposals ask or decide.
pub open spec fn policy_guard(f: PolicyPublish) -> Option<PolicyStep> {
    if may_propose(f.mode) && f.open_proposal is None {
        Some(
            PolicyStep::LookForOpenProposal {
                codebase: f.run.codebase,
                branch_name: f.campaign.branch_name,
            },
        )
    } else if is_limited(f) && f.rate_limit_bucket is Some && f.bucket_allows is None {
        Some(PolicyStep::AskBucket { bucket: f.rate_limit_bucket->0 })
    } else if is_limited(f) && f.max_frequency_days is Some && f.last_published is None {
        Some(
            PolicyStep::FindLastPublished {
                campaign: f.run.suite,
                codebase: f.run.codebase,
            },
        )
    } else if is_held_back(f) {
        Some(PolicyStep::Done(PolicyEnd::HeldBack))
    } else {
        None
    }
}

/// The run to compare with.
pub open spec fn compared_run(f: PolicyPublish, branch: ResultBranch) -> Option<(String, String)> {
    match (branch.base_revision, f.unchanged_run) {
        (Some(_), Some(run)) => run,
        _ => None,
    }
}

/// Whether the binary packages must have been compared. Not where the run to
/// compare with failed for invalid upstream metadata, which the campaign is
/// there to mend.
pub open spec fn needs_binary_diff(f: PolicyPublish, branch: ResultBranch) -> bool {
    f.require_binary_diff && !(match compared_run(f, branch) {
        Some(run) => run.1@ == "debian-upstream-metadata-invalid"@ && f.run.suite@
            == "lintian-fixes"@,
        None => false,
    })
}

/// Finds the rest of what a publish needs, and publishes.
pub open spec fn policy_unguarded(
    f: PolicyPublish,
    branch: ResultBranch,
    revision: String,
    target: String,
) -> PolicyStep {
    if branch.base_revision is Some && f.unchanged_run is None {
        PolicyStep::FindUnchangedRun {
            codebase: f.run.codebase,
            revision: branch.base_revision->0,
        }
    } else {
        match (f.derived_name, f.manager_known, f.outcome) {
            (None, _, _) => PolicyStep::DeriveBranchName { role: f.role },
            (Some(_), None, _) => PolicyStep::FindVcsManager { vcs_type: f.run.vcs_type },
            (Some(_), Some(false), _) => PolicyStep::Done(PolicyEnd::NoVcsManager),
            (Some(derived_branch_name), Some(true), None) => PolicyStep::Publish(
                PublishCall {
                    target_branch_url: target,
                    mode: f.mode,
                    role: f.role,
                    revision,
                    unchanged_id: match compared_run(f, branch) {
                        Some(run) => Some(run.0),
                        None => None,
                    },
                    derived_branch_name,
                    rate_limit_bucket: f.rate_limit_bucket,
                    require_binary_diff: needs_binary_diff(f, branch),
                    allow_create_proposal: run_sufficient(f.campaign.value_threshold, f.run.value),
                    existing_mp_url: None,
                },
            ),
            (Some(_), Some(true), Some(outcome)) => policy_finish(
                f,
                branch,
                revision,
                target,
                outcome,
            ),
        }
    }
}

/// What is recorded and announced of an outcome.
pub open spec fn policy_record(
    f: PolicyPublish,
    branch: ResultBranch,
    revision: String,
    target: String,
    outcome: PolicyOutcome,
) -> Option<Storing> {
    match outcome {
        PolicyOutcome::Published(result) => Some(
            Storing {
                run_id: f.run.id,
                change_set: f.run.change_set,
                codebase: f.run.codebase,
                branch_name: Some(result.branch_name),
                target_branch_url: result.target_branch_url,
                target_branch_web_url: result.target_branch_web_url,
                main_branch_revision: branch.base_revision,
                revision: Some(revision),
                role: f.role,
                mode: settled_mode(f.mode, result.proposal_url is Some),
                outcome: StoredOutcome::Published,
                requester: f.requester,
                merge_proposal_url: result.proposal_url,
            },
        ),
        PolicyOutcome::Failed { code, description } => Some(
            Storing {
                run_id: f.run.id,
                change_set: f.run.change_set,
                codebase: f.run.codebase,
                branch_name: f.campaign.branch_name,
                target_branch_url: target,
                target_branch_web_url: None,
                main_branch_revision: branch.base_revision,
                revision: Some(revision),
                role: f.role,
                mode: settled_mode(f.mode, false),
                outcome: StoredOutcome::Failed { code, description },
                requester: f.requester,
                merge_proposal_url: None,
            },
        ),
        _ => None,
    }
}

/// Whether an outcome opened a proposal.
pub open spec fn opened_proposal(outcome: PolicyOutcome) -> bool {
    match outcome {
        PolicyOutcome::Published(result) => result.is_new == Some(true) && result.proposal_url
            is Some,
        _ => false,
    }
}

/// Records, counts and announces an outcome.
pub open spec fn policy_finish(
    f: PolicyPublish,
    branch: ResultBranch,
    revision: String,
    target: String,
    outcome: PolicyOutcome,
) -> PolicyStep {
    match (policy_record(f, branch, revision, target, outcome), outcome) {
        (Some(storing), _) => if !f.stored {
            PolicyStep::Store(storing)
        } else if opened_proposal(outcome) && !f.counted {
            PolicyStep::CountProposal { bucket: f.rate_limit_bucket }
        } else if !f.announced {
            PolicyStep::Announce(storing)
        } else if stored_code(storing.outcome) == "success"@ {
            PolicyStep::Done(PolicyEnd::Published(storing.mode))
        } else {
            PolicyStep::Done(PolicyEnd::NotPublished)
        },
        (None, PolicyOutcome::Refused(e)) => PolicyStep::Done(PolicyEnd::Refused(e)),
        (None, _) => PolicyStep::Done(PolicyEnd::Busy),
    }
}

/// What a publish comes to: the mode that it ended with, if it published
/// something; an error where it could not be tried.
pub open spec fn policy_result(end: PolicyEnd) -> Result<Option<Mode>, PublishError> {
    match end {
        PolicyEnd::Refused(e) => Err(e),
        _ => Ok(policy_mode(end)),
    }
}

/// The mode that a publish ended with, if it published something.
pub open spec fn policy_mode(end: PolicyEnd) -> Option<Mode> {
    match end {
        PolicyEnd::Published(mode) => Some(mode),
        _ => None,
    }
}

} // verus!
