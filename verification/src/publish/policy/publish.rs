//! Running a publish under a policy.
use crate::publish::errors::PublishError;
use crate::publish::existing::steps::CampaignFacts;
use crate::publish::policy::decision::{
    compared_run, earlier_modes, is_held_back, is_limited, policy_finish, policy_guard, policy_mode,
    policy_next, policy_record, policy_result, policy_unguarded, policy_with_target, settled_mode,
};
use crate::publish::policy::steps::{
    LastPublished, PolicyEnd, PolicyOrder, PolicyOutcome, PolicyPublish, PolicyStep,
};
use crate::publish::record::{StoredOutcome, Storing};
use crate::publish::run::{ResultBranch, Run};
use crate::publish::schedule::{Queue, Requester, RunRequest, copy_requester};
use crate::publish::types::Mode;
use crate::publish::worker::{PublishCall, PublishOneResult, run_sufficient_for_proposal};
use crate::text::str_eq;
use vstd::prelude::*;

verus! {

/// The modes in which an earlier publish makes one in `mode` needless.
pub fn modes_to_look_for(mode: Mode) -> (r: Vec<Mode>)
    ensures
        r@ == earlier_modes(mode),
{
    let r = if mode == Mode::AttemptPush {
        vec![Mode::Propose, Mode::Push]
    } else {
        vec![mode]
    };
    assert(r@ =~= earlier_modes(mode));
    r
}

/// The mode that a publish turned out to have.
pub fn settle_mode(mode: Mode, proposed: bool) -> (r: Mode)
    ensures
        r == settled_mode(mode, proposed),
{
    if mode == Mode::AttemptPush {
        if proposed {
            Mode::Propose
        } else {
            Mode::Push
        }
    } else {
        mode
    }
}

/// How an attempt to publish under a policy ended, or the failure that has to be
/// dealt with before that can be said.
pub fn policy_outcome(result: Result<PublishOneResult, PublishError>) -> (r: Result<
    PolicyOutcome,
    PublishError,
>)
    ensures
        r == (match result {
            Ok(result) => Ok(PolicyOutcome::Published(result)),
            Err(PublishError::BranchBusy(_)) => Ok(PolicyOutcome::Busy),
            Err(PublishError::Failure { code, description }) => Err(
                PublishError::Failure { code, description },
            ),
            Err(e) => Ok(PolicyOutcome::Refused(e)),
        }),
{
    match result {
        Ok(result) => Ok(PolicyOutcome::Published(result)),
        Err(PublishError::BranchBusy(_)) => Ok(PolicyOutcome::Busy),
        Err(PublishError::Failure { code, description }) => Err(
            PublishError::Failure { code, description },
        ),
        Err(e) => Ok(PolicyOutcome::Refused(e)),
    }
}

/// A publish of which nothing but its subject is known.
pub open spec fn policy_start(
    run: Run,
    role: String,
    rate_limit_bucket: Option<String>,
    target_branch_url: String,
    mode: Mode,
    max_frequency_days: Option<i32>,
    command: String,
    require_binary_diff: bool,
    force: bool,
    requester: Option<Requester>,
    campaign: CampaignFacts,
) -> PolicyPublish {
    PolicyPublish {
        run,
        role,
        rate_limit_bucket,
        target_branch_url,
        mode,
        max_frequency_days,
        command,
        require_binary_diff,
        force,
        requester,
        campaign,
        rescheduled: false,
        role_target: None,
        already_published: None,
        open_proposal: None,
        bucket_allows: None,
        last_published: None,
        unchanged_run: None,
        derived_name: None,
        manager_known: None,
        outcome: None,
        stored: false,
        counted: false,
        announced: false,
    }
}

/// Starts to publish one branch of a run under the policy of its campaign.
pub fn publish_from_policy(
    run: Run,
    role: String,
    rate_limit_bucket: Option<String>,
    target_branch_url: String,
    mode: Mode,
    max_frequency_days: Option<i32>,
    command: String,
    require_binary_diff: bool,
    force: bool,
    requester: Option<Requester>,
    campaign: CampaignFacts,
) -> (r: PolicyPublish)
    ensures
        r == policy_start(
            run,
            role,
            rate_limit_bucket,
            target_branch_url,
            mode,
            max_frequency_days,
            command,
            require_binary_diff,
            force,
            requester,
            campaign,
        ),
{
    PolicyPublish {
        run,
        role,
        rate_limit_bucket,
        target_branch_url,
        mode,
        max_frequency_days,
        command,
        require_binary_diff,
        force,
        requester,
        campaign,
        rescheduled: false,
        role_target: None,
        already_published: None,
        open_proposal: None,
        bucket_allows: None,
        last_published: None,
        unchanged_run: None,
        derived_name: None,
        manager_known: None,
        outcome: None,
        stored: false,
        counted: false,
        announced: false,
    }
}

impl PolicyOrder {
    /// Starts to publish one branch of a run as ordered.
    pub fn start(self, run: Run, campaign: CampaignFacts) -> (r: PolicyPublish)
        ensures
            r == policy_start(
                run,
                self.role,
                self.rate_limit_bucket,
                self.target_branch_url,
                self.mode,
                self.max_frequency_days,
                self.command,
                self.require_binary_diff,
                self.force,
                self.requester,
                campaign,
            ),
    {
        publish_from_policy(
            run,
            self.role,
            self.rate_limit_bucket,
            self.target_branch_url,
            self.mode,
            self.max_frequency_days,
            self.command,
            self.require_binary_diff,
            self.force,
            self.requester,
            campaign,
        )
    }
}

impl PolicyEnd {
    /// The mode that a publish ended with, if it published something.
    pub fn mode(&self) -> (r: Option<Mode>)
        ensures
            r == policy_mode(*self),
    {
        match self {
            PolicyEnd::Published(mode) => Some(*mode),
            _ => None,
        }
    }

    /// What a publish comes to: the mode that it ended with, if it published
    /// something; an error where it could not be tried.
    pub fn result(self) -> (r: Result<Option<Mode>, PublishError>)
        ensures
            r == policy_result(self),
    {
        match self {
            PolicyEnd::Refused(e) => Err(e),
            PolicyEnd::Published(mode) => Ok(Some(mode)),
            _ => Ok(None),
        }
    }
}

impl PolicyPublish {
    /// What to find out or to do next.
    pub fn next(&self) -> (r: PolicyStep)
        ensures
            r == policy_next(*self),
    {
        if self.command.as_str().is_empty() {
            return PolicyStep::Done(PolicyEnd::NoCommand);
        }
        if !str_eq(self.command.as_str(), self.run.command.as_str()) {
            return if !self.rescheduled {
                PolicyStep::RescheduleChangedCommand(
                    RunRequest {
                        campaign: self.run.suite.clone(),
                        codebase: self.run.codebase.clone(),
                        bucket: Queue::NewProposals,
                        change_set: Some(self.run.change_set.clone()),
                        refresh: true,
                        requester: Requester::ChangedCommand {
                            old_command: self.run.command.clone(),
                            new_command: self.command.clone(),
                        },
                        command: Some(self.command.clone()),
                    },
                )
            } else {
                PolicyStep::Done(PolicyEnd::CommandChanged)
            };
        }
        if self.mode == Mode::BuildOnly || self.mode == Mode::Skip {
            return PolicyStep::Done(PolicyEnd::NotWanted);
        }
        if self.run.result_branches.is_none() {
            return PolicyStep::Done(PolicyEnd::NoResultBranches);
        }
        match self.run.get_result_branch(self.role.as_str()) {
            None => PolicyStep::Done(PolicyEnd::NoBranchForRole),
            Some(branch) => match &branch.revision {
                None => PolicyStep::Done(PolicyEnd::NoRevision),
                Some(revision) => match &self.role_target {
                    None => PolicyStep::FindRoleBranch {
                        url: self.target_branch_url.clone(),
                        name: branch.remote_name.clone(),
                    },
                    Some(target) => self.with_target(branch, revision, target),
                },
            },
        }
    }

    fn with_target(&self, branch: &ResultBranch, revision: &String, target: &String) -> (r:
        PolicyStep)
        ensures
            r == policy_with_target(*self, *branch, *revision, *target),
    {
        if !self.force {
            match self.already_published {
                None => {
                    return PolicyStep::LookForPublish {
                        target_branch_url: target.clone(),
                        branch_name: self.campaign.branch_name.clone(),
                        revision: revision.clone(),
                        mode: self.mode,
                    };
                },
                Some(true) => {
                    return PolicyStep::Done(PolicyEnd::AlreadyPublished);
                },
                Some(false) => {},
            }
        }
        match self.guard() {
            Some(step) => step,
            None => self.unguarded(branch, revision, target),
        }
    }

    fn limited(&self) -> (r: bool)
        ensures
            r == is_limited(*self),
    {
        let open = match self.open_proposal {
            Some(open) => open,
            None => true,
        };
        (self.mode == Mode::Propose || self.mode == Mode::AttemptPush) && !open
    }

    fn held_back(&self) -> (r: bool)
        ensures
            r == is_held_back(*self),
    {
        if !self.limited() {
            return false;
        }
        if self.rate_limit_bucket.is_some() {
            if let Some(false) = self.bucket_allows {
                return true;
            }
        }
        match self.max_frequency_days {
            Some(days) => match self.last_published {
                Some(Some(last)) => last.seen.since(last.at).num_days() < days as i128,
                _ => false,
            },
            None => false,
        }
    }

    fn guard(&self) -> (r: Option<PolicyStep>)
        ensures
            r == policy_guard(*self),
    {
        if (self.mode == Mode::Propose || self.mode == Mode::AttemptPush)
            && self.open_proposal.is_none() {
            return Some(
                PolicyStep::LookForOpenProposal {
                    codebase: self.run.codebase.clone(),
                    branch_name: self.campaign.branch_name.clone(),
                },
            );
        }
        if self.limited() {
            if let Some(bucket) = &self.rate_limit_bucket {
                if self.bucket_allows.is_none() {
                    return Some(PolicyStep::AskBucket { bucket: bucket.clone() });
                }
            }
            if self.max_frequency_days.is_some() && self.last_published.is_none() {
                return Some(
                    PolicyStep::FindLastPublished {
                        campaign: self.run.suite.clone(),
                        codebase: self.run.codebase.clone(),
                    },
                );
            }
        }
        if self.held_back() {
            Some(PolicyStep::Done(PolicyEnd::HeldBack))
        } else {
            None
        }
    }

    fn comparison(&self, branch: &ResultBranch) -> (r: Option<(String, String)>)
        ensures
            r == compared_run(*self, *branch),
    {
        if branch.base_revision.is_none() {
            return None;
        }
        match &self.unchanged_run {
            Some(Some(run)) => Some((run.0.clone(), run.1.clone())),
            _ => None,
        }
    }

    fn unguarded(&self, branch: &ResultBranch, revision: &String, target: &String) -> (r:
        PolicyStep)
        ensures
            r == policy_unguarded(*self, *branch, *revision, *target),
    {
        if let Some(base) = &branch.base_revision {
            if self.unchanged_run.is_none() {
                return PolicyStep::FindUnchangedRun {
                    codebase: self.run.codebase.clone(),
                    revision: base.clone(),
                };
            }
        }
        let derived_branch_name = match &self.derived_name {
            None => {
                return PolicyStep::DeriveBranchName { role: self.role.clone() };
            },
            Some(name) => name.clone(),
        };
        match self.manager_known {
            None => PolicyStep::FindVcsManager { vcs_type: self.run.vcs_type.clone() },
            Some(false) => PolicyStep::Done(PolicyEnd::NoVcsManager),
            Some(true) => match &self.outcome {
                None => {
                    let (unchanged_id, exempt) = match self.comparison(branch) {
                        Some(run) => {
                            let exempt = str_eq(
                                run.1.as_str(),
                                "debian-upstream-metadata-invalid",
                            ) && str_eq(self.run.suite.as_str(), "lintian-fixes");
                            (Some(run.0), exempt)
                        },
                        None => (None, false),
                    };
                    PolicyStep::Publish(
                        PublishCall {
                            target_branch_url: target.clone(),
                            mode: self.mode,
                            role: self.role.clone(),
                            revision: revision.clone(),
                            unchanged_id,
                            derived_branch_name,
                            rate_limit_bucket: self.rate_limit_bucket.clone(),
                            require_binary_diff: self.require_binary_diff && !exempt,
                            allow_create_proposal: run_sufficient_for_proposal(
                                self.campaign.value_threshold,
                                self.run.value,
                            ),
                            existing_mp_url: None,
                        },
                    )
                },
                Some(outcome) => self.finish(branch, revision, target, outcome),
            },
        }
    }

    fn record(
        &self,
        branch: &ResultBranch,
        revision: &String,
        target: &String,
        outcome: &PolicyOutcome,
    ) -> (r: Option<Storing>)
        ensures
            r == policy_record(*self, *branch, *revision, *target, *outcome),
    {
        match outcome {
            PolicyOutcome::Published(result) => Some(
                Storing {
                    run_id: self.run.id.clone(),
                    change_set: self.run.change_set.clone(),
                    codebase: self.run.codebase.clone(),
                    branch_name: Some(result.branch_name.clone()),
                    target_branch_url: result.target_branch_url.clone(),
                    target_branch_web_url: result.target_branch_web_url.clone(),
                    main_branch_revision: branch.base_revision.clone(),
                    revision: Some(revision.clone()),
                    role: self.role.clone(),
                    mode: settle_mode(self.mode, result.proposal_url.is_some()),
                    outcome: StoredOutcome::Published,
                    requester: copy_requester(&self.requester),
                    merge_proposal_url: result.proposal_url.clone(),
                },
            ),
            PolicyOutcome::Failed { code, description } => Some(
                Storing {
                    run_id: self.run.id.clone(),
                    change_set: self.run.change_set.clone(),
                    codebase: self.run.codebase.clone(),
                    branch_name: self.campaign.branch_name.clone(),
                    target_branch_url: target.clone(),
                    target_branch_web_url: None,
                    main_branch_revision: branch.base_revision.clone(),
                    revision: Some(revision.clone()),
                    role: self.role.clone(),
                    mode: settle_mode(self.mode, false),
                    outcome: StoredOutcome::Failed {
                        code: code.clone(),
                        description: description.clone(),
                    },
                    requester: copy_requester(&self.requester),
                    merge_proposal_url: None,
                },
            ),
            _ => None,
        }
    }

    fn finish(
        &self,
        branch: &ResultBranch,
        revision: &String,
        target: &String,
        outcome: &PolicyOutcome,
    ) -> (r: PolicyStep)
        ensures
            r == policy_finish(*self, *branch, *revision, *target, *outcome),
    {
        let opened = match outcome {
            PolicyOutcome::Published(result) => match result.is_new {
                Some(is_new) => is_new && result.proposal_url.is_some(),
                None => false,
            },
            _ => false,
        };
        match self.record(branch, revision, target, outcome) {
            Some(storing) => {
                if !self.stored {
                    PolicyStep::Store(storing)
                } else if opened && !self.counted {
                    PolicyStep::CountProposal { bucket: self.rate_limit_bucket.clone() }
                } else if !self.announced {
                    PolicyStep::Announce(storing)
                } else if str_eq(storing.outcome.code(), "success") {
                    PolicyStep::Done(PolicyEnd::Published(storing.mode))
                } else {
                    PolicyStep::Done(PolicyEnd::NotPublished)
                }
            },
            None => match outcome {
                PolicyOutcome::Refused(e) => PolicyStep::Done(PolicyEnd::Refused(e.clone())),
                _ => PolicyStep::Done(PolicyEnd::Busy),
            },
        }
    }

    /// Notes down that a run with the new command was asked for.
    pub fn note_rescheduled(&mut self)
        ensures
            *final(self) == (PolicyPublish { rescheduled: true, ..*old(self) }),
    {
        self.rescheduled = true;
    }

    /// Notes down the URL of the target branch.
    pub fn note_role_target(&mut self, answer: String)
        ensures
            *final(self) == (PolicyPublish { role_target: Some(answer), ..*old(self) }),
    {
        self.role_target = Some(answer);
    }

    /// Notes down whether this was published before.
    pub fn note_already_published(&mut self, answer: bool)
        ensures
            *final(self) == (PolicyPublish { already_published: Some(answer), ..*old(self) }),
    {
        self.already_published = Some(answer);
    }

    /// Notes down whether a proposal is open.
    pub fn note_open_proposal(&mut self, answer: bool)
        ensures
            *final(self) == (PolicyPublish { open_proposal: Some(answer), ..*old(self) }),
    {
        self.open_proposal = Some(answer);
    }

    /// Notes down whether the bucket has room. It has where it could not be asked.
    pub fn note_bucket_allows(&mut self, answer: bool)
        ensures
            *final(self) == (PolicyPublish { bucket_allows: Some(answer), ..*old(self) }),
    {
        self.bucket_allows = Some(answer);
    }

    /// Notes down when the campaign was last published for the codebase.
    pub fn note_last_published(&mut self, answer: Option<LastPublished>)
        ensures
            *final(self) == (PolicyPublish { last_published: Some(answer), ..*old(self) }),
    {
        self.last_published = Some(answer);
    }

    /// Notes down the last run on the base revision, and its result.
    pub fn note_unchanged_run(&mut self, answer: Option<(String, String)>)
        ensures
            *final(self) == (PolicyPublish { unchanged_run: Some(answer), ..*old(self) }),
    {
        self.unchanged_run = Some(answer);
    }

    /// Notes down the name of the source branch.
    pub fn note_derived_name(&mut self, answer: String)
        ensures
            *final(self) == (PolicyPublish { derived_name: Some(answer), ..*old(self) }),
    {
        self.derived_name = Some(answer);
    }

    /// Notes down whether branches of this kind can be published.
    pub fn note_manager_known(&mut self, answer: bool)
        ensures
            *final(self) == (PolicyPublish { manager_known: Some(answer), ..*old(self) }),
    {
        self.manager_known = Some(answer);
    }

    /// Notes down how the attempt to publish ended.
    pub fn note_outcome(&mut self, answer: PolicyOutcome)
        ensures
            *final(self) == (PolicyPublish { outcome: Some(answer), ..*old(self) }),
    {
        self.outcome = Some(answer);
    }

    /// Notes down that the outcome was recorded.
    pub fn note_stored(&mut self)
        ensures
            *final(self) == (PolicyPublish { stored: true, ..*old(self) }),
    {
        self.stored = true;
    }

    /// Notes down that the new proposal was counted.
    pub fn note_counted(&mut self)
        ensures
            *final(self) == (PolicyPublish { counted: true, ..*old(self) }),
    {
        self.counted = true;
    }

    /// Notes down that the outcome was announced.
    pub fn note_announced(&mut self)
        ensures
            *final(self) == (PolicyPublish { announced: true, ..*old(self) }),
    {
        self.announced = true;
    }
}

} // verus!
