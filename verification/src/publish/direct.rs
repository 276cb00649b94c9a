//! Publishing one branch of a run on request, whatever the policy says.
use crate::publish::errors::PublishError;
use crate::publish::existing::steps::CampaignFacts;
use crate::publish::policy::decision::{opened_proposal, settled_mode};
use crate::publish::policy::publish::settle_mode;
use crate::publish::policy::steps::PolicyOutcome;
use crate::publish::record::{StoredOutcome, Storing};
use crate::publish::run::{Run, result_branch};
use crate::publish::schedule::{Requester, copy_requester};
use crate::publish::types::Mode;
use crate::publish::worker::{PublishCall, PublishOneResult, run_sufficient, run_sufficient_for_proposal};
use crate::text::opt_text;
use crate::urls::{normal_form, normalize_url, parsed_url};
use vstd::prelude::*;

verus! {

/// What is known in the course of a publish. Each field that starts out empty is
/// the answer to one step.
#[derive(Debug)]
pub struct DirectPublish {
    /// The run to publish.
    pub run: Run,
    /// How to publish.
    pub mode: Mode,
    /// The role of the branch to publish.
    pub role: String,
    /// The bucket that a new proposal counts towards.
    pub rate_limit_bucket: Option<String>,
    /// Whether a proposal may be created; decided by the value of the run where
    /// it is not given.
    pub allow_create_proposal: Option<bool>,
    /// Whether the binary packages must have been compared.
    pub require_binary_diff: bool,
    /// In whose name to publish.
    pub requester: Option<Requester>,
    /// The campaign.
    pub campaign: CampaignFacts,
    /// Normal form of the URL of the repository to publish to, where that is a
    /// URL.
    pub base_target: Option<String>,
    /// Answer to [`DirectStep::FindRoleBranch`].
    pub role_target: Option<String>,
    /// Answer to [`DirectStep::FindUnchangedRun`].
    pub unchanged_run: Option<Option<String>>,
    /// Answer to [`DirectStep::DeriveBranchName`].
    pub derived_name: Option<String>,
    /// Answer to [`DirectStep::FindVcsManager`].
    pub manager_known: Option<bool>,
    /// Answer to [`DirectStep::Publish`].
    pub outcome: Option<PolicyOutcome>,
    /// Whether the outcome was recorded.
    pub stored: bool,
    /// Whether a new proposal was counted.
    pub counted: bool,
    /// Whether the outcome was announced.
    pub announced: bool,
}

/// How a publish on request ended.
#[derive(Debug)]
pub enum DirectEnd {
    /// The run has no branch with the role.
    NoBranchForRole,
    /// The branch has no revision.
    NoRevision,
    /// The repository to publish to has no valid URL.
    InvalidTarget,
    /// Branches of this kind cannot be published.
    NoVcsManager,
    /// Somebody else holds the branch.
    Busy,
    /// The outcome was recorded.
    Recorded,
    /// It could not be tried.
    Refused(PublishError),
}

/// Why a publish on request failed.
#[derive(Debug)]
pub enum DirectError {
    /// The repository to publish to has no valid URL.
    InvalidTarget,
    /// It could not be tried.
    Refused(PublishError),
}

/// What a publish on request comes to: an error only where its repository has no
/// valid URL or it could not be tried.
pub open spec fn direct_result(end: DirectEnd) -> Result<(), DirectError> {
    match end {
        DirectEnd::InvalidTarget => Err(DirectError::InvalidTarget),
        DirectEnd::Refused(e) => Err(DirectError::Refused(e)),
        _ => Ok(()),
    }
}

impl DirectEnd {
    /// What a publish on request comes to.
    pub fn result(self) -> (r: Result<(), DirectError>)
        ensures
            r == direct_result(self),
    {
        match self {
            DirectEnd::InvalidTarget => Err(DirectError::InvalidTarget),
            DirectEnd::Refused(e) => Err(DirectError::Refused(e)),
            _ => Ok(()),
        }
    }
}

/// What to find out or to do next.
#[derive(Debug)]
pub enum DirectStep {
    /// Find the URL of a branch of a repository.
    FindRoleBranch {
        /// The repository.
        url: String,
        /// Name of the branch.
        name: String,
    },
    /// Find a successful run on a revision.
    FindUnchangedRun {
        /// The codebase.
        codebase: String,
        /// The revision.
        revision: String,
    },
    /// Find the name of the source branch.
    DeriveBranchName {
        /// Role of the branch.
        role: String,
    },
    /// Find out whether branches of this kind can be published.
    FindVcsManager {
        /// The kind.
        vcs_type: String,
    },
    /// Publish.
    Publish(PublishCall),
    /// Record the outcome.
    Store(Storing),
    /// Count a new proposal towards its bucket.
    CountProposal {
        /// The bucket.
        bucket: String,
    },
    /// Announce the outcome.
    Announce(Storing),
    /// The publish is over.
    Done(DirectEnd),
}

/// The text of the URL of the repository to publish to.
pub open spec fn direct_target_text(run: Run) -> Seq<char> {
    match run.target_branch_url {
        Some(url) => url@,
        None => run.branch_url@,
    }
}

/// The next step of a publish.
pub open spec fn direct_next(f: DirectPublish) -> DirectStep {
    match result_branch(f.run, f.role@) {
        None => DirectStep::Done(DirectEnd::NoBranchForRole),
        Some(branch) => match (branch.revision, f.base_target, f.role_target) {
            (None, _, _) => DirectStep::Done(DirectEnd::NoRevision),
            (Some(_), None, _) => DirectStep::Done(DirectEnd::InvalidTarget),
            (Some(_), Some(url), None) => DirectStep::FindRoleBranch {
                url,
                name: branch.remote_name,
            },
            (Some(revision), Some(_), Some(target)) => direct_with_target(f, revision, target),
        },
    }
}

/// Finds the rest of what a publish needs, and publishes.
pub open spec fn direct_with_target(f: DirectPublish, revision: String, target: String) -> DirectStep {
    if f.run.main_branch_revision is Some && f.unchanged_run is None {
        DirectStep::FindUnchangedRun {
            codebase: f.run.codebase,
            revision: f.run.main_branch_revision->0,
        }
    } else {
        match (f.derived_name, f.manager_known, f.outcome) {
            (None, _, _) => DirectStep::DeriveBranchName { role: f.role },
            (Some(_), None, _) => DirectStep::FindVcsManager { vcs_type: f.run.vcs_type },
            (Some(_), Some(false), _) => DirectStep::Done(DirectEnd::NoVcsManager),
            (Some(derived_branch_name), Some(true), None) => DirectStep::Publish(
                PublishCall {
                    target_branch_url: target,
                    mode: f.mode,
                    role: f.role,
                    revision,
                    unchanged_id: match (f.run.main_branch_revision, f.unchanged_run) {
                        (Some(_), Some(id)) => id,
                        _ => None,
                    },
                    derived_branch_name,
                    rate_limit_bucket: f.rate_limit_bucket,
                    require_binary_diff: f.require_binary_diff,
                    allow_create_proposal: match f.allow_create_proposal {
                        Some(allow) => allow,
                        None => run_sufficient(f.campaign.value_threshold, f.run.value),
                    },
                    existing_mp_url: None,
                },
            ),
            (Some(_), Some(true), Some(outcome)) => direct_finish(f, target, outcome),
        }
    }
}

/// What is recorded and announced of an outcome.
pub open spec fn direct_record(
    f: DirectPublish,
    target: String,
    outcome: PolicyOutcome,
) -> Option<Storing> {
    match outcome {
        PolicyOutcome::Published(result) => Some(
            Storing {
                run_id: f.run.id,
                change_set: f.run.change_set,
                codebase: f.run.codebase,
                branch_name: Some(result.branch_name),
                target_branch_url: result.target_branch_url,
                target_branch_web_url: result.target_branch_web_url,
                main_branch_revision: f.run.main_branch_revision,
                revision: f.run.revision,
                role: f.role,
                mode: settled_mode(f.mode, result.proposal_url is Some),
                outcome: StoredOutcome::Published,
                requester: f.requester,
                merge_proposal_url: result.proposal_url,
            },
        ),
        PolicyOutcome::Failed { code, description } => Some(
            Storing {
                run_id: f.run.id,
                change_set: f.run.change_set,
                codebase: f.run.codebase,
                branch_name: f.campaign.branch_name,
                target_branch_url: target,
                target_branch_web_url: None,
                main_branch_revision: f.run.main_branch_revision,
                revision: f.run.revision,
                role: f.role,
                mode: f.mode,
                outcome: StoredOutcome::Failed { code, description },
                requester: f.requester,
                merge_proposal_url: None,
            },
        ),
        _ => None,
    }
}

/// Records, counts and announces an outcome.
pub open spec fn direct_finish(
    f: DirectPublish,
    target: String,
    outcome: PolicyOutcome,
) -> DirectStep {
    match (direct_record(f, target, outcome), outcome) {
        (Some(storing), _) => if !f.stored {
            DirectStep::Store(storing)
        } else if opened_proposal(outcome) && f.rate_limit_bucket is Some && !f.counted {
            DirectStep::CountProposal { bucket: f.rate_limit_bucket->0 }
        } else if !f.announced {
            DirectStep::Announce(storing)
        } else {
            DirectStep::Done(DirectEnd::Recorded)
        },
        (None, PolicyOutcome::Refused(e)) => DirectStep::Done(DirectEnd::Refused(e)),
        (None, _) => DirectStep::Done(DirectEnd::Busy),
    }
}

/// How an attempt to publish on request ended: a busy branch and a failure are
/// outcomes like success, and any other error means that it could not be tried.
pub fn direct_outcome(result: Result<PublishOneResult, PublishError>) -> (r: PolicyOutcome)
    ensures
        r == (match result {
            Ok(result) => PolicyOutcome::Published(result),
            Err(PublishError::BranchBusy(_)) => PolicyOutcome::Busy,
            Err(PublishError::Failure { code, description }) => PolicyOutcome::Failed {
                code,
                description,
            },
            Err(e) => PolicyOutcome::Refused(e),
        }),
{
    match result {
        Ok(result) => PolicyOutcome::Published(result),
        Err(PublishError::BranchBusy(_)) => PolicyOutcome::Busy,
        Err(PublishError::Failure { code, description }) => PolicyOutcome::Failed {
            code,
            description,
        },
        Err(e) => PolicyOutcome::Refused(e),
    }
}

/// Whether a publish is one of which nothing but its subject is known.
pub open spec fn is_direct_start(
    f: DirectPublish,
    run: Run,
    mode: Mode,
    role: String,
    rate_limit_bucket: Option<String>,
    allow_create_proposal: Option<bool>,
    require_binary_diff: bool,
    requester: Option<Requester>,
    campaign: CampaignFacts,
) -> bool {
    &&& f == (DirectPublish {
        run,
        mode,
        role,
        rate_limit_bucket,
        allow_create_proposal,
        require_binary_diff,
        requester,
        campaign,
        base_target: f.base_target,
        role_target: None,
        unchanged_run: None,
        derived_name: None,
        manager_known: None,
        outcome: None,
        stored: false,
        counted: false,
        announced: false,
    })
    &&& opt_text(f.base_target) == normal_form(parsed_url(direct_target_text(run)))
}

/// Starts to publish one branch of a run on request.
pub fn publish_and_store(
    run: Run,
    mode: Mode,
    role: String,
    rate_limit_bucket: Option<String>,
    allow_create_proposal: Option<bool>,
    require_binary_diff: bool,
    requester: Option<Requester>,
    campaign: CampaignFacts,
) -> (r: DirectPublish)
    ensures
        r == (DirectPublish {
            run,
            mode,
            role,
            rate_limit_bucket,
            allow_create_proposal,
            require_binary_diff,
            requester,
            campaign,
            base_target: r.base_target,
            role_target: None,
            unchanged_run: None,
            derived_name: None,
            manager_known: None,
            outcome: None,
            stored: false,
            counted: false,
            announced: false,
        }),
        opt_text(r.base_target) == normal_form(parsed_url(direct_target_text(run))),
        is_direct_start(
            r,
            run,
            mode,
            role,
            rate_limit_bucket,
            allow_create_proposal,
            require_binary_diff,
            requester,
            campaign,
        ),
{
    let base_target = match &run.target_branch_url {
        Some(url) => normalize_url(url.as_str()),
        None => normalize_url(run.branch_url.as_str()),
    };
    DirectPublish {
        run,
        mode,
        role,
        rate_limit_bucket,
        allow_create_proposal,
        require_binary_diff,
        requester,
        campaign,
        base_target,
        role_target: None,
        unchanged_run: None,
        derived_name: None,
        manager_known: None,
        outcome: None,
        stored: false,
        counted: false,
        announced: false,
    }
}

impl DirectPublish {
    /// What to find out or to do next.
    pub fn next(&self) -> (r: DirectStep)
        ensures
            r == direct_next(*self),
    {
        let branch = match self.run.get_result_branch(self.role.as_str()) {
            None => {
                return DirectStep::Done(DirectEnd::NoBranchForRole);
            },
            Some(branch) => branch,
        };
        let revision = match &branch.revision {
            None => {
                return DirectStep::Done(DirectEnd::NoRevision);
            },
            Some(revision) => revision,
        };
        match &self.base_target {
            None => DirectStep::Done(DirectEnd::InvalidTarget),
            Some(url) => match &self.role_target {
                None => DirectStep::FindRoleBranch {
                    url: url.clone(),
                    name: branch.remote_name.clone(),
                },
                Some(target) => self.with_target(revision, target),
            },
        }
    }

    fn with_target(&self, revision: &String, target: &String) -> (r: DirectStep)
        ensures
            r == direct_with_target(*self, *revision, *target),
    {
        let unchanged_id: Option<String> = match &self.run.main_branch_revision {
            Some(main) => match &self.unchanged_run {
                None => {
                    return DirectStep::FindUnchangedRun {
                        codebase: self.run.codebase.clone(),
                        revision: main.clone(),
                    };
                },
                Some(id) => id.clone(),
            },
            None => None,
        };
        let derived_branch_name = match &self.derived_name {
            None => {
                return DirectStep::DeriveBranchName { role: self.role.clone() };
            },
            Some(name) => name.clone(),
        };
        match self.manager_known {
            None => DirectStep::FindVcsManager { vcs_type: self.run.vcs_type.clone() },
            Some(false) => DirectStep::Done(DirectEnd::NoVcsManager),
            Some(true) => match &self.outcome {
                None => DirectStep::Publish(
                    PublishCall {
                        target_branch_url: target.clone(),
                        mode: self.mode,
                        role: self.role.clone(),
                        revision: revision.clone(),
                        unchanged_id,
                        derived_branch_name,
                        rate_limit_bucket: self.rate_limit_bucket.clone(),
                        require_binary_diff: self.require_binary_diff,
                        allow_create_proposal: match self.allow_create_proposal {
                            Some(allow) => allow,
                            None => run_sufficient_for_proposal(
                                self.campaign.value_threshold,
                                self.run.value,
                            ),
                        },
                        existing_mp_url: None,
                    },
                ),
                Some(outcome) => self.finish(target, outcome),
            },
        }
    }

    fn record(&self, target: &String, outcome: &PolicyOutcome) -> (r: Option<Storing>)
        ensures
            r == direct_record(*self, *target, *outcome),
    {
        match outcome {
            PolicyOutcome::Published(result) => Some(
                Storing {
                    run_id: self.run.id.clone(),
                    change_set: self.run.change_set.clone(),
                    codebase: self.run.codebase.clone(),
                    branch_name: Some(result.branch_name.clone()),
                    target_branch_url: result.target_branch_url.clone(),
                    target_branch_web_url: result.target_branch_web_url.clone(),
                    main_branch_revision: self.run.main_branch_revision.clone(),
                    revision: self.run.revision.clone(),
                    role: self.role.clone(),
                    mode: settle_mode(self.mode, result.proposal_url.is_some()),
                    outcome: StoredOutcome::Published,
                    requester: copy_requester(&self.requester),
                    merge_proposal_url: result.proposal_url.clone(),
                },
            ),
            PolicyOutcome::Failed { code, description } => Some(
                Storing {
                    run_id: self.run.id.clone(),
                    change_set: self.run.change_set.clone(),
                    codebase: self.run.codebase.clone(),
                    branch_name: self.campaign.branch_name.clone(),
                    target_branch_url: target.clone(),
                    target_branch_web_url: None,
                    main_branch_revision: self.run.main_branch_revision.clone(),
                    revision: self.run.revision.clone(),
                    role: self.role.clone(),
                    mode: self.mode,
                    outcome: StoredOutcome::Failed {
                        code: code.clone(),
                        description: description.clone(),
                    },
                    requester: copy_requester(&self.requester),
                    merge_proposal_url: None,
                },
            ),
            _ => None,
        }
    }

    fn finish(&self, target: &String, outcome: &PolicyOutcome) -> (r: DirectStep)
        ensures
            r == direct_finish(*self, *target, *outcome),
    {
        let opened = match outcome {
            PolicyOutcome::Published(result) => match result.is_new {
                Some(is_new) => is_new && result.proposal_url.is_some(),
                None => false,
            },
            _ => false,
        };
        match self.record(target, outcome) {
            Some(storing) => {
                if !self.stored {
                    return DirectStep::Store(storing);
                }
                if opened && !self.counted {
                    if let Some(bucket) = &self.rate_limit_bucket {
                        return DirectStep::CountProposal { bucket: bucket.clone() };
                    }
                }
                if !self.announced {
                    DirectStep::Announce(storing)
                } else {
                    DirectStep::Done(DirectEnd::Recorded)
                }
            },
            None => match outcome {
                PolicyOutcome::Refused(e) => DirectStep::Done(DirectEnd::Refused(e.clone())),
                _ => DirectStep::Done(DirectEnd::Busy),
            },
        }
    }

    /// Notes down the URL of the target branch.
    pub fn note_role_target(&mut self, answer: String)
        ensures
            *final(self) == (DirectPublish { role_target: Some(answer), ..*old(self) }),
    {
        self.role_target = Some(answer);
    }

    /// Notes down a successful run on the main branch revision.
    pub fn note_unchanged_run(&mut self, answer: Option<String>)
        ensures
            *final(self) == (DirectPublish { unchanged_run: Some(answer), ..*old(self) }),
    {
        self.unchanged_run = Some(answer);
    }

    /// Notes down the name of the source branch.
    pub fn note_derived_name(&mut self, answer: String)
        ensures
            *final(self) == (DirectPublish { derived_name: Some(answer), ..*old(self) }),
    {
        self.derived_name = Some(answer);
    }

    /// Notes down whether branches of this kind can be published.
    pub fn note_manager_known(&mut self, answer: bool)
        ensures
            *final(self) == (DirectPublish { manager_known: Some(answer), ..*old(self) }),
    {
        self.manager_known = Some(answer);
    }

    /// Notes down how the attempt to publish ended.
    pub fn note_outcome(&mut self, answer: PolicyOutcome)
        ensures
            *final(self) == (DirectPublish { outcome: Some(answer), ..*old(self) }),
    {
        self.outcome = Some(answer);
    }

    /// Notes down that the outcome was recorded.
    pub fn note_stored(&mut self)
        ensures
            *final(self) == (DirectPublish { stored: true, ..*old(self) }),
    {
        self.stored = true;
    }

    /// Notes down that the new proposal was counted.
    pub fn note_counted(&mut self)
        ensures
            *final(self) == (DirectPublish { counted: true, ..*old(self) }),
    {
        self.counted = true;
    }

    /// Notes down that the outcome was announced.
    pub fn note_announced(&mut self)
        ensures
            *final(self) == (DirectPublish { announced: true, ..*old(self) }),
    {
        self.announced = true;
    }
}

/// A branch that somebody else holds leaves no trace: nothing is recorded or
/// announced of it.
pub proof fn lemma_busy_branch_is_not_recorded(f: DirectPublish)
    requires
        f.outcome == Some(PolicyOutcome::Busy),
    ensures
        !(direct_next(f) is Store),
        !(direct_next(f) is Announce),
{
}

/// What was published is recorded and announced before a publish ends, and a new
/// proposal is counted towards its bucket.
pub proof fn lemma_direct_end_is_recorded(f: DirectPublish)
    ensures
        direct_next(f) matches DirectStep::Done(DirectEnd::Recorded) ==> f.stored && f.announced
            && f.outcome is Some && (opened_proposal(f.outcome->0) && f.rate_limit_bucket is Some
            ==> f.counted),
{
}

/// What is asked to be published on request is what was requested: the branch of
/// the role, at the revision that the run arrived at, to the branch that was found
/// for it, in the mode that was asked for.
pub proof fn lemma_published_as_requested(f: DirectPublish)
    ensures
        direct_next(f) matches DirectStep::Publish(call) ==> {
            &&& result_branch(f.run, f.role@) matches Some(branch)
            &&& call.mode == f.mode
            &&& call.role == f.role
            &&& f.role_target == Some(call.target_branch_url)
            &&& branch.revision == Some(call.revision)
            &&& f.derived_name == Some(call.derived_branch_name)
            &&& call.rate_limit_bucket == f.rate_limit_bucket
            &&& call.require_binary_diff == f.require_binary_diff
            &&& call.existing_mp_url is None
            &&& call.unchanged_id == (if f.run.main_branch_revision is Some {
                f.unchanged_run->0
            } else {
                None
            })
            &&& f.allow_create_proposal is Some ==> call.allow_create_proposal
                == f.allow_create_proposal->0
            &&& f.allow_create_proposal is None ==> (call.allow_create_proposal
                <==> f.campaign.value_threshold is None || f.run.value is None || f.run.value->0
                >= f.campaign.value_threshold->0)
        },
{
}

/// Whether all that is asked before a publish was answered, in favour of it.
pub open spec fn is_answered(f: DirectPublish) -> bool {
    &&& result_branch(f.run, f.role@) matches Some(branch)
    &&& branch.revision is Some
    &&& f.base_target is Some
    &&& f.role_target is Some
    &&& f.unchanged_run is Some
    &&& f.derived_name is Some
    &&& f.manager_known == Some(true)
}

/// A branch that can be published is published, and what came of it is stored and
/// announced.
pub proof fn lemma_requests_are_carried_out(f: DirectPublish)
    requires
        is_answered(f),
    ensures
        f.outcome is None ==> direct_next(f) is Publish,
        f.outcome is Some && (f.outcome->0 is Published || f.outcome->0 is Failed) ==> {
            &&& !f.stored ==> direct_next(f) is Store
            &&& f.stored && f.counted && !f.announced ==> direct_next(f) is Announce
        },
{
}

/// Whether a record is that of what a publish arrived at.
pub open spec fn is_direct_record(storing: Storing, f: DirectPublish, outcome: PolicyOutcome) -> bool {
    &&& storing.run_id == f.run.id
    &&& storing.change_set == f.run.change_set
    &&& storing.codebase == f.run.codebase
    &&& storing.main_branch_revision == f.run.main_branch_revision
    &&& storing.revision == f.run.revision
    &&& storing.role == f.role
    &&& storing.requester == f.requester
    &&& f.mode != Mode::AttemptPush ==> storing.mode == f.mode
    &&& match outcome {
        PolicyOutcome::Published(result) => {
            &&& storing.outcome == StoredOutcome::Published
            &&& storing.branch_name == Some(result.branch_name)
            &&& storing.target_branch_url == result.target_branch_url
            &&& storing.target_branch_web_url == result.target_branch_web_url
            &&& storing.merge_proposal_url == result.proposal_url
            &&& f.mode == Mode::AttemptPush ==> storing.mode == (if result.proposal_url is Some {
                Mode::Propose
            } else {
                Mode::Push
            })
        },
        PolicyOutcome::Failed { code, description } => {
            &&& storing.outcome == (StoredOutcome::Failed { code, description })
            &&& storing.branch_name == f.campaign.branch_name
            &&& Some(storing.target_branch_url) == f.role_target
            &&& storing.target_branch_web_url is None
            &&& storing.merge_proposal_url is None
            &&& storing.mode == f.mode
        },
        _ => false,
    }
}

/// What is stored and announced of a publish is what it arrived at, a failure with
/// the code and the description that it failed with; and only a proposal that the
/// publish opened is counted.
pub proof fn lemma_stored_is_what_was_requested(f: DirectPublish)
    ensures
        direct_next(f) matches DirectStep::Store(storing) ==> f.outcome is Some && is_direct_record(
            storing,
            f,
            f.outcome->0,
        ),
        direct_next(f) matches DirectStep::Announce(storing) ==> f.stored && f.outcome is Some
            && is_direct_record(storing, f, f.outcome->0),
        direct_next(f) matches DirectStep::CountProposal { bucket } ==> {
            &&& f.stored
            &&& f.rate_limit_bucket == Some(bucket)
            &&& f.outcome matches Some(PolicyOutcome::Published(result))
            &&& result.proposal_url is Some
            &&& result.is_new == Some(true)
        },
{
}

/// What is looked up is about the run and the role at hand, and a publish ends
/// only for a cause.
pub proof fn lemma_direct_steps_have_their_cause(f: DirectPublish)
    ensures
        match direct_next(f) {
            DirectStep::FindRoleBranch { url, name } => {
                &&& f.base_target == Some(url)
                &&& result_branch(f.run, f.role@) matches Some(branch)
                &&& name == branch.remote_name
            },
            DirectStep::FindUnchangedRun { codebase, revision } => codebase == f.run.codebase
                && f.run.main_branch_revision == Some(revision) && f.unchanged_run is None,
            DirectStep::DeriveBranchName { role } => role == f.role && f.derived_name is None,
            DirectStep::FindVcsManager { vcs_type } => vcs_type == f.run.vcs_type && f.manager_known
                is None,
            DirectStep::Done(DirectEnd::NoBranchForRole) => result_branch(f.run, f.role@) is None,
            DirectStep::Done(DirectEnd::NoRevision) => result_branch(
                f.run,
                f.role@,
            ) matches Some(branch) && branch.revision is None,
            DirectStep::Done(DirectEnd::InvalidTarget) => f.base_target is None,
            DirectStep::Done(DirectEnd::NoVcsManager) => f.manager_known == Some(false),
            DirectStep::Done(DirectEnd::Busy) => f.outcome == Some(PolicyOutcome::Busy),
            DirectStep::Done(DirectEnd::Refused(e)) => f.outcome == Some(PolicyOutcome::Refused(e)),
            DirectStep::Done(DirectEnd::Recorded) => f.stored && f.announced && f.outcome is Some
                && (f.outcome->0 is Published || f.outcome->0 is Failed),
            _ => true,
        },
{
}

/// A publish fails just where its repository has no valid URL, or where it could
/// not be tried.
pub proof fn lemma_direct_result_tells_the_end(end: DirectEnd, e: PublishError)
    ensures
        direct_result(end) == Err::<(), DirectError>(DirectError::InvalidTarget) <==> end
            == DirectEnd::InvalidTarget,
        direct_result(end) == Err::<(), DirectError>(DirectError::Refused(e)) <==> end
            == DirectEnd::Refused(e),
{
}

/// A publish starts out with what was requested, and with nothing else known.
pub proof fn lemma_starts_as_requested(
    f: DirectPublish,
    run: Run,
    mode: Mode,
    role: String,
    rate_limit_bucket: Option<String>,
    allow_create_proposal: Option<bool>,
    require_binary_diff: bool,
    requester: Option<Requester>,
    campaign: CampaignFacts,
)
    requires
        is_direct_start(
            f,
            run,
            mode,
            role,
            rate_limit_bucket,
            allow_create_proposal,
            require_binary_diff,
            requester,
            campaign,
        ),
    ensures
        f.run == run && f.mode == mode && f.role == role,
        f.rate_limit_bucket == rate_limit_bucket,
        f.allow_create_proposal == allow_create_proposal,
        f.require_binary_diff == require_binary_diff,
        f.requester == requester,
        f.campaign == campaign,
        run.target_branch_url matches Some(url) ==> opt_text(f.base_target) == normal_form(
            parsed_url(url@),
        ),
        run.target_branch_url is None ==> opt_text(f.base_target) == normal_form(
            parsed_url(run.branch_url@),
        ),
        f.outcome is None && !f.stored && !f.counted && !f.announced,
        f.role_target is None && f.unchanged_run is None && f.derived_name is None,
        f.manager_known is None,
{
}

} // verus!
