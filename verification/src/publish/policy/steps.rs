//! What a publish under a policy finds out and does.
use crate::publish::errors::PublishError;
use crate::publish::existing::steps::CampaignFacts;
use crate::publish::record::Storing;
use crate::publish::run::Run;
use crate::publish::schedule::{Requester, RunRequest};
use crate::publish::types::Mode;
use crate::publish::worker::{PublishCall, PublishOneResult};
use crate::time::Timestamp;
use vstd::prelude::*;

verus! {

/// When a campaign was last published for a codebase.
#[derive(Clone, Copy, Debug, PartialEq, Eq, Structural)]
pub struct LastPublished {
    /// When that was.
    pub at: Timestamp,
    /// When it was looked up.
    pub seen: Timestamp,
}

/// How an attempt to publish ended.
#[derive(Debug)]
pub enum PolicyOutcome {
    /// It was published.
    Published(PublishOneResult),
    /// Somebody else holds the branch.
    Busy,
    /// It failed; holds what to record of the failure.
    Failed {
        /// Code to record.
        code: String,
        /// Description to record.
        description: String,
    },
    /// It could not be tried.
    Refused(PublishError),
}

/// What asks for a publish under a policy.
#[derive(Debug)]
pub struct PolicyOrder {
    /// The role of the branch to publish.
    pub role: String,
    /// The bucket that a new proposal counts towards.
    pub rate_limit_bucket: Option<String>,
    /// The repository to publish to.
    pub target_branch_url: String,
    /// How to publish.
    pub mode: Mode,
    /// Days between two proposals, at least.
    pub max_frequency_days: Option<i32>,
    /// The command of the campaign as it is now.
    pub command: String,
    /// Whether the binary packages must have been compared.
    pub require_binary_diff: bool,
    /// Whether to publish though it was published before.
    pub force: bool,
    /// In whose name to publish.
    pub requester: Option<Requester>,
}

/// What is known in the course of a publish. Each field that starts out empty is
/// the answer to one step.
#[derive(Debug)]
pub struct PolicyPublish {
    /// The run to publish.
    pub run: Run,
    /// The role of the branch to publish.
    pub role: String,
    /// The bucket that a new proposal counts towards.
    pub rate_limit_bucket: Option<String>,
    /// The repository to publish to.
    pub target_branch_url: String,
    /// How to publish.
    pub mode: Mode,
    /// Days between two proposals, at least.
    pub max_frequency_days: Option<i32>,
    /// The command of the campaign as it is now.
    pub command: String,
    /// Whether the binary packages must have been compared.
    pub require_binary_diff: bool,
    /// Whether to publish though it was published before.
    pub force: bool,
    /// In whose name to publish.
    pub requester: Option<Requester>,
    /// The campaign.
    pub campaign: CampaignFacts,
    /// Whether a run with the new command was asked for.
    pub rescheduled: bool,
    /// Answer to [`PolicyStep::FindRoleBranch`].
    pub role_target: Option<String>,
    /// Answer to [`PolicyStep::LookForPublish`].
    pub already_published: Option<bool>,
    /// Answer to [`PolicyStep::LookForOpenProposal`].
    pub open_proposal: Option<bool>,
    /// Answer to [`PolicyStep::AskBucket`].
    pub bucket_allows: Option<bool>,
    /// Answer to [`PolicyStep::FindLastPublished`].
    pub last_published: Option<Option<LastPublished>>,
    /// Answer to [`PolicyStep::FindUnchangedRun`]: id and result.
    pub unchanged_run: Option<Option<(String, String)>>,
    /// Answer to [`PolicyStep::DeriveBranchName`].
    pub derived_name: Option<String>,
    /// Answer to [`PolicyStep::FindVcsManager`].
    pub manager_known: Option<bool>,
    /// Answer to [`PolicyStep::Publish`].
    pub outcome: Option<PolicyOutcome>,
    /// Whether the outcome was recorded.
    pub stored: bool,
    /// Whether a new proposal was counted.
    pub counted: bool,
    /// Whether the outcome was announced.
    pub announced: bool,
}

/// How a publish under a policy ended.
#[derive(Debug)]
pub enum PolicyEnd {
    /// The campaign has no command.
    NoCommand,
    /// The command of the campaign is not the one that was run.
    CommandChanged,
    /// The policy wants nothing published.
    NotWanted,
    /// The run has no result branches.
    NoResultBranches,
    /// The run has no branch with the role.
    NoBranchForRole,
    /// The branch has no revision.
    NoRevision,
    /// It was published before.
    AlreadyPublished,
    /// The bucket is full, or the last proposal is too recent.
    HeldBack,
    /// Branches of this kind cannot be published.
    NoVcsManager,
    /// Somebody else holds the branch.
    Busy,
    /// It was published in this mode.
    Published(Mode),
    /// It failed, and that was recorded.
    NotPublished,
    /// It could not be tried.
    Refused(PublishError),
}

/// What to find out or to do next.
#[derive(Debug)]
pub enum PolicyStep {
    /// Ask for a run with the new command.
    RescheduleChangedCommand(RunRequest),
    /// Find the URL of a branch of a repository.
    FindRoleBranch {
        /// The repository.
        url: String,
        /// Name of the branch.
        name: String,
    },
    /// Find out whether this was published before, in one of
    /// [`crate::publish::policy::decision::earlier_modes`].
    LookForPublish {
        /// Target branch.
        target_branch_url: String,
        /// Name that the campaign gives its branches.
        branch_name: Option<String>,
        /// The revision.
        revision: String,
        /// How to publish.
        mode: Mode,
    },
    /// Find out whether a proposal is open for the codebase and the branch.
    LookForOpenProposal {
        /// The codebase.
        codebase: String,
        /// Name that the campaign gives its branches.
        branch_name: Option<String>,
    },
    /// Find out whether the bucket has room for a proposal.
    AskBucket {
        /// The bucket.
        bucket: String,
    },
    /// Find out when the campaign was last published for the codebase.
    FindLastPublished {
        /// The campaign.
        campaign: String,
        /// The codebase.
        codebase: String,
    },
    /// Find the last run on a revision, and its result.
    FindUnchangedRun {
        /// The codebase.
        codebase: String,
        /// The revision.
        revision: String,
    },
    /// Find the name of the source branch.
    DeriveBranchName {
        /// Role of the branch.
        role: String,
    },
    /// Find out whether branches of this kind can be published.
    FindVcsManager {
        /// The kind.
        vcs_type: String,
    },
    /// Publish.
    Publish(PublishCall),
    /// Record the outcome.
    Store(Storing),
    /// Count a new proposal, towards its bucket where it has one.
    CountProposal {
        /// The bucket.
        bucket: Option<String>,
    },
    /// Announce the outcome.
    Announce(Storing),
    /// The publish is over.
    Done(PolicyEnd),
}

} // verus!
