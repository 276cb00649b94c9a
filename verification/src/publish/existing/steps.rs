//! What a check finds out and does.
use crate::publish::errors::CheckMpError;
use crate::publish::proposal_info::{ProposalInfo, ProposalRecord};
use crate::publish::record::Storing;
use crate::publish::run::Run;
use crate::publish::schedule::RunRequest;
use crate::publish::state::MergeProposalRun;
use crate::publish::types::{ForgeMpStatus, MergeProposalStatus};
use crate::publish::worker::{PublishCall, PublishOneResult};
use crate::time::Timestamp;
use vstd::prelude::*;

verus! {

/// What the forge says of a proposal.
#[derive(Debug)]
pub struct ForgeFacts {
    /// Tip of the source branch.
    pub revision: Option<String>,
    /// Where the source branch is.
    pub source_branch_url: Option<String>,
    /// Whether the forge would let the proposal be merged.
    pub can_be_merged: Option<bool>,
    /// Where the target branch is.
    pub target_branch_url: Option<String>,
}

/// A branch that could be opened.
#[derive(Debug)]
pub struct OpenedBranch {
    /// Its tip.
    pub revision: String,
    /// Its name, if it has one.
    pub name: Option<String>,
}

/// What the check reads of a campaign.
#[derive(Debug)]
pub struct CampaignFacts {
    /// Value below which a change is not worth a proposal.
    pub value_threshold: Option<i32>,
    /// Name that the campaign gives its branches.
    pub branch_name: Option<String>,
}

/// How an attempt to close a proposal ended.
#[derive(Debug)]
pub enum CloseOutcome {
    /// It is closed.
    Closed,
    /// The forge did not let us; holds what it said.
    PermissionDenied(String),
    /// It failed in another way.
    Failed,
}

/// How an attempt to update a proposal ended.
#[derive(Debug)]
pub enum UpdateOutcome {
    /// It is updated.
    Updated(PublishOneResult),
    /// Somebody else holds the branch.
    Busy,
    /// It failed; holds what to record of the failure.
    Failed {
        /// Code to record.
        code: String,
        /// Description to record.
        description: String,
    },
}

/// Why a proposal leaves the open state.
#[derive(Clone, Copy, Debug, PartialEq, Eq, Structural)]
pub enum AbandonMode {
    /// We give it up.
    Abandoned,
    /// The changes were applied in another way.
    Applied,
}

/// What the proposal is told when it is closed.
#[derive(Debug)]
pub enum CloseReason {
    /// The changes were applied in another way.
    AppliedIndependently,
    /// What is left is not worth a proposal.
    OnlyTrivialChangesLeft,
    /// The target branch has another name now.
    BranchChanged {
        /// Role of the branch.
        role: String,
        /// Name that it had.
        from: String,
        /// Name that it has now.
        to: String,
    },
}

/// The comment for a reason.
pub open spec fn close_comment(reason: CloseReason) -> Seq<char> {
    match reason {
        CloseReason::AppliedIndependently =>
            "This merge proposal will be closed, since all remaining changes have been applied independently."@,
        CloseReason::OnlyTrivialChangesLeft =>
            "This merge proposal will be closed, since only trivial changes are left."@,
        CloseReason::BranchChanged { role, from, to } =>
            "This merge proposal will be closed, since the branch for the role '"@ + role@
            + "' has changed from "@ + from@ + " to "@ + to@ + "."@,
    }
}

impl CloseReason {
    /// The comment for this reason.
    pub fn comment(&self) -> (r: String)
        ensures
            r@ == close_comment(*self),
    {
        match self {
            CloseReason::AppliedIndependently =>
                "This merge proposal will be closed, since all remaining changes have been applied independently.".to_owned(),
            CloseReason::OnlyTrivialChangesLeft =>
                "This merge proposal will be closed, since only trivial changes are left.".to_owned(),
            CloseReason::BranchChanged { role, from, to } =>
                "This merge proposal will be closed, since the branch for the role '".to_owned().concat(
                role.as_str(),
            ).concat("' has changed from ").concat(from.as_str()).concat(" to ").concat(
                to.as_str(),
            ).concat("."),
        }
    }
}

/// A proposal to close, and what to record of it.
#[derive(Debug)]
pub struct Closing {
    /// State to record.
    pub mode: AbandonMode,
    /// What to tell the proposal.
    pub reason: CloseReason,
    /// Tip of the source branch.
    pub revision: String,
    /// Codebase of the proposal.
    pub codebase: Option<String>,
    /// Target branch of the proposal.
    pub target_branch_url: String,
    /// Campaign of the proposal.
    pub campaign: String,
    /// Whether the forge would let it be merged.
    pub can_be_merged: Option<bool>,
    /// Bucket of the proposal.
    pub rate_limit_bucket: Option<String>,
}

/// A run together with its branch URL in normal form.
#[derive(Debug)]
pub struct SourceRun {
    /// The run.
    pub run: MergeProposalRun,
    /// Normal form of its branch URL, where that is a URL.
    pub url: Option<String>,
}

/// The last run of a campaign on a codebase.
#[derive(Debug)]
pub struct LastRun {
    /// The run.
    pub run: Run,
    /// Normal form of its branch URL, where that is a URL.
    pub url: Option<String>,
    /// When it was looked at.
    pub seen: Timestamp,
}

/// What is known in the course of a check. Each field that starts out empty is
/// the answer to one step.
#[derive(Debug)]
pub struct MpCheck {
    /// The proposal.
    pub mp_url: String,
    /// Its state on the forge.
    pub status: ForgeMpStatus,
    /// Whether to only bring the record up to date.
    pub check_only: bool,
    /// When the check started.
    pub now: Timestamp,
    /// What was recorded before.
    pub persisted: Option<ProposalInfo>,
    /// Whether the record has been brought up to date.
    pub scanned: bool,
    /// Whether the proposal has been counted towards its bucket.
    pub counted: bool,
    /// Answer to [`MpStep::FetchForge`].
    pub forge: Option<ForgeFacts>,
    /// Answer to [`MpStep::OpenSourceBranch`]; empty inside where the branch
    /// cannot be opened.
    pub source_branch: Option<Option<OpenedBranch>>,
    /// Answer to [`MpStep::SplitSourceUrl`].
    pub source_url_branch: Option<Option<String>>,
    /// Answer to [`MpStep::GuessCodebase`].
    pub codebase_guess: Option<Option<String>>,
    /// Answer to [`MpStep::GuessFromRevision`]: codebase and bucket.
    pub revision_guess: Option<Option<(String, Option<String>)>>,
    /// Answer to [`MpStep::GuessBucket`].
    pub bucket_guess: Option<Option<String>>,
    /// Answer to [`MpStep::LoadRecordedRun`].
    pub recorded_run: Option<Option<SourceRun>>,
    /// Answer to [`MpStep::LoadCurrentRun`].
    pub current_run: Option<Option<SourceRun>>,
    /// Answer to [`MpStep::FindCampaign`]: campaign and role.
    pub orphan_campaign: Option<Option<(String, String)>>,
    /// Answer to [`MpStep::LookForRun`].
    pub orphan_has_run: Option<bool>,
    /// Whether a run for an orphaned proposal could be asked for.
    pub orphan_rescheduled: Option<bool>,
    /// The run that is assumed for an orphaned proposal.
    pub recovered_run: Option<SourceRun>,
    /// Answer to [`MpStep::LoadLastRun`].
    pub last_run: Option<Option<LastRun>>,
    /// Answer to [`MpStep::LoadCampaign`].
    pub campaign: Option<Option<CampaignFacts>>,
    /// Answer to [`MpStep::Close`].
    pub close_outcome: Option<CloseOutcome>,
    /// Whether a run was asked for.
    pub rescheduled: bool,
    /// Answer to [`MpStep::RenameTarget`].
    pub renamed: Option<bool>,
    /// Answer to [`MpStep::FindRoleBranch`].
    pub renamed_target: Option<String>,
    /// Answer to [`MpStep::CompareBranches`].
    pub same_branch: Option<bool>,
    /// Answer to [`MpStep::DeriveBranchName`].
    pub derived_name: Option<String>,
    /// Answer to [`MpStep::FindUnchangedRun`].
    pub unchanged_run: Option<Option<String>>,
    /// Answer to [`MpStep::FindVcsManager`].
    pub manager_known: Option<bool>,
    /// Answer to [`MpStep::Republish`].
    pub update: Option<UpdateOutcome>,
    /// Whether the outcome of the update was recorded.
    pub stored: bool,
}

/// What to find out or to do next.
#[derive(Debug)]
pub enum MpStep {
    /// Ask the forge for the details of the proposal.
    FetchForge,
    /// Open the source branch.
    OpenSourceBranch {
        /// Where it is.
        url: String,
    },
    /// Read the branch name out of the source branch's URL.
    SplitSourceUrl {
        /// The URL.
        url: String,
    },
    /// Find the codebase by its branch URL.
    GuessCodebase {
        /// The URL.
        target_url: String,
    },
    /// Find codebase and bucket by the revision of a result branch.
    GuessFromRevision {
        /// The revision.
        revision: String,
    },
    /// Find the bucket by codebase and source branch.
    GuessBucket {
        /// The codebase.
        codebase: String,
        /// Name of the source branch.
        branch_name: String,
    },
    /// Find the run of the proposal as it was recorded before.
    LoadRecordedRun,
    /// Write the record of the proposal.
    UpdateInfo(ProposalRecord),
    /// Note that the record is still right.
    BumpLastScanned,
    /// Count the proposal towards its bucket.
    CountBucket {
        /// State to count it under.
        status: MergeProposalStatus,
        /// The bucket.
        bucket: String,
    },
    /// Find the run of the proposal as it is recorded now.
    LoadCurrentRun,
    /// Find the campaign that names its branches like this.
    FindCampaign {
        /// Name of the branch.
        branch_name: String,
    },
    /// Find out whether the campaign ever ran on the codebase.
    LookForRun {
        /// The codebase.
        codebase: String,
        /// The campaign.
        campaign: String,
    },
    /// Find the last run of the campaign on the codebase.
    LoadLastRun {
        /// The codebase.
        codebase: String,
        /// The campaign.
        campaign: String,
    },
    /// Find the campaign.
    LoadCampaign {
        /// Its name.
        name: String,
    },
    /// Close the proposal.
    Close(Closing),
    /// Ask for a run.
    Reschedule(RunRequest),
    /// Point the proposal at another target branch.
    RenameTarget {
        /// Name of the branch.
        name: String,
    },
    /// Find the URL of a branch of a repository.
    FindRoleBranch {
        /// The repository.
        url: String,
        /// Name of the branch.
        name: String,
    },
    /// Find out whether two URLs are the same branch.
    CompareBranches {
        /// Branch of the run that the proposal came from.
        ours: Option<String>,
        /// Branch of the last run.
        theirs: Option<String>,
    },
    /// Find the name of the source branch.
    DeriveBranchName {
        /// Role of the branch.
        role: String,
    },
    /// Find a successful run on a revision.
    FindUnchangedRun {
        /// The codebase.
        codebase: String,
        /// The revision.
        revision: String,
    },
    /// Find out whether branches of this kind can be published.
    FindVcsManager {
        /// The kind.
        vcs_type: String,
    },
    /// Update the proposal.
    Republish(PublishCall),
    /// Record the outcome of the update.
    Store(Storing),
    /// The check is over; whether the proposal was modified.
    Done(Result<bool, CheckMpError>),
}

/// The comment on a branch that changed says for which role, then from which name to
/// which.
pub proof fn lemma_comment_says_what_changed(role: String, from: String, to: String)
    ensures
        ({
            let comment = close_comment(CloseReason::BranchChanged { role, from, to });
            &&& ("This merge proposal will be closed, since the branch for the role '"@
                + role@).is_prefix_of(comment)
            &&& (" from "@ + from@ + " to "@ + to@ + "."@).is_suffix_of(comment)
        }),
{
    reveal_strlit("' has changed from ");
    reveal_strlit(" from ");
    let comment = close_comment(CloseReason::BranchChanged { role, from, to });
    let start = "This merge proposal will be closed, since the branch for the role '"@ + role@;
    let middle = "' has changed from "@;
    let end = " from "@ + from@ + " to "@ + to@ + "."@;
    assert(comment.subrange(0, start.len() as int) =~= start);
    assert(middle.subrange(middle.len() - 6, middle.len() as int) =~= " from "@);
    let rest = from@ + " to "@ + to@ + "."@;
    assert(comment =~= start + middle + rest);
    assert(end =~= " from "@ + rest);
    assert(comment.subrange(comment.len() - end.len(), comment.len() as int) =~= end) by {
        assert forall|i: int| 0 <= i < end.len() implies comment[comment.len() - end.len() + i]
            == end[i] by {
            if i < 6 {
                assert(middle.subrange(middle.len() - 6, middle.len() as int)[i] == " from "@[i]);
            }
        }
    }
}

/// Proposals that are closed for different reasons are told so in different words.
pub proof fn lemma_reasons_are_told_apart()
    ensures
        close_comment(CloseReason::AppliedIndependently) != close_comment(
            CloseReason::OnlyTrivialChangesLeft,
        ),
{
    reveal_strlit(
        "This merge proposal will be closed, since all remaining changes have been applied independently.",
    );
    reveal_strlit("This merge proposal will be closed, since only trivial changes are left.");
    assert(close_comment(CloseReason::AppliedIndependently)[42] == 'a');
    assert(close_comment(CloseReason::OnlyTrivialChangesLeft)[42] == 'o');
}

} // verus!
