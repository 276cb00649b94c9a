//! Closing a merge proposal.
use crate::publish::existing::steps::{AbandonMode, CloseOutcome, Closing, close_comment};
use crate::publish::proposal_info::ProposalRecord;
use crate::publish::types::MergeProposalStatus;
use crate::text::opt_text;
use crate::urls::{normal_form, normalize_url, parsed_url};
use vstd::prelude::*;

verus! {

/// What is known in the course of closing a proposal.
#[derive(Debug)]
pub struct MpClosing {
    /// The proposal.
    pub mp_url: String,
    /// Why it is closed.
    pub mode: AbandonMode,
    /// Tip of its source branch.
    pub revision: String,
    /// Codebase that it belongs to.
    pub codebase: Option<String>,
    /// Campaign that it belongs to.
    pub campaign: Option<String>,
    /// Whether the forge would let it be merged.
    pub can_be_merged: Option<bool>,
    /// Bucket that it counts towards.
    pub rate_limit_bucket: Option<String>,
    /// What to tell it, if anything.
    pub comment: Option<String>,
    /// Normal form of its target branch's URL, where that is a URL.
    pub target_url: Option<String>,
    /// Whether its new state could be recorded, once that was tried.
    pub recorded: Option<bool>,
    /// Whether it was attempted to post the comment.
    pub commented: bool,
    /// How the attempt to close it ended.
    pub outcome: Option<CloseOutcome>,
}

/// What to do next.
#[derive(Debug)]
pub enum ClosingStep {
    /// Record its new state.
    Record(ProposalRecord),
    /// Post a comment. A comment that cannot be posted is no reason to stop.
    PostComment {
        /// The comment.
        comment: String,
    },
    /// Close it.
    Close,
    /// Nothing: this is how it ended.
    Done(CloseOutcome),
}

/// The state to record.
pub open spec fn closing_status(mode: AbandonMode) -> MergeProposalStatus {
    match mode {
        AbandonMode::Abandoned => MergeProposalStatus::Abandoned,
        AbandonMode::Applied => MergeProposalStatus::Applied,
    }
}

/// What to record of a proposal.
pub open spec fn closing_record(f: MpClosing, target_branch_url: String) -> ProposalRecord {
    ProposalRecord {
        url: f.mp_url,
        status: closing_status(f.mode),
        revision: Some(f.revision),
        codebase: f.codebase,
        target_branch_url,
        campaign: f.campaign,
        can_be_merged: f.can_be_merged,
        rate_limit_bucket: f.rate_limit_bucket,
    }
}

/// The next step of closing a proposal.
pub open spec fn closing_next(f: MpClosing) -> ClosingStep {
    match (f.target_url, f.recorded) {
        (None, _) => ClosingStep::Done(CloseOutcome::Failed),
        (Some(target_branch_url), None) => ClosingStep::Record(
            closing_record(f, target_branch_url),
        ),
        (Some(_), Some(false)) => ClosingStep::Done(CloseOutcome::Failed),
        (Some(_), Some(true)) => if f.comment is Some && !f.commented {
            ClosingStep::PostComment { comment: f.comment->0 }
        } else {
            match f.outcome {
                None => ClosingStep::Close,
                Some(outcome) => ClosingStep::Done(outcome),
            }
        },
    }
}

/// Starts to close a proposal for the given reason.
fn start_closing(
    mode: AbandonMode,
    mp_url: String,
    revision: String,
    codebase: Option<String>,
    target_branch_url: &str,
    campaign: Option<String>,
    can_be_merged: Option<bool>,
    rate_limit_bucket: Option<String>,
    comment: Option<String>,
) -> (r: MpClosing)
    ensures
        r == (MpClosing {
            mp_url,
            mode,
            revision,
            codebase,
            campaign,
            can_be_merged,
            rate_limit_bucket,
            comment,
            target_url: r.target_url,
            recorded: None,
            commented: false,
            outcome: None,
        }),
        opt_text(r.target_url) == normal_form(parsed_url(target_branch_url@)),
{
    MpClosing {
        mp_url,
        mode,
        revision,
        codebase,
        campaign,
        can_be_merged,
        rate_limit_bucket,
        comment,
        target_url: normalize_url(target_branch_url),
        recorded: None,
        commented: false,
        outcome: None,
    }
}

/// Starts to give up a proposal.
pub fn abandon_mp(
    mp_url: String,
    revision: String,
    codebase: Option<String>,
    target_branch_url: &str,
    campaign: Option<String>,
    can_be_merged: Option<bool>,
    rate_limit_bucket: Option<String>,
    comment: Option<String>,
) -> (r: MpClosing)
    ensures
        r == (MpClosing {
            mp_url,
            mode: AbandonMode::Abandoned,
            revision,
            codebase,
            campaign,
            can_be_merged,
            rate_limit_bucket,
            comment,
            target_url: r.target_url,
            recorded: None,
            commented: false,
            outcome: None,
        }),
        opt_text(r.target_url) == normal_form(parsed_url(target_branch_url@)),
{
    start_closing(
        AbandonMode::Abandoned,
        mp_url,
        revision,
        codebase,
        target_branch_url,
        campaign,
        can_be_merged,
        rate_limit_bucket,
        comment,
    )
}

/// Starts to close a proposal whose changes were applied in another way.
pub fn close_applied_mp(
    mp_url: String,
    revision: String,
    codebase: Option<String>,
    target_branch_url: &str,
    campaign: Option<String>,
    can_be_merged: Option<bool>,
    rate_limit_bucket: Option<String>,
    comment: Option<String>,
) -> (r: MpClosing)
    ensures
        r == (MpClosing {
            mp_url,
            mode: AbandonMode::Applied,
            revision,
            codebase,
            campaign,
            can_be_merged,
            rate_limit_bucket,
            comment,
            target_url: r.target_url,
            recorded: None,
            commented: false,
            outcome: None,
        }),
        opt_text(r.target_url) == normal_form(parsed_url(target_branch_url@)),
{
    start_closing(
        AbandonMode::Applied,
        mp_url,
        revision,
        codebase,
        target_branch_url,
        campaign,
        can_be_merged,
        rate_limit_bucket,
        comment,
    )
}

/// Starts to close a proposal as a check decided.
pub fn close_as_decided(mp_url: String, closing: Closing) -> (r: MpClosing)
    ensures
        opt_text(r.comment) == Some(close_comment(closing.reason)),
        opt_text(r.target_url) == normal_form(parsed_url(closing.target_branch_url@)),
        r == (MpClosing {
            mp_url,
            mode: closing.mode,
            revision: closing.revision,
            codebase: closing.codebase,
            campaign: Some(closing.campaign),
            can_be_merged: closing.can_be_merged,
            rate_limit_bucket: closing.rate_limit_bucket,
            comment: r.comment,
            target_url: r.target_url,
            recorded: None,
            commented: false,
            outcome: None,
        }),
{
    let comment = closing.reason.comment();
    start_closing(
        closing.mode,
        mp_url,
        closing.revision,
        closing.codebase,
        closing.target_branch_url.as_str(),
        Some(closing.campaign),
        closing.can_be_merged,
        closing.rate_limit_bucket,
        Some(comment),
    )
}

impl MpClosing {
    /// What to do next.
    pub fn next(&self) -> (r: ClosingStep)
        ensures
            r == closing_next(*self),
    {
        let target_branch_url = match &self.target_url {
            None => {
                return ClosingStep::Done(CloseOutcome::Failed);
            },
            Some(url) => url,
        };
        match self.recorded {
            None => {
                let status = match self.mode {
                    AbandonMode::Abandoned => MergeProposalStatus::Abandoned,
                    AbandonMode::Applied => MergeProposalStatus::Applied,
                };
                return ClosingStep::Record(
                    ProposalRecord {
                        url: self.mp_url.clone(),
                        status,
                        revision: Some(self.revision.clone()),
                        codebase: self.codebase.clone(),
                        target_branch_url: target_branch_url.clone(),
                        campaign: self.campaign.clone(),
                        can_be_merged: self.can_be_merged,
                        rate_limit_bucket: self.rate_limit_bucket.clone(),
                    },
                );
            },
            Some(false) => {
                return ClosingStep::Done(CloseOutcome::Failed);
            },
            Some(true) => {},
        }
        if let Some(comment) = &self.comment {
            if !self.commented {
                return ClosingStep::PostComment { comment: comment.clone() };
            }
        }
        match &self.outcome {
            None => ClosingStep::Close,
            Some(CloseOutcome::Closed) => ClosingStep::Done(CloseOutcome::Closed),
            Some(CloseOutcome::Failed) => ClosingStep::Done(CloseOutcome::Failed),
            Some(CloseOutcome::PermissionDenied(text)) => ClosingStep::Done(
                CloseOutcome::PermissionDenied(text.clone()),
            ),
        }
    }

    /// Notes down whether the new state could be recorded.
    pub fn note_recorded(&mut self, ok: bool)
        ensures
            *final(self) == (MpClosing { recorded: Some(ok), ..*old(self) }),
    {
        self.recorded = Some(ok);
    }

    /// Notes down that it was attempted to post the comment.
    pub fn note_commented(&mut self)
        ensures
            *final(self) == (MpClosing { commented: true, ..*old(self) }),
    {
        self.commented = true;
    }

    /// Notes down how the attempt to close the proposal ended.
    pub fn note_closed(&mut self, outcome: CloseOutcome)
        ensures
            *final(self) == (MpClosing { outcome: Some(outcome), ..*old(self) }),
    {
        self.outcome = Some(outcome);
    }
}

/// A proposal is told why, and is closed, only after its new state is on record.
pub proof fn lemma_recorded_before_closed(f: MpClosing)
    ensures
        closing_next(f) is Close || closing_next(f) is PostComment ==> f.recorded == Some(true),
        closing_next(f) == ClosingStep::Done(CloseOutcome::Closed) ==> f.recorded == Some(true),
{
}

/// A proposal that is abandoned is recorded as abandoned, one whose changes were
/// applied as applied; the record is of that proposal and its run.
pub proof fn lemma_recorded_as_what_it_is(f: MpClosing)
    ensures
        closing_next(f) matches ClosingStep::Record(record) ==> {
            &&& f.recorded is None
            &&& record.url == f.mp_url
            &&& f.mode is Abandoned ==> record.status == MergeProposalStatus::Abandoned
            &&& f.mode is Applied ==> record.status == MergeProposalStatus::Applied
            &&& record.revision == Some(f.revision)
            &&& record.codebase == f.codebase
            &&& record.campaign == f.campaign
            &&& f.target_url == Some(record.target_branch_url)
            &&& record.can_be_merged == f.can_be_merged
            &&& record.rate_limit_bucket == f.rate_limit_bucket
        },
{
}

/// Once the record is made, the comment is posted, if there is one, and the proposal
/// is closed; how that went is what is answered.
pub proof fn lemma_closing_goes_on_to_its_end(f: MpClosing)
    requires
        f.target_url is Some,
    ensures
        f.recorded is None ==> closing_next(f) is Record,
        f.recorded == Some(true) && f.comment is Some && !f.commented ==> closing_next(f)
            == (ClosingStep::PostComment { comment: f.comment->0 }),
        f.recorded == Some(true) && (f.comment is Some ==> f.commented) ==> match f.outcome {
            None => closing_next(f) is Close,
            Some(outcome) => closing_next(f) == ClosingStep::Done(outcome),
        },
{
}

/// Nothing is posted or closed where the record could not be made, or where the
/// target is no URL.
pub proof fn lemma_unrecorded_is_not_closed(f: MpClosing)
    requires
        f.target_url is None || f.recorded == Some(false),
    ensures
        closing_next(f) == ClosingStep::Done(CloseOutcome::Failed),
{
}

} // verus!
