//! The record of a publish.
use crate::publish::schedule::Requester;
use crate::publish::types::Mode;
use crate::text::str_eq;
use vstd::prelude::*;

verus! {

/// What is recorded as the outcome of a publish.
#[derive(Debug)]
pub enum StoredOutcome {
    /// It was published.
    Published,
    /// The proposal was updated.
    Updated,
    /// There was nothing left in it, and it was closed.
    ClosedAsApplied,
    /// There was nothing left in it, but we may not close it; holds what the
    /// forge said.
    EmptyFailedToClose(String),
    /// It failed.
    Failed {
        /// Code.
        code: String,
        /// Description.
        description: String,
    },
}

/// The code recorded for an outcome.
pub open spec fn stored_code(outcome: StoredOutcome) -> Seq<char> {
    match outcome {
        StoredOutcome::Published => "success"@,
        StoredOutcome::Updated => "success"@,
        StoredOutcome::ClosedAsApplied => "success"@,
        StoredOutcome::EmptyFailedToClose(_) => "empty-failed-to-close"@,
        StoredOutcome::Failed { code, description } => code@,
    }
}

/// The description recorded for an outcome.
pub open spec fn stored_description(outcome: StoredOutcome) -> Seq<char> {
    match outcome {
        StoredOutcome::Published => "Success"@,
        StoredOutcome::Updated => "Successfully updated"@,
        StoredOutcome::ClosedAsApplied =>
            "Closing merge request for which changes were applied independently"@,
        StoredOutcome::EmptyFailedToClose(msg) => "Permission denied closing merge request: "@
            + msg@,
        StoredOutcome::Failed { code, description } => description@,
    }
}

impl StoredOutcome {
    /// The code to record.
    pub fn code(&self) -> (r: &str)
        ensures
            r@ == stored_code(*self),
    {
        match self {
            StoredOutcome::Published => "success",
            StoredOutcome::Updated => "success",
            StoredOutcome::ClosedAsApplied => "success",
            StoredOutcome::EmptyFailedToClose(_) => "empty-failed-to-close",
            StoredOutcome::Failed { code, description } => code.as_str(),
        }
    }

    /// The description to record.
    pub fn description(&self) -> (r: String)
        ensures
            r@ == stored_description(*self),
    {
        match self {
            StoredOutcome::Published => "Success".to_owned(),
            StoredOutcome::Updated => "Successfully updated".to_owned(),
            StoredOutcome::ClosedAsApplied =>
                "Closing merge request for which changes were applied independently".to_owned(),
            StoredOutcome::EmptyFailedToClose(msg) =>
                "Permission denied closing merge request: ".to_owned().concat(msg.as_str()),
            StoredOutcome::Failed { code, description } => description.clone(),
        }
    }
}

/// The outcome of a publish, to be recorded.
#[derive(Debug)]
pub struct Storing {
    /// Run that was published.
    pub run_id: String,
    /// Change set that the run belongs to.
    pub change_set: String,
    /// Codebase of the run.
    pub codebase: String,
    /// Name of the source branch.
    pub branch_name: Option<String>,
    /// Target branch.
    pub target_branch_url: String,
    /// Target branch, for people.
    pub target_branch_web_url: Option<String>,
    /// Revision that the run started from.
    pub main_branch_revision: Option<String>,
    /// Revision that the run arrived at.
    pub revision: Option<String>,
    /// Role of the branch.
    pub role: String,
    /// How it was published.
    pub mode: Mode,
    /// The outcome.
    pub outcome: StoredOutcome,
    /// In whose name it was published.
    pub requester: Option<Requester>,
    /// The proposal, if there is one.
    pub merge_proposal_url: Option<String>,
}

/// What recording a publish does besides adding it to the list of publishes.
#[derive(Clone, Copy, Debug, PartialEq, Eq, Structural)]
pub struct StorePlan {
    /// Record the merge proposal as open.
    pub record_proposal: bool,
    /// Note that the result branch has arrived in the target branch.
    pub mark_absorbed: bool,
    /// Note that the change set is being published, and find out whether
    /// anything is left to publish of it.
    pub advance_change_set: bool,
}

/// Whether a publish fits together: a successful one either proposed something
/// or pushed a known revision.
pub open spec fn is_storable(storing: Storing) -> bool {
    stored_code(storing.outcome) == "success"@ ==> match storing.merge_proposal_url {
        Some(_) => storing.mode == Mode::Propose,
        None => storing.revision is Some && (storing.mode == Mode::Push || storing.mode
            == Mode::PushDerived),
    }
}

/// What recording a publish does.
pub open spec fn store_plan(storing: Storing) -> StorePlan {
    let success = stored_code(storing.outcome) == "success"@;
    StorePlan {
        record_proposal: success && storing.merge_proposal_url is Some,
        mark_absorbed: success && storing.merge_proposal_url is None && storing.mode == Mode::Push,
        advance_change_set: success,
    }
}

impl Storing {
    /// Whether this publish fits together.
    pub fn storable(&self) -> (r: bool)
        ensures
            r == is_storable(*self),
    {
        if !str_eq(self.outcome.code(), "success") {
            return true;
        }
        match &self.merge_proposal_url {
            Some(_) => self.mode == Mode::Propose,
            None => self.revision.is_some() && (self.mode == Mode::Push || self.mode
                == Mode::PushDerived),
        }
    }
}

/// What recording a publish does.
pub fn store_publish(storing: &Storing) -> (r: StorePlan)
    requires
        is_storable(*storing),
    ensures
        r == store_plan(*storing),
{
    let success = str_eq(storing.outcome.code(), "success");
    let proposed = storing.merge_proposal_url.is_some();
    StorePlan {
        record_proposal: success && proposed,
        mark_absorbed: success && !proposed && storing.mode == Mode::Push,
        advance_change_set: success,
    }
}

/// Whether a change set is done: nothing is left to publish of it.
pub fn change_set_is_done(remaining_unpublished: i64) -> (r: bool)
    ensures
        r == (remaining_unpublished == 0),
{
    remaining_unpublished == 0
}

/// A failed publish changes neither proposals, nor branches, nor change sets.
pub proof fn lemma_failure_only_adds_to_the_list(storing: Storing)
    requires
        stored_code(storing.outcome) != "success"@,
    ensures
        store_plan(storing) == (StorePlan {
            record_proposal: false,
            mark_absorbed: false,
            advance_change_set: false,
        }),
        is_storable(storing),
{
}

/// A publish never both records a proposal and marks a branch as arrived.
pub proof fn lemma_proposed_or_absorbed(storing: Storing)
    ensures
        !(store_plan(storing).record_proposal && store_plan(storing).mark_absorbed),
{
}

/// What was published, updated or closed is stored as a success, what could not be
/// closed is not, and a failure is stored under its own code with its own words.
pub proof fn lemma_stored_as_it_went(outcome: StoredOutcome)
    ensures
        outcome is Published || outcome is Updated || outcome is ClosedAsApplied ==> stored_code(
            outcome,
        ) == "success"@,
        outcome is EmptyFailedToClose ==> stored_code(outcome) != "success"@,
        outcome matches StoredOutcome::EmptyFailedToClose(msg) ==> msg@.is_suffix_of(
            stored_description(outcome),
        ),
        outcome matches StoredOutcome::Failed { code, description } ==> stored_code(outcome)
            == code@ && stored_description(outcome) == description@,
{
    reveal_strlit("success");
    reveal_strlit("empty-failed-to-close");
    assert("success"@.len() == 7 && "empty-failed-to-close"@.len() == 21);
    if let StoredOutcome::EmptyFailedToClose(msg) = outcome {
        let text = stored_description(outcome);
        assert(text.subrange(text.len() - msg@.len(), text.len() as int) =~= msg@);
    }
}

/// A success either opened or updated a proposal, which is then recorded, or was
/// pushed; what was pushed to the target itself is absorbed, what was pushed to a
/// branch of ours is not.
pub proof fn lemma_success_is_recorded_by_mode(storing: Storing)
    requires
        is_storable(storing),
        stored_code(storing.outcome) == "success"@,
    ensures
        store_plan(storing).advance_change_set,
        storing.mode == Mode::Propose ==> {
            &&& storing.merge_proposal_url is Some
            &&& store_plan(storing).record_proposal
            &&& !store_plan(storing).mark_absorbed
        },
        storing.mode == Mode::Push ==> {
            &&& storing.merge_proposal_url is None
            &&& storing.revision is Some
            &&& store_plan(storing).mark_absorbed
            &&& !store_plan(storing).record_proposal
        },
        storing.mode == Mode::PushDerived ==> {
            &&& storing.merge_proposal_url is None
            &&& storing.revision is Some
            &&& !store_plan(storing).mark_absorbed
            &&& !store_plan(storing).record_proposal
        },
        storing.mode == Mode::Propose || storing.mode == Mode::Push || storing.mode
            == Mode::PushDerived,
{
}

/// Every proposal that came of proposing, and every revision that was pushed, can be
/// stored.
pub proof fn lemma_what_was_published_is_storable(storing: Storing)
    ensures
        storing.mode == Mode::Propose && storing.merge_proposal_url is Some ==> is_storable(
            storing,
        ),
        (storing.mode == Mode::Push || storing.mode == Mode::PushDerived)
            && storing.merge_proposal_url is None && storing.revision is Some ==> is_storable(
            storing,
        ),
{
}

} // verus!
