//! Handing one publish to a worker process, and reading its answer.
use crate::publish::types::Mode;
use vstd::prelude::*;

verus! {

/// What a publish arrived at.
#[derive(Debug)]
pub struct PublishOneResult {
    /// The merge proposal, if there is one.
    pub proposal_url: Option<String>,
    /// The merge proposal, for people.
    pub proposal_web_url: Option<String>,
    /// Whether the proposal was created by this publish.
    pub is_new: Option<bool>,
    /// Name of the source branch.
    pub branch_name: String,
    /// The target branch.
    pub target_branch_url: String,
    /// The target branch, for people.
    pub target_branch_web_url: Option<String>,
    /// How it was published.
    pub mode: Mode,
}

/// Whether a publish created a merge proposal.
pub open spec fn created_proposal(result: PublishOneResult) -> bool {
    result.proposal_url is Some && result.is_new == Some(true)
}

impl Clone for PublishOneResult {
    fn clone(&self) -> (r: Self)
        ensures
            r == *self,
    {
        PublishOneResult {
            proposal_url: self.proposal_url.clone(),
            proposal_web_url: self.proposal_web_url.clone(),
            is_new: self.is_new,
            branch_name: self.branch_name.clone(),
            target_branch_url: self.target_branch_url.clone(),
            target_branch_web_url: self.target_branch_web_url.clone(),
            mode: self.mode,
        }
    }
}

impl PublishOneResult {
    /// URL of the created or updated merge proposal, if any.
    pub fn proposal_url(&self) -> (r: Option<&String>)
        ensures
            r == (match self.proposal_url {
                Some(url) => Some(&url),
                None => None,
            }),
    {
        self.proposal_url.as_ref()
    }

    /// Whether the proposal is brand new.
    pub fn is_new(&self) -> (r: Option<bool>)
        ensures
            r == self.is_new,
    {
        self.is_new
    }

    /// Name of the source branch.
    pub fn branch_name(&self) -> (r: &str)
        ensures
            r@ == self.branch_name@,
    {
        self.branch_name.as_str()
    }

    /// The target branch.
    pub fn target_branch_url(&self) -> (r: &String)
        ensures
            *r == self.target_branch_url,
    {
        &self.target_branch_url
    }

    /// The target branch, for people.
    pub fn target_branch_web_url(&self) -> (r: Option<&String>)
        ensures
            r == (match self.target_branch_web_url {
                Some(url) => Some(&url),
                None => None,
            }),
    {
        self.target_branch_web_url.as_ref()
    }

    /// How it was published.
    pub fn mode(&self) -> (r: Mode)
        ensures
            r == self.mode,
    {
        self.mode
    }
}

/// What one publish is asked to do.
#[derive(Debug)]
pub struct PublishCall {
    /// Branch to publish to.
    pub target_branch_url: String,
    /// How to publish.
    pub mode: Mode,
    /// Role of the branch to publish.
    pub role: String,
    /// Revision to publish.
    pub revision: String,
    /// Control run to compare with, if there is one.
    pub unchanged_id: Option<String>,
    /// Name of the source branch.
    pub derived_branch_name: String,
    /// Bucket that a new proposal counts towards.
    pub rate_limit_bucket: Option<String>,
    /// Whether the binary packages must have been compared.
    pub require_binary_diff: bool,
    /// Whether a proposal may be created.
    pub allow_create_proposal: bool,
    /// Proposal to update.
    pub existing_mp_url: Option<String>,
}

/// Whether a change of the given value is worth a proposal. Assumed where the
/// value or the threshold is unknown.
pub open spec fn run_sufficient(value_threshold: Option<i32>, run_value: Option<i32>) -> bool {
    value_threshold is Some && run_value is Some ==> run_value->0 >= value_threshold->0
}

/// Whether a change of the given value is worth a proposal.
pub fn run_sufficient_for_proposal(value_threshold: Option<i32>, run_value: Option<i32>) -> (r:
    bool)
    ensures
        r == run_sufficient(value_threshold, run_value),
{
    match (run_value, value_threshold) {
        (Some(run_value), Some(threshold)) => run_value >= threshold,
        _ => true,
    }
}

/// A run is held back only where its value is known and lies below a threshold, and
/// a more valuable run is never held back where a less valuable one is not.
pub proof fn lemma_only_too_little_value_holds_back(
    value_threshold: Option<i32>,
    run_value: Option<i32>,
    more: i32,
)
    ensures
        run_sufficient(None, run_value),
        run_sufficient(value_threshold, None),
        !run_sufficient(value_threshold, run_value) ==> run_value->0 < value_threshold->0,
        value_threshold is Some && run_value is Some && run_value->0 < value_threshold->0
            ==> !run_sufficient(value_threshold, run_value),
        run_value is Some && more >= run_value->0 && run_sufficient(value_threshold, run_value)
            ==> run_sufficient(value_threshold, Some(more)),
{
}

/// A proposal was opened by a publish only where there is one and it is new.
pub proof fn lemma_opened_is_there_and_new(result: PublishOneResult)
    ensures
        created_proposal(result) ==> result.proposal_url is Some && result.is_new is Some
            && result.is_new->0,
        !created_proposal(result) ==> result.proposal_url is None || result.is_new is None
            || !result.is_new->0,
{
}

} // verus!
