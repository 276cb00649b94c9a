//! What the publisher has recorded of a merge proposal.
use crate::publish::types::MergeProposalStatus;
use crate::text::opt_text;
use crate::time::Timestamp;
use crate::urls::{normal_form, normalize_url, parse_url, parsed_url};
use vstd::prelude::*;

verus! {

/// The record of a merge proposal.
#[derive(Debug)]
pub struct ProposalInfo {
    /// Whether the forge would let it be merged, if known.
    pub can_be_merged: Option<bool>,
    /// State, as a word.
    pub status: String,
    /// Tip of its source branch.
    pub revision: Option<String>,
    /// Branch that it wants to be merged into.
    pub target_branch_url: Option<String>,
    /// Bucket that it counts towards.
    pub rate_limit_bucket: Option<String>,
    /// Codebase that it belongs to, if one was found.
    pub codebase: Option<String>,
    /// When the record was last brought up to date.
    pub last_scanned: Option<Timestamp>,
}

/// Who merged a proposal, and when.
#[derive(Debug)]
pub struct MergeDetails {
    /// Who.
    pub merged_by: Option<String>,
    /// Where to find them.
    pub merged_by_url: Option<String>,
    /// When.
    pub merged_at: Option<Timestamp>,
}

/// What to record of a proposal.
#[derive(Debug)]
pub struct ProposalRecord {
    /// The proposal.
    pub url: String,
    /// Its state.
    pub status: MergeProposalStatus,
    /// Tip of its source branch.
    pub revision: Option<String>,
    /// Codebase that it belongs to.
    pub codebase: Option<String>,
    /// Branch that it wants to be merged into.
    pub target_branch_url: String,
    /// Campaign that it belongs to, if one is known.
    pub campaign: Option<String>,
    /// Whether the forge would let it be merged.
    pub can_be_merged: Option<bool>,
    /// Bucket that it counts towards.
    pub rate_limit_bucket: Option<String>,
}

impl ProposalRecord {
    /// The campaign as it is written down: nothing where none is known.
    pub fn campaign(&self) -> (r: &str)
        ensures
            r@ == (match self.campaign {
                Some(campaign) => campaign@,
                None => ""@,
            }),
    {
        match &self.campaign {
            Some(campaign) => campaign.as_str(),
            None => "",
        }
    }
}

/// How a record is brought up to date: what is known of it, who merged it, and
/// what becomes of the branches that it stands for.
#[derive(Debug)]
pub struct RecordUpdate {
    /// What is known.
    pub record: ProposalRecord,
    /// Who merged it, and when.
    pub merge: MergeDetails,
    /// Whether the branches at its revision are absorbed, where it has one.
    pub absorbed: Option<bool>,
}

/// Whether a forge is to be asked who merged a proposal.
pub fn needs_merge_details(status: MergeProposalStatus) -> (r: bool)
    ensures
        r == (status == MergeProposalStatus::Merged),
{
    status == MergeProposalStatus::Merged
}

/// How to bring a record up to date. Only of a merged proposal it is recorded who
/// merged it and when, and only its branches are absorbed.
pub fn update_proposal_info(record: ProposalRecord, details: MergeDetails) -> (r: RecordUpdate)
    ensures
        r.record == record,
        r.merge == (if record.status == MergeProposalStatus::Merged {
            details
        } else {
            MergeDetails { merged_by: None, merged_by_url: None, merged_at: None }
        }),
        r.absorbed == (match record.revision {
            Some(_) => Some(record.status == MergeProposalStatus::Merged),
            None => None,
        }),
{
    let merged = needs_merge_details(record.status);
    let absorbed = match &record.revision {
        Some(_) => Some(merged),
        None => None,
    };
    let merge = if merged {
        details
    } else {
        MergeDetails { merged_by: None, merged_by_url: None, merged_at: None }
    };
    RecordUpdate { record, merge, absorbed }
}

/// The URLs of the proposals to look at again, in normal form, from those that are
/// stored. The first that is no URL ends it; then this is its place.
pub fn iter_outdated_proposal_info_urls(rows: &Vec<String>) -> (r: Result<Vec<String>, usize>)
    ensures
        match r {
            Ok(urls) => urls@.len() == rows@.len() && forall|i: int|
                0 <= i < urls@.len() ==> normal_form(parsed_url(rows@[i]@)) == Some(
                    (#[trigger] urls@[i])@,
                ),
            Err(at) => at < rows@.len() && parsed_url(rows@[at as int]@) is None && forall|i: int|
                0 <= i < at ==> parsed_url((#[trigger] rows@[i])@) is Some,
        },
{
    let mut urls: Vec<String> = Vec::new();
    let mut i: usize = 0;
    while i < rows.len()
        invariant
            i <= rows.len(),
            urls@.len() == i,
            forall|j: int|
                0 <= j < i ==> normal_form(parsed_url(rows@[j]@)) == Some((#[trigger] urls@[j])@),
        decreases rows.len() - i,
    {
        match normalize_url(rows[i].as_str()) {
            Some(url) => {
                urls.push(url);
            },
            None => {
                assert forall|j: int| 0 <= j < i implies parsed_url(
                    (#[trigger] rows@[j])@,
                ) is Some by {
                    assert(normal_form(parsed_url(rows@[j]@)) == Some(urls@[j]@));
                }
                return Err(i);
            },
        }
        i = i + 1;
    }
    Ok(urls)
}

/// What is said of a stored text that is no URL.
pub fn stored_url_error(error: &str) -> (r: String)
    ensures
        r@ == "Invalid URL in database: "@ + error@,
{
    "Invalid URL in database: ".to_owned().concat(error)
}

/// How a proposal's record gets the proposal's canonical URL.
#[derive(Debug)]
pub enum CanonicalUrlStep {
    /// There is a record with that URL already: delete the one with this URL.
    DeleteRecord(String),
    /// Give the record the URL.
    RenameRecord {
        /// URL that it has.
        from: String,
        /// URL that it gets.
        to: String,
    },
}

/// How a proposal's record gets the proposal's canonical URL, when `merged_into`
/// is the old URL of a record that was merged into one with the canonical URL.
pub fn update_canonical_url(
    old_url: &String,
    canonical_url: &String,
    merged_into: Option<String>,
) -> (r: CanonicalUrlStep)
    ensures
        r == (match merged_into {
            Some(url) => CanonicalUrlStep::DeleteRecord(url),
            None => CanonicalUrlStep::RenameRecord { from: *old_url, to: *canonical_url },
        }),
{
    match merged_into {
        Some(url) => CanonicalUrlStep::DeleteRecord(url),
        None => CanonicalUrlStep::RenameRecord {
            from: old_url.clone(),
            to: canonical_url.clone(),
        },
    }
}

/// The host of the forge that knows who a user of the given proposal is, if there
/// is one.
pub fn merged_by_host(url: &str) -> (r: Option<String>)
    ensures
        opt_text(r) == (match parsed_url(url@) {
            Some(view) => view.host,
            None => None,
        }),
{
    match parse_url(url) {
        Some(parts) => parts.host,
        None => None,
    }
}

/// What a forge says about where to find a user.
#[derive(Debug)]
pub enum UserUrlAnswer {
    /// There.
    Found(String),
    /// There is no such forge.
    UnsupportedForge,
    /// It cannot be said; holds the rendered error.
    Failed(String),
}

/// Where to find the user who merged a proposal, when the forge was asked if the
/// proposal's URL names a host.
pub fn get_merged_by_user_url(answer: Option<UserUrlAnswer>) -> (r: Result<Option<String>, String>)
    ensures
        r == (match answer {
            None => Ok(None),
            Some(UserUrlAnswer::Found(url)) => Ok(Some(url)),
            Some(UserUrlAnswer::UnsupportedForge) => Ok(None),
            Some(UserUrlAnswer::Failed(text)) => Err(text),
        }),
{
    match answer {
        None => Ok(None),
        Some(UserUrlAnswer::Found(url)) => Ok(Some(url)),
        Some(UserUrlAnswer::UnsupportedForge) => Ok(None),
        Some(UserUrlAnswer::Failed(text)) => Err(text),
    }
}

} // verus!
