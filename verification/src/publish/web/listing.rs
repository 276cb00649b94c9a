//! Lists of proposals and runs.
use crate::publish::api_types::ErrorResponse;
use crate::time::{Timestamp, parse_rfc3339, rfc3339_time};
use crate::urls::{normal_form, normalize_url, parsed_url};
use vstd::prelude::*;

verus! {

/// A proposal in a list.
#[derive(Debug)]
pub struct MergeProposalListEntry {
    /// The proposal.
    pub url: String,
    /// Its state.
    pub status: Option<String>,
}

/// A publish.
#[derive(Debug)]
pub struct PublishDetails {
    /// Codebase.
    pub codebase: Option<String>,
    /// Target branch.
    pub target_branch_url: Option<String>,
    /// Source branch.
    pub branch_name: Option<String>,
    /// Revision of the target branch.
    pub main_branch_revision: Option<String>,
    /// Revision that was published.
    pub revision: Option<String>,
    /// How.
    pub mode: String,
    /// Merge proposal that came of it.
    pub merge_proposal_url: Option<String>,
    /// Code of the result.
    pub result_code: String,
    /// Description of the result.
    pub description: Option<String>,
}

/// The condition on codebase and campaign, each where it is asked for.
pub open spec fn list_condition(by_codebase: bool, by_campaign: bool) -> Seq<char> {
    if by_codebase && by_campaign {
        " WHERE run.codebase = $1 AND run.suite = $2"@
    } else if by_codebase {
        " WHERE run.codebase = $1"@
    } else if by_campaign {
        " WHERE run.suite = $1"@
    } else {
        ""@
    }
}

/// The query for a list of proposals: of a codebase, of a campaign, or all.
pub fn merge_proposal_list_query(by_codebase: bool, by_campaign: bool) -> (r: String)
    ensures
        r@
            == "SELECT DISTINCT ON (merge_proposal.url) merge_proposal.url AS url, merge_proposal.status::text AS status, (run.finish_time AT TIME ZONE 'UTC') AS finish_time FROM merge_proposal LEFT JOIN run ON merge_proposal.revision = run.revision AND run.result_code = 'success'"@
            + list_condition(by_codebase, by_campaign)
            + " ORDER BY merge_proposal.url, run.finish_time DESC"@,
{
    let condition = if by_codebase && by_campaign {
        " WHERE run.codebase = $1 AND run.suite = $2"
    } else if by_codebase {
        " WHERE run.codebase = $1"
    } else if by_campaign {
        " WHERE run.suite = $1"
    } else {
        ""
    };
    "SELECT DISTINCT ON (merge_proposal.url) merge_proposal.url AS url, merge_proposal.status::text AS status, (run.finish_time AT TIME ZONE 'UTC') AS finish_time FROM merge_proposal LEFT JOIN run ON merge_proposal.revision = run.revision AND run.result_code = 'success'".to_owned().concat(
    condition).concat(" ORDER BY merge_proposal.url, run.finish_time DESC")
}

/// Since when to list absorbed runs; an error where the text is no time.
pub fn absorbed_since(since: Option<&str>) -> (r: Result<Option<Timestamp>, ErrorResponse>)
    ensures
        match since {
            None => r == Ok::<Option<Timestamp>, ErrorResponse>(None),
            Some(text) => match rfc3339_time(text@) {
                Some((secs, nanos)) => r == Ok::<Option<Timestamp>, ErrorResponse>(
                    Some(Timestamp { secs, nanos }),
                ),
                None => r matches Err(e) && e.error@
                    == "Invalid date format for 'since' parameter"@ && e.details is None
                    && e.code is None,
            },
        },
{
    match since {
        None => Ok(None),
        Some(text) => checked_since(parse_rfc3339(text)),
    }
}

/// Since when to list absorbed runs, where that is a time; an error where it is
/// none.
pub fn checked_since(time: Option<Timestamp>) -> (r: Result<Option<Timestamp>, ErrorResponse>)
    ensures
        match time {
            Some(time) => r == Ok::<Option<Timestamp>, ErrorResponse>(Some(time)),
            None => r matches Err(e) && e.error@ == "Invalid date format for 'since' parameter"@
                && e.details is None && e.code is None,
        },
{
    match time {
        Some(time) => Ok(Some(time)),
        None => Err(ErrorResponse::new("Invalid date format for 'since' parameter".to_owned())),
    }
}

/// The query for absorbed runs, from a time on where one is given.
pub fn absorbed_query(has_since: bool) -> (r: String)
    ensures
        r@
            == "SELECT mode, change_set, codebase, EXTRACT(epoch FROM delay) as delay, campaign, result, id, absorbed_at, merged_by, merge_proposal_url FROM absorbed_runs"@
            + (if has_since {
            " WHERE absorbed_at >= $1"@
        } else {
            ""@
        }) + " ORDER BY absorbed_at DESC"@,
{
    let condition = if has_since {
        " WHERE absorbed_at >= $1"
    } else {
        ""
    };
    "SELECT mode, change_set, codebase, EXTRACT(epoch FROM delay) as delay, campaign, result, id, absorbed_at, merged_by, merge_proposal_url FROM absorbed_runs".to_owned().concat(
    condition).concat(" ORDER BY absorbed_at DESC")
}

/// The proposal and the user to look up for an absorbed run, where both are
/// known.
pub fn merged_by_lookup(merge_proposal_url: &Option<String>, merged_by: &Option<String>) -> (r:
    Option<(String, String)>)
    ensures
        match (*merge_proposal_url, *merged_by) {
            (Some(url), Some(user)) => match normal_form(parsed_url(url@)) {
                Some(normal) => r matches Some(found) && found.0@ == normal && found.1 == user,
                None => r is None,
            },
            _ => r is None,
        },
{
    match (merge_proposal_url, merged_by) {
        (Some(url), Some(user)) => match normalize_url(url.as_str()) {
            Some(normal) => Some((normal, user.clone())),
            None => None,
        },
        _ => None,
    }
}

} // verus!
