//! Asking the differ how two builds differ.
use crate::publish::errors::DebdiffError;
use crate::urls::{join_url, joined_url};
use vstd::prelude::*;

verus! {

/// The path and query to ask the differ for.
pub open spec fn debdiff_path(unchanged_id: Seq<char>, log_id: Seq<char>) -> Seq<char> {
    "/debdiff/"@ + unchanged_id + "/"@ + log_id + "?filter_boring=true"@
}

/// The URL at which the differ at `differ_url` compares a run with its control
/// run. Without a control run there is nothing to ask for.
pub fn debdiff_url(differ_url: &str, unchanged_id: Option<&str>, log_id: &str) -> (r: Result<
    String,
    DebdiffError,
>)
    ensures
        match (r, unchanged_id) {
            (Err(e), None) => e is NoUnchangedRun,
            (Ok(url), Some(id)) => joined_url(differ_url@, debdiff_path(id@, log_id@)) == Some(
                url@,
            ),
            (Err(DebdiffError::Unavailable(text)), Some(id)) => text@ == "Invalid URL format"@
                && joined_url(differ_url@, debdiff_path(id@, log_id@)) is None,
            _ => false,
        },
{
    match unchanged_id {
        None => Err(DebdiffError::NoUnchangedRun),
        Some(id) => {
            let path = "/debdiff/".to_owned().concat(id).concat("/").concat(log_id).concat(
                "?filter_boring=true",
            );
            checked_url(join_url(differ_url, path.as_str()))
        },
    }
}

/// The URL to ask, where it could be put together; an error where it could not.
pub fn checked_url(url: Option<String>) -> (r: Result<String, DebdiffError>)
    ensures
        match url {
            Some(url) => r == Ok::<String, DebdiffError>(url),
            None => r matches Err(DebdiffError::Unavailable(text)) && text@
                == "Invalid URL format"@,
        },
{
    match url {
        Some(url) => Ok(url),
        None => Err(DebdiffError::Unavailable("Invalid URL format".to_owned())),
    }
}

/// What the status of the differ's answer means.
#[derive(Clone, Copy, Debug, PartialEq, Eq, Structural)]
pub enum DebdiffStatus {
    /// The body is the difference.
    Diff,
    /// A run is missing; a header may say which.
    Missing,
    /// The body says why there is no difference to be had.
    Unavailable,
    /// Another error of HTTP.
    Other,
}

/// What the status of the differ's answer means.
pub fn debdiff_status(status: u16) -> (r: DebdiffStatus)
    ensures
        r == (if status == 200 {
            DebdiffStatus::Diff
        } else if status == 404 {
            DebdiffStatus::Missing
        } else if status == 400 || status == 500 || 502 <= status <= 504 {
            DebdiffStatus::Unavailable
        } else {
            DebdiffStatus::Other
        }),
{
    if status == 200 {
        DebdiffStatus::Diff
    } else if status == 404 {
        DebdiffStatus::Missing
    } else if status == 400 || status == 500 || status == 502 || status == 503 || status == 504 {
        DebdiffStatus::Unavailable
    } else {
        DebdiffStatus::Other
    }
}

/// The error for a missing run, with the run that the differ named.
pub fn missing_run(named: Option<String>) -> (r: DebdiffError)
    ensures
        r matches DebdiffError::MissingRun(id) && id@ == (match named {
            Some(named) => named@,
            None => "unknown"@,
        }),
{
    match named {
        Some(named) => DebdiffError::MissingRun(named),
        None => DebdiffError::MissingRun("unknown".to_owned()),
    }
}

/// The error for a difference that cannot be had, with what the differ said.
pub fn unavailable(said: Option<String>) -> (r: DebdiffError)
    ensures
        r matches DebdiffError::Unavailable(text) && text@ == (match said {
            Some(said) => said@,
            None => "Failed to read error response"@,
        }),
{
    match said {
        Some(said) => DebdiffError::Unavailable(said),
        None => DebdiffError::Unavailable("Failed to read error response".to_owned()),
    }
}

/// The differ is asked how the run differs from the unchanged one, in that order,
/// without what is boring.
pub proof fn lemma_compared_with_the_unchanged_run(unchanged_id: Seq<char>, log_id: Seq<char>)
    ensures
        ("/debdiff/"@ + unchanged_id + "/"@).is_prefix_of(debdiff_path(unchanged_id, log_id)),
        ("/"@ + log_id + "?filter_boring=true"@).is_suffix_of(debdiff_path(unchanged_id, log_id)),
{
    let path = debdiff_path(unchanged_id, log_id);
    let start = "/debdiff/"@ + unchanged_id + "/"@;
    let end = "/"@ + log_id + "?filter_boring=true"@;
    assert(path.subrange(0, start.len() as int) =~= start);
    assert(path.subrange(path.len() - end.len(), path.len() as int) =~= end);
}

} // verus!
