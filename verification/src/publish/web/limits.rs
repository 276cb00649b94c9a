//! How much more may be proposed, and what else needs looking after.
use crate::publish::api_types::{BucketRateLimit, RateLimitsInfo};
use crate::publish::consider::{rate_limit_remaining, remaining_room};
use crate::publish::queue::STRAGGLER_DAYS;
use crate::publish::types::ForgeMpStatus;
use crate::text::str_eq;
use crate::time::Timestamp;
use crate::urls::{normal_form, normalize_url, parsed_url};
use vstd::prelude::*;

verus! {

/// The figures of a bucket.
pub fn bucket_rate_limit(open: Option<usize>, max_open: Option<usize>) -> (r: BucketRateLimit)
    ensures
        r == (BucketRateLimit { open, max_open, remaining: r.remaining }),
        match r.remaining {
            Some(room) => remaining_room(open, max_open) == Some(room as int),
            None => remaining_room(open, max_open) is None,
        },
{
    BucketRateLimit { open, max_open, remaining: rate_limit_remaining(open, max_open) }
}

/// The figures of a bucket from what the limiter says of it.
pub open spec fn is_bucket_figure(
    figure: (String, BucketRateLimit),
    bucket: (String, usize, Option<usize>),
) -> bool {
    &&& figure.0 == bucket.0
    &&& figure.1.open == Some(bucket.1)
    &&& figure.1.max_open == bucket.2
    &&& match figure.1.remaining {
        Some(room) => remaining_room(Some(bucket.1), bucket.2) == Some(room as int),
        None => bucket.2 is None,
    }
}

/// The figures of all buckets and forges. A bucket is given by its name, how many
/// of its proposals are open, and how many may be.
pub fn all_rate_limits(
    buckets: &Vec<(String, usize, Option<usize>)>,
    per_forge: Vec<(String, Timestamp)>,
    push_limit: Option<usize>,
) -> (r: RateLimitsInfo)
    ensures
        r.per_forge == per_forge,
        r.push_limit == push_limit,
        r.per_bucket@.len() == buckets@.len(),
        forall|i: int|
            0 <= i < buckets@.len() ==> is_bucket_figure(#[trigger] r.per_bucket@[i], buckets@[i]),
{
    let mut per_bucket: Vec<(String, BucketRateLimit)> = Vec::new();
    let mut i: usize = 0;
    while i < buckets.len()
        invariant
            i <= buckets.len(),
            per_bucket@.len() == i,
            forall|j: int|
                0 <= j < i ==> is_bucket_figure(#[trigger] per_bucket@[j], buckets@[j]),
        decreases buckets.len() - i,
    {
        let bucket = &buckets[i];
        per_bucket.push((bucket.0.clone(), bucket_rate_limit(Some(bucket.1), bucket.2)));
        i = i + 1;
    }
    RateLimitsInfo { per_bucket, per_forge, push_limit }
}

/// How much may be published on request: what the request says, or else what is
/// configured.
pub fn autopublish_limit(requested: Option<usize>, configured: Option<usize>) -> (r: Option<usize>)
    ensures
        r == (if requested is Some {
            requested
        } else {
            configured
        }),
{
    match requested {
        Some(limit) => Some(limit),
        None => configured,
    }
}

/// Days after which a proposal counts as a straggler, unless a request says
/// otherwise.
pub fn default_ndays() -> (r: i64)
    ensures
        r == STRAGGLER_DAYS,
{
    STRAGGLER_DAYS
}

/// What becomes of the record of a straggler.
#[derive(Debug)]
pub enum StragglerAction {
    /// Nothing.
    Keep,
    /// It gets this URL.
    Rename(String),
    /// It is deleted.
    Delete,
}

/// What becomes of the record of a straggler, when a request for it was answered
/// with the given status from the given URL.
pub fn check_straggler(url: &str, status: u16, final_url: &String) -> (r: StragglerAction)
    ensures
        r == (if status == 200 && final_url@ != url@ {
            StragglerAction::Rename(*final_url)
        } else if status == 404 {
            StragglerAction::Delete
        } else {
            StragglerAction::Keep
        }),
{
    if status == 200 {
        if str_eq(final_url.as_str(), url) {
            StragglerAction::Keep
        } else {
            StragglerAction::Rename(final_url.clone())
        }
    } else if status == 404 {
        StragglerAction::Delete
    } else {
        StragglerAction::Keep
    }
}

/// The state of a proposal, from what its forge says of it.
pub fn refreshed_status(is_merged: bool, is_closed: bool) -> (r: ForgeMpStatus)
    ensures
        r == (if is_merged {
            ForgeMpStatus::Merged
        } else if is_closed {
            ForgeMpStatus::Closed
        } else {
            ForgeMpStatus::Open
        }),
{
    if is_merged {
        ForgeMpStatus::Merged
    } else if is_closed {
        ForgeMpStatus::Closed
    } else {
        ForgeMpStatus::Open
    }
}

/// The URL of the proposal that a request wants refreshed, in normal form; what
/// the request is answered where its text is no URL, which `error` explains.
pub fn requested_url(url: &str, error: &str) -> (r: Result<String, String>)
    ensures
        match normal_form(parsed_url(url@)) {
            Some(normal) => r matches Ok(text) && text@ == normal,
            None => r matches Err(message) && message@ == "Invalid url parameter: "@ + error@,
        },
{
    match normalize_url(url) {
        Some(text) => Ok(text),
        None => Err("Invalid url parameter: ".to_owned().concat(error)),
    }
}

/// The figures of a bucket are its own, and what remains makes up the limit with
/// what is open; nothing remains where more are open than may be.
pub proof fn lemma_figures_make_up_the_limit(
    figure: (String, BucketRateLimit),
    bucket: (String, usize, Option<usize>),
)
    requires
        is_bucket_figure(figure, bucket),
    ensures
        figure.0 == bucket.0,
        figure.1.open == Some(bucket.1),
        figure.1.max_open == bucket.2,
        figure.1.remaining is Some <==> bucket.2 is Some,
        bucket.2 is Some && bucket.1 <= bucket.2->0 ==> bucket.1 + figure.1.remaining->0
            == bucket.2->0,
        bucket.2 is Some && bucket.1 > bucket.2->0 ==> figure.1.remaining->0 == 0,
{
}

} // verus!
