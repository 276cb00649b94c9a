//! When the record of a merge proposal can be trusted.
use crate::publish::types::ForgeMpStatus;
use crate::text::str_eq;
use crate::time::{NANOS_PER_DAY, TimeDelta, Timestamp};
use vstd::prelude::*;

verus! {

/// Days after which a failed run is tried again for the sake of its proposal.
pub const EXISTING_RUN_RETRY_INTERVAL_DAYS: i128 = 30;

/// How long the record of an open proposal counts as fresh, in nanoseconds: a
/// day.
pub const CHECK_EXISTING_MP_FRESH_THRESHOLD: i128 = NANOS_PER_DAY;

/// The forge's word for a recorded state. A forge does not know why we closed a
/// proposal, so all of our closed states are one to it.
pub open spec fn persisted_kind(text: Seq<char>) -> Option<ForgeMpStatus> {
    if text == "open"@ {
        Some(ForgeMpStatus::Open)
    } else if text == "merged"@ {
        Some(ForgeMpStatus::Merged)
    } else if text == "closed"@ || text == "abandoned"@ || text == "applied"@ || text
        == "rejected"@ {
        Some(ForgeMpStatus::Closed)
    } else {
        None
    }
}

/// Whether the record of a proposal can be trusted without asking the forge for
/// details: it agrees with the state that the forge reports, and that state is
/// final or the record is fresh.
pub open spec fn skips_fetch(
    forge_status: ForgeMpStatus,
    persisted_status: Seq<char>,
    last_scanned: Option<Timestamp>,
    now: Timestamp,
    threshold: TimeDelta,
) -> bool {
    &&& persisted_kind(persisted_status) == Some(forge_status)
    &&& forge_status != ForgeMpStatus::Open || (last_scanned is Some && now@ - last_scanned->0@
        <= threshold.nanos)
}

/// Whether the record of a proposal can be trusted without asking the forge for
/// details.
pub fn check_existing_mp_should_skip_per_mp_fetch(
    forge_status: ForgeMpStatus,
    persisted_status: &str,
    last_scanned: Option<Timestamp>,
    now: Timestamp,
    threshold: TimeDelta,
) -> (r: bool)
    ensures
        r == skips_fetch(forge_status, persisted_status@, last_scanned, now, threshold),
{
    let kind = if str_eq(persisted_status, "open") {
        ForgeMpStatus::Open
    } else if str_eq(persisted_status, "merged") {
        ForgeMpStatus::Merged
    } else if str_eq(persisted_status, "closed") || str_eq(persisted_status, "abandoned") || str_eq(
        persisted_status,
        "applied",
    ) || str_eq(persisted_status, "rejected") {
        ForgeMpStatus::Closed
    } else {
        return false;
    };
    if kind != forge_status {
        return false;
    }
    if forge_status != ForgeMpStatus::Open {
        return true;
    }
    match last_scanned {
        Some(last_scanned) => now.since(last_scanned).nanos <= threshold.nanos,
        None => false,
    }
}

/// A final state is trusted whatever the age of the record, and though it was
/// never dated.
pub proof fn lemma_terminal_states_skip_regardless_of_age(
    forge_status: ForgeMpStatus,
    persisted_status: Seq<char>,
    last_scanned: Option<Timestamp>,
    now: Timestamp,
    threshold: TimeDelta,
)
    requires
        forge_status != ForgeMpStatus::Open,
        persisted_kind(persisted_status) == Some(forge_status),
    ensures
        skips_fetch(forge_status, persisted_status, last_scanned, now, threshold),
{
}

/// The record is trusted only where it says what the forge says, and for an open
/// proposal only as long as it is fresh; a record that is trusted for a time was so
/// before.
pub proof fn lemma_trusted_only_where_forge_and_record_agree(
    forge_status: ForgeMpStatus,
    persisted_status: Seq<char>,
    last_scanned: Option<Timestamp>,
    now: Timestamp,
    earlier: Timestamp,
    threshold: TimeDelta,
)
    ensures
        skips_fetch(forge_status, persisted_status, last_scanned, now, threshold) ==> {
            &&& forge_status == ForgeMpStatus::Open ==> persisted_status == "open"@
                && last_scanned is Some && now@ <= last_scanned->0@ + threshold.nanos
            &&& forge_status == ForgeMpStatus::Merged ==> persisted_status == "merged"@
            &&& forge_status == ForgeMpStatus::Closed ==> persisted_status == "closed"@
                || persisted_status == "abandoned"@ || persisted_status == "applied"@
                || persisted_status == "rejected"@
            &&& forge_status != ForgeMpStatus::All
            &&& earlier@ <= now@ ==> skips_fetch(
                forge_status,
                persisted_status,
                last_scanned,
                earlier,
                threshold,
            )
        },
        last_scanned is Some && now@ <= last_scanned->0@ + threshold.nanos ==> skips_fetch(
            ForgeMpStatus::Open,
            "open"@,
            last_scanned,
            now,
            threshold,
        ),
        skips_fetch(ForgeMpStatus::Merged, "merged"@, last_scanned, now, threshold),
        skips_fetch(ForgeMpStatus::Closed, "closed"@, last_scanned, now, threshold),
        skips_fetch(ForgeMpStatus::Closed, "abandoned"@, last_scanned, now, threshold),
        skips_fetch(ForgeMpStatus::Closed, "applied"@, last_scanned, now, threshold),
        skips_fetch(ForgeMpStatus::Closed, "rejected"@, last_scanned, now, threshold),
{
    reveal_strlit("open");
    reveal_strlit("merged");
    reveal_strlit("closed");
    reveal_strlit("abandoned");
    reveal_strlit("applied");
    reveal_strlit("rejected");
    assert("open"@.len() == 4 && "merged"@.len() == 6 && "closed"@.len() == 6);
    assert("abandoned"@.len() == 9 && "applied"@.len() == 7 && "rejected"@.len() == 8);
    assert("merged"@[0] == 'm' && "closed"@[0] == 'c');
}

} // verus!
