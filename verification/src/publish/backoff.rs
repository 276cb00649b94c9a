//! How long to wait before a failed publish is tried again.
use crate::time::Timestamp;
use vstd::arithmetic::power2::{lemma2_to64, pow2};
use vstd::prelude::*;

verus! {

/// The longest wait between two attempts: seven days, in hours.
pub const MAX_BACKOFF_HOURS: u32 = 168;

/// Hours to wait after `attempt_count` attempts: none before the first one, then
/// a power of two that never exceeds seven days.
pub open spec fn backoff_hours(attempt_count: nat) -> nat {
    if attempt_count == 0 {
        0
    } else if pow2(attempt_count) < MAX_BACKOFF_HOURS {
        pow2(attempt_count)
    } else {
        MAX_BACKOFF_HOURS as nat
    }
}

/// The time of the next attempt, `attempt_count` attempts after the run that
/// finished at `finish_time`.
#[must_use]
pub fn calculate_next_try_time(finish_time: Timestamp, attempt_count: usize) -> (r: Timestamp)
    requires
        finish_time.secs + MAX_BACKOFF_HOURS * 3600 <= i64::MAX,
    ensures
        r@ == finish_time@ + backoff_hours(attempt_count as nat) * 3_600_000_000_000,
        r.nanos == finish_time.nanos,
{
    if attempt_count == 0 {
        return finish_time;
    }
    proof {
        lemma2_to64();
    }
    let mut hours: u32 = 2;
    let mut n: usize = 1;
    while n < attempt_count && hours < MAX_BACKOFF_HOURS
        invariant
            1 <= n <= attempt_count,
            hours == pow2(n as nat),
            hours <= 2 * MAX_BACKOFF_HOURS,
        decreases attempt_count - n,
    {
        proof {
            vstd::arithmetic::power2::lemma_pow2_unfold((n + 1) as nat);
        }
        hours = hours * 2;
        n = n + 1;
    }
    proof {
        if n < attempt_count {
            vstd::arithmetic::power2::lemma_pow2_strictly_increases(n as nat, attempt_count as nat);
        }
    }
    if hours > MAX_BACKOFF_HOURS {
        hours = MAX_BACKOFF_HOURS;
    }
    finish_time.plus_hours(hours)
}

/// More attempts never shorten the wait.
pub proof fn lemma_backoff_monotone(fewer: nat, more: nat)
    requires
        fewer <= more,
    ensures
        backoff_hours(fewer) <= backoff_hours(more),
{
    vstd::arithmetic::power2::lemma_pow2_pos(more);
    if 0 < fewer < more {
        vstd::arithmetic::power2::lemma_pow2_strictly_increases(fewer, more);
    }
}

/// The wait never exceeds seven days, and is seven days from the eighth attempt
/// on.
pub proof fn lemma_backoff_capped(attempt_count: nat)
    ensures
        backoff_hours(attempt_count) <= 7 * 24,
        attempt_count >= 8 ==> backoff_hours(attempt_count) == 7 * 24,
        attempt_count < 8 ==> backoff_hours(attempt_count) < 7 * 24,
{
    lemma2_to64();
    if attempt_count > 8 {
        vstd::arithmetic::power2::lemma_pow2_strictly_increases(8, attempt_count);
    } else if 0 < attempt_count < 7 {
        vstd::arithmetic::power2::lemma_pow2_strictly_increases(attempt_count, 7);
    }
}

/// There is no wait before the first attempt, a wait of two hours after it, and each
/// further attempt doubles the wait until it reaches seven days.
pub proof fn lemma_backoff_doubles(attempt_count: nat)
    ensures
        backoff_hours(0) == 0,
        backoff_hours(1) == 2,
        0 < attempt_count && 2 * backoff_hours(attempt_count) <= 7 * 24 ==> backoff_hours(
            attempt_count + 1,
        ) == 2 * backoff_hours(attempt_count),
        0 < attempt_count && 2 * backoff_hours(attempt_count) >= 7 * 24 ==> backoff_hours(
            attempt_count + 1,
        ) == 7 * 24,
{
    lemma2_to64();
    vstd::arithmetic::power2::lemma_pow2_unfold(attempt_count + 1);
    vstd::arithmetic::power2::lemma_pow2_pos(attempt_count);
}

} // verus!
