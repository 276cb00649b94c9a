//! Points in time and the differences between them.
use vstd::prelude::*;

verus! {

/// Nanoseconds in a second.
pub const NANOS_PER_SEC: i128 = 1_000_000_000;

/// Nanoseconds in a day.
pub const NANOS_PER_DAY: i128 = 86_400_000_000_000;

/// A point in time: whole seconds since the Unix epoch and the nanoseconds past
/// that second.
#[derive(Clone, Copy, Debug, PartialEq, Eq, Structural)]
pub struct Timestamp {
    /// Whole seconds since the epoch; negative before it.
    pub secs: i64,
    /// Nanoseconds past `secs`.
    pub nanos: u32,
}

impl View for Timestamp {
    type V = int;

    /// Nanoseconds since the epoch.
    open spec fn view(&self) -> int {
        self.secs * NANOS_PER_SEC + self.nanos
    }
}

/// A length of time in nanoseconds; negative when it points backwards.
#[derive(Clone, Copy, Debug, PartialEq, Eq, Structural)]
pub struct TimeDelta {
    /// The length.
    pub nanos: i128,
}

impl TimeDelta {
    /// A length of `secs` seconds.
    pub fn seconds(secs: i64) -> (r: TimeDelta)
        ensures
            r.nanos == secs * NANOS_PER_SEC,
    {
        TimeDelta { nanos: secs as i128 * NANOS_PER_SEC }
    }

    /// A length of `hours` hours.
    pub fn hours(hours: i64) -> (r: TimeDelta)
        ensures
            r.nanos == hours * 3_600_000_000_000,
    {
        TimeDelta { nanos: hours as i128 * 3_600_000_000_000i128 }
    }

    /// A length of `days` days.
    pub fn days(days: i64) -> (r: TimeDelta)
        ensures
            r.nanos == days * NANOS_PER_DAY,
    {
        TimeDelta { nanos: days as i128 * NANOS_PER_DAY }
    }

    /// The whole days in this length, rounded towards zero.
    pub fn num_days(&self) -> (r: i128)
        ensures
            r == whole_days(self.nanos as int),
    {
        if self.nanos >= 0 {
            self.nanos / NANOS_PER_DAY
        } else {
            let below: i128 = -(self.nanos + 1);
            let whole: i128 = below / NANOS_PER_DAY;
            if below % NANOS_PER_DAY == NANOS_PER_DAY - 1 {
                -(whole + 1)
            } else {
                -whole
            }
        }
    }
}

/// The whole days in `nanos` nanoseconds, rounded towards zero.
pub open spec fn whole_days(nanos: int) -> int {
    if nanos >= 0 {
        nanos / (NANOS_PER_DAY as int)
    } else {
        -((-nanos) / (NANOS_PER_DAY as int))
    }
}

impl Timestamp {
    /// The time from `earlier` to `self`.
    pub fn since(&self, earlier: Timestamp) -> (r: TimeDelta)
        ensures
            r.nanos == self@ - earlier@,
    {
        let secs: i128 = self.secs as i128 - earlier.secs as i128;
        let nanos: i128 = self.nanos as i128 - earlier.nanos as i128;
        assert(secs * NANOS_PER_SEC + nanos == self@ - earlier@) by (nonlinear_arith)
            requires
                secs == self.secs - earlier.secs,
                nanos == self.nanos - earlier.nanos,
                self@ == self.secs * 1_000_000_000 + self.nanos,
                earlier@ == earlier.secs * 1_000_000_000 + earlier.nanos,
        ;
        TimeDelta { nanos: secs * NANOS_PER_SEC + nanos }
    }

    /// The point in time `hours` hours after `self`.
    pub fn plus_hours(&self, hours: u32) -> (r: Timestamp)
        requires
            self.secs + hours * 3600 <= i64::MAX,
        ensures
            r@ == self@ + hours * 3_600_000_000_000,
            r.nanos == self.nanos,
    {
        Timestamp { secs: self.secs + hours as i64 * 3600, nanos: self.nanos }
    }

    /// Whether `self` comes before `other`.
    pub fn is_before(&self, other: Timestamp) -> (r: bool)
        ensures
            r == (self@ < other@),
    {
        self.since(other).nanos < 0
    }
}

/// What `chrono::DateTime::parse_from_rfc3339` makes of a text: the seconds since
/// the epoch and the nanoseconds past them, or nothing where the text is no time
/// in that form.
pub uninterp spec fn rfc3339_time(text: Seq<char>) -> Option<(i64, u32)>;

/// Seconds and nanoseconds of a point in time.
pub open spec fn time_parts(time: Option<Timestamp>) -> Option<(i64, u32)> {
    match time {
        Some(time) => Some((time.secs, time.nanos)),
        None => None,
    }
}

/// Calls `chrono::DateTime::parse_from_rfc3339`. Of the result it is only claimed
/// that it depends on the text alone.
#[verifier::external_body]
pub(crate) fn parse_rfc3339(text: &str) -> (r: Option<Timestamp>)
    ensures
        time_parts(r) == rfc3339_time(text@),
{
    let time = chrono::DateTime::parse_from_rfc3339(text).ok()?;
    Some(Timestamp { secs: time.timestamp(), nanos: time.timestamp_subsec_nanos() })
}

/// A day counts once it is over, and a span of time back counts as many whole days as
/// the same span ahead.
pub proof fn lemma_only_whole_days_count(nanos: int)
    ensures
        nanos >= 0 ==> whole_days(nanos) * (24 * 3600 * 1_000_000_000) <= nanos,
        nanos >= 0 ==> nanos < (whole_days(nanos) + 1) * (24 * 3600 * 1_000_000_000),
        whole_days(-nanos) == -whole_days(nanos),
{
    let day = NANOS_PER_DAY as int;
    if nanos >= 0 {
        assert((nanos / day) * day <= nanos < (nanos / day + 1) * day) by (nonlinear_arith)
            requires
                day > 0,
        ;
    }
}

/// A point in time is put together from its seconds and what is left of the next
/// one: a later second is later, and so is a later part of the same second.
pub proof fn lemma_later_is_later(a: Timestamp, b: Timestamp)
    requires
        a.nanos < 1_000_000_000,
        b.nanos < 1_000_000_000,
    ensures
        a.secs < b.secs ==> a@ < b@,
        a.secs == b.secs ==> (a@ < b@ <==> a.nanos < b.nanos),
        a@ == b@ ==> a == b,
{
}

} // verus!
