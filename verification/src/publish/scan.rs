//! One pass over all merge proposals that we own.
use crate::publish::counts::MpCounts;
use crate::publish::errors::CheckMpError;
use crate::publish::rate_limiter::{RateLimiter, takes_over};
use crate::publish::types::ForgeMpStatus;
use crate::time::{NANOS_PER_SEC, TimeDelta, Timestamp};
use vstd::prelude::*;

verus! {

/// How long a forge is left alone that wants us to slow down without saying for
/// how long, in seconds.
pub const DEFAULT_RETRY_AFTER_SECS: i64 = 1800;

/// How many errors of a listing are worth a line each.
pub const LISTED_ERRORS: usize = 5;

/// The states to list proposals in: those asked for, or else all three.
pub fn statuses_to_list(statuses: Option<Vec<ForgeMpStatus>>) -> (r: Vec<ForgeMpStatus>)
    ensures
        match statuses {
            Some(asked) => r == asked,
            None => r@ == seq![ForgeMpStatus::Open, ForgeMpStatus::Closed, ForgeMpStatus::Merged],
        },
{
    match statuses {
        Some(asked) => asked,
        None => vec![ForgeMpStatus::Open, ForgeMpStatus::Closed, ForgeMpStatus::Merged],
    }
}

/// The word for the state of a proposal; nothing where it is not known yet
/// whether an unmerged proposal is closed.
pub fn get_mp_status(is_merged: bool, is_closed: Option<bool>) -> (r: Option<&'static str>)
    ensures
        match r {
            Some(word) => word@ == (if is_merged {
                "merged"@
            } else if is_closed == Some(true) {
                "closed"@
            } else {
                "open"@
            }) && (is_merged || is_closed is Some),
            None => !is_merged && is_closed is None,
        },
{
    if is_merged {
        return Some("merged");
    }
    match is_closed {
        Some(true) => Some("closed"),
        Some(false) => Some("open"),
        None => None,
    }
}

/// The state of a pass.
#[derive(Debug)]
pub struct ExistingScan {
    /// How many proposals may be modified, where that is limited.
    pub modify_limit: Option<i32>,
    /// How many unexpected answers are put up with, where that is limited.
    pub unexpected_limit: Option<i32>,
    /// Proposals seen.
    pub scanned: i32,
    /// Proposals modified.
    pub modified: i32,
    /// Unexpected answers.
    pub unexpected: i32,
    /// Whether the rest is only looked at.
    pub check_only: bool,
    /// Whether proposals were passed over for the sake of a forge.
    pub was_forge_ratelimited: bool,
    /// Whether the pass was given up.
    pub gave_up: bool,
    /// Proposals without a run.
    pub no_run: usize,
    /// The first of them.
    pub no_run_first: Option<String>,
    /// Errors of the listing.
    pub listing_errors: usize,
}

/// What to say about an error of the listing.
#[derive(Clone, Copy, Debug, PartialEq, Eq, Structural)]
pub enum ListingErrorNote {
    /// The error.
    Report,
    /// That further errors are not reported.
    LastNote,
    /// Nothing.
    Silent,
}

/// What to do with a proposal.
#[derive(Clone, Copy, Debug, PartialEq, Eq, Structural)]
pub enum ProposalGate {
    /// Check it.
    Check {
        /// Whether to only bring its record up to date.
        check_only: bool,
        /// Whether to forget that its forge wanted us to slow down.
        forget_limit: bool,
    },
    /// Pass over it.
    ForgeRateLimited,
}

/// What follows from the check of a proposal.
#[derive(Clone, Copy, Debug, PartialEq, Eq, Structural)]
pub enum AfterCheck {
    /// Go on.
    Continue,
    /// Remember that its forge wants to be left alone for a while, and go on.
    LimitForge {
        /// For how long.
        wait: TimeDelta,
    },
    /// Stop the pass.
    GiveUp,
}

/// Whether a check counts as unexpected.
pub open spec fn is_unexpected(result: Result<bool, CheckMpError>) -> bool {
    match result {
        Ok(_) => false,
        Err(e) => e is UnexpectedHttpStatus || e is Database,
    }
}

/// Whether a check counts as a modification.
pub open spec fn is_modified(result: Result<bool, CheckMpError>) -> bool {
    match result {
        Ok(modified) => modified,
        Err(e) => e is UnexpectedHttpStatus,
    }
}

/// Whether more than `limit` is too many.
pub open spec fn is_over(n: int, limit: Option<i32>) -> bool {
    limit is Some && n > limit->0
}

/// The state of a pass after a check, before it is decided whether to go on.
pub open spec fn tallied(s: ExistingScan, result: Result<bool, CheckMpError>) -> ExistingScan {
    match result {
        Err(CheckMpError::NoRunForMergeProposal(url)) => ExistingScan {
            no_run: (s.no_run + 1) as usize,
            no_run_first: match s.no_run_first {
                Some(first) => Some(first),
                None => Some(url),
            },
            ..s
        },
        _ => if is_unexpected(result) {
            ExistingScan { unexpected: (s.unexpected + 1) as i32, ..s }
        } else {
            s
        },
    }
}

/// What follows from a check.
pub open spec fn after_check(s: ExistingScan, result: Result<bool, CheckMpError>) -> AfterCheck {
    match result {
        Err(CheckMpError::BranchRateLimited { retry_after }) => AfterCheck::LimitForge {
            wait: match retry_after {
                Some(wait) => wait,
                None => TimeDelta { nanos: (DEFAULT_RETRY_AFTER_SECS * NANOS_PER_SEC) as i128 },
            },
        },
        _ => if is_over(tallied(s, result).unexpected as int, s.unexpected_limit) {
            AfterCheck::GiveUp
        } else {
            AfterCheck::Continue
        },
    }
}

/// The state of a pass after a check.
pub open spec fn scan_after(s: ExistingScan, result: Result<bool, CheckMpError>) -> ExistingScan {
    let t = tallied(s, result);
    if after_check(s, result) is GiveUp {
        ExistingScan { gave_up: true, ..t }
    } else if after_check(s, result) is Continue && is_modified(result) {
        ExistingScan {
            modified: (t.modified + 1) as i32,
            check_only: t.check_only || is_over(t.modified + 1, t.modify_limit),
            ..t
        }
    } else {
        t
    }
}

/// Whether a proposal is passed over whose forge is to be left alone until
/// `retry_after`, if that is set.
pub open spec fn is_passed_over(retry_after: Option<Timestamp>, now: Timestamp) -> bool {
    retry_after is Some && now@ < retry_after->0@
}

/// Whether a pass that came to its end went over every proposal: none was passed
/// over for the sake of its forge, and the pass was not given up.
pub open spec fn is_full_pass(s: ExistingScan) -> bool {
    !s.was_forge_ratelimited && !s.gave_up
}

/// Starts a pass.
pub fn check_existing(modify_limit: Option<i32>, unexpected_limit: Option<i32>) -> (r: ExistingScan)
    ensures
        r == (ExistingScan {
            modify_limit,
            unexpected_limit,
            scanned: 0,
            modified: 0,
            unexpected: 0,
            check_only: false,
            was_forge_ratelimited: false,
            gave_up: false,
            no_run: 0,
            no_run_first: None,
            listing_errors: 0,
        }),
{
    ExistingScan {
        modify_limit,
        unexpected_limit,
        scanned: 0,
        modified: 0,
        unexpected: 0,
        check_only: false,
        was_forge_ratelimited: false,
        gave_up: false,
        no_run: 0,
        no_run_first: None,
        listing_errors: 0,
    }
}

impl ExistingScan {
    /// Whether the counters have room for another proposal.
    pub open spec fn has_room(&self) -> bool {
        &&& self.scanned < i32::MAX
        &&& self.modified < i32::MAX
        &&& self.unexpected < i32::MAX
        &&& self.no_run < usize::MAX
    }

    /// Whether the counters have room for another proposal.
    pub fn can_count(&self) -> (r: bool)
        ensures
            r == self.has_room(),
    {
        self.scanned < i32::MAX && self.modified < i32::MAX && self.unexpected < i32::MAX
            && self.no_run < usize::MAX
    }

    /// Notes down that a proposal could not be listed.
    pub fn note_listing_error(&mut self) -> (r: ListingErrorNote)
        requires
            old(self).listing_errors < usize::MAX,
        ensures
            *final(self) == (ExistingScan {
                listing_errors: (old(self).listing_errors + 1) as usize,
                ..*old(self)
            }),
            r == (if old(self).listing_errors < LISTED_ERRORS {
                ListingErrorNote::Report
            } else if old(self).listing_errors == LISTED_ERRORS {
                ListingErrorNote::LastNote
            } else {
                ListingErrorNote::Silent
            }),
    {
        self.listing_errors = self.listing_errors + 1;
        if self.listing_errors <= LISTED_ERRORS {
            ListingErrorNote::Report
        } else if self.listing_errors == LISTED_ERRORS + 1 {
            ListingErrorNote::LastNote
        } else {
            ListingErrorNote::Silent
        }
    }

    /// Notes down that a proposal was listed, whose forge is to be left alone
    /// until `retry_after`, if that is set, and says what to do with it. Once that
    /// time has come, the limit is forgotten and the proposal is checked.
    pub fn note_proposal(&mut self, retry_after: Option<Timestamp>, now: Timestamp) -> (r:
        ProposalGate)
        requires
            old(self).has_room(),
        ensures
            ({
                let passed_over = is_passed_over(retry_after, now);
                &&& *final(self) == (ExistingScan {
                    scanned: (old(self).scanned + 1) as i32,
                    was_forge_ratelimited: old(self).was_forge_ratelimited || passed_over,
                    ..*old(self)
                })
                &&& r == (if passed_over {
                    ProposalGate::ForgeRateLimited
                } else {
                    ProposalGate::Check {
                        check_only: old(self).check_only,
                        forget_limit: retry_after is Some,
                    }
                })
            }),
    {
        self.scanned = self.scanned + 1;
        match retry_after {
            Some(retry_after) => {
                if now.is_before(retry_after) {
                    self.was_forge_ratelimited = true;
                    ProposalGate::ForgeRateLimited
                } else {
                    ProposalGate::Check { check_only: self.check_only, forget_limit: true }
                }
            },
            None => ProposalGate::Check { check_only: self.check_only, forget_limit: false },
        }
    }

    /// Notes down how the check of a proposal ended, and says what follows.
    pub fn note_checked(&mut self, result: &Result<bool, CheckMpError>) -> (r: AfterCheck)
        requires
            old(self).has_room(),
        ensures
            *final(self) == scan_after(*old(self), *result),
            r == after_check(*old(self), *result),
    {
        let modified: bool = match result {
            Ok(modified) => *modified,
            Err(CheckMpError::NoRunForMergeProposal(url)) => {
                self.no_run = self.no_run + 1;
                if self.no_run_first.is_none() {
                    self.no_run_first = Some(url.clone());
                }
                false
            },
            Err(CheckMpError::BranchRateLimited { retry_after }) => {
                let wait = match retry_after {
                    Some(wait) => *wait,
                    None => TimeDelta::seconds(DEFAULT_RETRY_AFTER_SECS),
                };
                return AfterCheck::LimitForge { wait };
            },
            Err(CheckMpError::UnexpectedHttpStatus) => {
                self.unexpected = self.unexpected + 1;
                true
            },
            Err(CheckMpError::Database(_)) => {
                self.unexpected = self.unexpected + 1;
                false
            },
            Err(_) => false,
        };
        if let Some(limit) = self.unexpected_limit {
            if self.unexpected > limit {
                self.gave_up = true;
                return AfterCheck::GiveUp;
            }
        }
        if modified {
            self.modified = self.modified + 1;
            if let Some(limit) = self.modify_limit {
                if self.modified > limit {
                    self.check_only = true;
                }
            }
        }
        AfterCheck::Continue
    }

    /// Whether a pass that came to its end went over every proposal.
    pub fn is_complete(&self) -> (r: bool)
        ensures
            r == is_full_pass(*self),
    {
        !self.was_forge_ratelimited && !self.gave_up
    }

    /// Ends a pass: the limiter takes over what the pass counted if it went over
    /// every proposal, and else is left as it was. Says which of the two it is.
    pub fn finish(&self, limiter: &mut RateLimiter, counts: &MpCounts) -> (r: bool)
        requires
            counts.wf(),
        ensures
            r == is_full_pass(*self),
            r ==> final(limiter).wf() && takes_over(*old(limiter), *final(limiter), *counts),
            !r ==> *final(limiter) == *old(limiter),
    {
        let complete = self.is_complete();
        if complete {
            limiter.set_mps_per_bucket(counts);
        }
        complete
    }
}

/// Once a pass only looks at proposals, it never modifies one again; and once a
/// proposal was passed over, the pass stays incomplete.
pub proof fn lemma_limits_stick(s: ExistingScan, result: Result<bool, CheckMpError>)
    ensures
        s.check_only ==> scan_after(s, result).check_only,
        scan_after(s, result).was_forge_ratelimited == s.was_forge_ratelimited,
        scan_after(s, result).scanned == s.scanned,
{
}

/// As long as proposals may be modified, no more than allowed have been; and a
/// pass goes on only while the unexpected answers are within their limit.
pub proof fn lemma_limits_hold(s: ExistingScan, result: Result<bool, CheckMpError>)
    requires
        s.has_room(),
        !s.check_only ==> !is_over(s.modified as int, s.modify_limit),
        !is_over(s.unexpected as int, s.unexpected_limit),
    ensures
        ({
            let after = scan_after(s, result);
            &&& !after.check_only ==> !is_over(after.modified as int, after.modify_limit)
            &&& !(after_check(s, result) is GiveUp) ==> !is_over(
                after.unexpected as int,
                after.unexpected_limit,
            )
        }),
{
}

/// What a pass that was given up counted is never taken over, and neither is what
/// one counted that passed over a proposal.
pub proof fn lemma_cut_short_is_not_full(s: ExistingScan, result: Result<bool, CheckMpError>)
    ensures
        after_check(s, result) is GiveUp ==> !is_full_pass(scan_after(s, result)),
        !is_full_pass(s) ==> !is_full_pass(scan_after(s, result)),
{
}

/// A forge is left alone for as long as it asked to be, and not any longer.
pub proof fn lemma_limit_lasts_until_its_time(retry_after: Timestamp, now: Timestamp)
    ensures
        is_passed_over(Some(retry_after), now) <==> now@ < retry_after@,
        !is_passed_over(None, now),
{
}

/// The answer of a forge that wants us to slow down is no unexpected one, and the
/// pass goes on. It is the proposals that are passed over for it that leave the
/// pass incomplete.
pub proof fn lemma_slowing_down_is_no_failure(s: ExistingScan, retry_after: Option<TimeDelta>)
    ensures
        scan_after(s, Err(CheckMpError::BranchRateLimited { retry_after })) == s,
        after_check(s, Err(CheckMpError::BranchRateLimited { retry_after })) is LimitForge,
{
}

/// Each answer is counted for what it is: an unexpected one as unexpected, a
/// modification as one, a proposal without a run by itself; what does not belong to
/// it stays as it was.
pub proof fn lemma_answers_are_counted_for_what_they_are(
    s: ExistingScan,
    result: Result<bool, CheckMpError>,
)
    requires
        s.has_room(),
    ensures
        ({
            let after = scan_after(s, result);
            let failed = result is Err && (result->Err_0 is UnexpectedHttpStatus
                || result->Err_0 is Database);
            let orphaned = result is Err && result->Err_0 is NoRunForMergeProposal;
            let changed = result == Ok::<bool, CheckMpError>(true) || (result is Err
                && result->Err_0 is UnexpectedHttpStatus);
            &&& after.unexpected == s.unexpected + (if failed {
                1int
            } else {
                0
            })
            &&& after.no_run == s.no_run + (if orphaned {
                1int
            } else {
                0
            })
            &&& orphaned && s.no_run_first is None ==> after.no_run_first == Some(
                result->Err_0->NoRunForMergeProposal_0,
            )
            &&& !orphaned || s.no_run_first is Some ==> after.no_run_first == s.no_run_first
            &&& after.modified == s.modified + (if changed && !after.gave_up {
                1int
            } else {
                0
            }) || s.gave_up
            &&& after.modify_limit == s.modify_limit
            &&& after.unexpected_limit == s.unexpected_limit
            &&& after.listing_errors == s.listing_errors
        }),
{
    if result is Ok {
        assert(result == Ok::<bool, CheckMpError>(true) || result == Ok::<bool, CheckMpError>(
            false,
        )) by {
            assert(result->Ok_0 == true || result->Ok_0 == false);
        }
    }
}

/// A pass is given up exactly when more answers were unexpected than may be; from
/// then on it is no full pass. Proposals are only looked at from the point on where
/// more were modified than may be.
pub proof fn lemma_given_up_only_over_the_limit(
    s: ExistingScan,
    result: Result<bool, CheckMpError>,
)
    requires
        s.has_room(),
        !s.gave_up,
        !s.check_only,
    ensures
        after_check(s, result) is GiveUp <==> !(result is Err
            && result->Err_0 is BranchRateLimited) && s.unexpected_limit is Some && scan_after(
            s,
            result,
        ).unexpected > s.unexpected_limit->0,
        scan_after(s, result).gave_up <==> after_check(s, result) is GiveUp,
        scan_after(s, result).check_only ==> s.modify_limit is Some && scan_after(
            s,
            result,
        ).modified > s.modify_limit->0 && scan_after(s, result).modified == s.modified + 1,
        s.modify_limit is Some && scan_after(s, result).modified == s.modified + 1 && scan_after(
            s,
            result,
        ).modified > s.modify_limit->0 ==> scan_after(s, result).check_only,
{
}

/// A forge is let be only where it asked for it: for as long as it asked, or for
/// half an hour where it did not say.
pub proof fn lemma_forge_is_let_be_as_it_asked(
    s: ExistingScan,
    result: Result<bool, CheckMpError>,
)
    ensures
        after_check(s, result) is LimitForge <==> result is Err
            && result->Err_0 is BranchRateLimited,
        after_check(s, result) matches AfterCheck::LimitForge { wait } ==> {
            &&& result->Err_0->retry_after is Some ==> wait == result->Err_0->retry_after->0
            &&& result->Err_0->retry_after is None ==> wait.nanos == 30 * 60 * 1_000_000_000
        },
{
}

/// A pass is full where no forge was left out and nothing was given up.
pub proof fn lemma_full_pass_left_nothing_out(s: ExistingScan)
    ensures
        is_full_pass(s) ==> !s.was_forge_ratelimited && !s.gave_up,
        s.was_forge_ratelimited || s.gave_up || is_full_pass(s),
{
}

} // verus!
