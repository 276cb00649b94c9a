//! The two loops of the publisher: looking at our proposals, and publishing what
//! is ready.
use crate::publish::run::Run;
use crate::publish::state::UnpublishedBranch;
use crate::text::{opt_text, str_eq};
use crate::text_map::TextMap;
use crate::time::{NANOS_PER_DAY, TimeDelta, Timestamp};
use vstd::prelude::*;

verus! {

/// Days after which the last full pass over our proposals is too old to publish
/// against.
pub const MAX_FULL_SCAN_AGE_DAYS: i64 = 7;

/// Seconds between two lines that say that publishing waits for a pass.
pub const GATE_WAIT_RELOG_SECS: u64 = 60;

/// Seconds after which the attempt to publish a run is given up.
pub const PER_RUN_PUBLISH_TIMEOUT_SECS: u64 = 300;

/// Days after which a proposal that no pass saw is looked at by itself.
pub const STRAGGLER_DAYS: i64 = 5;

/// Nanoseconds in a millisecond.
pub const NANOS_PER_MILLI: i128 = 1_000_000;

/// A run that is ready to be published.
#[derive(Debug)]
pub struct PublishReadyRun {
    /// The run.
    pub run: Run,
    /// Bucket that its proposals count towards.
    pub rate_limit_bucket: String,
    /// Command of its campaign on its codebase.
    pub command: String,
    /// Its branches that are not published yet.
    pub unpublished_branches: Vec<UnpublishedBranch>,
}

/// Whether the last full pass is recent enough to publish against.
pub open spec fn scan_is_recent(last: Option<Timestamp>, now: Timestamp) -> bool {
    last is Some && now@ - last->0@ <= MAX_FULL_SCAN_AGE_DAYS * NANOS_PER_DAY
}

/// Whether the last full pass, where there was one, is recent enough to publish
/// against.
pub fn scan_ts_is_recent(last: Option<Timestamp>, now: Timestamp) -> (r: bool)
    ensures
        r == scan_is_recent(last, now),
{
    match last {
        Some(last) => now.since(last).nanos <= TimeDelta::days(MAX_FULL_SCAN_AGE_DAYS).nanos,
        None => false,
    }
}

/// How many whole milliseconds of an interval are left after a cycle; nothing
/// where the cycle took as long as the interval or longer.
pub fn sleep_remaining(cycle_start: Timestamp, now: Timestamp, interval: TimeDelta) -> (r: Option<
    u128,
>)
    requires
        -0x4000_0000_0000_0000_0000_0000_0000_0000 <= interval.nanos
            <= 0x4000_0000_0000_0000_0000_0000_0000_0000,
    ensures
        ({
            let left = interval.nanos - (now@ - cycle_start@);
            if left > 0 {
                r == Some((left / (NANOS_PER_MILLI as int)) as u128)
            } else {
                r is None
            }
        }),
{
    let took = now.since(cycle_start).nanos;
    let left: i128 = interval.nanos - took;
    if left > 0 {
        Some((left / NANOS_PER_MILLI) as u128)
    } else {
        None
    }
}

/// What has been done with the runs that are ready.
#[derive(Debug)]
pub struct PendingTally {
    /// How much may be published, where that is limited.
    pub push_limit: Option<usize>,
    /// How much was published.
    pub published: usize,
    /// How many runs failed.
    pub errors: usize,
    /// How often each thing was done.
    pub actions: TextMap<usize>,
    /// How many things were done.
    pub done: usize,
}

/// What to do with the next run.
#[derive(Clone, Copy, Debug, PartialEq, Eq, Structural)]
pub enum PendingGate {
    /// Leave it, and all that follow.
    Stop,
    /// See whether to publish it.
    Consider {
        /// How much more may be published, where that is limited.
        push_limit: Option<usize>,
    },
}

/// `counts` with one more for `word`.
pub open spec fn bumped(counts: Map<Seq<char>, usize>, word: Seq<char>) -> Map<Seq<char>, usize> {
    counts.insert(
        word,
        (if counts.dom().contains(word) {
            counts[word] + 1
        } else {
            1
        }) as usize,
    )
}

/// What was done with a role.
pub open spec fn role_action(role: Seq<char>, mode: Option<String>) -> Seq<char> {
    match mode {
        Some(mode) => mode@,
        None => "gated:"@ + role,
    }
}

/// Whether a role was published.
pub open spec fn is_published(mode: Option<String>) -> bool {
    mode is Some && mode->0@ != "build-only"@ && mode->0@ != "skip"@
}

/// `counts` with what was done with each of some roles.
pub open spec fn bumped_roles(
    counts: Map<Seq<char>, usize>,
    modes: Map<Seq<char>, Option<String>>,
    roles: Seq<Seq<char>>,
) -> Map<Seq<char>, usize>
    decreases roles.len(),
{
    if roles.len() == 0 {
        counts
    } else {
        bumped(
            bumped_roles(counts, modes, roles.drop_last()),
            role_action(roles.last(), modes[roles.last()]),
        )
    }
}

/// How many of some roles were published.
pub open spec fn published_roles(
    modes: Map<Seq<char>, Option<String>>,
    roles: Seq<Seq<char>>,
) -> nat
    decreases roles.len(),
{
    if roles.len() == 0 {
        0
    } else {
        published_roles(modes, roles.drop_last()) + (if is_published(modes[roles.last()]) {
            1nat
        } else {
            0
        })
    }
}

/// The reason for which a run was not published at all, in the result of
/// considering it.
pub open spec fn pre_flight(modes: Map<Seq<char>, Option<String>>) -> Option<Seq<char>> {
    if modes.dom().contains("__status"@) {
        opt_text(modes["__status"@])
    } else {
        None
    }
}

/// What to do with the next run.
pub open spec fn pending_gate(t: PendingTally) -> PendingGate {
    match t.push_limit {
        None => PendingGate::Consider { push_limit: None },
        Some(limit) => if t.published >= limit {
            PendingGate::Stop
        } else {
            PendingGate::Consider { push_limit: Some((limit - t.published) as usize) }
        },
    }
}

/// Starts to publish the runs that are ready.
pub fn publish_pending_ready(push_limit: Option<usize>) -> (r: PendingTally)
    ensures
        r.wf(),
        r.push_limit == push_limit,
        r.published == 0,
        r.errors == 0,
        r.actions@ == Map::<Seq<char>, usize>::empty(),
        r.done == 0,
{
    PendingTally { push_limit, published: 0, errors: 0, actions: TextMap::new(), done: 0 }
}

impl PendingTally {
    /// No number is larger than that of all things done.
    pub open spec fn wf(&self) -> bool {
        &&& self.actions.wf()
        &&& self.published <= self.done
        &&& self.errors <= self.done
        &&& forall|word: Seq<char>| #[trigger]
            self.actions@.dom().contains(word) ==> self.actions@[word] <= self.done
    }

    /// Whether `n` more things can be counted.
    pub fn has_room(&self, n: usize) -> (r: bool)
        ensures
            r == (self.done + n <= usize::MAX),
    {
        n <= usize::MAX - self.done
    }

    /// What to do with the next run.
    pub fn gate(&self) -> (r: PendingGate)
        ensures
            r == pending_gate(*self),
    {
        match self.push_limit {
            None => PendingGate::Consider { push_limit: None },
            Some(limit) => if self.published >= limit {
                PendingGate::Stop
            } else {
                PendingGate::Consider { push_limit: Some(limit - self.published) }
            },
        }
    }

    /// Counts something that was done.
    fn bump(&mut self, word: String)
        requires
            old(self).wf(),
            old(self).done < usize::MAX,
        ensures
            final(self).wf(),
            final(self).actions@ == bumped(old(self).actions@, word@),
            *final(self) == (PendingTally {
                actions: final(self).actions,
                done: (old(self).done + 1) as usize,
                ..*old(self)
            }),
    {
        let before: usize = match self.actions.get(word.as_str()) {
            Some(n) => *n,
            None => 0,
        };
        self.actions.insert(word, before + 1);
        self.done = self.done + 1;
    }

    /// Notes down that the attempt to publish a run took too long.
    pub fn note_timeout(&mut self)
        requires
            old(self).wf(),
            old(self).done < usize::MAX,
        ensures
            final(self).wf(),
            final(self).actions@ == bumped(old(self).actions@, "timeout"@),
            *final(self) == (PendingTally {
                errors: (old(self).errors + 1) as usize,
                actions: final(self).actions,
                done: (old(self).done + 1) as usize,
                ..*old(self)
            }),
    {
        self.bump("timeout".to_owned());
        self.errors = self.errors + 1;
    }

    /// Notes down that the attempt to publish a run failed.
    pub fn note_error(&mut self)
        requires
            old(self).wf(),
            old(self).done < usize::MAX,
        ensures
            final(self).wf(),
            final(self).actions@ == bumped(old(self).actions@, "error"@),
            *final(self) == (PendingTally {
                errors: (old(self).errors + 1) as usize,
                actions: final(self).actions,
                done: (old(self).done + 1) as usize,
                ..*old(self)
            }),
    {
        self.bump("error".to_owned());
        self.errors = self.errors + 1;
    }

    /// Notes down what became of a run: the reason for which it was not published
    /// at all, or the mode in which each role was published, if it was.
    pub fn note_considered(&mut self, modes: &TextMap<Option<String>>)
        requires
            old(self).wf(),
            modes.wf(),
            old(self).done + modes.keys().len() < usize::MAX,
        ensures
            final(self).wf(),
            final(self).errors == old(self).errors,
            final(self).push_limit == old(self).push_limit,
            match pre_flight(modes@) {
                Some(reason) => {
                    &&& final(self).actions@ == bumped(old(self).actions@, reason)
                    &&& final(self).published == old(self).published
                    &&& final(self).done == old(self).done + 1
                },
                None => {
                    &&& final(self).actions@ == bumped_roles(
                        old(self).actions@,
                        modes@,
                        modes.keys(),
                    )
                    &&& final(self).published == old(self).published + published_roles(
                        modes@,
                        modes.keys(),
                    )
                    &&& final(self).done == old(self).done + modes.keys().len()
                },
            },
    {
        if let Some(Some(reason)) = modes.get("__status") {
            self.bump(reason.clone());
            return;
        }
        let ghost before = *self;
        let len: usize = modes.len();
        let mut i: usize = 0;
        while i < len
            invariant
                i <= len == modes.keys().len(),
                modes.wf(),
                self.wf(),
                before.done + len < usize::MAX,
                self.done == before.done + i,
                self.errors == before.errors,
                self.push_limit == before.push_limit,
                self.actions@ == bumped_roles(before.actions@, modes@, modes.keys().take(i as int)),
                self.published == before.published + published_roles(
                    modes@,
                    modes.keys().take(i as int),
                ),
            decreases len - i,
        {
            assert(modes.keys().take(i + 1).drop_last() =~= modes.keys().take(i as int));
            match modes.value_at(i) {
                Some(mode) => {
                    self.bump(mode.clone());
                    if !str_eq(mode.as_str(), "build-only") && !str_eq(mode.as_str(), "skip") {
                        self.published = self.published + 1;
                    }
                },
                None => {
                    self.bump("gated:".to_owned().concat(modes.key_at(i).as_str()));
                },
            }
            i = i + 1;
        }
        assert(modes.keys().take(i as int) =~= modes.keys());
    }
}

/// Runs are considered only while something may still be published, and what may
/// still be published and what was published make up the limit.
pub proof fn lemma_pending_limit_is_kept(t: PendingTally, limit: usize)
    requires
        t.push_limit == Some(limit),
    ensures
        match pending_gate(t) {
            PendingGate::Stop => t.published >= limit,
            PendingGate::Consider { push_limit } => push_limit is Some && push_limit->0 > 0
                && t.published + push_limit->0 == limit,
        },
{
}

/// A pass is recent for seven days: it stays recent until then, is not afterwards,
/// and without a pass nothing is.
pub proof fn lemma_pass_is_recent_for_a_week(
    last: Option<Timestamp>,
    now: Timestamp,
    earlier: Timestamp,
)
    ensures
        !scan_is_recent(None, now),
        last is Some ==> (scan_is_recent(last, now) <==> now@ - last->0@ <= 7 * 24 * 3600
            * 1_000_000_000),
        scan_is_recent(last, now) && earlier@ <= now@ ==> scan_is_recent(last, earlier),
{
}

/// One more is counted for the word, and every other count stays.
pub proof fn lemma_one_more_is_counted(
    counts: Map<Seq<char>, usize>,
    word: Seq<char>,
    other: Seq<char>,
)
    requires
        counts.dom().contains(word) ==> counts[word] < usize::MAX,
    ensures
        bumped(counts, word).dom().contains(word),
        bumped(counts, word)[word] == (if counts.dom().contains(word) {
            counts[word] + 1
        } else {
            1
        }),
        other != word ==> bumped(counts, word).dom().contains(other) == counts.dom().contains(other),
        other != word && counts.dom().contains(other) ==> bumped(counts, word)[other]
            == counts[other],
{
}

/// A role that was published counts as published, one that was held back, skipped or
/// only built does not.
pub proof fn lemma_only_published_roles_count(role: Seq<char>, mode: Option<String>)
    ensures
        mode is None ==> !is_published(mode) && role.is_suffix_of(role_action(role, mode)),
        mode is Some ==> role_action(role, mode) == mode->0@,
        mode is Some && (mode->0@ == "push"@ || mode->0@ == "propose"@ || mode->0@
            == "push-derived"@ || mode->0@ == "attempt-push"@) ==> is_published(mode),
        mode is Some && (mode->0@ == "build-only"@ || mode->0@ == "skip"@) ==> !is_published(mode),
{
    reveal_strlit("push");
    reveal_strlit("propose");
    reveal_strlit("push-derived");
    reveal_strlit("attempt-push");
    reveal_strlit("build-only");
    reveal_strlit("skip");
    assert("push"@.len() == 4 && "skip"@.len() == 4 && "push"@[0] == 'p' && "skip"@[0] == 's');
    assert("propose"@.len() == 7 && "push-derived"@.len() == 12 && "attempt-push"@.len() == 12);
    assert("build-only"@.len() == 10);
    let action = "gated:"@ + role;
    assert(action.subrange(action.len() - role.len(), action.len() as int) =~= role);
}

/// The roles of two lists, one behind the other, are counted as those of the first
/// and those of the second; each role counts once.
pub proof fn lemma_roles_are_counted_each(
    modes: Map<Seq<char>, Option<String>>,
    first: Seq<Seq<char>>,
    second: Seq<Seq<char>>,
)
    ensures
        published_roles(modes, first + second) == published_roles(modes, first) + published_roles(
            modes,
            second,
        ),
        first.len() == 1 ==> published_roles(modes, first) == (if is_published(modes[first[0]]) {
            1nat
        } else {
            0
        }),
    decreases second.len(),
{
    if first.len() == 1 {
        assert(first.drop_last() =~= Seq::empty());
        assert(published_roles(modes, first.drop_last()) == 0);
    }
    if second.len() == 0 {
        assert(first + second =~= first);
    } else {
        assert((first + second).drop_last() =~= first + second.drop_last());
        lemma_roles_are_counted_each(modes, first, second.drop_last());
    }
}

/// What was done with the roles of two lists, one behind the other, is counted as
/// what was done with those of the first and then with those of the second; each
/// role is counted under what was done with it.
pub proof fn lemma_actions_are_counted_each(
    counts: Map<Seq<char>, usize>,
    modes: Map<Seq<char>, Option<String>>,
    first: Seq<Seq<char>>,
    second: Seq<Seq<char>>,
)
    ensures
        bumped_roles(counts, modes, first + second) == bumped_roles(
            bumped_roles(counts, modes, first),
            modes,
            second,
        ),
        first.len() == 0 ==> bumped_roles(counts, modes, first) == counts,
        first.len() == 1 ==> bumped_roles(counts, modes, first) == bumped(
            counts,
            role_action(first[0], modes[first[0]]),
        ),
    decreases second.len(),
{
    if first.len() == 1 {
        assert(first.drop_last() =~= Seq::empty());
        assert(bumped_roles(counts, modes, first.drop_last()) == counts);
    }
    if second.len() == 0 {
        assert(first + second =~= first);
    } else {
        assert((first + second).drop_last() =~= first + second.drop_last());
        lemma_actions_are_counted_each(counts, modes, first, second.drop_last());
    }
}

/// A reason given for a whole run is taken for it; without one the roles speak for
/// themselves.
pub proof fn lemma_reason_is_the_one_given(modes: Map<Seq<char>, Option<String>>)
    ensures
        pre_flight(modes) matches Some(reason) ==> {
            &&& modes.dom().contains("__status"@)
            &&& modes["__status"@] is Some
            &&& modes["__status"@]->0@ == reason
        },
        modes.dom().contains("__status"@) && modes["__status"@] is Some ==> pre_flight(modes)
            is Some,
{
}

} // verus!
