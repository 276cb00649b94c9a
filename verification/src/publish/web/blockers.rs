//! Why a run is not published.
use crate::publish::backoff::{MAX_BACKOFF_HOURS, backoff_hours, calculate_next_try_time};
use crate::publish::consider::{
    ConsiderRun, ConsiderStep, NotConsidered, change_set_state_allows_publish, consider_next,
    previous_blocks, previous_mp_blocks_publish,
};
use crate::text::str_eq;
use crate::text_map::TextMap;
use crate::time::Timestamp;
use vstd::prelude::*;

verus! {

/// Result code of attempts that do not count towards the wait for another.
pub const UNCOUNTED_RESULT_CODE: &'static str = "differ-unreachable";

/// One reason for which a run may not be published.
#[derive(Debug)]
pub struct Blocker<D> {
    /// Whether it does not stand in the way.
    pub result: bool,
    /// More about it.
    pub details: D,
}

/// Whether the run succeeded.
#[derive(Debug)]
pub struct BlockerSuccessDetails {
    /// Result code of the run.
    pub result_code: String,
}

/// Whether the codebase is active.
#[derive(Debug)]
pub struct BlockerInactiveDetails {
    /// Whether it is not.
    pub inactive: bool,
}

/// Whether the run had the right command.
#[derive(Debug)]
pub struct BlockerCommandDetails {
    /// The right one.
    pub correct: String,
    /// The one it had.
    pub actual: String,
}

/// What somebody said of a run.
#[derive(Debug)]
pub struct ReviewSummary {
    /// When.
    pub timestamp: Timestamp,
    /// In words.
    pub comment: Option<String>,
    /// For or against it.
    pub verdict: String,
}

/// Whether the run was approved.
#[derive(Debug)]
pub struct BlockerPublishStatusDetails {
    /// Whether it was, as a word.
    pub status: String,
    /// What each person said of it.
    pub reviews: TextMap<ReviewSummary>,
}

/// Whether it is time for another attempt.
#[derive(Debug)]
pub struct BlockerBackoffDetails {
    /// Attempts so far.
    pub attempt_count: usize,
    /// When it is time.
    pub next_try_time: Timestamp,
}

/// Whether the bucket has room for another proposal.
#[derive(Debug)]
pub enum BlockerRateLimitDetails {
    /// It has, or there is no bucket.
    Bucket(Option<String>),
    /// It has not.
    Full {
        /// How many proposals are open, where that is known.
        open: Option<usize>,
        /// How many may be, where that is limited.
        max_open: Option<usize>,
    },
}

/// Whether the change set may be published.
#[derive(Debug)]
pub struct BlockerChangeSetDetails {
    /// The change set.
    pub change_set_id: String,
    /// Its state.
    pub change_set_state: String,
}

/// An earlier proposal.
#[derive(Debug)]
pub struct BlockerPreviousMpDetails {
    /// The proposal.
    pub url: String,
    /// Its state.
    pub status: String,
}

/// All reasons for which a run may not be published.
#[derive(Debug)]
pub struct RunBlockers {
    /// It did not succeed.
    pub success: Blocker<BlockerSuccessDetails>,
    /// Its codebase is not active.
    pub inactive: Blocker<BlockerInactiveDetails>,
    /// It had the wrong command.
    pub command: Blocker<BlockerCommandDetails>,
    /// It was not approved.
    pub publish_status: Blocker<BlockerPublishStatusDetails>,
    /// It is too early for another attempt.
    pub backoff: Blocker<BlockerBackoffDetails>,
    /// Its bucket is full.
    pub propose_rate_limit: Blocker<BlockerRateLimitDetails>,
    /// Its change set may not be published.
    pub change_set: Blocker<BlockerChangeSetDetails>,
    /// An earlier proposal was turned down.
    pub previous_mp: Blocker<Vec<BlockerPreviousMpDetails>>,
}

/// A run, with what else decides whether it is published.
#[derive(Debug)]
pub struct RunDetails {
    /// Run id.
    pub id: String,
    /// Codebase.
    pub codebase: String,
    /// Campaign.
    pub campaign: String,
    /// When it ended.
    pub finish_time: Timestamp,
    /// Command that it had.
    pub run_command: String,
    /// Whether it was approved, as a word.
    pub publish_status: String,
    /// Bucket that its proposals count towards.
    pub rate_limit_bucket: Option<String>,
    /// Revision that it arrived at.
    pub revision: Option<String>,
    /// Command that it should have had.
    pub policy_command: String,
    /// Result code.
    pub result_code: String,
    /// State of its change set.
    pub change_set_state: String,
    /// Its change set.
    pub change_set: String,
    /// Whether its codebase is not active.
    pub inactive: bool,
}

/// What somebody said of a run, as it is stored.
#[derive(Debug)]
pub struct ReviewRow {
    /// Who.
    pub reviewer: String,
    /// When.
    pub reviewed_at: Timestamp,
    /// In words.
    pub comment: Option<String>,
    /// For or against it.
    pub verdict: String,
}

/// What the limiter says of a bucket.
#[derive(Clone, Copy, Debug, PartialEq, Eq, Structural)]
pub enum LimiterAnswer {
    /// It has room.
    Allowed,
    /// It has none.
    Full {
        /// How many proposals are open, where that is known.
        open: Option<usize>,
        /// How many may be, where that is limited.
        max_open: Option<usize>,
    },
}

/// What is known in the course of a request.
#[derive(Debug)]
pub struct BlockersRequest {
    /// The run.
    pub id: String,
    /// Whether the database failed.
    pub database_failed: bool,
    /// Whether the limiter failed.
    pub limiter_failed: bool,
    /// Answer to [`BlockersStep::LoadRun`].
    pub run: Option<Option<RunDetails>>,
    /// Answer to [`BlockersStep::LoadReviews`].
    pub reviews: Option<Vec<ReviewRow>>,
    /// Answer to [`BlockersStep::CountAttempts`].
    pub attempts: Option<usize>,
    /// Answer to [`BlockersStep::LoadPreviousProposals`]: URL and state of each.
    pub previous: Option<Vec<(String, String)>>,
    /// Answer to [`BlockersStep::AskLimiter`].
    pub limiter: Option<LimiterAnswer>,
}

/// What to find out next.
#[derive(Debug)]
pub enum BlockersStep {
    /// Load the run.
    LoadRun,
    /// Load what people said of it.
    LoadReviews,
    /// Count the attempts to publish a revision.
    CountAttempts {
        /// The revision.
        revision: String,
    },
    /// Find the states of earlier proposals.
    LoadPreviousProposals {
        /// Codebase.
        codebase: String,
        /// Campaign.
        campaign: String,
    },
    /// Ask the limiter about a bucket. Without a bucket there is room, but the
    /// limiter has to be there all the same.
    AskLimiter {
        /// The bucket, if there is one.
        bucket: Option<String>,
    },
    /// Nothing: all is known.
    Ready,
    /// Nothing: the database failed.
    DatabaseError,
    /// Nothing: the limiter failed.
    LimiterUnavailable,
    /// Nothing: there is no such run.
    NoRun,
}

/// The next step of a request.
pub open spec fn blockers_next(f: BlockersRequest) -> BlockersStep {
    if f.database_failed {
        BlockersStep::DatabaseError
    } else {
        match f.run {
            None => BlockersStep::LoadRun,
            Some(None) => BlockersStep::NoRun,
            Some(Some(run)) => if f.reviews is None {
                BlockersStep::LoadReviews
            } else if run.revision is Some && f.attempts is None {
                BlockersStep::CountAttempts { revision: run.revision->0 }
            } else if f.previous is None {
                BlockersStep::LoadPreviousProposals { codebase: run.codebase, campaign: run.campaign }
            } else if f.limiter_failed {
                BlockersStep::LimiterUnavailable
            } else if f.limiter is None {
                BlockersStep::AskLimiter { bucket: run.rate_limit_bucket }
            } else {
                BlockersStep::Ready
            },
        }
    }
}

/// What a person said of a run: the last of it.
pub open spec fn review_of(rows: Seq<ReviewRow>, reviewer: Seq<char>) -> Option<ReviewSummary>
    decreases rows.len(),
{
    if rows.len() == 0 {
        None
    } else if rows.last().reviewer@ == reviewer {
        Some(
            ReviewSummary {
                timestamp: rows.last().reviewed_at,
                comment: rows.last().comment,
                verdict: rows.last().verdict,
            },
        )
    } else {
        review_of(rows.drop_last(), reviewer)
    }
}

/// Whether a map holds just what the rows say.
pub open spec fn holds_reviews(map: TextMap<ReviewSummary>, rows: Seq<ReviewRow>) -> bool {
    &&& map.wf()
    &&& forall|reviewer: Seq<char>|
        #![trigger map@.dom().contains(reviewer)]
        #![trigger map@[reviewer]]
        map@.dom().contains(reviewer) == review_of(rows, reviewer) is Some && (
        map@.dom().contains(reviewer) ==> Some(map@[reviewer]) == review_of(rows, reviewer))
}

/// What the rows say, under the names of the people.
fn summarise(rows: &Vec<ReviewRow>) -> (r: TextMap<ReviewSummary>)
    ensures
        holds_reviews(r, rows@),
{
    let mut r: TextMap<ReviewSummary> = TextMap::new();
    let mut i: usize = 0;
    while i < rows.len()
        invariant
            i <= rows.len(),
            holds_reviews(r, rows@.take(i as int)),
        decreases rows.len() - i,
    {
        let row = &rows[i];
        let ghost before = r;
        r.insert(
            row.reviewer.clone(),
            ReviewSummary {
                timestamp: row.reviewed_at,
                comment: row.comment.clone(),
                verdict: row.verdict.clone(),
            },
        );
        proof {
            assert(rows@.take(i + 1).drop_last() =~= rows@.take(i as int));
            assert forall|reviewer: Seq<char>|
                #![trigger r@.dom().contains(reviewer)]
                #![trigger r@[reviewer]]
                r@.dom().contains(reviewer) == review_of(rows@.take(i + 1), reviewer) is Some && (
                r@.dom().contains(reviewer) ==> Some(r@[reviewer]) == review_of(
                    rows@.take(i + 1),
                    reviewer,
                )) by {
                assert(before@.dom().contains(reviewer) == review_of(
                    rows@.take(i as int),
                    reviewer,
                ) is Some);
            }
        }
        i = i + 1;
    }
    assert(rows@.take(i as int) =~= rows@);
    r
}

/// Whether the details on earlier proposals are those of a list.
pub open spec fn lists_previous(
    details: Seq<BlockerPreviousMpDetails>,
    previous: Seq<(String, String)>,
) -> bool {
    &&& details.len() == previous.len()
    &&& forall|i: int|
        0 <= i < details.len() ==> (#[trigger] details[i]).url == previous[i].0 && details[i].status
            == previous[i].1
}

/// How many attempts to publish a run there were; none where it has no revision.
pub open spec fn attempt_count(f: BlockersRequest, run: RunDetails) -> usize {
    if run.revision is Some && f.attempts is Some {
        f.attempts->0
    } else {
        0
    }
}

/// Whether `b` says of each reason whether it stands in the way, at the time
/// `now`.
pub open spec fn are_blockers(
    b: RunBlockers,
    f: BlockersRequest,
    run: RunDetails,
    now: Timestamp,
) -> bool {
    let attempts = attempt_count(f, run);
    &&& b.success.result == (run.result_code@ == "success"@)
    &&& b.success.details.result_code == run.result_code
    &&& b.inactive.result == !run.inactive
    &&& b.inactive.details.inactive == run.inactive
    &&& b.command.result == (run.run_command@ == run.policy_command@)
    &&& b.command.details.correct == run.policy_command
    &&& b.command.details.actual == run.run_command
    &&& b.publish_status.result == (run.publish_status@ == "approved"@)
    &&& b.publish_status.details.status == run.publish_status
    &&& holds_reviews(b.publish_status.details.reviews, f.reviews->0@)
    &&& b.backoff.details.attempt_count == attempts
    &&& b.backoff.details.next_try_time@ == run.finish_time@ + backoff_hours(attempts as nat)
        * 3_600_000_000_000
    &&& b.backoff.result == (now@ >= b.backoff.details.next_try_time@)
    &&& b.propose_rate_limit == (match (run.rate_limit_bucket, f.limiter) {
        (Some(_), Some(LimiterAnswer::Full { open, max_open })) => Blocker {
            result: false,
            details: BlockerRateLimitDetails::Full { open, max_open },
        },
        _ => Blocker {
            result: true,
            details: BlockerRateLimitDetails::Bucket(run.rate_limit_bucket),
        },
    })
    &&& b.change_set.result == (run.change_set_state@ == "publishing"@ || run.change_set_state@
        == "ready"@)
    &&& b.change_set.details.change_set_id == run.change_set
    &&& b.change_set.details.change_set_state == run.change_set_state
    &&& b.previous_mp.result == !previous_blocks(f.previous->0@)
    &&& lists_previous(b.previous_mp.details@, f.previous->0@)
}

/// Starts a request.
pub fn get_blockers(id: String) -> (r: BlockersRequest)
    ensures
        r == (BlockersRequest {
            id,
            database_failed: false,
            limiter_failed: false,
            run: None,
            reviews: None,
            attempts: None,
            previous: None,
            limiter: None,
        }),
{
    BlockersRequest {
        id,
        database_failed: false,
        limiter_failed: false,
        run: None,
        reviews: None,
        attempts: None,
        previous: None,
        limiter: None,
    }
}

impl BlockersRequest {
    /// What to find out next.
    pub fn next(&self) -> (r: BlockersStep)
        ensures
            r == blockers_next(*self),
    {
        if self.database_failed {
            return BlockersStep::DatabaseError;
        }
        let run = match &self.run {
            None => {
                return BlockersStep::LoadRun;
            },
            Some(None) => {
                return BlockersStep::NoRun;
            },
            Some(Some(run)) => run,
        };
        if self.reviews.is_none() {
            return BlockersStep::LoadReviews;
        }
        if let Some(revision) = &run.revision {
            if self.attempts.is_none() {
                return BlockersStep::CountAttempts { revision: revision.clone() };
            }
        }
        if self.previous.is_none() {
            return BlockersStep::LoadPreviousProposals {
                codebase: run.codebase.clone(),
                campaign: run.campaign.clone(),
            };
        }
        if self.limiter_failed {
            return BlockersStep::LimiterUnavailable;
        }
        if self.limiter.is_none() {
            return BlockersStep::AskLimiter { bucket: run.rate_limit_bucket.clone() };
        }
        BlockersStep::Ready
    }

    /// Each reason, and whether it stands in the way at the time `now`; nothing
    /// where not all is known yet.
    pub fn blockers(&self, now: Timestamp) -> (r: Option<RunBlockers>)
        requires
            self.run matches Some(Some(run)) ==> run.finish_time.secs + MAX_BACKOFF_HOURS * 3600
                <= i64::MAX,
        ensures
            r is Some == (blockers_next(*self) is Ready),
            r matches Some(b) ==> are_blockers(b, *self, self.run->0->0, now),
    {
        match self.next() {
            BlockersStep::Ready => {},
            _ => {
                return None;
            },
        }
        match (&self.run, &self.reviews, &self.previous) {
            (Some(Some(run)), Some(rows), Some(previous)) => {
                let attempt_count: usize = match (&run.revision, self.attempts) {
                    (Some(_), Some(attempts)) => attempts,
                    _ => 0,
                };
                let next_try_time = calculate_next_try_time(run.finish_time, attempt_count);
                let propose_rate_limit = match (&run.rate_limit_bucket, self.limiter) {
                    (Some(_), Some(LimiterAnswer::Full { open, max_open })) => Blocker {
                        result: false,
                        details: BlockerRateLimitDetails::Full { open, max_open },
                    },
                    _ => Blocker {
                        result: true,
                        details: BlockerRateLimitDetails::Bucket(run.rate_limit_bucket.clone()),
                    },
                };
                Some(
                    RunBlockers {
                        success: Blocker {
                            result: str_eq(run.result_code.as_str(), "success"),
                            details: BlockerSuccessDetails {
                                result_code: run.result_code.clone(),
                            },
                        },
                        inactive: Blocker {
                            result: !run.inactive,
                            details: BlockerInactiveDetails { inactive: run.inactive },
                        },
                        command: Blocker {
                            result: str_eq(run.run_command.as_str(), run.policy_command.as_str()),
                            details: BlockerCommandDetails {
                                correct: run.policy_command.clone(),
                                actual: run.run_command.clone(),
                            },
                        },
                        publish_status: Blocker {
                            result: str_eq(run.publish_status.as_str(), "approved"),
                            details: BlockerPublishStatusDetails {
                                status: run.publish_status.clone(),
                                reviews: summarise(rows),
                            },
                        },
                        backoff: Blocker {
                            result: !now.is_before(next_try_time),
                            details: BlockerBackoffDetails { attempt_count, next_try_time },
                        },
                        propose_rate_limit,
                        change_set: Blocker {
                            result: change_set_state_allows_publish(run.change_set_state.as_str()),
                            details: BlockerChangeSetDetails {
                                change_set_id: run.change_set.clone(),
                                change_set_state: run.change_set_state.clone(),
                            },
                        },
                        previous_mp: Blocker {
                            result: !previous_mp_blocks_publish(previous.as_slice()),
                            details: list_previous(previous),
                        },
                    },
                )
            },
            _ => None,
        }
    }

    /// Notes down that the database failed.
    pub fn note_database_error(&mut self)
        ensures
            *final(self) == (BlockersRequest { database_failed: true, ..*old(self) }),
    {
        self.database_failed = true;
    }

    /// Notes down that the limiter failed.
    pub fn note_limiter_error(&mut self)
        ensures
            *final(self) == (BlockersRequest { limiter_failed: true, ..*old(self) }),
    {
        self.limiter_failed = true;
    }

    /// Notes down the run.
    pub fn note_run(&mut self, run: Option<RunDetails>)
        ensures
            *final(self) == (BlockersRequest { run: Some(run), ..*old(self) }),
    {
        self.run = Some(run);
    }

    /// Notes down what people said of the run.
    pub fn note_reviews(&mut self, rows: Vec<ReviewRow>)
        ensures
            *final(self) == (BlockersRequest { reviews: Some(rows), ..*old(self) }),
    {
        self.reviews = Some(rows);
    }

    /// Notes down how many attempts there were.
    pub fn note_attempts(&mut self, attempts: usize)
        ensures
            *final(self) == (BlockersRequest { attempts: Some(attempts), ..*old(self) }),
    {
        self.attempts = Some(attempts);
    }

    /// Notes down the earlier proposals.
    pub fn note_previous(&mut self, previous: Vec<(String, String)>)
        ensures
            *final(self) == (BlockersRequest { previous: Some(previous), ..*old(self) }),
    {
        self.previous = Some(previous);
    }

    /// Notes down what the limiter says.
    pub fn note_limiter(&mut self, answer: LimiterAnswer)
        ensures
            *final(self) == (BlockersRequest { limiter: Some(answer), ..*old(self) }),
    {
        self.limiter = Some(answer);
    }
}

/// The details on earlier proposals.
fn list_previous(previous: &Vec<(String, String)>) -> (r: Vec<BlockerPreviousMpDetails>)
    ensures
        lists_previous(r@, previous@),
{
    let mut r: Vec<BlockerPreviousMpDetails> = Vec::new();
    let mut i: usize = 0;
    while i < previous.len()
        invariant
            i <= previous.len(),
            r@.len() == i,
            forall|j: int|
                0 <= j < i ==> (#[trigger] r@[j]).url == previous@[j].0 && r@[j].status
                    == previous@[j].1,
        decreases previous.len() - i,
    {
        let entry = &previous[i];
        r.push(BlockerPreviousMpDetails { url: entry.0.clone(), status: entry.1.clone() });
        i = i + 1;
    }
    r
}

/// A run of which nothing stands in the way by this account is not turned away
/// for a wait or an earlier proposal when it is its turn.
pub proof fn lemma_blockers_agree_with_queue(
    b: RunBlockers,
    f: BlockersRequest,
    run: RunDetails,
    now: Timestamp,
    considered: ConsiderRun,
)
    requires
        are_blockers(b, f, run, now),
        considered.run.finish_time == run.finish_time,
        considered.too_early == Some(
            now@ < run.finish_time@ + backoff_hours(attempt_count(f, run) as nat)
                * 3_600_000_000_000,
        ),
        considered.previous_blocks == Some(previous_blocks(f.previous->0@)),
        b.backoff.result,
        b.previous_mp.result,
    ensures
        consider_next(considered) != ConsiderStep::NotConsidered(NotConsidered::ExponentialBackoff),
        consider_next(considered) != ConsiderStep::NotConsidered(NotConsidered::RejectedLastMp),
{
}

/// Of each person the last verdict counts, and a person is left out only where they
/// gave none.
pub proof fn lemma_last_verdict_counts(rows: Seq<ReviewRow>, reviewer: Seq<char>)
    ensures
        match review_of(rows, reviewer) {
            Some(review) => exists|i: int|
                {
                    &&& 0 <= i < rows.len()
                    &&& (#[trigger] rows[i]).reviewer@ == reviewer
                    &&& review.timestamp == rows[i].reviewed_at
                    &&& review.comment == rows[i].comment
                    &&& review.verdict == rows[i].verdict
                    &&& forall|j: int|
                        i < j < rows.len() ==> (#[trigger] rows[j]).reviewer@ != reviewer
                },
            None => forall|j: int|
                0 <= j < rows.len() ==> (#[trigger] rows[j]).reviewer@ != reviewer,
        },
    decreases rows.len(),
{
    if rows.len() > 0 {
        let rest = rows.drop_last();
        let last = rows.len() - 1;
        if rows.last().reviewer@ == reviewer {
            assert(rows[last].reviewer@ == reviewer);
        } else {
            lemma_last_verdict_counts(rest, reviewer);
            assert forall|j: int| 0 <= j < last implies #[trigger] rows[j] == rest[j] by {}
            match review_of(rest, reviewer) {
                Some(review) => {
                    let i = choose|i: int|
                        {
                            &&& 0 <= i < rest.len()
                            &&& (#[trigger] rest[i]).reviewer@ == reviewer
                            &&& review.timestamp == rest[i].reviewed_at
                            &&& review.comment == rest[i].comment
                            &&& review.verdict == rest[i].verdict
                            &&& forall|j: int|
                                i < j < rest.len() ==> (#[trigger] rest[j]).reviewer@ != reviewer
                        };
                    assert(rows[i].reviewer@ == reviewer);
                    assert forall|j: int| i < j < rows.len() implies (
                    #[trigger] rows[j]).reviewer@ != reviewer by {
                        if j < last {
                            assert(rest[j].reviewer@ != reviewer);
                        }
                    }
                },
                None => {
                    assert forall|j: int| 0 <= j < rows.len() implies (
                    #[trigger] rows[j]).reviewer@ != reviewer by {
                        if j < last {
                            assert(rest[j].reviewer@ != reviewer);
                        }
                    }
                },
            }
        }
    }
}

/// What is looked up is about the run, each thing once and only while it is not
/// known; nothing is answered before all of it is.
pub proof fn lemma_blockers_are_about_the_run(f: BlockersRequest)
    ensures
        blockers_next(f) is DatabaseError <==> f.database_failed,
        blockers_next(f) is LoadRun ==> f.run is None,
        blockers_next(f) is NoRun ==> f.run is Some && f.run->0 is None,
        blockers_next(f) is LoadReviews ==> f.reviews is None,
        blockers_next(f) matches BlockersStep::CountAttempts { revision } ==> f.run is Some
            && f.run->0 is Some && f.run->0->0.revision == Some(revision) && f.attempts is None,
        blockers_next(f) matches BlockersStep::LoadPreviousProposals { codebase, campaign }
            ==> f.run is Some && f.run->0 is Some && f.run->0->0.codebase == codebase
            && f.run->0->0.campaign == campaign && f.previous is None,
        blockers_next(f) matches BlockersStep::AskLimiter { bucket } ==> f.run is Some
            && f.run->0 is Some && f.run->0->0.rate_limit_bucket == bucket && f.limiter is None
            && !f.limiter_failed,
        blockers_next(f) is LimiterUnavailable ==> f.limiter_failed,
        blockers_next(f) is Ready ==> {
            &&& f.run is Some && f.run->0 is Some
            &&& f.reviews is Some
            &&& f.run->0->0.revision is Some ==> f.attempts is Some
            &&& f.previous is Some
            &&& f.limiter is Some
            &&& !f.limiter_failed
        },
{
}

/// A run that nothing blocks succeeded, with the command that its policy asks for, is
/// approved, is not waiting after failed attempts, and fits into its bucket.
pub proof fn lemma_unblocked_run_is_ready(
    b: RunBlockers,
    f: BlockersRequest,
    run: RunDetails,
    now: Timestamp,
)
    requires
        are_blockers(b, f, run, now),
    ensures
        b.success.result <==> run.result_code@ == "success"@,
        b.inactive.result <==> !run.inactive,
        b.command.result <==> run.run_command@ == run.policy_command@,
        b.publish_status.result <==> run.publish_status@ == "approved"@,
        b.backoff.result <==> now@ >= run.finish_time@ + backoff_hours(
            b.backoff.details.attempt_count as nat,
        ) * 3_600_000_000_000,
        run.revision is None ==> b.backoff.details.attempt_count == 0,
        run.revision is Some && f.attempts is Some ==> b.backoff.details.attempt_count
            == f.attempts->0,
        !b.propose_rate_limit.result <==> run.rate_limit_bucket is Some && f.limiter is Some
            && f.limiter->0 is Full,
        b.change_set.result <==> run.change_set_state@ == "publishing"@ || run.change_set_state@
            == "ready"@,
        b.previous_mp.result <==> !previous_blocks(f.previous->0@),
        b.previous_mp.details@.len() == f.previous->0@.len(),
{
}

/// The details of each answer are those of the run that was asked about.
pub proof fn lemma_details_are_of_the_run(
    b: RunBlockers,
    f: BlockersRequest,
    run: RunDetails,
    now: Timestamp,
    i: int,
)
    requires
        are_blockers(b, f, run, now),
    ensures
        b.success.details.result_code == run.result_code,
        b.inactive.details.inactive == run.inactive,
        b.command.details.correct == run.policy_command,
        b.command.details.actual == run.run_command,
        b.publish_status.details.status == run.publish_status,
        b.backoff.details.next_try_time@ >= run.finish_time@,
        b.propose_rate_limit.result ==> b.propose_rate_limit.details
            == BlockerRateLimitDetails::Bucket(run.rate_limit_bucket),
        !b.propose_rate_limit.result ==> b.propose_rate_limit.details
            == (BlockerRateLimitDetails::Full {
            open: f.limiter->0->open,
            max_open: f.limiter->0->max_open,
        }),
        b.change_set.details.change_set_id == run.change_set,
        b.change_set.details.change_set_state == run.change_set_state,
        0 <= i < b.previous_mp.details@.len() ==> b.previous_mp.details@[i].url
            == f.previous->0@[i].0 && b.previous_mp.details@[i].status == f.previous->0@[i].1,
{
}

} // verus!
