//! Limits on how many proposals of a bucket are open at a time.
use crate::publish::counts::MpCounts;
use crate::publish::web::blockers::LimiterAnswer;
use crate::text_map::TextMap;
use vstd::prelude::*;

verus! {

/// How many proposals of a bucket may be open.
#[derive(Clone, Copy, Debug, PartialEq, Eq, Structural)]
pub enum BucketLimit {
    /// Any number.
    Unlimited,
    /// This number.
    Fixed(usize),
    /// One more than were absorbed, and not more than this number where there is
    /// one.
    SlowStart(Option<usize>),
}

/// A limit, and what was counted.
#[derive(Debug)]
pub struct RateLimiter {
    /// The limit.
    pub limit: BucketLimit,
    /// How many proposals of each bucket are open, once they were counted.
    pub open: Option<TextMap<usize>>,
    /// How many proposals of each bucket were merged or applied.
    pub absorbed: TextMap<usize>,
}

/// The number for a bucket, which is none where the bucket is unknown.
pub open spec fn count_in(counts: Map<Seq<char>, usize>, bucket: Seq<char>) -> usize {
    if counts.dom().contains(bucket) {
        counts[bucket]
    } else {
        0
    }
}

/// A number, or the largest one that can be held.
pub open spec fn capped(n: int) -> usize {
    if n <= usize::MAX {
        n as usize
    } else {
        usize::MAX
    }
}

/// How many proposals of a bucket may be open, if that is limited.
pub open spec fn max_open(l: RateLimiter, bucket: Seq<char>) -> Option<usize> {
    match l.limit {
        BucketLimit::Unlimited => None,
        BucketLimit::Fixed(max) => Some(max),
        BucketLimit::SlowStart(None) => Some(capped(count_in(l.absorbed@, bucket) + 1)),
        BucketLimit::SlowStart(Some(max)) => {
            let earned = capped(count_in(l.absorbed@, bucket) + 1);
            Some(
                if earned <= max {
                    earned
                } else {
                    max
                },
            )
        },
    }
}

/// How many proposals of a bucket are open, where that was counted.
pub open spec fn open_count(l: RateLimiter, bucket: Seq<char>) -> Option<usize> {
    match l.open {
        Some(open) => if open@.dom().contains(bucket) {
            Some(open@[bucket])
        } else {
            None
        },
        None => None,
    }
}

/// Whether another proposal of a bucket may be opened. Nothing is opened against a
/// limit before the proposals were counted.
pub open spec fn is_allowed(l: RateLimiter, bucket: Seq<char>) -> bool {
    match (max_open(l, bucket), l.open) {
        (None, _) => true,
        (Some(_), None) => false,
        (Some(max), Some(open)) => count_in(open@, bucket) < max,
    }
}

/// Whether `after` is `before` with one more open proposal of a bucket. It is the
/// same where the proposals were not counted yet.
pub open spec fn is_counted(before: RateLimiter, after: RateLimiter, bucket: Seq<char>) -> bool {
    &&& after.limit == before.limit
    &&& after.absorbed == before.absorbed
    &&& match (before.open, after.open) {
        (None, None) => true,
        (Some(earlier), Some(open)) => open@ == earlier@.insert(
            bucket,
            capped(count_in(earlier@, bucket) + 1),
        ),
        _ => false,
    }
}

/// Whether `after` is `before` with what was counted taken over.
pub open spec fn takes_over(before: RateLimiter, after: RateLimiter, counts: MpCounts) -> bool {
    &&& after.limit == before.limit
    &&& after.open is Some
    &&& after.open->0@ == counts.open@
    &&& forall|bucket: Seq<char>| #[trigger]
        count_in(after.absorbed@, bucket) == capped(
            count_in(counts.merged@, bucket) + count_in(counts.applied@, bucket),
        )
}

/// A number with one added, or the largest one that can be held.
fn one_more(n: usize) -> (r: usize)
    ensures
        r == capped(n + 1),
{
    if n < usize::MAX {
        n + 1
    } else {
        n
    }
}

/// The number for a bucket.
fn number_for(counts: &TextMap<usize>, bucket: &str) -> (r: usize)
    requires
        counts.wf(),
    ensures
        r == count_in(counts@, bucket@),
{
    match counts.get(bucket) {
        Some(n) => *n,
        None => 0,
    }
}

/// A copy of some counts.
fn copied(counts: &TextMap<usize>) -> (r: TextMap<usize>)
    requires
        counts.wf(),
    ensures
        r.wf(),
        r@ == counts@,
{
    let mut r: TextMap<usize> = TextMap::new();
    let len: usize = counts.len();
    let mut i: usize = 0;
    while i < len
        invariant
            counts.wf(),
            i <= len == counts.keys().len(),
            r.wf(),
            forall|key: Seq<char>| #[trigger]
                r@.dom().contains(key) == counts.keys().take(i as int).contains(key),
            forall|key: Seq<char>| #[trigger]
                r@.dom().contains(key) ==> counts@.dom().contains(key) && r@[key] == counts@[key],
        decreases len - i,
    {
        let ghost before = r;
        r.insert(counts.key_at(i).clone(), *counts.value_at(i));
        proof {
            let earlier = counts.keys().take(i as int);
            let now = counts.keys().take(i + 1);
            assert(now =~= earlier.push(counts.keys()[i as int]));
            assert forall|key: Seq<char>| #[trigger] r@.dom().contains(key) == now.contains(key) by {
                assert(before@.dom().contains(key) == earlier.contains(key));
                if earlier.contains(key) {
                    let j = choose|j: int| 0 <= j < earlier.len() && earlier[j] == key;
                    assert(now[j] == key);
                }
                if now.contains(key) {
                    let j = choose|j: int| 0 <= j < now.len() && now[j] == key;
                    if j < i {
                        assert(earlier[j] == key);
                    }
                }
                assert(now[i as int] == counts.keys()[i as int]);
            }
            assert forall|key: Seq<char>| #[trigger]
                r@.dom().contains(key) implies counts@.dom().contains(key) && r@[key]
                == counts@[key] by {
                assert(before@.dom().contains(key) == earlier.contains(key));
            }
        }
        i = i + 1;
    }
    proof {
        counts.lemma_keys();
        assert(counts.keys().take(i as int) =~= counts.keys());
        assert forall|key: Seq<char>| r@.dom().contains(key) == counts@.dom().contains(key) by {
            assert(r@.dom().contains(key) == counts.keys().contains(key));
        }
        assert(r@ =~= counts@);
    }
    r
}

/// The sums of two counts.
fn sums(a: &TextMap<usize>, b: &TextMap<usize>) -> (r: TextMap<usize>)
    requires
        a.wf(),
        b.wf(),
    ensures
        r.wf(),
        forall|bucket: Seq<char>| #[trigger]
            count_in(r@, bucket) == capped(count_in(a@, bucket) + count_in(b@, bucket)),
{
    let mut r = copied(a);
    let len: usize = b.len();
    proof {
        b.lemma_keys();
    }
    let mut i: usize = 0;
    while i < len
        invariant
            b.wf(),
            i <= len == b.keys().len(),
            r.wf(),
            b.keys().no_duplicates(),
            forall|bucket: Seq<char>| #[trigger]
                count_in(r@, bucket) == (if b.keys().take(i as int).contains(bucket) {
                    capped(count_in(a@, bucket) + count_in(b@, bucket))
                } else {
                    count_in(a@, bucket)
                }),
        decreases len - i,
    {
        let ghost before = r;
        let key = b.key_at(i);
        let more: usize = *b.value_at(i);
        let earlier: usize = number_for(&r, key.as_str());
        let sum: usize = if more <= usize::MAX - earlier {
            earlier + more
        } else {
            usize::MAX
        };
        proof {
            let keys = b.keys();
            assert(!keys.take(i as int).contains(keys[i as int])) by {
                if keys.take(i as int).contains(keys[i as int]) {
                    let j = choose|j: int| 0 <= j < i && keys.take(i as int)[j] == keys[i as int];
                    assert(keys[j] == keys[i as int]);
                }
            }
            assert(count_in(before@, key@) == count_in(a@, key@));
        }
        r.insert(key.clone(), sum);
        proof {
            let keys = b.keys();
            assert(keys.take(i + 1) =~= keys.take(i as int).push(keys[i as int]));
            let now = keys.take(i + 1);
            assert forall|bucket: Seq<char>| #[trigger]
                count_in(r@, bucket) == (if now.contains(bucket) {
                    capped(count_in(a@, bucket) + count_in(b@, bucket))
                } else {
                    count_in(a@, bucket)
                }) by {
                assert(count_in(before@, bucket) == (if keys.take(i as int).contains(bucket) {
                    capped(count_in(a@, bucket) + count_in(b@, bucket))
                } else {
                    count_in(a@, bucket)
                }));
                if bucket == key@ {
                    assert(now[i as int] == bucket);
                } else {
                    if keys.take(i as int).contains(bucket) {
                        let j = choose|j: int| 0 <= j < i && keys.take(i as int)[j] == bucket;
                        assert(now[j] == bucket);
                    }
                    if now.contains(bucket) {
                        let j = choose|j: int| 0 <= j < now.len() && now[j] == bucket;
                        assert(j < i);
                        assert(keys.take(i as int)[j] == bucket);
                    }
                }
            }
        }
        i = i + 1;
    }
    proof {
        b.lemma_keys();
        assert(b.keys().take(i as int) =~= b.keys());
    }
    r
}

impl RateLimiter {
    /// The maps are maps.
    pub open spec fn wf(&self) -> bool {
        &&& self.open is Some ==> self.open->0.wf()
        &&& self.absorbed.wf()
    }

    /// A limiter before anything was counted: one that starts slowly where that is
    /// asked for, one with a fixed limit where there is one, and else one without a
    /// limit.
    pub fn new(slow_start: bool, max_mps_per_bucket: Option<usize>) -> (r: Self)
        ensures
            r.wf(),
            r.limit == (if slow_start {
                BucketLimit::SlowStart(max_mps_per_bucket)
            } else {
                match max_mps_per_bucket {
                    Some(max) => BucketLimit::Fixed(max),
                    None => BucketLimit::Unlimited,
                }
            }),
            r.open is None,
            r.absorbed@ == Map::<Seq<char>, usize>::empty(),
    {
        let limit = if slow_start {
            BucketLimit::SlowStart(max_mps_per_bucket)
        } else {
            match max_mps_per_bucket {
                Some(max) => BucketLimit::Fixed(max),
                None => BucketLimit::Unlimited,
            }
        };
        RateLimiter { limit, open: None, absorbed: TextMap::new() }
    }

    /// Takes over what was counted.
    pub fn set_mps_per_bucket(&mut self, counts: &MpCounts)
        requires
            counts.wf(),
        ensures
            final(self).wf(),
            takes_over(*old(self), *final(self), *counts),
    {
        self.open = Some(copied(&counts.open));
        self.absorbed = sums(&counts.merged, &counts.applied);
    }

    /// Counts a proposal that was opened.
    pub fn inc(&mut self, bucket: &str)
        requires
            old(self).wf(),
        ensures
            final(self).wf(),
            is_counted(*old(self), *final(self), bucket@),
    {
        if let Some(mut open) = self.open.take() {
            let n: usize = one_more(number_for(&open, bucket));
            open.insert(bucket.to_owned(), n);
            self.open = Some(open);
        }
    }

    /// How many proposals of a bucket are open, where that was counted.
    pub fn get_open(&self, bucket: &str) -> (r: Option<usize>)
        requires
            self.wf(),
        ensures
            r == open_count(*self, bucket@),
    {
        match &self.open {
            Some(open) => match open.get(bucket) {
                Some(n) => Some(*n),
                None => None,
            },
            None => None,
        }
    }

    /// How many proposals of a bucket may be open, if that is limited.
    pub fn get_max_open(&self, bucket: &str) -> (r: Option<usize>)
        requires
            self.wf(),
        ensures
            r == max_open(*self, bucket@),
    {
        match self.limit {
            BucketLimit::Unlimited => None,
            BucketLimit::Fixed(max) => Some(max),
            BucketLimit::SlowStart(max) => {
                let earned: usize = one_more(number_for(&self.absorbed, bucket));
                match max {
                    Some(max) if max < earned => Some(max),
                    _ => Some(earned),
                }
            },
        }
    }

    /// Whether another proposal of a bucket may be opened.
    pub fn check_allowed(&self, bucket: &str) -> (r: LimiterAnswer)
        requires
            self.wf(),
        ensures
            r == (if is_allowed(*self, bucket@) {
                LimiterAnswer::Allowed
            } else {
                LimiterAnswer::Full {
                    open: open_count(*self, bucket@),
                    max_open: max_open(*self, bucket@),
                }
            }),
    {
        let max = self.get_max_open(bucket);
        let allowed = match (max, &self.open) {
            (None, _) => true,
            (Some(_), None) => false,
            (Some(max), Some(open)) => number_for(open, bucket) < max,
        };
        if allowed {
            LimiterAnswer::Allowed
        } else {
            LimiterAnswer::Full { open: self.get_open(bucket), max_open: max }
        }
    }

    /// The buckets that were counted, with how many proposals of each are and may be
    /// open.
    pub fn buckets(&self) -> (r: Vec<(String, usize, Option<usize>)>)
        requires
            self.wf(),
        ensures
            r@.len() == (match self.open {
                Some(open) => open.keys().len(),
                None => 0,
            }),
            forall|i: int|
                0 <= i < r@.len() ==> (#[trigger] r@[i]).0@ == self.open->0.keys()[i] && r@[i].1
                    == self.open->0@[r@[i].0@] && r@[i].2 == max_open(*self, r@[i].0@),
    {
        let mut r: Vec<(String, usize, Option<usize>)> = Vec::new();
        if let Some(open) = &self.open {
            let len: usize = open.len();
            let mut i: usize = 0;
            while i < len
                invariant
                    self.wf(),
                    self.open == Some(*open),
                    i <= len == open.keys().len(),
                    r@.len() == i,
                    forall|j: int|
                        0 <= j < r@.len() ==> (#[trigger] r@[j]).0@ == open.keys()[j] && r@[j].1
                            == open@[r@[j].0@] && r@[j].2 == max_open(*self, r@[j].0@),
                decreases len - i,
            {
                let bucket = open.key_at(i);
                let max = self.get_max_open(bucket.as_str());
                r.push((bucket.clone(), *open.value_at(i), max));
                i = i + 1;
            }
        }
        r
    }
}

/// Proposals that are opened only where the limiter allows it, and that are counted,
/// stay within the limit.
pub proof fn lemma_limit_is_kept(before: RateLimiter, after: RateLimiter, bucket: Seq<char>)
    requires
        is_allowed(before, bucket),
        is_counted(before, after, bucket),
        max_open(before, bucket) is Some,
    ensures
        max_open(after, bucket) == max_open(before, bucket),
        count_in(after.open->0@, bucket) <= max_open(after, bucket)->0,
        count_in(after.open->0@, bucket) == count_in(before.open->0@, bucket) + 1,
{
}

/// A slow start allows at most one open proposal more than were absorbed.
pub proof fn lemma_slow_start_is_earned(l: RateLimiter, bucket: Seq<char>)
    requires
        l.limit is SlowStart,
        is_allowed(l, bucket),
    ensures
        l.open is Some,
        count_in(l.open->0@, bucket) <= count_in(l.absorbed@, bucket),
{
}

/// A proposal of one bucket does not change what is allowed in another.
pub proof fn lemma_buckets_are_apart(
    before: RateLimiter,
    after: RateLimiter,
    bucket: Seq<char>,
    other: Seq<char>,
)
    requires
        is_counted(before, after, bucket),
        other != bucket,
    ensures
        is_allowed(after, other) == is_allowed(before, other),
        open_count(after, other) == open_count(before, other),
{
}

/// A fixed limit is the same for every bucket; a slow start allows one more than
/// were absorbed from the bucket, but no more than the limit; and without a limit
/// everything is allowed, counted or not.
pub proof fn lemma_limit_is_as_configured(l: RateLimiter, bucket: Seq<char>, other: Seq<char>)
    ensures
        l.limit is Unlimited ==> max_open(l, bucket) is None && is_allowed(l, bucket),
        l.limit matches BucketLimit::Fixed(max) ==> max_open(l, bucket) == Some(max),
        l.limit is Fixed ==> max_open(l, bucket) == max_open(l, other),
        l.limit is SlowStart ==> {
            &&& max_open(l, bucket) is Some
            &&& max_open(l, bucket)->0 <= count_in(l.absorbed@, bucket) + 1
            &&& l.limit->SlowStart_0 is Some ==> max_open(l, bucket)->0
                <= l.limit->SlowStart_0->0
            &&& {
                ||| max_open(l, bucket)->0 == count_in(l.absorbed@, bucket) + 1
                ||| max_open(l, bucket)->0 == usize::MAX
                ||| l.limit->SlowStart_0 == Some(max_open(l, bucket)->0)
            }
        },
        l.limit is SlowStart && count_in(l.absorbed@, bucket) <= count_in(l.absorbed@, other)
            ==> max_open(l, bucket)->0 <= max_open(l, other)->0,
{
}

/// Where there is a limit, another proposal is allowed exactly while fewer are open
/// than may be, and none before the open ones were counted.
pub proof fn lemma_allowed_below_the_limit(l: RateLimiter, bucket: Seq<char>)
    requires
        max_open(l, bucket) is Some,
    ensures
        l.open is None ==> !is_allowed(l, bucket),
        l.open is Some && !l.open->0@.dom().contains(bucket) ==> is_allowed(l, bucket) == (
        max_open(l, bucket)->0 > 0),
        open_count(l, bucket) is Some ==> is_allowed(l, bucket) == (open_count(l, bucket)->0
            < max_open(l, bucket)->0),
        l.open is None ==> open_count(l, bucket) is None,
{
}

/// What was counted takes the place of what was known before: the open proposals
/// of a bucket are those that were counted, and those that were merged or applied
/// are what a slow start has earned.
pub proof fn lemma_counts_take_over(
    before: RateLimiter,
    after: RateLimiter,
    counts: MpCounts,
    bucket: Seq<char>,
)
    requires
        takes_over(before, after, counts),
    ensures
        after.limit == before.limit,
        open_count(after, bucket) is Some <==> counts.open@.dom().contains(bucket),
        counts.open@.dom().contains(bucket) ==> open_count(after, bucket) == Some(
            counts.open@[bucket],
        ),
        count_in(counts.merged@, bucket) + count_in(counts.applied@, bucket) < usize::MAX
            && after.limit == BucketLimit::SlowStart(None) ==> max_open(after, bucket)->0
            == count_in(counts.merged@, bucket) + count_in(counts.applied@, bucket) + 1,
{
    assert(count_in(after.absorbed@, bucket) == capped(
        count_in(counts.merged@, bucket) + count_in(counts.applied@, bucket),
    ));
}

/// A proposal that was opened is counted once; before the first count there is
/// nothing to add it to.
pub proof fn lemma_opened_is_counted_once(
    before: RateLimiter,
    after: RateLimiter,
    bucket: Seq<char>,
)
    requires
        is_counted(before, after, bucket),
    ensures
        before.open is None ==> after.open is None,
        before.open is Some && open_count(before, bucket) is None ==> open_count(after, bucket)
            == Some(1usize),
        open_count(before, bucket) is Some && open_count(before, bucket)->0 < usize::MAX
            ==> open_count(after, bucket) is Some && open_count(after, bucket)->0 == open_count(
            before,
            bucket,
        )->0 + 1,
        max_open(after, bucket) == max_open(before, bucket),
{
}

} // verus!
