//! How many merge proposals each bucket has in each state.
use crate::publish::types::{MergeProposalStatus, status_of};
use crate::text_map::TextMap;
use vstd::prelude::*;

verus! {

/// For each state, how many proposals of each bucket are in it.
#[derive(Debug)]
pub struct MpCounts {
    /// Open proposals.
    pub open: TextMap<usize>,
    /// Closed proposals.
    pub closed: TextMap<usize>,
    /// Merged proposals.
    pub merged: TextMap<usize>,
    /// Applied proposals.
    pub applied: TextMap<usize>,
    /// Abandoned proposals.
    pub abandoned: TextMap<usize>,
    /// Rejected proposals.
    pub rejected: TextMap<usize>,
}

/// The sum of what a map holds for some keys.
pub open spec fn sum_for(counts: Map<Seq<char>, usize>, keys: Seq<Seq<char>>) -> nat
    decreases keys.len(),
{
    if keys.len() == 0 {
        0
    } else {
        sum_for(counts, keys.drop_last()) + counts[keys.last()] as nat
    }
}

/// The number in the last row for a state and a bucket, if there is one.
pub open spec fn row_count(
    rows: Seq<(String, String, i64)>,
    status: MergeProposalStatus,
    bucket: Seq<char>,
) -> Option<usize>
    decreases rows.len(),
{
    if rows.len() == 0 {
        None
    } else if status_of(rows.last().1@) == Some(status) && rows.last().0@ == bucket {
        Some(rows.last().2 as usize)
    } else {
        row_count(rows.drop_last(), status, bucket)
    }
}

impl MpCounts {
    /// Each of the maps is one.
    pub open spec fn wf(&self) -> bool {
        &&& self.open.wf()
        &&& self.closed.wf()
        &&& self.merged.wf()
        &&& self.applied.wf()
        &&& self.abandoned.wf()
        &&& self.rejected.wf()
    }

    /// The counts for a state.
    pub open spec fn of(&self, status: MergeProposalStatus) -> TextMap<usize> {
        match status {
            MergeProposalStatus::Open => self.open,
            MergeProposalStatus::Closed => self.closed,
            MergeProposalStatus::Merged => self.merged,
            MergeProposalStatus::Applied => self.applied,
            MergeProposalStatus::Abandoned => self.abandoned,
            MergeProposalStatus::Rejected => self.rejected,
        }
    }

    /// The number for a state and a bucket, if there is one.
    pub open spec fn entry(&self, status: MergeProposalStatus, bucket: Seq<char>) -> Option<usize> {
        if self.of(status)@.dom().contains(bucket) {
            Some(self.of(status)@[bucket])
        } else {
            None
        }
    }

    /// How many proposals of a bucket are in a state.
    pub open spec fn count_of(&self, status: MergeProposalStatus, bucket: Seq<char>) -> usize {
        match self.entry(status, bucket) {
            Some(n) => n,
            None => 0,
        }
    }

    /// No proposals.
    pub fn new() -> (r: Self)
        ensures
            r.wf(),
            forall|status: MergeProposalStatus|
                (#[trigger] r.of(status))@ == Map::<Seq<char>, usize>::empty(),
    {
        MpCounts {
            open: TextMap::new(),
            closed: TextMap::new(),
            merged: TextMap::new(),
            applied: TextMap::new(),
            abandoned: TextMap::new(),
            rejected: TextMap::new(),
        }
    }

    /// The counts for a state.
    pub fn get(&self, status: MergeProposalStatus) -> (r: &TextMap<usize>)
        ensures
            *r == self.of(status),
    {
        match status {
            MergeProposalStatus::Open => &self.open,
            MergeProposalStatus::Closed => &self.closed,
            MergeProposalStatus::Merged => &self.merged,
            MergeProposalStatus::Applied => &self.applied,
            MergeProposalStatus::Abandoned => &self.abandoned,
            MergeProposalStatus::Rejected => &self.rejected,
        }
    }

    /// Makes `n` the number for a state and a bucket.
    pub fn set(&mut self, status: MergeProposalStatus, bucket: String, n: usize)
        requires
            old(self).wf(),
        ensures
            final(self).wf(),
            final(self).of(status)@ == old(self).of(status)@.insert(bucket@, n),
            forall|other: MergeProposalStatus|
                other != status ==> #[trigger] final(self).of(other) == old(self).of(other),
    {
        match status {
            MergeProposalStatus::Open => self.open.insert(bucket, n),
            MergeProposalStatus::Closed => self.closed.insert(bucket, n),
            MergeProposalStatus::Merged => self.merged.insert(bucket, n),
            MergeProposalStatus::Applied => self.applied.insert(bucket, n),
            MergeProposalStatus::Abandoned => self.abandoned.insert(bucket, n),
            MergeProposalStatus::Rejected => self.rejected.insert(bucket, n),
        }
    }

    /// Counts one more proposal.
    pub fn count(&mut self, status: MergeProposalStatus, bucket: String)
        requires
            old(self).wf(),
            old(self).count_of(status, bucket@) < usize::MAX,
        ensures
            final(self).wf(),
            final(self).of(status)@ == old(self).of(status)@.insert(
                bucket@,
                (old(self).count_of(status, bucket@) + 1) as usize,
            ),
            forall|other: MergeProposalStatus|
                other != status ==> #[trigger] final(self).of(other) == old(self).of(other),
    {
        let before: usize = match self.get(status).get(bucket.as_str()) {
            Some(n) => *n,
            None => 0,
        };
        self.set(status, bucket, before + 1);
    }

    /// How many proposals are in a state.
    pub fn total(&self, status: MergeProposalStatus) -> (r: u128)
        requires
            self.wf(),
        ensures
            r == sum_for(self.of(status)@, self.of(status).keys()),
    {
        let counts = self.get(status);
        let len: usize = counts.len();
        let mut sum: u128 = 0;
        let mut i: usize = 0;
        while i < len
            invariant
                counts.wf(),
                i <= len == counts.keys().len(),
                sum == sum_for(counts@, counts.keys().take(i as int)),
                sum <= i * usize::MAX,
            decreases len - i,
        {
            proof {
                assert(counts.keys().take(i + 1).drop_last() =~= counts.keys().take(i as int));
                assert(i * usize::MAX + usize::MAX == (i + 1) * usize::MAX) by (nonlinear_arith);
                assert((i + 1) * usize::MAX <= u128::MAX) by (nonlinear_arith)
                    requires
                        0 <= i < usize::MAX <= 0xffff_ffff_ffff_ffff,
                ;
            }
            sum = sum + *counts.value_at(i) as u128;
            i = i + 1;
        }
        assert(counts.keys().take(i as int) =~= counts.keys());
        sum
    }
}

/// The counts that rows of bucket, state and number stand for. Rows with an
/// unknown state are left out.
pub fn bucket_mp_counts(rows: &Vec<(String, String, i64)>) -> (r: MpCounts)
    ensures
        r.wf(),
        forall|status: MergeProposalStatus, bucket: Seq<char>| #[trigger]
            r.entry(status, bucket) == row_count(rows@, status, bucket),
{
    let mut r = MpCounts::new();
    let mut i: usize = 0;
    while i < rows.len()
        invariant
            i <= rows.len(),
            r.wf(),
            forall|status: MergeProposalStatus, bucket: Seq<char>| #[trigger]
                r.entry(status, bucket) == row_count(rows@.take(i as int), status, bucket),
        decreases rows.len() - i,
    {
        let ghost before = r;
        let row = &rows[i];
        proof {
            assert(rows@.take(i + 1).drop_last() =~= rows@.take(i as int));
            assert(rows@.take(i + 1).last() == *row);
        }
        match MergeProposalStatus::parse(row.1.as_str()) {
            Some(status) => {
                r.set(status, row.0.clone(), row.2 as usize);
            },
            None => {},
        }
        assert forall|status: MergeProposalStatus, bucket: Seq<char>| #[trigger]
            r.entry(status, bucket) == row_count(rows@.take(i + 1), status, bucket) by {
            assert(before.entry(status, bucket) == row_count(rows@.take(i as int), status, bucket));
            match status_of(row.1@) {
                Some(parsed) => {
                    if parsed != status {
                        assert(r.of(status) == before.of(status));
                    }
                },
                None => {},
            }
        }
        i = i + 1;
    }
    assert(rows@.take(i as int) =~= rows@);
    r
}

/// The count of a bucket in a state is that of the last row for both, and there is
/// none only where no row is for both.
pub proof fn lemma_last_row_gives_the_count(
    rows: Seq<(String, String, i64)>,
    status: MergeProposalStatus,
    bucket: Seq<char>,
)
    ensures
        match row_count(rows, status, bucket) {
            Some(n) => exists|i: int|
                {
                    &&& 0 <= i < rows.len()
                    &&& (#[trigger] rows[i]).0@ == bucket
                    &&& status_of(rows[i].1@) == Some(status)
                    &&& 0 <= rows[i].2 <= usize::MAX ==> n == rows[i].2
                    &&& forall|j: int|
                        i < j < rows.len() ==> (#[trigger] rows[j]).0@ != bucket || status_of(
                            rows[j].1@,
                        ) != Some(status)
                },
            None => forall|j: int|
                0 <= j < rows.len() ==> (#[trigger] rows[j]).0@ != bucket || status_of(rows[j].1@)
                    != Some(status),
        },
    decreases rows.len(),
{
    if rows.len() > 0 {
        let rest = rows.drop_last();
        let last = rows.len() - 1;
        if status_of(rows.last().1@) == Some(status) && rows.last().0@ == bucket {
            assert(rows[last].0@ == bucket);
        } else {
            lemma_last_row_gives_the_count(rest, status, bucket);
            assert forall|j: int| 0 <= j < last implies #[trigger] rows[j] == rest[j] by {}
            match row_count(rest, status, bucket) {
                Some(n) => {
                    let i = choose|i: int|
                        {
                            &&& 0 <= i < rest.len()
                            &&& (#[trigger] rest[i]).0@ == bucket
                            &&& status_of(rest[i].1@) == Some(status)
                            &&& 0 <= rest[i].2 <= usize::MAX ==> n == rest[i].2
                            &&& forall|j: int|
                                i < j < rest.len() ==> (#[trigger] rest[j]).0@ != bucket
                                    || status_of(rest[j].1@) != Some(status)
                        };
                    assert(rows[i].0@ == bucket);
                    assert forall|j: int| i < j < rows.len() implies (#[trigger] rows[j]).0@
                        != bucket || status_of(rows[j].1@) != Some(status) by {
                        if j < last {
                            assert(rest[j].0@ != bucket || status_of(rest[j].1@) != Some(status));
                        }
                    }
                },
                None => {
                    assert forall|j: int| 0 <= j < rows.len() implies (#[trigger] rows[j]).0@
                        != bucket || status_of(rows[j].1@) != Some(status) by {
                        if j < last {
                            assert(rest[j].0@ != bucket || status_of(rest[j].1@) != Some(status));
                        }
                    }
                },
            }
        }
    }
}

/// The sum over two lists of buckets, one behind the other, is the sum over the
/// first and that over the second; each bucket adds its own count.
pub proof fn lemma_each_bucket_adds_its_count(
    counts: Map<Seq<char>, usize>,
    first: Seq<Seq<char>>,
    second: Seq<Seq<char>>,
)
    ensures
        sum_for(counts, first + second) == sum_for(counts, first) + sum_for(counts, second),
        first.len() == 0 ==> sum_for(counts, first) == 0,
        first.len() == 1 ==> sum_for(counts, first) == counts[first[0]],
    decreases second.len(),
{
    if first.len() == 1 {
        assert(sum_for(counts, first.drop_last()) == 0);
    }
    if second.len() == 0 {
        assert(first + second =~= first);
    } else {
        assert((first + second).drop_last() =~= first + second.drop_last());
        lemma_each_bucket_adds_its_count(counts, first, second.drop_last());
    }
}

/// Each state has counts of its own, and a bucket that was not counted has none.
pub proof fn lemma_states_are_counted_apart(counts: MpCounts, bucket: Seq<char>)
    ensures
        counts.of(MergeProposalStatus::Open) == counts.open,
        counts.of(MergeProposalStatus::Closed) == counts.closed,
        counts.of(MergeProposalStatus::Merged) == counts.merged,
        counts.of(MergeProposalStatus::Applied) == counts.applied,
        counts.of(MergeProposalStatus::Abandoned) == counts.abandoned,
        counts.of(MergeProposalStatus::Rejected) == counts.rejected,
        forall|status: MergeProposalStatus|
            !(#[trigger] counts.of(status))@.dom().contains(bucket) ==> counts.count_of(
                status,
                bucket,
            ) == 0,
        forall|status: MergeProposalStatus|
            (#[trigger] counts.of(status))@.dom().contains(bucket) ==> counts.count_of(
                status,
                bucket,
            ) == counts.of(status)@[bucket],
{
}

} // verus!
