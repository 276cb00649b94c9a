//! Uploading builds that were made before.
use crate::text::{decimal, decimal_of};
use vstd::prelude::*;

verus! {

/// The last build of a source package for a distribution.
#[derive(Debug)]
pub struct DebianBuild {
    /// Distribution that the build is for.
    pub distribution: String,
    /// Source package.
    pub source: String,
    /// The run that made the build.
    pub run_id: String,
}

/// What became of a backfill.
#[derive(Debug)]
pub struct BackfillSummary {
    /// Builds that there were.
    pub total_builds: u64,
    /// Builds whose upload failed.
    pub failed_uploads: u64,
}

/// The message of a summary.
pub open spec fn backfill_summary_text(summary: BackfillSummary) -> Seq<char> {
    decimal(summary.total_builds as nat) + " total, "@ + decimal(summary.failed_uploads as nat)
        + " failed"@
}

/// How many uploads failed.
pub open spec fn failure_count(failed: Seq<bool>) -> nat
    decreases failed.len(),
{
    if failed.len() == 0 {
        0
    } else {
        failure_count(failed.drop_last()) + if failed.last() {
            1nat
        } else {
            0nat
        }
    }
}

impl BackfillSummary {
    /// The summary of a backfill, from whether the upload of each build failed.
    pub fn of(failed: &Vec<bool>) -> (r: BackfillSummary)
        ensures
            r.total_builds == failed.len(),
            r.failed_uploads == failure_count(failed@),
            r.failed_uploads <= r.total_builds,
    {
        let mut failed_uploads: u64 = 0;
        let mut i: usize = 0;
        while i < failed.len()
            invariant
                i <= failed.len(),
                failed_uploads <= i,
                failed_uploads == failure_count(failed@.take(i as int)),
            decreases failed.len() - i,
        {
            assert(failed@.take(i + 1).drop_last() =~= failed@.take(i as int));
            if failed[i] {
                failed_uploads = failed_uploads + 1;
            }
            i = i + 1;
        }
        assert(failed@.take(failed.len() as int) =~= failed@);
        BackfillSummary { total_builds: failed.len() as u64, failed_uploads }
    }

    /// The message of this summary.
    pub fn to_text(&self) -> (r: String)
        ensures
            r@ == backfill_summary_text(*self),
    {
        let failed = decimal_of(self.failed_uploads);
        decimal_of(self.total_builds).concat(" total, ").concat(failed.as_str()).concat(" failed")
    }
}

/// The failures of two lists, one behind the other, add up, and each counts once.
pub proof fn lemma_failures_are_counted_each(first: Seq<bool>, second: Seq<bool>)
    ensures
        failure_count(first + second) == failure_count(first) + failure_count(second),
        first.len() == 1 && first[0] ==> failure_count(first) == 1,
        first.len() == 1 && !first[0] ==> failure_count(first) == 0,
        failure_count(second) <= second.len(),
    decreases second.len(),
{
    if first.len() == 1 {
        assert(failure_count(first.drop_last()) == 0);
    }
    if second.len() == 0 {
        assert(first + second =~= first);
    } else {
        assert((first + second).drop_last() =~= first + second.drop_last());
        lemma_failures_are_counted_each(first, second.drop_last());
    }
}

/// A summary starts with how many builds there were and ends with how many failed.
pub proof fn lemma_summary_gives_both_numbers(summary: BackfillSummary)
    ensures
        (decimal(summary.total_builds as nat) + " total"@).is_prefix_of(
            backfill_summary_text(summary),
        ),
        (decimal(summary.failed_uploads as nat) + " failed"@).is_suffix_of(
            backfill_summary_text(summary),
        ),
{
    reveal_strlit(" total");
    reveal_strlit(" total, ");
    let text = backfill_summary_text(summary);
    let start = decimal(summary.total_builds as nat) + " total"@;
    let end = decimal(summary.failed_uploads as nat) + " failed"@;
    assert(" total, "@.subrange(0, 6) =~= " total"@);
    assert(text =~= decimal(summary.total_builds as nat) + (" total, "@ + end));
    assert(text.subrange(0, start.len() as int) =~= start) by {
        let k = decimal(summary.total_builds as nat).len() as int;
        assert forall|i: int| 0 <= i < start.len() implies text[i] == start[i] by {
            if i >= k {
                assert(" total, "@.subrange(0, 6)[i - k] == " total"@[i - k]);
            }
        }
    }
    assert(text.subrange(text.len() - end.len(), text.len() as int) =~= end);
}

} // verus!
