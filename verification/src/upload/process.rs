//! Signing and uploading the packages of a run.
use crate::text::ends_with;
use crate::upload::error::UploadError;
use vstd::prelude::*;

verus! {

/// How the signing and uploading of one package ended.
#[derive(Clone, Copy, Debug, PartialEq, Eq, Structural)]
pub enum PackageOutcome {
    /// It was not signed, and so not uploaded.
    SignFailed,
    /// It was signed, but not uploaded.
    UploadFailed,
    /// It was uploaded.
    Uploaded,
}

/// How many of the packages were uploaded.
pub open spec fn uploaded_count(outcomes: Seq<PackageOutcome>) -> nat
    decreases outcomes.len(),
{
    if outcomes.len() == 0 {
        0
    } else {
        uploaded_count(outcomes.drop_last()) + if outcomes.last() == PackageOutcome::Uploaded {
            1nat
        } else {
            0nat
        }
    }
}

/// Whether every package was uploaded.
pub open spec fn all_uploaded(outcomes: Seq<PackageOutcome>) -> bool {
    forall|i: int| 0 <= i < outcomes.len() ==> outcomes[i] == PackageOutcome::Uploaded
}

/// The result of uploading a run, from the outcome of each of its packages.
pub fn upload_result(outcomes: &Vec<PackageOutcome>) -> (r: Result<(), UploadError>)
    ensures
        all_uploaded(outcomes@) <==> r is Ok,
        !all_uploaded(outcomes@) && uploaded_count(outcomes@) == 0 ==> r == Err::<(), _>(
            UploadError::NoPackagesUploaded,
        ),
        !all_uploaded(outcomes@) && uploaded_count(outcomes@) > 0 ==> r == Err::<(), _>(
            UploadError::PartialUpload {
                successful: uploaded_count(outcomes@) as usize,
                total: outcomes.len(),
            },
        ),
        uploaded_count(outcomes@) <= outcomes.len(),
{
    let mut had_failures = false;
    let mut successful: usize = 0;
    let mut i: usize = 0;
    while i < outcomes.len()
        invariant
            i <= outcomes.len(),
            successful <= i,
            successful == uploaded_count(outcomes@.take(i as int)),
            had_failures == !all_uploaded(outcomes@.take(i as int)),
        decreases outcomes.len() - i,
    {
        let ghost before = outcomes@.take(i as int);
        let ghost after = outcomes@.take(i + 1);
        assert(after.drop_last() =~= before);
        assert(after.last() == outcomes@[i as int]);
        assert(forall|j: int| 0 <= j < i ==> before[j] == after[j]);
        assert(after[i as int] == outcomes@[i as int]);
        match outcomes[i] {
            PackageOutcome::Uploaded => {
                successful = successful + 1;
            },
            _ => {
                had_failures = true;
            },
        }
        i = i + 1;
    }
    assert(outcomes@.take(outcomes.len() as int) =~= outcomes@);
    if !had_failures {
        Ok(())
    } else if successful > 0 {
        Err(UploadError::PartialUpload { successful, total: outcomes.len() })
    } else {
        Err(UploadError::NoPackagesUploaded)
    }
}

/// What is known in the course of uploading the packages of a run.
#[derive(Debug)]
pub struct UploadRun {
    /// How many packages there are.
    pub total: usize,
    /// How it ended for the packages that were dealt with.
    pub outcomes: Vec<PackageOutcome>,
    /// Whether the package that is being dealt with is signed.
    pub signed: bool,
}

/// What to do next.
#[derive(Clone, Copy, Debug, PartialEq, Eq, Structural)]
pub enum UploadStep {
    /// Sign a package.
    Sign {
        /// Which.
        position: usize,
    },
    /// Upload a package.
    Upload {
        /// Which.
        position: usize,
    },
    /// Nothing.
    Done,
}

/// The next step of uploading the packages of a run.
pub open spec fn upload_next(f: UploadRun) -> UploadStep {
    let position = f.outcomes@.len() as usize;
    if position >= f.total {
        UploadStep::Done
    } else if !f.signed {
        UploadStep::Sign { position }
    } else {
        UploadStep::Upload { position }
    }
}

/// Whether `after` is `before` with the outcome of the next step noted down.
pub open spec fn is_noted(before: UploadRun, after: UploadRun, ok: bool) -> bool {
    &&& after.total == before.total
    &&& match upload_next(before) {
        UploadStep::Done => false,
        UploadStep::Sign { .. } => after.signed == ok && after.outcomes@ == (if ok {
            before.outcomes@
        } else {
            before.outcomes@.push(PackageOutcome::SignFailed)
        }),
        UploadStep::Upload { .. } => !after.signed && after.outcomes@ == before.outcomes@.push(
            if ok {
                PackageOutcome::Uploaded
            } else {
                PackageOutcome::UploadFailed
            },
        ),
    }
}

/// Starts to upload the packages of a run.
pub fn upload_build_result(total: usize) -> (r: UploadRun)
    ensures
        r.total == total,
        r.outcomes@ == Seq::<PackageOutcome>::empty(),
        !r.signed,
{
    UploadRun { total, outcomes: Vec::new(), signed: false }
}

impl UploadRun {
    /// What to do next.
    pub fn next(&self) -> (r: UploadStep)
        ensures
            r == upload_next(*self),
    {
        let position: usize = self.outcomes.len();
        if position >= self.total {
            UploadStep::Done
        } else if !self.signed {
            UploadStep::Sign { position }
        } else {
            UploadStep::Upload { position }
        }
    }

    /// Notes down whether the package was signed. One that was not is passed over.
    pub fn note_signed(&mut self, ok: bool)
        requires
            upload_next(*old(self)) is Sign,
        ensures
            is_noted(*old(self), *final(self), ok),
    {
        self.signed = ok;
        if !ok {
            self.outcomes.push(PackageOutcome::SignFailed);
        }
    }

    /// Notes down whether the package was uploaded, and goes on to the next.
    pub fn note_uploaded(&mut self, ok: bool)
        requires
            upload_next(*old(self)) is Upload,
        ensures
            is_noted(*old(self), *final(self), ok),
    {
        self.signed = false;
        if ok {
            self.outcomes.push(PackageOutcome::Uploaded);
        } else {
            self.outcomes.push(PackageOutcome::UploadFailed);
        }
    }
}

/// A package is uploaded only right after it was signed: the step before was to sign
/// the same package, and that went well.
pub proof fn lemma_only_signed_packages_are_uploaded(before: UploadRun, after: UploadRun, ok: bool)
    requires
        is_noted(before, after, ok),
        upload_next(after) is Upload,
    ensures
        ok,
        upload_next(before) == (UploadStep::Sign { position: upload_next(after)->Upload_position }),
{
}

/// Each step deals with the same package or goes on to the next, and none is passed
/// over: when the last step is done there is an outcome for every package.
pub proof fn lemma_every_package_has_an_outcome(before: UploadRun, after: UploadRun, ok: bool)
    requires
        is_noted(before, after, ok),
        before.outcomes@.len() <= before.total,
    ensures
        after.outcomes@.len() <= after.total,
        before.outcomes@.is_prefix_of(after.outcomes@),
        upload_next(after) is Done ==> after.outcomes@.len() == after.total,
{
    assert(before.outcomes@ =~= after.outcomes@.take(before.outcomes@.len() as int));
}

/// Whether a file of the given name is an upload: its extension is `changes`,
/// behind a name that is not empty.
pub open spec fn is_changes_name(name: Seq<char>) -> bool {
    ".changes"@.is_suffix_of(name) && name.len() > ".changes"@.len()
}

/// Whether a file of the given name is uploaded.
pub open spec fn is_target_name(name: Seq<char>, source_only: bool) -> bool {
    is_changes_name(name) && (source_only ==> "_source.changes"@.is_suffix_of(name))
}

/// Whether the file with the given name is uploaded: it describes an upload, and
/// one of sources where only those are wanted.
pub fn is_target_changes(file_name: &str, source_only: bool) -> (r: bool)
    ensures
        r == is_target_name(file_name@, source_only),
{
    if !ends_with(file_name, ".changes") || file_name.unicode_len() <= ".changes".unicode_len() {
        return false;
    }
    !source_only || ends_with(file_name, "_source.changes")
}

/// The positions in `names` of the files that are uploaded, in order.
pub open spec fn target_positions(names: Seq<String>, source_only: bool) -> Seq<int>
    decreases names.len(),
{
    if names.len() == 0 {
        Seq::empty()
    } else {
        let rest = target_positions(names.drop_last(), source_only);
        if is_target_name(names.last()@, source_only) {
            rest.push(names.len() - 1)
        } else {
            rest
        }
    }
}

/// The positions in a directory listing of the files that are uploaded, in order;
/// an error where there are none.
pub fn find_changes_files(names: &Vec<String>, source_only: bool) -> (r: Result<
    Vec<usize>,
    UploadError,
>)
    ensures
        target_positions(names@, source_only).len() == 0 ==> r == Err::<Vec<usize>, _>(
            UploadError::NoChangesFiles,
        ),
        target_positions(names@, source_only).len() > 0 ==> r is Ok && r->Ok_0@.map_values(
            |i: usize| i as int,
        ) == target_positions(names@, source_only),
{
    let mut found: Vec<usize> = Vec::new();
    let mut i: usize = 0;
    while i < names.len()
        invariant
            i <= names.len(),
            found@.map_values(|i: usize| i as int) == target_positions(
                names@.take(i as int),
                source_only,
            ),
        decreases names.len() - i,
    {
        let ghost after = names@.take(i + 1);
        assert(after.drop_last() =~= names@.take(i as int));
        assert(after.last() == names@[i as int]);
        if is_target_changes(names[i].as_str(), source_only) {
            let ghost before = found@;
            found.push(i);
            assert(found@.map_values(|i: usize| i as int) =~= before.map_values(
                |i: usize| i as int,
            ).push(i as int));
        }
        i = i + 1;
    }
    assert(names@.take(names.len() as int) =~= names@);
    let ghost positions = found@.map_values(|i: usize| i as int);
    assert(positions.len() == found.len());
    if found.is_empty() {
        Err(UploadError::NoChangesFiles)
    } else {
        Ok(found)
    }
}

/// The permissions that artifacts are given: readable by all, as far as the
/// process may.
pub fn relaxed_mode(umask: u32) -> (r: u32)
    ensures
        r == 0o644u32 & !umask,
{
    0o644 & !umask
}

/// Artifacts never become writable for others, nor executable.
pub proof fn lemma_relaxed_mode_is_safe(umask: u32)
    ensures
        (0o644u32 & !umask) & 0o022u32 == 0,
        (0o644u32 & !umask) & 0o111u32 == 0,
{
    assert((0o644u32 & !umask) & 0o022u32 == 0) by (bit_vector);
    assert((0o644u32 & !umask) & 0o111u32 == 0) by (bit_vector);
}

/// The uploads of two lists, one behind the other, add up; each that went through
/// counts once; all went through exactly where as many did as there are.
pub proof fn lemma_uploads_are_counted_each(
    first: Seq<PackageOutcome>,
    second: Seq<PackageOutcome>,
)
    ensures
        uploaded_count(first + second) == uploaded_count(first) + uploaded_count(second),
        first.len() == 1 && first[0] == PackageOutcome::Uploaded ==> uploaded_count(first) == 1,
        first.len() == 1 && first[0] != PackageOutcome::Uploaded ==> uploaded_count(first) == 0,
        uploaded_count(second) <= second.len(),
        all_uploaded(second) <==> uploaded_count(second) == second.len(),
    decreases second.len(),
{
    if first.len() == 1 {
        assert(uploaded_count(first.drop_last()) == 0);
    }
    if second.len() == 0 {
        assert(first + second =~= first);
    } else {
        let rest = second.drop_last();
        assert((first + second).drop_last() =~= first + rest);
        lemma_uploads_are_counted_each(first, rest);
        if all_uploaded(second) {
            assert forall|i: int| 0 <= i < rest.len() implies rest[i]
                == PackageOutcome::Uploaded by {
                assert(second[i] == PackageOutcome::Uploaded);
            }
            assert(second[second.len() - 1] == PackageOutcome::Uploaded);
        }
        if uploaded_count(second) == second.len() {
            assert forall|i: int| 0 <= i < second.len() implies second[i]
                == PackageOutcome::Uploaded by {
                if i < rest.len() {
                    assert(rest[i] == second[i]);
                }
            }
        }
    }
}

/// Packages are dealt with one after the other: each is signed, and uploaded only
/// where that went well; what became of it is noted down as it went.
pub proof fn lemma_packages_are_signed_then_uploaded(
    before: UploadRun,
    after: UploadRun,
    ok: bool,
)
    requires
        is_noted(before, after, ok),
    ensures
        after.total == before.total,
        upload_next(before) is Sign && ok ==> after.signed && after.outcomes@ == before.outcomes@,
        upload_next(before) is Sign && !ok ==> !after.signed && after.outcomes@.len()
            == before.outcomes@.len() + 1 && after.outcomes@.last() == PackageOutcome::SignFailed,
        upload_next(before) is Upload && ok ==> !after.signed && after.outcomes@.len()
            == before.outcomes@.len() + 1 && after.outcomes@.last() == PackageOutcome::Uploaded,
        upload_next(before) is Upload && !ok ==> !after.signed && after.outcomes@.len()
            == before.outcomes@.len() + 1 && after.outcomes@.last()
            == PackageOutcome::UploadFailed,
        forall|i: int|
            0 <= i < before.outcomes@.len() ==> #[trigger] after.outcomes@[i]
                == before.outcomes@[i],
{
}

/// The package that is worked on is the first without an outcome; it is signed where
/// it is not yet, and the work ends exactly when every package has an outcome.
pub proof fn lemma_first_open_package_is_next(f: UploadRun)
    requires
        f.outcomes@.len() <= usize::MAX,
    ensures
        upload_next(f) is Done <==> f.outcomes@.len() >= f.total,
        upload_next(f) matches UploadStep::Sign { position } ==> position == f.outcomes@.len()
            && position < f.total && !f.signed,
        upload_next(f) matches UploadStep::Upload { position } ==> position == f.outcomes@.len()
            && position < f.total && f.signed,
{
}

/// A description of changes is known by what its name ends in, with something before
/// it; where only sources are wanted, the name says so.
pub proof fn lemma_changes_are_known_by_name(start: Seq<char>, source_only: bool)
    ensures
        start.len() > 0 ==> is_target_name(start + ".changes"@, false),
        is_target_name(start + "_source.changes"@, source_only),
        !is_target_name(".changes"@, source_only),
        is_target_name(start, source_only) ==> ".changes"@.is_suffix_of(start),
        is_target_name(start, true) ==> "_source.changes"@.is_suffix_of(start)
            && is_target_name(start, false),
{
    reveal_strlit(".changes");
    reveal_strlit("_source.changes");
    assert(".changes"@.len() == 8 && "_source.changes"@.len() == 15);
    let name = start + ".changes"@;
    assert(name.subrange(name.len() - 8, name.len() as int) =~= ".changes"@);
    let source = start + "_source.changes"@;
    assert(source.subrange(source.len() - 15, source.len() as int) =~= "_source.changes"@);
    assert(source.subrange(source.len() - 8, source.len() as int) =~= ".changes"@);
}

/// The files that are found are exactly those that are wanted, in the order of the
/// directory.
pub proof fn lemma_exactly_the_wanted_files_are_found(names: Seq<String>, source_only: bool)
    ensures
        forall|k: int|
            0 <= k < target_positions(names, source_only).len() ==> 0 <= #[trigger] target_positions(
                names,
                source_only,
            )[k] < names.len() && is_target_name(
                names[target_positions(names, source_only)[k]]@,
                source_only,
            ),
        forall|i: int|
            0 <= i < names.len() && is_target_name((#[trigger] names[i])@, source_only)
                ==> target_positions(names, source_only).contains(i),
        forall|k: int, l: int|
            0 <= k < l < target_positions(names, source_only).len() ==> #[trigger] target_positions(
                names,
                source_only,
            )[k] < #[trigger] target_positions(names, source_only)[l],
    decreases names.len(),
{
    if names.len() > 0 {
        let rest = names.drop_last();
        let last = names.len() - 1;
        lemma_exactly_the_wanted_files_are_found(rest, source_only);
        let before = target_positions(rest, source_only);
        let all = target_positions(names, source_only);
        assert forall|k: int| 0 <= k < all.len() implies 0 <= #[trigger] all[k] < names.len()
            && is_target_name(names[all[k]]@, source_only) by {
            if k < before.len() {
                assert(all[k] == before[k]);
                assert(rest[before[k]] == names[before[k]]);
            }
        }
        assert forall|i: int|
            0 <= i < names.len() && is_target_name((#[trigger] names[i])@, source_only) implies all.contains(
        i) by {
            if i < last {
                assert(rest[i] == names[i]);
                let k = choose|k: int| 0 <= k < before.len() && before[k] == i;
                assert(all[k] == i);
            } else {
                assert(all[before.len() as int] == i);
            }
        }
        assert forall|k: int, l: int| 0 <= k < l < all.len() implies #[trigger] all[k]
            < #[trigger] all[l] by {
            assert(all[k] == before[k]);
            if l < before.len() {
                assert(all[l] == before[l]);
            }
        }
    }
}

} // verus!
