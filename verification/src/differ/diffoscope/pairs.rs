//! Comparing the packages of two runs pair by pair.
use crate::differ::diffoscope::tree::{DiffoscopeOutput, TreeView, renamed, tree_view};
use crate::differ::error::DiffoscopeError;
use vstd::prelude::*;

verus! {

/// What is known in the course of comparing the packages of two runs. A package
/// is a file name and a path.
#[derive(Debug)]
pub struct DiffoscopeRun {
    /// The packages of the first run.
    pub old_binaries: Vec<(String, String)>,
    /// The packages of the second run.
    pub new_binaries: Vec<(String, String)>,
    /// How many pairs were compared.
    pub position: usize,
    /// The differences that were found.
    pub tree: DiffoscopeOutput,
    /// Why a pair could not be compared.
    pub error: Option<DiffoscopeError>,
}

/// What to do next.
#[derive(Debug)]
pub enum PairStep {
    /// Compare two packages.
    Compare {
        /// Path of the first.
        old_path: String,
        /// Path of the second.
        new_path: String,
    },
    /// Nothing.
    Done,
}

/// Whether a pair is left at the given position.
pub open spec fn has_pair(f: DiffoscopeRun) -> bool {
    f.position < f.old_binaries@.len() && f.position < f.new_binaries@.len()
}

/// The next step of comparing the packages of two runs: each package is compared
/// with the one at its place, as far as there is one, until a pair cannot be
/// compared.
pub open spec fn pair_next(f: DiffoscopeRun) -> PairStep {
    if f.error is None && has_pair(f) {
        PairStep::Compare {
            old_path: f.old_binaries@[f.position as int].1,
            new_path: f.new_binaries@[f.position as int].1,
        }
    } else {
        PairStep::Done
    }
}

/// A tree without differences.
pub open spec fn empty_tree() -> TreeView {
    TreeView {
        version: Some(1),
        source1: "old version"@,
        source2: "new version"@,
        comments: Seq::empty(),
        unified_diff: None,
        details: Seq::empty(),
    }
}

/// Starts to compare the packages of two runs.
pub fn run_diffoscope(
    old_binaries: Vec<(String, String)>,
    new_binaries: Vec<(String, String)>,
) -> (r: DiffoscopeRun)
    ensures
        r.old_binaries == old_binaries,
        r.new_binaries == new_binaries,
        r.position == 0,
        tree_view(r.tree) == empty_tree(),
        r.error is None,
{
    let tree = DiffoscopeOutput {
        diffoscope_json_version: Some(1),
        source1: "old version".to_owned(),
        source2: "new version".to_owned(),
        comments: Vec::new(),
        unified_diff: None,
        details: Vec::new(),
    };
    assert(tree_view(tree).comments =~= Seq::<Seq<char>>::empty());
    assert(tree_view(tree).details =~= Seq::<TreeView>::empty());
    DiffoscopeRun { old_binaries, new_binaries, position: 0, tree, error: None }
}

/// Whether `after` is `before` with the difference between the two packages at
/// its position noted down under their names.
pub open spec fn is_noted(
    before: DiffoscopeRun,
    difference: Option<DiffoscopeOutput>,
    after: DiffoscopeRun,
) -> bool {
    let at = before.position as int;
    &&& after.old_binaries == before.old_binaries
    &&& after.new_binaries == before.new_binaries
    &&& after.position == before.position + 1
    &&& after.error == before.error
    &&& match difference {
        None => after.tree == before.tree,
        Some(sub) => tree_view(after.tree) == (TreeView {
            details: tree_view(before.tree).details.push(
                renamed(
                    tree_view(sub),
                    before.old_binaries@[at].0@,
                    before.new_binaries@[at].0@,
                ),
            ),
            ..tree_view(before.tree)
        }),
    }
}

impl DiffoscopeRun {
    /// What to do next.
    pub fn next(&self) -> (r: PairStep)
        ensures
            r == pair_next(*self),
    {
        let i = self.position;
        if self.error.is_none() && i < self.old_binaries.len() && i < self.new_binaries.len() {
            PairStep::Compare {
                old_path: self.old_binaries[i].1.clone(),
                new_path: self.new_binaries[i].1.clone(),
            }
        } else {
            PairStep::Done
        }
    }

    /// Notes down what came of comparing a pair: a difference, or none, or an
    /// error.
    pub fn note_compared(&mut self, result: Result<Option<DiffoscopeOutput>, DiffoscopeError>)
        requires
            has_pair(*old(self)),
        ensures
            match result {
                Ok(difference) => is_noted(*old(self), difference, *final(self)),
                Err(e) => *final(self) == (DiffoscopeRun { error: Some(e), ..*old(self) }),
            },
    {
        match result {
            Ok(difference) => {
                let i = self.position;
                assert(i < self.old_binaries.len());
                self.tree.add_pair(
                    self.old_binaries[i].0.as_str(),
                    self.new_binaries[i].0.as_str(),
                    difference,
                );
                self.position = i + 1;
            },
            Err(e) => {
                self.error = Some(e);
            },
        }
    }

    /// What the comparison came to.
    pub fn finish(self) -> (r: Result<DiffoscopeOutput, DiffoscopeError>)
        ensures
            r == (match self.error {
                Some(e) => Err(e),
                None => Ok(self.tree),
            }),
    {
        match self.error {
            Some(e) => Err(e),
            None => Ok(self.tree),
        }
    }
}

/// No pair is compared after an error, and none is left out: where nothing is left
/// to do without an error, each package that has one at its place was compared
/// with it.
pub proof fn lemma_no_pair_is_left_out(f: DiffoscopeRun)
    ensures
        pair_next(f) is Compare ==> f.error is None && has_pair(f),
        pair_next(f) is Done && f.error is None ==> f.position >= f.old_binaries@.len()
            || f.position >= f.new_binaries@.len(),
{
}

/// A difference comes behind those that were found before, which stay; a pair
/// that does not differ adds nothing.
pub proof fn lemma_differences_stay_in_order(
    f: DiffoscopeRun,
    difference: Option<DiffoscopeOutput>,
    after: DiffoscopeRun,
)
    requires
        has_pair(f),
        is_noted(f, difference, after),
    ensures
        tree_view(after.tree).details.len() == tree_view(f.tree).details.len() + (
        if difference is Some {
            1int
        } else {
            0int
        }),
        forall|i: int|
            0 <= i < tree_view(f.tree).details.len() ==> tree_view(after.tree).details[i]
                == #[trigger] tree_view(f.tree).details[i],
{
}

/// Each package is compared with the one at its own place, and the difference is
/// noted down under the names of the two; then it is the turn of the next pair.
pub proof fn lemma_pairs_are_compared_in_place(
    f: DiffoscopeRun,
    difference: Option<DiffoscopeOutput>,
    after: DiffoscopeRun,
)
    ensures
        pair_next(f) matches PairStep::Compare { old_path, new_path } ==> {
            &&& f.position < f.old_binaries@.len()
            &&& f.position < f.new_binaries@.len()
            &&& old_path == f.old_binaries@[f.position as int].1
            &&& new_path == f.new_binaries@[f.position as int].1
            &&& f.error is None
        },
        f.error is None && f.position < f.old_binaries@.len() && f.position
            < f.new_binaries@.len() ==> pair_next(f) is Compare,
        is_noted(f, difference, after) ==> {
            &&& after.position == f.position + 1
            &&& after.old_binaries == f.old_binaries
            &&& after.new_binaries == f.new_binaries
            &&& after.error == f.error
            &&& difference is None ==> after.tree == f.tree
            &&& difference matches Some(sub) ==> {
                let details = tree_view(after.tree).details;
                &&& details.len() == tree_view(f.tree).details.len() + 1
                &&& details.last().source1 == f.old_binaries@[f.position as int].0@
                &&& details.last().source2 == f.new_binaries@[f.position as int].0@
                &&& details.last().unified_diff == tree_view(sub).unified_diff
                &&& details.last().details == tree_view(sub).details
                &&& details.last().comments == tree_view(sub).comments
                &&& tree_view(after.tree).source1 == tree_view(f.tree).source1
                &&& tree_view(after.tree).source2 == tree_view(f.tree).source2
            }
        },
{
}

} // verus!
