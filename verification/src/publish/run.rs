//! The record of a run, as far as the publisher reads it.
use crate::text::str_eq;
use crate::time::Timestamp;
use vstd::prelude::*;

verus! {

/// One branch that a run produced.
#[derive(Debug)]
pub struct ResultBranch {
    /// What the branch is for, such as `main`.
    pub role: String,
    /// Name of the branch on the remote side; empty where none was recorded.
    pub remote_name: String,
    /// Revision that the run started from.
    pub base_revision: Option<String>,
    /// Revision that the run arrived at.
    pub revision: Option<String>,
}

/// A finished run.
#[derive(Debug)]
pub struct Run {
    /// Identifier.
    pub id: String,
    /// Command that was run.
    pub command: String,
    /// Campaign that the run belongs to.
    pub suite: String,
    /// Codebase that it ran on.
    pub codebase: String,
    /// Change set that it belongs to.
    pub change_set: String,
    /// `success`, or the code of the failure.
    pub result_code: String,
    /// Whether a failure may go away by itself, if known.
    pub failure_transient: Option<bool>,
    /// When it finished.
    pub finish_time: Timestamp,
    /// Value of the change.
    pub value: Option<i32>,
    /// Tip of the main branch when it ran.
    pub main_branch_revision: Option<String>,
    /// Revision that it produced.
    pub revision: Option<String>,
    /// Version control system of the branch.
    pub vcs_type: String,
    /// Branch that it ran on.
    pub branch_url: String,
    /// Branch to publish to, where it is another one.
    pub target_branch_url: Option<String>,
    /// Branches that it produced, if it got that far.
    pub result_branches: Option<Vec<ResultBranch>>,
}

/// The first branch in `branches` with the given role.
pub open spec fn branch_for_role(branches: Seq<ResultBranch>, role: Seq<char>) -> Option<
    ResultBranch,
>
    decreases branches.len(),
{
    if branches.len() == 0 {
        None
    } else if branches[0].role@ == role {
        Some(branches[0])
    } else {
        branch_for_role(branches.drop_first(), role)
    }
}

/// The branch that `run` produced for `role`.
pub open spec fn result_branch(run: Run, role: Seq<char>) -> Option<ResultBranch> {
    match run.result_branches {
        Some(branches) => branch_for_role(branches@, role),
        None => None,
    }
}

impl Clone for ResultBranch {
    fn clone(&self) -> (r: ResultBranch)
        ensures
            r == *self,
    {
        ResultBranch {
            role: self.role.clone(),
            remote_name: self.remote_name.clone(),
            base_revision: self.base_revision.clone(),
            revision: self.revision.clone(),
        }
    }
}

impl Run {
    /// The branch that this run produced for `role`.
    pub fn get_result_branch(&self, role: &str) -> (r: Option<&ResultBranch>)
        ensures
            r is Some == result_branch(*self, role@) is Some,
            r is Some ==> *r->0 == result_branch(*self, role@)->0,
    {
        match &self.result_branches {
            None => None,
            Some(branches) => {
                let mut i: usize = 0;
                assert(branches@.skip(0) =~= branches@);
                while i < branches.len()
                    invariant
                        i <= branches.len(),
                        self.result_branches == Some(*branches),
                        branch_for_role(branches@, role@) == branch_for_role(
                            branches@.skip(i as int),
                            role@,
                        ),
                    decreases branches.len() - i,
                {
                    assert(branches@.skip(i as int)[0] == branches@[i as int]);
                    if str_eq(branches[i].role.as_str(), role) {
                        return Some(&branches[i]);
                    }
                    assert(branches@.skip(i as int).drop_first() =~= branches@.skip(i + 1));
                    i = i + 1;
                }
                None
            },
        }
    }
}

/// The branch for a role is the first one that has the role, and there is none only
/// where no branch has it.
pub proof fn lemma_branch_is_the_first_of_its_role(branches: Seq<ResultBranch>, role: Seq<char>)
    ensures
        match branch_for_role(branches, role) {
            Some(branch) => exists|i: int|
                {
                    &&& 0 <= i < branches.len()
                    &&& #[trigger] branches[i] == branch
                    &&& branches[i].role@ == role
                    &&& forall|j: int| 0 <= j < i ==> (#[trigger] branches[j]).role@ != role
                },
            None => forall|j: int|
                0 <= j < branches.len() ==> (#[trigger] branches[j]).role@ != role,
        },
    decreases branches.len(),
{
    if branches.len() > 0 {
        let rest = branches.drop_first();
        if branches[0].role@ == role {
            assert(branch_for_role(branches, role) == Some(branches[0]));
        } else {
            lemma_branch_is_the_first_of_its_role(rest, role);
            assert forall|j: int| 1 <= j < branches.len() implies #[trigger] branches[j] == rest[j
                - 1] by {}
            match branch_for_role(rest, role) {
                Some(branch) => {
                    let i = choose|i: int|
                        {
                            &&& 0 <= i < rest.len()
                            &&& #[trigger] rest[i] == branch
                            &&& rest[i].role@ == role
                            &&& forall|j: int| 0 <= j < i ==> (#[trigger] rest[j]).role@ != role
                        };
                    assert(branches[i + 1] == branch);
                    assert forall|j: int| 0 <= j < i + 1 implies (
                    #[trigger] branches[j]).role@ != role by {
                        if j > 0 {
                            assert(rest[j - 1].role@ != role);
                        }
                    }
                },
                None => {
                    assert forall|j: int| 0 <= j < branches.len() implies (
                    #[trigger] branches[j]).role@ != role by {
                        if j > 0 {
                            assert(rest[j - 1].role@ != role);
                        }
                    }
                },
            }
        }
    }
}

/// A run gives the branches that it resulted in, and none where it resulted in none.
pub proof fn lemma_run_gives_its_own_branches(run: Run, role: Seq<char>)
    ensures
        result_branch(run, role) matches Some(branch) ==> {
            &&& run.result_branches matches Some(branches)
            &&& branches@.contains(branch)
            &&& branch.role@ == role
        },
        result_branch(run, role) is None ==> run.result_branches is None || forall|j: int|
            0 <= j < run.result_branches->0@.len() ==> (
            #[trigger] run.result_branches->0@[j]).role@ != role,
{
    if let Some(branches) = run.result_branches {
        lemma_branch_is_the_first_of_its_role(branches@, role);
    }
}

} // verus!
