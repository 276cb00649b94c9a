//! Comparing runs before anybody asks.
use crate::differ::error::Error;
use crate::differ::runs::{is_run_id, validate_run_id};
use crate::text::str_eq;
use vstd::prelude::*;

verus! {

/// What the runner says about a run that ended.
#[derive(Debug)]
pub struct ResultMessage {
    /// Result code.
    pub code: String,
    /// The run.
    pub log_id: String,
    /// Revision that it arrived at.
    pub revision: String,
    /// Revision that it started from.
    pub main_branch_revision: String,
    /// Codebase.
    pub codebase: String,
}

/// Whether a run is its own control run: it changed nothing.
pub open spec fn is_control(message: ResultMessage) -> bool {
    message.revision@ == message.main_branch_revision@
}

impl ResultMessage {
    /// Where such messages are announced.
    pub fn channel() -> (r: &'static str)
        ensures
            r@ == "result"@,
    {
        "result"
    }

    /// Whether the run is compared at all.
    pub fn is_success(&self) -> (r: bool)
        ensures
            r == (self.code@ == "success"@),
    {
        str_eq(self.code.as_str(), "success")
    }

    /// Whether the run is a control run, so that the runs that started from its
    /// revision are compared with it; if not, it is compared with its own control
    /// run.
    pub fn is_control_run(&self) -> (r: bool)
        ensures
            r == is_control(*self),
    {
        str_eq(self.revision.as_str(), self.main_branch_revision.as_str())
    }
}

/// The pairs to compare, each a control run and a run that started from its
/// revision, when `found` are the runs that were found for a message.
pub fn candidate_pairs(message: &ResultMessage, found: &Vec<String>) -> (r: Vec<(String, String)>)
    ensures
        r@.len() == found@.len(),
        forall|i: int|
            0 <= i < r@.len() ==> #[trigger] r@[i] == (if is_control(*message) {
                (message.log_id, found@[i])
            } else {
                (found@[i], message.log_id)
            }),
{
    let control = message.is_control_run();
    let mut pairs: Vec<(String, String)> = Vec::new();
    let mut i: usize = 0;
    while i < found.len()
        invariant
            i <= found.len(),
            control == is_control(*message),
            pairs@.len() == i,
            forall|j: int|
                0 <= j < i ==> #[trigger] pairs@[j] == (if is_control(*message) {
                    (message.log_id, found@[j])
                } else {
                    (found@[j], message.log_id)
                }),
        decreases found.len() - i,
    {
        if control {
            pairs.push((message.log_id.clone(), found[i].clone()));
        } else {
            pairs.push((found[i].clone(), message.log_id.clone()));
        }
        i = i + 1;
    }
    pairs
}

/// The status of the answer to a request to compare all runs.
pub fn precache_all_status(count: usize) -> (r: u16)
    ensures
        r == (if count == 0 {
            200u16
        } else {
            202u16
        }),
{
    if count == 0 {
        200
    } else {
        202
    }
}

/// What is known in the course of comparing two runs beforehand.
#[derive(Debug)]
pub struct Precache {
    /// Whether differences of packages are kept.
    pub keeps_debdiff: bool,
    /// Whether differences of contents are kept.
    pub keeps_diffoscope: bool,
    /// Whether the difference of the packages is there.
    pub has_debdiff: Option<bool>,
    /// Whether the difference of the contents is there.
    pub has_diffoscope: Option<bool>,
    /// Whether the packages are here.
    pub fetched: bool,
    /// Whether debdiff was run.
    pub debdiff_done: bool,
    /// Whether diffoscope was run.
    pub diffoscope_done: bool,
}

/// What to do next.
#[derive(Clone, Copy, Debug, PartialEq, Eq, Structural)]
pub enum PrecacheStep {
    /// See whether the difference of the packages is there.
    LookForDebdiff,
    /// See whether the difference of the contents is there.
    LookForDiffoscope,
    /// Get the packages.
    Fetch,
    /// Run debdiff.
    RunDebdiff,
    /// Run diffoscope.
    RunDiffoscope,
    /// Nothing.
    Done,
}

/// Whether something is needed: it is kept, and not there.
pub open spec fn is_needed(keeps: bool, there: Option<bool>) -> bool {
    keeps && there == Some(false)
}

/// The next step of comparing two runs beforehand.
pub open spec fn precache_next(f: Precache) -> PrecacheStep {
    let debdiff = is_needed(f.keeps_debdiff, f.has_debdiff);
    let diffoscope = is_needed(f.keeps_diffoscope, f.has_diffoscope);
    if f.keeps_debdiff && f.has_debdiff is None {
        PrecacheStep::LookForDebdiff
    } else if f.keeps_diffoscope && f.has_diffoscope is None {
        PrecacheStep::LookForDiffoscope
    } else if !debdiff && !diffoscope {
        PrecacheStep::Done
    } else if !f.fetched {
        PrecacheStep::Fetch
    } else if debdiff && !f.debdiff_done {
        PrecacheStep::RunDebdiff
    } else if diffoscope && !f.diffoscope_done {
        PrecacheStep::RunDiffoscope
    } else {
        PrecacheStep::Done
    }
}

/// Starts to compare two runs beforehand; an error where one of the ids is none.
pub fn precache(
    old_id: &str,
    new_id: &str,
    keeps_debdiff: bool,
    keeps_diffoscope: bool,
) -> (r: Result<Precache, Error>)
    ensures
        match r {
            Ok(f) => is_run_id(old_id@) && is_run_id(new_id@) && f == (Precache {
                keeps_debdiff,
                keeps_diffoscope,
                has_debdiff: None,
                has_diffoscope: None,
                fetched: false,
                debdiff_done: false,
                diffoscope_done: false,
            }),
            Err(e) => e matches Error::InvalidRunId(id) && (if is_run_id(old_id@) {
                !is_run_id(new_id@) && id@ == new_id@
            } else {
                id@ == old_id@
            }),
        },
{
    if let Err(e) = validate_run_id(old_id) {
        return Err(e);
    }
    if let Err(e) = validate_run_id(new_id) {
        return Err(e);
    }
    Ok(
        Precache {
            keeps_debdiff,
            keeps_diffoscope,
            has_debdiff: None,
            has_diffoscope: None,
            fetched: false,
            debdiff_done: false,
            diffoscope_done: false,
        },
    )
}

impl Precache {
    /// What to do next.
    pub fn next(&self) -> (r: PrecacheStep)
        ensures
            r == precache_next(*self),
    {
        if self.keeps_debdiff && self.has_debdiff.is_none() {
            return PrecacheStep::LookForDebdiff;
        }
        if self.keeps_diffoscope && self.has_diffoscope.is_none() {
            return PrecacheStep::LookForDiffoscope;
        }
        let debdiff = self.keeps_debdiff && match self.has_debdiff {
            Some(there) => !there,
            None => false,
        };
        let diffoscope = self.keeps_diffoscope && match self.has_diffoscope {
            Some(there) => !there,
            None => false,
        };
        if !debdiff && !diffoscope {
            PrecacheStep::Done
        } else if !self.fetched {
            PrecacheStep::Fetch
        } else if debdiff && !self.debdiff_done {
            PrecacheStep::RunDebdiff
        } else if diffoscope && !self.diffoscope_done {
            PrecacheStep::RunDiffoscope
        } else {
            PrecacheStep::Done
        }
    }

    /// Notes down the answer to a step that asks something, or that a step was
    /// done.
    pub fn note(&mut self, answer: bool)
        ensures
            *final(self) == (match precache_next(*old(self)) {
                PrecacheStep::LookForDebdiff => Precache {
                    has_debdiff: Some(answer),
                    ..*old(self)
                },
                PrecacheStep::LookForDiffoscope => Precache {
                    has_diffoscope: Some(answer),
                    ..*old(self)
                },
                PrecacheStep::Fetch => Precache { fetched: true, ..*old(self) },
                PrecacheStep::RunDebdiff => Precache { debdiff_done: true, ..*old(self) },
                PrecacheStep::RunDiffoscope => Precache { diffoscope_done: true, ..*old(self) },
                PrecacheStep::Done => *old(self),
            }),
    {
        match self.next() {
            PrecacheStep::LookForDebdiff => {
                self.has_debdiff = Some(answer);
            },
            PrecacheStep::LookForDiffoscope => {
                self.has_diffoscope = Some(answer);
            },
            PrecacheStep::Fetch => {
                self.fetched = true;
            },
            PrecacheStep::RunDebdiff => {
                self.debdiff_done = true;
            },
            PrecacheStep::RunDiffoscope => {
                self.diffoscope_done = true;
            },
            PrecacheStep::Done => {},
        }
    }
}

/// Packages are got only where something is missing, a command is run only where
/// its output is missing, and in the end nothing is that is kept.
pub proof fn lemma_precache_does_what_is_needed(f: Precache)
    ensures
        precache_next(f) is Fetch ==> is_needed(f.keeps_debdiff, f.has_debdiff) || is_needed(
            f.keeps_diffoscope,
            f.has_diffoscope,
        ),
        precache_next(f) is RunDebdiff ==> is_needed(f.keeps_debdiff, f.has_debdiff) && f.fetched,
        precache_next(f) is RunDiffoscope ==> is_needed(f.keeps_diffoscope, f.has_diffoscope)
            && f.fetched,
        precache_next(f) is Done ==> {
            &&& is_needed(f.keeps_debdiff, f.has_debdiff) ==> f.debdiff_done
            &&& is_needed(f.keeps_diffoscope, f.has_diffoscope) ==> f.diffoscope_done
        },
{
}

/// What is kept is looked for first; what is missing is then made, once the
/// binaries were fetched; what is there, or is not kept, is never made.
pub proof fn lemma_precache_goes_on_to_its_end(f: Precache)
    ensures
        precache_next(f) is LookForDebdiff <==> f.keeps_debdiff && f.has_debdiff is None,
        precache_next(f) is LookForDiffoscope ==> f.keeps_diffoscope && f.has_diffoscope is None,
        precache_next(f) is Fetch ==> !f.fetched,
        precache_next(f) is RunDebdiff ==> !f.debdiff_done,
        precache_next(f) is RunDiffoscope ==> !f.diffoscope_done,
        precache_next(f) is Done ==> {
            &&& f.keeps_debdiff ==> f.has_debdiff is Some
            &&& f.keeps_diffoscope ==> f.has_diffoscope is Some
            &&& f.keeps_debdiff && !f.has_debdiff->0 ==> f.debdiff_done && f.fetched
            &&& f.keeps_diffoscope && !f.has_diffoscope->0 ==> f.diffoscope_done && f.fetched
        },
        f.has_debdiff == Some(true) || !f.keeps_debdiff ==> !(precache_next(f) is RunDebdiff),
        f.has_diffoscope == Some(true) || !f.keeps_diffoscope ==> !(precache_next(
            f,
        ) is RunDiffoscope),
{
    if let Some(b) = f.has_debdiff {
        assert(f.has_debdiff == Some(true) || f.has_debdiff == Some(false)) by {
            assert(b == true || b == false);
        }
    }
    if let Some(b) = f.has_diffoscope {
        assert(f.has_diffoscope == Some(true) || f.has_diffoscope == Some(false)) by {
            assert(b == true || b == false);
        }
    }
}

} // verus!
