//! The words that the publisher shares with the database and the forges.
use crate::text::str_eq;
use vstd::prelude::*;

verus! {

/// How a result branch is published.
#[derive(Clone, Copy, Debug, PartialEq, Eq, Structural)]
pub enum Mode {
    /// Push to a branch of our own next to the target.
    PushDerived,
    /// Open or update a merge proposal.
    Propose,
    /// Push to the target branch.
    Push,
    /// Push where we may, propose where we may not.
    AttemptPush,
    /// Build, but publish nothing.
    BuildOnly,
    /// Do nothing.
    Skip,
}

/// The word for a mode.
pub open spec fn mode_text(mode: Mode) -> Seq<char> {
    match mode {
        Mode::PushDerived => "push-derived"@,
        Mode::Propose => "propose"@,
        Mode::Push => "push"@,
        Mode::AttemptPush => "attempt-push"@,
        Mode::BuildOnly => "build-only"@,
        Mode::Skip => "skip"@,
    }
}

/// The mode that a word stands for.
pub open spec fn mode_of(text: Seq<char>) -> Option<Mode> {
    if text == "push-derived"@ {
        Some(Mode::PushDerived)
    } else if text == "propose"@ {
        Some(Mode::Propose)
    } else if text == "push"@ {
        Some(Mode::Push)
    } else if text == "attempt-push"@ {
        Some(Mode::AttemptPush)
    } else if text == "build-only"@ {
        Some(Mode::BuildOnly)
    } else if text == "skip"@ {
        Some(Mode::Skip)
    } else {
        None
    }
}

impl Mode {
    /// The word for this mode.
    pub fn as_str(&self) -> (r: &'static str)
        ensures
            r@ == mode_text(*self),
    {
        match self {
            Mode::PushDerived => "push-derived",
            Mode::Propose => "propose",
            Mode::Push => "push",
            Mode::AttemptPush => "attempt-push",
            Mode::BuildOnly => "build-only",
            Mode::Skip => "skip",
        }
    }

    /// The mode that `text` stands for, if it stands for one.
    pub fn parse(text: &str) -> (r: Option<Mode>)
        ensures
            r == mode_of(text@),
    {
        if str_eq(text, "push-derived") {
            Some(Mode::PushDerived)
        } else if str_eq(text, "propose") {
            Some(Mode::Propose)
        } else if str_eq(text, "push") {
            Some(Mode::Push)
        } else if str_eq(text, "attempt-push") {
            Some(Mode::AttemptPush)
        } else if str_eq(text, "build-only") {
            Some(Mode::BuildOnly)
        } else if str_eq(text, "skip") {
            Some(Mode::Skip)
        } else {
            None
        }
    }
}

/// The state of a merge proposal as the publisher records it.
#[derive(Clone, Copy, Debug, PartialEq, Eq, Structural)]
pub enum MergeProposalStatus {
    /// Open on the forge.
    Open,
    /// Closed on the forge by somebody else.
    Closed,
    /// Merged.
    Merged,
    /// Closed because the changes were applied in another way.
    Applied,
    /// Closed because the publisher gave it up.
    Abandoned,
    /// Closed because the maintainer did not want it.
    Rejected,
}

/// The word for a proposal state.
pub open spec fn status_text(status: MergeProposalStatus) -> Seq<char> {
    match status {
        MergeProposalStatus::Open => "open"@,
        MergeProposalStatus::Closed => "closed"@,
        MergeProposalStatus::Merged => "merged"@,
        MergeProposalStatus::Applied => "applied"@,
        MergeProposalStatus::Abandoned => "abandoned"@,
        MergeProposalStatus::Rejected => "rejected"@,
    }
}

/// The proposal state that a word stands for.
pub open spec fn status_of(text: Seq<char>) -> Option<MergeProposalStatus> {
    if text == "open"@ {
        Some(MergeProposalStatus::Open)
    } else if text == "closed"@ {
        Some(MergeProposalStatus::Closed)
    } else if text == "merged"@ {
        Some(MergeProposalStatus::Merged)
    } else if text == "applied"@ {
        Some(MergeProposalStatus::Applied)
    } else if text == "abandoned"@ {
        Some(MergeProposalStatus::Abandoned)
    } else if text == "rejected"@ {
        Some(MergeProposalStatus::Rejected)
    } else {
        None
    }
}

impl MergeProposalStatus {
    /// The word for this state.
    pub fn as_str(&self) -> (r: &'static str)
        ensures
            r@ == status_text(*self),
    {
        match self {
            MergeProposalStatus::Open => "open",
            MergeProposalStatus::Closed => "closed",
            MergeProposalStatus::Merged => "merged",
            MergeProposalStatus::Applied => "applied",
            MergeProposalStatus::Abandoned => "abandoned",
            MergeProposalStatus::Rejected => "rejected",
        }
    }

    /// The state that `text` stands for, if it stands for one.
    pub fn parse(text: &str) -> (r: Option<MergeProposalStatus>)
        ensures
            r == status_of(text@),
    {
        if str_eq(text, "open") {
            Some(MergeProposalStatus::Open)
        } else if str_eq(text, "closed") {
            Some(MergeProposalStatus::Closed)
        } else if str_eq(text, "merged") {
            Some(MergeProposalStatus::Merged)
        } else if str_eq(text, "applied") {
            Some(MergeProposalStatus::Applied)
        } else if str_eq(text, "abandoned") {
            Some(MergeProposalStatus::Abandoned)
        } else if str_eq(text, "rejected") {
            Some(MergeProposalStatus::Rejected)
        } else {
            None
        }
    }
}

/// The state of a merge proposal as a forge reports it.
#[derive(Clone, Copy, Debug, PartialEq, Eq, Structural)]
pub enum ForgeMpStatus {
    /// Open.
    Open,
    /// Merged.
    Merged,
    /// Closed without a merge.
    Closed,
    /// Any of the above; only used to ask for proposals.
    All,
}

/// A mode is read back from its own word.
pub proof fn lemma_mode_round_trip(mode: Mode)
    ensures
        mode_of(mode_text(mode)) == Some(mode),
{
    reveal_strlit("push-derived");
    reveal_strlit("propose");
    reveal_strlit("push");
    reveal_strlit("attempt-push");
    reveal_strlit("build-only");
    reveal_strlit("skip");
    assert("push-derived"@.len() == 12 && "attempt-push"@.len() == 12);
    assert("propose"@.len() == 7 && "build-only"@.len() == 10);
    assert("push"@.len() == 4 && "skip"@.len() == 4);
    assert("push-derived"@[0] != "attempt-push"@[0]);
    assert("push"@[0] != "skip"@[0]);
}

/// A proposal state is read back from its own word.
pub proof fn lemma_status_round_trip(status: MergeProposalStatus)
    ensures
        status_of(status_text(status)) == Some(status),
{
    reveal_strlit("open");
    reveal_strlit("closed");
    reveal_strlit("merged");
    reveal_strlit("applied");
    reveal_strlit("abandoned");
    reveal_strlit("rejected");
    assert("open"@.len() == 4 && "applied"@.len() == 7);
    assert("closed"@.len() == 6 && "merged"@.len() == 6);
    assert("abandoned"@.len() == 9 && "rejected"@.len() == 8);
    assert("closed"@[0] != "merged"@[0]);
}

/// A status is known by its own word and by no other: words that differ are read as
/// different statuses, and only the words of statuses are read.
pub proof fn lemma_status_is_its_word(text: Seq<char>, other: Seq<char>)
    ensures
        status_of(text) is Some ==> status_text(status_of(text)->0) == text,
        status_of(text) is Some && status_of(text) == status_of(other) ==> text == other,
        status_of(text) == Some(MergeProposalStatus::Open) ==> text == "open"@,
        status_of(text) == Some(MergeProposalStatus::Closed) ==> text == "closed"@,
        status_of(text) == Some(MergeProposalStatus::Merged) ==> text == "merged"@,
        status_of(text) == Some(MergeProposalStatus::Applied) ==> text == "applied"@,
        status_of(text) == Some(MergeProposalStatus::Abandoned) ==> text == "abandoned"@,
        status_of(text) == Some(MergeProposalStatus::Rejected) ==> text == "rejected"@,
{
}

/// A mode is known by its own word and by no other.
pub proof fn lemma_mode_is_its_word(text: Seq<char>, other: Seq<char>)
    ensures
        mode_of(text) is Some ==> mode_text(mode_of(text)->0) == text,
        mode_of(text) is Some && mode_of(text) == mode_of(other) ==> text == other,
        mode_of(text) == Some(Mode::PushDerived) ==> text == "push-derived"@,
        mode_of(text) == Some(Mode::Propose) ==> text == "propose"@,
        mode_of(text) == Some(Mode::Push) ==> text == "push"@,
        mode_of(text) == Some(Mode::AttemptPush) ==> text == "attempt-push"@,
        mode_of(text) == Some(Mode::BuildOnly) ==> text == "build-only"@,
        mode_of(text) == Some(Mode::Skip) ==> text == "skip"@,
{
}

} // verus!
