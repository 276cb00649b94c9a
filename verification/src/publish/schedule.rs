//! Runs that the publisher asks the scheduler for.
use crate::text::{debug_quoted, quote_debug};
use vstd::prelude::*;

verus! {

/// The queue that a run is put into.
#[derive(Debug)]
pub enum Queue {
    /// That of runs that will open new proposals.
    NewProposals,
    /// That of runs that will update proposals.
    ExistingProposals,
    /// Any other.
    Named(String),
}

/// The name of a queue.
pub open spec fn queue_text(queue: Queue) -> Seq<char> {
    match queue {
        Queue::NewProposals => "update-new-mp"@,
        Queue::ExistingProposals => "update-existing-mp"@,
        Queue::Named(name) => name@,
    }
}

impl Queue {
    /// The name of this queue.
    pub fn as_str(&self) -> (r: &str)
        ensures
            r@ == queue_text(*self),
    {
        match self {
            Queue::NewProposals => "update-new-mp",
            Queue::ExistingProposals => "update-existing-mp",
            Queue::Named(name) => name.as_str(),
        }
    }
}

impl Clone for Queue {
    fn clone(&self) -> (r: Self)
        ensures
            r == *self,
    {
        match self {
            Queue::NewProposals => Queue::NewProposals,
            Queue::ExistingProposals => Queue::ExistingProposals,
            Queue::Named(name) => Queue::Named(name.clone()),
        }
    }
}

/// In whose name something is done.
#[derive(Debug)]
pub enum Requester {
    /// A proposal has no run.
    OrphanedProposal,
    /// The last run failed, but may succeed another time.
    TransientError,
    /// The last run failed long ago.
    OldFailedRun,
    /// A proposal conflicts with its target.
    MergeConflict,
    /// A proposal is brought up to date.
    RegularRefresh,
    /// It is the turn of a run that is ready.
    PublishPending,
    /// The runner approved a run.
    Runner,
    /// The command of a campaign is not the one that was run.
    ChangedCommand {
        /// The command that was run.
        old_command: String,
        /// The command of the campaign as it is now.
        new_command: String,
    },
    /// Anything else.
    Named(String),
}

/// The text for a requester.
pub open spec fn requester_text(requester: Requester) -> Seq<char> {
    match requester {
        Requester::OrphanedProposal => "publisher (orphaned merge proposal)"@,
        Requester::TransientError => "publisher (transient error)"@,
        Requester::OldFailedRun => "publisher (retrying old failed run)"@,
        Requester::MergeConflict => "publisher (merge conflict)"@,
        Requester::RegularRefresh => "publisher (regular refresh)"@,
        Requester::PublishPending => "publisher (publish pending)"@,
        Requester::Runner => "runner"@,
        Requester::ChangedCommand { old_command, new_command } => "publisher (changed policy: "@
            + debug_quoted(old_command@) + " -> "@ + debug_quoted(new_command@) + ")"@,
        Requester::Named(name) => name@,
    }
}

/// In whose name a run with a new command is asked for, from the two commands in
/// quotes.
pub fn changed_command_requester(old_quoted: &str, new_quoted: &str) -> (r: String)
    ensures
        r@ == "publisher (changed policy: "@ + old_quoted@ + " -> "@ + new_quoted@ + ")"@,
{
    "publisher (changed policy: ".to_owned().concat(old_quoted).concat(" -> ").concat(
        new_quoted,
    ).concat(")")
}

impl Requester {
    /// The text for this requester.
    pub fn to_text(&self) -> (r: String)
        ensures
            r@ == requester_text(*self),
    {
        match self {
            Requester::OrphanedProposal => "publisher (orphaned merge proposal)".to_owned(),
            Requester::TransientError => "publisher (transient error)".to_owned(),
            Requester::OldFailedRun => "publisher (retrying old failed run)".to_owned(),
            Requester::MergeConflict => "publisher (merge conflict)".to_owned(),
            Requester::RegularRefresh => "publisher (regular refresh)".to_owned(),
            Requester::PublishPending => "publisher (publish pending)".to_owned(),
            Requester::Runner => "runner".to_owned(),
            Requester::ChangedCommand { old_command, new_command } => changed_command_requester(
                quote_debug(old_command.as_str()).as_str(),
                quote_debug(new_command.as_str()).as_str(),
            ),
            Requester::Named(name) => name.clone(),
        }
    }
}

impl Clone for Requester {
    fn clone(&self) -> (r: Self)
        ensures
            r == *self,
    {
        match self {
            Requester::OrphanedProposal => Requester::OrphanedProposal,
            Requester::TransientError => Requester::TransientError,
            Requester::OldFailedRun => Requester::OldFailedRun,
            Requester::MergeConflict => Requester::MergeConflict,
            Requester::RegularRefresh => Requester::RegularRefresh,
            Requester::PublishPending => Requester::PublishPending,
            Requester::Runner => Requester::Runner,
            Requester::ChangedCommand { old_command, new_command } => Requester::ChangedCommand {
                old_command: old_command.clone(),
                new_command: new_command.clone(),
            },
            Requester::Named(name) => Requester::Named(name.clone()),
        }
    }
}

/// A copy of a requester, where there is one.
pub fn copy_requester(requester: &Option<Requester>) -> (r: Option<Requester>)
    ensures
        r == *requester,
{
    match requester {
        Some(requester) => Some(requester.clone()),
        None => None,
    }
}

/// A run of a campaign to ask for.
#[derive(Debug)]
pub struct RunRequest {
    /// Campaign to run.
    pub campaign: String,
    /// Codebase to run it on.
    pub codebase: String,
    /// Queue to put it into.
    pub bucket: Queue,
    /// Change set that the run belongs to.
    pub change_set: Option<String>,
    /// Whether to start from scratch.
    pub refresh: bool,
    /// In whose name it is asked for.
    pub requester: Requester,
    /// Command to run, where it is not that of the candidate.
    pub command: Option<String>,
}

/// A control run to ask for.
#[derive(Debug)]
pub struct ControlRequest {
    /// Codebase to run on.
    pub codebase: String,
    /// Revision of the main branch to run on.
    pub main_branch_revision: String,
    /// Queue to put it into.
    pub bucket: Queue,
    /// Whether to start from scratch.
    pub refresh: bool,
    /// In whose name it is asked for.
    pub requester: Requester,
}

/// A run to ask for.
#[derive(Debug)]
pub enum ScheduleRequest {
    /// One of a campaign.
    Regular(RunRequest),
    /// A control run.
    Control(ControlRequest),
}

/// A queue or a requester that was named goes by that name.
pub proof fn lemma_named_keep_their_name(name: String)
    ensures
        queue_text(Queue::Named(name)) == name@,
        requester_text(Requester::Named(name)) == name@,
{
}

/// New proposals and existing ones wait in different queues.
pub proof fn lemma_queues_are_apart()
    ensures
        queue_text(Queue::NewProposals) != queue_text(Queue::ExistingProposals),
{
    reveal_strlit("update-new-mp");
    reveal_strlit("update-existing-mp");
    assert("update-new-mp"@.len() == 13 && "update-existing-mp"@.len() == 18);
}

/// A run that is asked for because the command changed says from which command to
/// which.
pub proof fn lemma_changed_command_names_both(old_command: String, new_command: String)
    ensures
        exists|before: Seq<char>, between: Seq<char>, after: Seq<char>| #[trigger]
            (before + debug_quoted(old_command@) + between + debug_quoted(new_command@) + after)
                == requester_text(Requester::ChangedCommand { old_command, new_command }),
{
    let before = "publisher (changed policy: "@;
    let between = " -> "@;
    let after = ")"@;
    assert((before + debug_quoted(old_command@) + between + debug_quoted(new_command@) + after)
        == requester_text(Requester::ChangedCommand { old_command, new_command }));
}

} // verus!
