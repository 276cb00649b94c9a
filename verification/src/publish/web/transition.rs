//! Changing the state of a merge proposal by hand.
use crate::text::{opt_text, str_eq};
use crate::urls::{normal_form, normalize_url, parsed_url};
use vstd::prelude::*;

verus! {

/// Whether a state means that a proposal is no longer open.
pub open spec fn is_closed_status(status: Seq<char>) -> bool {
    status == "closed"@ || status == "abandoned"@ || status == "rejected"@ || status == "applied"@
}

/// What a change of state takes.
#[derive(Clone, Copy, Debug, PartialEq, Eq, Structural)]
pub enum MpStatusTransition {
    /// The proposal is closed already: only the record changes.
    NoOpUpdate,
    /// The proposal is to be closed on the forge.
    CloseOnForge,
    /// We do not know how to do that.
    Forbidden,
}

/// What a change of state takes.
pub open spec fn transition(current: Seq<char>, new: Seq<char>) -> MpStatusTransition {
    if is_closed_status(current) && is_closed_status(new) {
        MpStatusTransition::NoOpUpdate
    } else if current == "open"@ && is_closed_status(new) {
        MpStatusTransition::CloseOnForge
    } else {
        MpStatusTransition::Forbidden
    }
}

/// Whether a state means that a proposal is no longer open.
fn is_closed(status: &str) -> (r: bool)
    ensures
        r == is_closed_status(status@),
{
    str_eq(status, "closed") || str_eq(status, "abandoned") || str_eq(status, "rejected") || str_eq(
        status,
        "applied",
    )
}

/// What a change of state takes.
#[must_use]
pub fn classify_mp_status_transition(current_status: &str, new_status: &str) -> (r:
    MpStatusTransition)
    ensures
        r == transition(current_status@, new_status@),
{
    let current_closed = is_closed(current_status);
    let new_closed = is_closed(new_status);
    if current_closed && new_closed {
        MpStatusTransition::NoOpUpdate
    } else if str_eq(current_status, "open") && new_closed {
        MpStatusTransition::CloseOnForge
    } else {
        MpStatusTransition::Forbidden
    }
}

/// How an attempt to open a proposal on its forge ended.
#[derive(Clone, Copy, Debug, PartialEq, Eq, Structural)]
pub enum ForgeOpen {
    /// It is open.
    Opened,
    /// It could not be opened.
    Failed,
    /// The attempt was cut off.
    CutOff,
}

/// How an attempt to close a proposal on its forge ended.
#[derive(Debug)]
pub enum ForgeClose {
    /// It is closed.
    Closed,
    /// The forge did not let us; holds what it said.
    PermissionDenied(String),
    /// It could not be closed.
    Failed,
    /// The attempt was cut off.
    CutOff,
}

/// How a request to change the state ended.
#[derive(Debug)]
pub enum UpdateEnd {
    /// The database failed.
    DatabaseError,
    /// There is no such proposal.
    NoSuchProposal,
    /// We do not know how to do that.
    NoTransition {
        /// State of the proposal.
        from: String,
        /// State that was asked for.
        to: String,
    },
    /// The proposal's URL is none.
    InvalidUrl,
    /// The proposal could not be opened.
    CannotOpen,
    /// Work on the forge was cut off.
    CutOff,
    /// The forge did not let us close the proposal.
    PermissionDenied(String),
    /// The proposal could not be closed.
    CannotClose,
    /// The state is changed.
    Updated,
}

/// What an answer says about a request that failed.
pub open spec fn update_message(end: UpdateEnd) -> Seq<char> {
    match end {
        UpdateEnd::DatabaseError => "Database error"@,
        UpdateEnd::NoSuchProposal => "No such merge proposal"@,
        UpdateEnd::NoTransition { from, to } => "no transition from "@ + from@ + " to "@ + to@,
        UpdateEnd::InvalidUrl => "Invalid merge proposal URL"@,
        UpdateEnd::CannotOpen => "Failed to open merge proposal"@,
        UpdateEnd::CutOff => "Task join error"@,
        UpdateEnd::PermissionDenied(said) => "Permission denied closing merge request: "@ + said@,
        UpdateEnd::CannotClose => "Failed to close merge request"@,
        UpdateEnd::Updated => "success"@,
    }
}

impl UpdateEnd {
    /// The status of the answer.
    pub fn http_status(&self) -> (r: u16)
        ensures
            r == (match *self {
                UpdateEnd::NoSuchProposal => 404u16,
                UpdateEnd::NoTransition { from, to } => 400u16,
                UpdateEnd::InvalidUrl => 400u16,
                UpdateEnd::PermissionDenied(_) => 403u16,
                UpdateEnd::Updated => 200u16,
                _ => 500u16,
            }),
    {
        match self {
            UpdateEnd::NoSuchProposal => 404,
            UpdateEnd::NoTransition { .. } => 400,
            UpdateEnd::InvalidUrl => 400,
            UpdateEnd::PermissionDenied(_) => 403,
            UpdateEnd::Updated => 200,
            _ => 500,
        }
    }

    /// What the answer says.
    pub fn message(&self) -> (r: String)
        ensures
            r@ == update_message(*self),
    {
        match self {
            UpdateEnd::DatabaseError => "Database error".to_owned(),
            UpdateEnd::NoSuchProposal => "No such merge proposal".to_owned(),
            UpdateEnd::NoTransition { from, to } => "no transition from ".to_owned().concat(
                from.as_str(),
            ).concat(" to ").concat(to.as_str()),
            UpdateEnd::InvalidUrl => "Invalid merge proposal URL".to_owned(),
            UpdateEnd::CannotOpen => "Failed to open merge proposal".to_owned(),
            UpdateEnd::CutOff => "Task join error".to_owned(),
            UpdateEnd::PermissionDenied(
                said,
            ) => "Permission denied closing merge request: ".to_owned().concat(said.as_str()),
            UpdateEnd::CannotClose => "Failed to close merge request".to_owned(),
            UpdateEnd::Updated => "success".to_owned(),
        }
    }
}

/// What is known in the course of a request.
#[derive(Debug)]
pub struct ProposalRequest {
    /// The proposal.
    pub url: String,
    /// State that is asked for.
    pub status: String,
    /// What to tell the proposal.
    pub comment: Option<String>,
    /// Normal form of the URL, where it is a URL.
    pub forge_url: Option<String>,
    /// Whether the database failed.
    pub database_failed: bool,
    /// Answer to [`UpdateStep::LoadStatus`].
    pub current: Option<Option<String>>,
    /// Answer to [`UpdateStep::Open`].
    pub opened: Option<ForgeOpen>,
    /// Answer to [`UpdateStep::PostComment`]: whether the attempt was not cut
    /// off.
    pub commented: Option<bool>,
    /// Answer to [`UpdateStep::Close`].
    pub closed: Option<ForgeClose>,
    /// Whether the new state is on record.
    pub stored: bool,
}

/// What to find out or to do next.
#[derive(Debug)]
pub enum UpdateStep {
    /// Find the state on record.
    LoadStatus,
    /// Open the proposal on its forge.
    Open {
        /// Where it is.
        url: String,
    },
    /// Post a comment. A comment that the forge turns down is no reason to stop.
    PostComment {
        /// The comment.
        comment: String,
    },
    /// Close the proposal on its forge.
    Close,
    /// Put the new state on record.
    Store,
    /// Nothing: this is how it ended.
    Done(UpdateEnd),
}

/// The steps on the forge, and after them those of the record.
pub open spec fn forge_steps(f: ProposalRequest) -> UpdateStep {
    match (f.forge_url, f.opened) {
        (None, _) => UpdateStep::Done(UpdateEnd::InvalidUrl),
        (Some(url), None) => UpdateStep::Open { url },
        (_, Some(ForgeOpen::Failed)) => UpdateStep::Done(UpdateEnd::CannotOpen),
        (_, Some(ForgeOpen::CutOff)) => UpdateStep::Done(UpdateEnd::CutOff),
        (_, Some(ForgeOpen::Opened)) => if f.comment is Some && f.commented is None {
            UpdateStep::PostComment { comment: f.comment->0 }
        } else if f.comment is Some && f.commented == Some(false) {
            UpdateStep::Done(UpdateEnd::CutOff)
        } else {
            match f.closed {
                None => UpdateStep::Close,
                Some(ForgeClose::Closed) => record_steps(f),
                Some(ForgeClose::PermissionDenied(said)) => UpdateStep::Done(
                    UpdateEnd::PermissionDenied(said),
                ),
                Some(ForgeClose::Failed) => UpdateStep::Done(UpdateEnd::CannotClose),
                Some(ForgeClose::CutOff) => UpdateStep::Done(UpdateEnd::CutOff),
            }
        },
    }
}

/// The steps of the record.
pub open spec fn record_steps(f: ProposalRequest) -> UpdateStep {
    if f.stored {
        UpdateStep::Done(UpdateEnd::Updated)
    } else {
        UpdateStep::Store
    }
}

/// The next step of a request.
pub open spec fn update_next(f: ProposalRequest) -> UpdateStep {
    if f.database_failed {
        UpdateStep::Done(UpdateEnd::DatabaseError)
    } else {
        match f.current {
            None => UpdateStep::LoadStatus,
            Some(None) => UpdateStep::Done(UpdateEnd::NoSuchProposal),
            Some(Some(current)) => match transition(current@, f.status@) {
                MpStatusTransition::Forbidden => UpdateStep::Done(
                    UpdateEnd::NoTransition { from: current, to: f.status },
                ),
                MpStatusTransition::NoOpUpdate => record_steps(f),
                MpStatusTransition::CloseOnForge => forge_steps(f),
            },
        }
    }
}

/// Starts a request.
pub fn update_merge_proposal(url: String, status: String, comment: Option<String>) -> (r:
    ProposalRequest)
    ensures
        r == (ProposalRequest {
            url,
            status,
            comment,
            forge_url: r.forge_url,
            database_failed: false,
            current: None,
            opened: None,
            commented: None,
            closed: None,
            stored: false,
        }),
        opt_text(r.forge_url) == normal_form(parsed_url(url@)),
{
    let forge_url = normalize_url(url.as_str());
    ProposalRequest {
        url,
        status,
        comment,
        forge_url,
        database_failed: false,
        current: None,
        opened: None,
        commented: None,
        closed: None,
        stored: false,
    }
}

impl ProposalRequest {
    /// The steps of the record.
    fn record_next(&self) -> (r: UpdateStep)
        ensures
            r == record_steps(*self),
    {
        if self.stored {
            UpdateStep::Done(UpdateEnd::Updated)
        } else {
            UpdateStep::Store
        }
    }

    /// The steps on the forge, and after them those of the record.
    fn forge_next(&self) -> (r: UpdateStep)
        ensures
            r == forge_steps(*self),
    {
        let url = match &self.forge_url {
            None => {
                return UpdateStep::Done(UpdateEnd::InvalidUrl);
            },
            Some(url) => url,
        };
        match self.opened {
            None => {
                return UpdateStep::Open { url: url.clone() };
            },
            Some(ForgeOpen::Failed) => {
                return UpdateStep::Done(UpdateEnd::CannotOpen);
            },
            Some(ForgeOpen::CutOff) => {
                return UpdateStep::Done(UpdateEnd::CutOff);
            },
            Some(ForgeOpen::Opened) => {},
        }
        if let Some(comment) = &self.comment {
            match self.commented {
                None => {
                    return UpdateStep::PostComment { comment: comment.clone() };
                },
                Some(false) => {
                    return UpdateStep::Done(UpdateEnd::CutOff);
                },
                Some(true) => {},
            }
        }
        match &self.closed {
            None => UpdateStep::Close,
            Some(ForgeClose::Closed) => self.record_next(),
            Some(ForgeClose::PermissionDenied(said)) => UpdateStep::Done(
                UpdateEnd::PermissionDenied(said.clone()),
            ),
            Some(ForgeClose::Failed) => UpdateStep::Done(UpdateEnd::CannotClose),
            Some(ForgeClose::CutOff) => UpdateStep::Done(UpdateEnd::CutOff),
        }
    }

    /// What to find out or to do next.
    pub fn next(&self) -> (r: UpdateStep)
        ensures
            r == update_next(*self),
    {
        if self.database_failed {
            return UpdateStep::Done(UpdateEnd::DatabaseError);
        }
        match &self.current {
            None => UpdateStep::LoadStatus,
            Some(None) => UpdateStep::Done(UpdateEnd::NoSuchProposal),
            Some(Some(current)) => match classify_mp_status_transition(
                current.as_str(),
                self.status.as_str(),
            ) {
                MpStatusTransition::Forbidden => UpdateStep::Done(
                    UpdateEnd::NoTransition { from: current.clone(), to: self.status.clone() },
                ),
                MpStatusTransition::NoOpUpdate => self.record_next(),
                MpStatusTransition::CloseOnForge => self.forge_next(),
            },
        }
    }

    /// Notes down that the database failed.
    pub fn note_database_error(&mut self)
        ensures
            *final(self) == (ProposalRequest { database_failed: true, ..*old(self) }),
    {
        self.database_failed = true;
    }

    /// Notes down the state on record.
    pub fn note_status(&mut self, current: Option<String>)
        ensures
            *final(self) == (ProposalRequest { current: Some(current), ..*old(self) }),
    {
        self.current = Some(current);
    }

    /// Notes down how the attempt to open the proposal ended.
    pub fn note_opened(&mut self, opened: ForgeOpen)
        ensures
            *final(self) == (ProposalRequest { opened: Some(opened), ..*old(self) }),
    {
        self.opened = Some(opened);
    }

    /// Notes down whether the attempt to post the comment was not cut off.
    pub fn note_commented(&mut self, commented: bool)
        ensures
            *final(self) == (ProposalRequest { commented: Some(commented), ..*old(self) }),
    {
        self.commented = Some(commented);
    }

    /// Notes down how the attempt to close the proposal ended.
    pub fn note_closed(&mut self, closed: ForgeClose)
        ensures
            *final(self) == (ProposalRequest { closed: Some(closed), ..*old(self) }),
    {
        self.closed = Some(closed);
    }

    /// Notes down that the new state is on record.
    pub fn note_stored(&mut self)
        ensures
            *final(self) == (ProposalRequest { stored: true, ..*old(self) }),
    {
        self.stored = true;
    }
}

/// A closed proposal is never opened again, and an open one is on record as
/// closed only after the forge closed it.
pub proof fn lemma_record_follows_forge(f: ProposalRequest)
    requires
        update_next(f) is Store || update_next(f) == UpdateStep::Done(UpdateEnd::Updated),
    ensures
        is_closed_status(f.status@),
        f.current is Some && f.current->0 is Some,
        f.current->0->0@ == "open"@ ==> f.closed is Some && f.closed->0 is Closed,
        update_next(f) == UpdateStep::Done(UpdateEnd::Updated) ==> f.stored,
{
    reveal_strlit("open");
    reveal_strlit("closed");
    reveal_strlit("abandoned");
    reveal_strlit("rejected");
    reveal_strlit("applied");
    assert("open"@.len() == 4 && "closed"@.len() == 6 && "abandoned"@.len() == 9);
    assert("rejected"@.len() == 8 && "applied"@.len() == 7);
}

/// A proposal is closed on the forge only where it is open, a closed one can only be
/// marked otherwise, and none can be reopened or marked as merged.
pub proof fn lemma_only_open_proposals_are_closed(current: Seq<char>, new: Seq<char>)
    ensures
        transition(current, new) == MpStatusTransition::CloseOnForge ==> current == "open"@,
        transition(current, "open"@) == MpStatusTransition::Forbidden,
        transition(current, "merged"@) == MpStatusTransition::Forbidden,
        transition("merged"@, new) == MpStatusTransition::Forbidden,
        new == "closed"@ || new == "abandoned"@ || new == "rejected"@ || new == "applied"@ ==> {
            &&& transition("open"@, new) == MpStatusTransition::CloseOnForge
            &&& transition("closed"@, new) == MpStatusTransition::NoOpUpdate
            &&& transition("abandoned"@, new) == MpStatusTransition::NoOpUpdate
            &&& transition("rejected"@, new) == MpStatusTransition::NoOpUpdate
            &&& transition("applied"@, new) == MpStatusTransition::NoOpUpdate
        },
        transition(current, new) == MpStatusTransition::NoOpUpdate ==> {
            ||| current == "closed"@
            ||| current == "abandoned"@
            ||| current == "rejected"@
            ||| current == "applied"@
        },
        transition(current, new) != MpStatusTransition::Forbidden ==> {
            ||| new == "closed"@
            ||| new == "abandoned"@
            ||| new == "rejected"@
            ||| new == "applied"@
        },
{
    reveal_strlit("open");
    reveal_strlit("merged");
    reveal_strlit("closed");
    reveal_strlit("abandoned");
    reveal_strlit("rejected");
    reveal_strlit("applied");
    assert("open"@.len() == 4 && "closed"@.len() == 6 && "abandoned"@.len() == 9);
    assert("rejected"@.len() == 8 && "applied"@.len() == 7 && "merged"@.len() == 6);
    assert("merged"@[0] == 'm' && "closed"@[0] == 'c');
}

/// Each step of a change has its cause: the forge is spoken to only for an open
/// proposal, the comment is posted before the proposal is closed, and what failed is
/// answered as what it was.
pub proof fn lemma_change_steps_have_their_cause(f: ProposalRequest)
    ensures
        update_next(f) is LoadStatus <==> !f.database_failed && f.current is None,
        update_next(f) matches UpdateStep::Open { url } ==> f.forge_url == Some(url)
            && f.opened is None,
        update_next(f) matches UpdateStep::PostComment { comment } ==> f.comment == Some(comment)
            && f.opened == Some(ForgeOpen::Opened) && f.commented is None,
        update_next(f) is Close ==> f.opened == Some(ForgeOpen::Opened) && f.closed is None && (
        f.comment is Some ==> f.commented == Some(true)),
        update_next(f) is Open || update_next(f) is PostComment || update_next(f) is Close ==> {
            &&& !f.database_failed
            &&& f.current is Some && f.current->0 is Some
            &&& f.current->0->0@ == "open"@
        },
        update_next(f) is Store ==> !f.stored && !f.database_failed,
        update_next(f) == UpdateStep::Done(UpdateEnd::DatabaseError) <==> f.database_failed,
        update_next(f) == UpdateStep::Done(UpdateEnd::NoSuchProposal) ==> f.current is Some
            && f.current->0 is None,
        update_next(f) matches UpdateStep::Done(UpdateEnd::NoTransition { from, to }) ==> f.current
            == Some(Some(from)) && to == f.status,
        update_next(f) == UpdateStep::Done(UpdateEnd::InvalidUrl) ==> f.forge_url is None,
        update_next(f) == UpdateStep::Done(UpdateEnd::CannotOpen) ==> f.opened == Some(
            ForgeOpen::Failed,
        ),
        update_next(f) matches UpdateStep::Done(UpdateEnd::PermissionDenied(said)) ==> f.closed
            == Some(ForgeClose::PermissionDenied(said)),
        update_next(f) == UpdateStep::Done(UpdateEnd::CannotClose) ==> f.closed == Some(
            ForgeClose::Failed,
        ),
        update_next(f) == UpdateStep::Done(UpdateEnd::CutOff) ==> {
            ||| f.opened == Some(ForgeOpen::CutOff)
            ||| f.comment is Some && f.commented == Some(false)
            ||| f.closed == Some(ForgeClose::CutOff)
        },
{
    if let Some(commented) = f.commented {
        assert(f.commented == Some(true) || f.commented == Some(false)) by {
            assert(commented == true || commented == false);
        }
    }
}

/// A change that is allowed and that the forge carries out is stored and then
/// answered as done.
pub proof fn lemma_allowed_change_is_stored(f: ProposalRequest)
    requires
        !f.database_failed,
        f.current is Some && f.current->0 is Some,
        transition(f.current->0->0@, f.status@) != MpStatusTransition::Forbidden,
        f.current->0->0@ == "open"@ ==> {
            &&& f.forge_url is Some
            &&& f.opened == Some(ForgeOpen::Opened)
            &&& f.comment is Some ==> f.commented == Some(true)
            &&& f.closed == Some(ForgeClose::Closed)
        },
    ensures
        !f.stored ==> update_next(f) is Store,
        f.stored ==> update_next(f) == UpdateStep::Done(UpdateEnd::Updated),
{
    lemma_only_open_proposals_are_closed(f.current->0->0@, f.status@);
}

/// A refused change is answered with both statuses, and only a change that was made
/// is answered as a success.
pub proof fn lemma_answers_tell_apart(end: UpdateEnd)
    ensures
        update_message(end) == "success"@ ==> end is Updated,
        end is Updated ==> update_message(end) == "success"@,
        end matches UpdateEnd::PermissionDenied(said) ==> said@.is_suffix_of(update_message(end)),
        end matches UpdateEnd::NoTransition { from, to } ==> to@.is_suffix_of(update_message(end))
            && update_message(end) == "no transition from "@ + from@ + " to "@ + to@,
{
    reveal_strlit("success");
    reveal_strlit("Database error");
    reveal_strlit("No such merge proposal");
    reveal_strlit("no transition from ");
    reveal_strlit("Invalid merge proposal URL");
    reveal_strlit("Failed to open merge proposal");
    reveal_strlit("Task join error");
    reveal_strlit("Permission denied closing merge request: ");
    reveal_strlit("Failed to close merge request");
    let text = update_message(end);
    assert("success"@[0] == 's');
    assert(!(end is Updated) ==> text[0] != 's' && text.len() > 0);
    match end {
        UpdateEnd::PermissionDenied(said) => {
            assert(text.subrange(text.len() - said@.len(), text.len() as int) =~= said@);
        },
        UpdateEnd::NoTransition { from, to } => {
            assert(text.subrange(text.len() - to@.len(), text.len() as int) =~= to@);
        },
        _ => {},
    }
}

} // verus!
