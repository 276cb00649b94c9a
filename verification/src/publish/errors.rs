//! What can go wrong while publishing, and how it is reported.
use crate::time::TimeDelta;
use vstd::prelude::*;

verus! {

/// Why a debdiff could not be had.
#[derive(Debug)]
pub enum DebdiffError {
    /// The request failed; holds the rendered transport error.
    Http(String),
    /// The differ does not know the run.
    MissingRun(String),
    /// There is no unchanged run to compare against yet. No request was made.
    NoUnchangedRun,
    /// The differ cannot serve the debdiff.
    Unavailable(String),
}

/// The message of a debdiff error.
pub open spec fn debdiff_error_text(e: DebdiffError) -> Seq<char> {
    match e {
        DebdiffError::Http(e) => "HTTP error: "@ + e@,
        DebdiffError::MissingRun(e) => "Missing run: "@ + e@,
        DebdiffError::NoUnchangedRun => "No unchanged run to compare against yet"@,
        DebdiffError::Unavailable(e) => "Unavailable: "@ + e@,
    }
}

impl DebdiffError {
    /// The message of this error.
    pub fn to_text(&self) -> (r: String)
        ensures
            r@ == debdiff_error_text(*self),
    {
        match self {
            DebdiffError::Http(e) => "HTTP error: ".to_owned().concat(e.as_str()),
            DebdiffError::MissingRun(e) => "Missing run: ".to_owned().concat(e.as_str()),
            DebdiffError::NoUnchangedRun => "No unchanged run to compare against yet".to_owned(),
            DebdiffError::Unavailable(e) => "Unavailable: ".to_owned().concat(e.as_str()),
        }
    }
}

/// Why a publish did not happen.
#[derive(Debug)]
pub enum PublishError {
    /// The worker gave a code and a description.
    Failure {
        /// Which kind of failure.
        code: String,
        /// What happened.
        description: String,
    },
    /// There was nothing to publish.
    NothingToDo(String),
    /// Another publish holds the branch with this URL.
    BranchBusy(String),
    /// The forge did not accept our credentials.
    AuthenticationFailed,
    /// The network failed.
    NetworkError(String),
    /// The database failed; holds the rendered error.
    DatabaseError(String),
    /// A service is down for now.
    ServiceUnavailable(String),
}

impl Clone for PublishError {
    fn clone(&self) -> (r: PublishError)
        ensures
            r == *self,
    {
        match self {
            PublishError::Failure { code, description } => PublishError::Failure {
                code: code.clone(),
                description: description.clone(),
            },
            PublishError::NothingToDo(text) => PublishError::NothingToDo(text.clone()),
            PublishError::BranchBusy(url) => PublishError::BranchBusy(url.clone()),
            PublishError::AuthenticationFailed => PublishError::AuthenticationFailed,
            PublishError::NetworkError(text) => PublishError::NetworkError(text.clone()),
            PublishError::DatabaseError(text) => PublishError::DatabaseError(text.clone()),
            PublishError::ServiceUnavailable(text) => PublishError::ServiceUnavailable(
                text.clone(),
            ),
        }
    }
}

/// The code of a publish error.
pub open spec fn publish_error_code(e: PublishError) -> Seq<char> {
    match e {
        PublishError::Failure { code, description } => code@,
        PublishError::NothingToDo(_) => "nothing-to-do"@,
        PublishError::BranchBusy(_) => "branch-busy"@,
        PublishError::AuthenticationFailed => "authentication-failed"@,
        PublishError::NetworkError(_) => "network-error"@,
        PublishError::DatabaseError(_) => "database-error"@,
        PublishError::ServiceUnavailable(_) => "service-unavailable"@,
    }
}

/// The short description of a publish error.
pub open spec fn publish_error_description(e: PublishError) -> Seq<char> {
    match e {
        PublishError::Failure { code, description } => description@,
        PublishError::NothingToDo(description) => description@,
        PublishError::BranchBusy(_) => "Branch is busy"@,
        PublishError::AuthenticationFailed => "Authentication failed"@,
        PublishError::NetworkError(msg) => msg@,
        PublishError::DatabaseError(_) => "Database error"@,
        PublishError::ServiceUnavailable(msg) => msg@,
    }
}

/// The description of a publish error as clients get it: the short one, with the
/// branch or the database's own words where there are any.
pub open spec fn publish_error_detail(e: PublishError) -> Seq<char> {
    match e {
        PublishError::BranchBusy(url) => "Branch is busy: "@ + url@,
        PublishError::DatabaseError(text) => text@,
        _ => publish_error_description(e),
    }
}

/// The message of a publish error.
pub open spec fn publish_error_text(e: PublishError) -> Seq<char> {
    match e {
        PublishError::Failure { code, description } => "PublishError::Failure: "@ + code@ + ": "@
            + description@,
        PublishError::NothingToDo(_) => "PublishError::PublishNothingToDo: "@
            + publish_error_detail(e),
        PublishError::BranchBusy(_) => "PublishError::BranchBusy: "@ + publish_error_detail(e),
        PublishError::AuthenticationFailed => "PublishError::AuthenticationFailed: "@
            + publish_error_detail(e),
        PublishError::NetworkError(_) => "PublishError::NetworkError: "@ + publish_error_detail(e),
        PublishError::DatabaseError(_) => "PublishError::DatabaseError: "@ + publish_error_detail(
            e,
        ),
        PublishError::ServiceUnavailable(_) => "PublishError::ServiceUnavailable: "@
            + publish_error_detail(e),
    }
}

impl PublishError {
    /// The code of this error.
    pub fn code(&self) -> (r: &str)
        ensures
            r@ == publish_error_code(*self),
    {
        match self {
            PublishError::Failure { code, description } => code.as_str(),
            PublishError::NothingToDo(_) => "nothing-to-do",
            PublishError::BranchBusy(_) => "branch-busy",
            PublishError::AuthenticationFailed => "authentication-failed",
            PublishError::NetworkError(_) => "network-error",
            PublishError::DatabaseError(_) => "database-error",
            PublishError::ServiceUnavailable(_) => "service-unavailable",
        }
    }

    /// The short description of this error.
    pub fn description(&self) -> (r: &str)
        ensures
            r@ == publish_error_description(*self),
    {
        match self {
            PublishError::Failure { code, description } => description.as_str(),
            PublishError::NothingToDo(description) => description.as_str(),
            PublishError::BranchBusy(_) => "Branch is busy",
            PublishError::AuthenticationFailed => "Authentication failed",
            PublishError::NetworkError(msg) => msg.as_str(),
            PublishError::DatabaseError(_) => "Database error",
            PublishError::ServiceUnavailable(msg) => msg.as_str(),
        }
    }

    /// The description of this error as clients get it.
    pub fn detail(&self) -> (r: String)
        ensures
            r@ == publish_error_detail(*self),
    {
        match self {
            PublishError::BranchBusy(url) => "Branch is busy: ".to_owned().concat(url.as_str()),
            PublishError::DatabaseError(text) => text.clone(),
            _ => self.description().to_owned(),
        }
    }

    /// The code and the description that are sent to clients.
    pub fn to_fields(&self) -> (r: PublishOneError)
        ensures
            r.code@ == publish_error_code(*self),
            r.description@ == publish_error_detail(*self),
    {
        PublishOneError { code: self.code().to_owned(), description: self.detail() }
    }

    /// The message of this error.
    pub fn to_text(&self) -> (r: String)
        ensures
            r@ == publish_error_text(*self),
    {
        let detail = self.detail();
        match self {
            PublishError::Failure { code, description } => "PublishError::Failure: ".to_owned().concat(
                code.as_str(),
            ).concat(": ").concat(description.as_str()),
            PublishError::NothingToDo(_) => "PublishError::PublishNothingToDo: ".to_owned().concat(
                detail.as_str(),
            ),
            PublishError::BranchBusy(_) => "PublishError::BranchBusy: ".to_owned().concat(
                detail.as_str(),
            ),
            PublishError::AuthenticationFailed => "PublishError::AuthenticationFailed: ".to_owned().concat(
            detail.as_str()),
            PublishError::NetworkError(_) => "PublishError::NetworkError: ".to_owned().concat(
                detail.as_str(),
            ),
            PublishError::DatabaseError(_) => "PublishError::DatabaseError: ".to_owned().concat(
                detail.as_str(),
            ),
            PublishError::ServiceUnavailable(_) => "PublishError::ServiceUnavailable: ".to_owned().concat(
            detail.as_str()),
        }
    }
}

/// The failure that a publish worker reports.
#[derive(Debug)]
pub struct PublishOneError {
    /// Which kind of failure.
    pub code: String,
    /// What happened.
    pub description: String,
}

/// Why the answer of a publish worker cannot be used.
#[derive(Debug)]
pub enum WorkerInvalidResponse {
    /// The worker could not be run or talked to.
    Io(String),
    /// Its answer could not be read.
    Serde(String),
    /// It ended abnormally; holds what it wrote to standard error.
    WorkerError(String),
}

/// The message of an unusable worker answer.
pub open spec fn worker_invalid_response_text(e: WorkerInvalidResponse) -> Seq<char> {
    match e {
        WorkerInvalidResponse::Io(e) => "IO error: "@ + e@,
        WorkerInvalidResponse::Serde(e) => "Serde error: "@ + e@,
        WorkerInvalidResponse::WorkerError(e) => "Worker error: "@ + e@,
    }
}

impl WorkerInvalidResponse {
    /// The message of this error.
    pub fn to_text(&self) -> (r: String)
        ensures
            r@ == worker_invalid_response_text(*self),
    {
        match self {
            WorkerInvalidResponse::Io(e) => "IO error: ".to_owned().concat(e.as_str()),
            WorkerInvalidResponse::Serde(e) => "Serde error: ".to_owned().concat(e.as_str()),
            WorkerInvalidResponse::WorkerError(e) => "Worker error: ".to_owned().concat(e.as_str()),
        }
    }
}

/// Why an existing merge proposal could not be checked.
#[derive(Debug)]
pub enum CheckMpError {
    /// No run is known for the proposal with this URL.
    NoRunForMergeProposal(String),
    /// The forge wants us to slow down.
    BranchRateLimited {
        /// How long to wait, if the forge said so.
        retry_after: Option<TimeDelta>,
    },
    /// The forge answered with a status that we did not expect.
    UnexpectedHttpStatus,
    /// The forge wants a login that we do not have.
    ForgeLoginRequired,
    /// The database failed; holds the rendered error.
    Database(String),
    /// The forge failed in another way; holds the rendered error.
    Brz(String),
}

/// A failure of a forge, as far as the publisher tells them apart.
#[derive(Debug)]
pub enum ForgeError {
    /// The forge answered with a status that we did not expect.
    UnexpectedHttpStatus,
    /// The forge wants a login that we do not have.
    LoginRequired,
    /// Any other failure, rendered.
    Other(String),
}

impl CheckMpError {
    /// What a failure of the forge means for the check of a proposal.
    pub fn from_forge(e: ForgeError) -> (r: CheckMpError)
        ensures
            r == (match e {
                ForgeError::UnexpectedHttpStatus => CheckMpError::UnexpectedHttpStatus,
                ForgeError::LoginRequired => CheckMpError::ForgeLoginRequired,
                ForgeError::Other(text) => CheckMpError::Brz(text),
            }),
    {
        match e {
            ForgeError::UnexpectedHttpStatus => CheckMpError::UnexpectedHttpStatus,
            ForgeError::LoginRequired => CheckMpError::ForgeLoginRequired,
            ForgeError::Other(text) => CheckMpError::Brz(text),
        }
    }
}

/// The message of a failed check.
pub open spec fn check_mp_error_text(e: CheckMpError) -> Seq<char> {
    match e {
        CheckMpError::NoRunForMergeProposal(url) => "No run for merge proposal: "@ + url@,
        CheckMpError::BranchRateLimited { retry_after } => "Branch is rate limited"@,
        CheckMpError::UnexpectedHttpStatus => "Unexpected HTTP status"@,
        CheckMpError::ForgeLoginRequired => "Forge login required"@,
        CheckMpError::Database(e) => "Database error: "@ + e@,
        CheckMpError::Brz(e) => "Forge error: "@ + e@,
    }
}

impl CheckMpError {
    /// The message of this error.
    pub fn to_text(&self) -> (r: String)
        ensures
            r@ == check_mp_error_text(*self),
    {
        match self {
            CheckMpError::NoRunForMergeProposal(url) => "No run for merge proposal: ".to_owned().concat(
                url.as_str(),
            ),
            CheckMpError::BranchRateLimited { retry_after } => "Branch is rate limited".to_owned(),
            CheckMpError::UnexpectedHttpStatus => "Unexpected HTTP status".to_owned(),
            CheckMpError::ForgeLoginRequired => "Forge login required".to_owned(),
            CheckMpError::Database(e) => "Database error: ".to_owned().concat(e.as_str()),
            CheckMpError::Brz(e) => "Forge error: ".to_owned().concat(e.as_str()),
        }
    }
}

/// An error that was given its own code and words keeps them; every other kind goes
/// by a code of its own, and none of these is that of a success.
pub proof fn lemma_errors_are_told_apart(e: PublishError, other: PublishError)
    ensures
        e matches PublishError::Failure { code, description } ==> publish_error_code(e) == code@
            && publish_error_description(e) == description@ && publish_error_detail(e)
            == description@,
        e matches PublishError::NothingToDo(text) ==> publish_error_description(e) == text@,
        e matches PublishError::NetworkError(text) ==> publish_error_description(e) == text@,
        e matches PublishError::ServiceUnavailable(text) ==> publish_error_description(e) == text@,
        e matches PublishError::DatabaseError(text) ==> publish_error_detail(e) == text@,
        e matches PublishError::BranchBusy(url) ==> url@.is_suffix_of(publish_error_detail(e)),
        !(e is Failure) ==> publish_error_code(e) != "success"@,
        !(e is Failure) && !(other is Failure) && publish_error_code(e) == publish_error_code(other)
            ==> {
            &&& e is NothingToDo == other is NothingToDo
            &&& e is BranchBusy == other is BranchBusy
            &&& e is AuthenticationFailed == other is AuthenticationFailed
            &&& e is NetworkError == other is NetworkError
            &&& e is DatabaseError == other is DatabaseError
            &&& e is ServiceUnavailable == other is ServiceUnavailable
        },
        e is NothingToDo ==> publish_error_code(e) == "nothing-to-do"@,
        e is BranchBusy ==> publish_error_code(e) == "branch-busy"@,
{
    reveal_strlit("success");
    reveal_strlit("nothing-to-do");
    reveal_strlit("branch-busy");
    reveal_strlit("authentication-failed");
    reveal_strlit("network-error");
    reveal_strlit("database-error");
    reveal_strlit("service-unavailable");
    assert("success"@.len() == 7 && "nothing-to-do"@.len() == 13 && "branch-busy"@.len() == 11);
    assert("authentication-failed"@.len() == 21 && "network-error"@.len() == 13);
    assert("database-error"@.len() == 14 && "service-unavailable"@.len() == 19);
    assert("nothing-to-do"@[1] == 'o' && "network-error"@[1] == 'e');
    if let PublishError::BranchBusy(url) = e {
        let text = publish_error_detail(e);
        assert(text.subrange(text.len() - url@.len(), text.len() as int) =~= url@);
    }
}

/// What an error says of itself is in its text.
pub proof fn lemma_texts_carry_what_was_said(
    e: PublishError,
    worker: WorkerInvalidResponse,
    debdiff: DebdiffError,
    check: CheckMpError,
)
    ensures
        publish_error_detail(e).is_suffix_of(publish_error_text(e)),
        match worker {
            WorkerInvalidResponse::Io(said) => said@,
            WorkerInvalidResponse::Serde(said) => said@,
            WorkerInvalidResponse::WorkerError(said) => said@,
        }.is_suffix_of(worker_invalid_response_text(worker)),
        match debdiff {
            DebdiffError::Http(said) => said@,
            DebdiffError::MissingRun(said) => said@,
            DebdiffError::NoUnchangedRun => Seq::empty(),
            DebdiffError::Unavailable(said) => said@,
        }.is_suffix_of(debdiff_error_text(debdiff)),
        match check {
            CheckMpError::NoRunForMergeProposal(url) => url@,
            CheckMpError::Database(said) => said@,
            CheckMpError::Brz(said) => said@,
            _ => Seq::empty(),
        }.is_suffix_of(check_mp_error_text(check)),
{
    let detail = publish_error_detail(e);
    let text = publish_error_text(e);
    assert(text.subrange(text.len() - detail.len(), text.len() as int) =~= detail);
    let said = match worker {
        WorkerInvalidResponse::Io(said) => said@,
        WorkerInvalidResponse::Serde(said) => said@,
        WorkerInvalidResponse::WorkerError(said) => said@,
    };
    let text = worker_invalid_response_text(worker);
    assert(text.subrange(text.len() - said.len(), text.len() as int) =~= said);
    let said: Seq<char> = match debdiff {
        DebdiffError::Http(said) => said@,
        DebdiffError::MissingRun(said) => said@,
        DebdiffError::NoUnchangedRun => Seq::empty(),
        DebdiffError::Unavailable(said) => said@,
    };
    let text = debdiff_error_text(debdiff);
    assert(text.subrange(text.len() - said.len(), text.len() as int) =~= said);
    let said: Seq<char> = match check {
        CheckMpError::NoRunForMergeProposal(url) => url@,
        CheckMpError::Database(said) => said@,
        CheckMpError::Brz(said) => said@,
        _ => Seq::empty(),
    };
    let text = check_mp_error_text(check);
    assert(text.subrange(text.len() - said.len(), text.len() as int) =~= said);
}

} // verus!
