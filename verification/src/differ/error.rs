//! What can go wrong in the differ, and what it answers.
use crate::text::{debug_quoted, occurs_in, quote_debug, starts_with};
use vstd::prelude::*;

verus! {

/// What can go wrong with diffoscope.
#[derive(Debug)]
pub enum DiffoscopeError {
    /// It took too long.
    Timeout,
    /// The system failed.
    Io {
        /// The rendered error.
        text: String,
        /// Whether there was not enough memory.
        out_of_memory: bool,
    },
    /// Its output is no JSON of the right form; holds the rendered error.
    Serde(String),
    /// Python failed; holds the rendered error.
    Py(String),
    /// Anything else.
    Other(String),
}

/// A failure of diffoscope in words.
pub open spec fn diffoscope_error_text(e: DiffoscopeError) -> Seq<char> {
    match e {
        DiffoscopeError::Timeout => "diffoscope timed out"@,
        DiffoscopeError::Io { text, out_of_memory } => text@,
        DiffoscopeError::Serde(text) => text@,
        DiffoscopeError::Py(text) => text@,
        DiffoscopeError::Other(text) => text@,
    }
}

impl DiffoscopeError {
    /// This failure in words.
    pub fn to_text(&self) -> (r: String)
        ensures
            r@ == diffoscope_error_text(*self),
    {
        match self {
            DiffoscopeError::Timeout => "diffoscope timed out".to_owned(),
            DiffoscopeError::Io { text, .. } => text.clone(),
            DiffoscopeError::Serde(text) => text.clone(),
            DiffoscopeError::Py(text) => text.clone(),
            DiffoscopeError::Other(text) => text.clone(),
        }
    }
}

/// What can go wrong in the differ.
#[derive(Debug)]
pub enum Error {
    /// There is no such run.
    RunNotFound(String),
    /// The run failed.
    RunNotSuccessful(String),
    /// The run left no packages.
    ArtifactsMissing(String),
    /// It took too long to get the packages of the run.
    ArtifactRetrievalTimeout(String),
    /// The packages of the run could not be got.
    ArtifactRetrievalFailed {
        /// The run.
        run_id: String,
        /// Why.
        reason: String,
    },
    /// A command took too long.
    DiffCommandTimeout(&'static str),
    /// A command needed too much memory.
    DiffCommandMemoryError(&'static str),
    /// A command failed.
    DiffCommandError {
        /// The command.
        command: &'static str,
        /// Why.
        reason: String,
    },
    /// The client takes none of the forms that there are.
    ContentNegotiationFailed {
        /// The forms that there are.
        offered: String,
    },
    /// This is no id of a run.
    InvalidRunId(String),
    /// The database failed.
    Database {
        /// The rendered error.
        text: String,
        /// Whether no connection became free in time.
        pool_timed_out: bool,
        /// The code that the database gave.
        code: Option<String>,
    },
    /// Diffoscope failed.
    Diffoscope(DiffoscopeError),
    /// The store of packages failed; holds the rendered error.
    Artifacts(String),
    /// The system failed; holds the rendered error.
    Io(String),
    /// Something is no JSON of the right form; holds the rendered error.
    Json(String),
}

/// The word for an error.
pub open spec fn error_reason(e: Error) -> Seq<char> {
    match e {
        Error::RunNotFound(_) => "run-not-found"@,
        Error::RunNotSuccessful(_) => "run-not-successful"@,
        Error::ArtifactsMissing(_) => "artifacts-missing"@,
        Error::ArtifactRetrievalTimeout(_) => "artifact-retrieval-timeout"@,
        Error::ArtifactRetrievalFailed { run_id, reason } => "artifact-retrieval-failed"@,
        Error::DiffCommandTimeout(_) => "diff-command-timeout"@,
        Error::DiffCommandMemoryError(_) => "diff-command-memory-error"@,
        Error::DiffCommandError { command, reason } => "diff-command-error"@,
        Error::ContentNegotiationFailed { offered } => "not-acceptable"@,
        Error::InvalidRunId(_) => "invalid-run-id"@,
        Error::Database { text, pool_timed_out, code } => "database-error"@,
        Error::Diffoscope(_) => "diffoscope-error"@,
        Error::Artifacts(_) => "artifact-error"@,
        Error::Io(_) => "internal-error"@,
        Error::Json(_) => "internal-error"@,
    }
}

/// Whether a failure of the database will pass: it is short of resources, or no
/// connection became free.
pub open spec fn database_is_short(pool_timed_out: bool, code: Option<String>) -> bool {
    pool_timed_out || (code is Some && "53"@.is_prefix_of(code->0@))
}

/// The HTTP status for an error.
pub open spec fn error_status(e: Error) -> u16 {
    match e {
        Error::RunNotFound(_) => 404u16,
        Error::RunNotSuccessful(_) => 422u16,
        Error::ArtifactsMissing(_) => 404u16,
        Error::ArtifactRetrievalTimeout(_) => 504u16,
        Error::ArtifactRetrievalFailed { run_id, reason } => 502u16,
        Error::DiffCommandTimeout(_) => 504u16,
        Error::DiffCommandMemoryError(_) => 507u16,
        Error::DiffCommandError { command, reason } => 400u16,
        Error::ContentNegotiationFailed { offered } => 406u16,
        Error::InvalidRunId(_) => 400u16,
        Error::Database { text, pool_timed_out, code } => if database_is_short(
            pool_timed_out,
            code,
        ) {
            503u16
        } else {
            500u16
        },
        Error::Diffoscope(DiffoscopeError::Timeout) => 504u16,
        Error::Diffoscope(DiffoscopeError::Io { text, out_of_memory }) => if out_of_memory {
            507u16
        } else {
            500u16
        },
        Error::Diffoscope(_) => 500u16,
        Error::Artifacts(_) => 502u16,
        Error::Io(_) => 500u16,
        Error::Json(_) => 500u16,
    }
}

/// The run that could not be served, where it is known.
pub open spec fn error_run_id(e: Error) -> Option<Seq<char>> {
    match e {
        Error::RunNotFound(id) => Some(id@),
        Error::RunNotSuccessful(id) => Some(id@),
        Error::ArtifactsMissing(id) => Some(id@),
        Error::ArtifactRetrievalTimeout(id) => Some(id@),
        Error::ArtifactRetrievalFailed { run_id, reason } => Some(run_id@),
        _ => None,
    }
}

/// An error in words.
pub open spec fn error_text(e: Error) -> Seq<char> {
    match e {
        Error::RunNotFound(id) => "run "@ + id@ + " not found"@,
        Error::RunNotSuccessful(id) => "run "@ + id@ + " was not successful"@,
        Error::ArtifactsMissing(id) => "artifacts missing for run "@ + id@,
        Error::ArtifactRetrievalTimeout(id) => "timeout retrieving artifacts for run "@ + id@,
        Error::ArtifactRetrievalFailed { run_id, reason } => "failed to retrieve artifacts for run "@
            + run_id@ + ": "@ + reason@,
        Error::DiffCommandTimeout(command) => "timeout running "@ + command@,
        Error::DiffCommandMemoryError(command) => command@ + " used too much memory"@,
        Error::DiffCommandError { command, reason } => command@ + ": "@ + reason@,
        Error::ContentNegotiationFailed { offered } => "no acceptable content type; offered: "@
            + offered@,
        Error::InvalidRunId(id) => "invalid run id "@ + debug_quoted(id@),
        Error::Database { text, pool_timed_out, code } => "database error: "@ + text@,
        Error::Diffoscope(e) => diffoscope_error_text(e),
        Error::Artifacts(text) => text@,
        Error::Io(text) => text@,
        Error::Json(text) => text@,
    }
}

impl Error {
    /// The word for this error.
    pub fn reason(&self) -> (r: &'static str)
        ensures
            r@ == error_reason(*self),
    {
        match self {
            Error::RunNotFound(_) => "run-not-found",
            Error::RunNotSuccessful(_) => "run-not-successful",
            Error::ArtifactsMissing(_) => "artifacts-missing",
            Error::ArtifactRetrievalTimeout(_) => "artifact-retrieval-timeout",
            Error::ArtifactRetrievalFailed { .. } => "artifact-retrieval-failed",
            Error::DiffCommandTimeout(_) => "diff-command-timeout",
            Error::DiffCommandMemoryError(_) => "diff-command-memory-error",
            Error::DiffCommandError { .. } => "diff-command-error",
            Error::ContentNegotiationFailed { .. } => "not-acceptable",
            Error::InvalidRunId(_) => "invalid-run-id",
            Error::Database { .. } => "database-error",
            Error::Diffoscope(_) => "diffoscope-error",
            Error::Artifacts(_) => "artifact-error",
            Error::Io(_) => "internal-error",
            Error::Json(_) => "internal-error",
        }
    }

    /// The HTTP status for this error.
    pub fn status(&self) -> (r: u16)
        ensures
            r == error_status(*self),
    {
        match self {
            Error::RunNotFound(_) => 404,
            Error::RunNotSuccessful(_) => 422,
            Error::ArtifactsMissing(_) => 404,
            Error::ArtifactRetrievalTimeout(_) => 504,
            Error::ArtifactRetrievalFailed { .. } => 502,
            Error::DiffCommandTimeout(_) => 504,
            Error::DiffCommandMemoryError(_) => 507,
            Error::DiffCommandError { .. } => 400,
            Error::ContentNegotiationFailed { .. } => 406,
            Error::InvalidRunId(_) => 400,
            Error::Database { text: _, pool_timed_out, code } => {
                let short = *pool_timed_out || match code {
                    Some(code) => starts_with(code.as_str(), "53"),
                    None => false,
                };
                if short {
                    503
                } else {
                    500
                }
            },
            Error::Diffoscope(DiffoscopeError::Timeout) => 504,
            Error::Diffoscope(DiffoscopeError::Io { text: _, out_of_memory }) => if *out_of_memory {
                507
            } else {
                500
            },
            Error::Diffoscope(_) => 500,
            Error::Artifacts(_) => 502,
            Error::Io(_) => 500,
            Error::Json(_) => 500,
        }
    }

    /// The run that could not be served, where it is known.
    pub fn unavailable_run_id(&self) -> (r: Option<&str>)
        ensures
            match r {
                Some(id) => error_run_id(*self) == Some(id@),
                None => error_run_id(*self) is None,
            },
    {
        match self {
            Error::RunNotFound(id) => Some(id.as_str()),
            Error::RunNotSuccessful(id) => Some(id.as_str()),
            Error::ArtifactsMissing(id) => Some(id.as_str()),
            Error::ArtifactRetrievalTimeout(id) => Some(id.as_str()),
            Error::ArtifactRetrievalFailed { run_id, .. } => Some(run_id.as_str()),
            _ => None,
        }
    }

    /// This error in words.
    pub fn to_text(&self) -> (r: String)
        ensures
            r@ == error_text(*self),
    {
        match self {
            Error::RunNotFound(id) => "run ".to_owned().concat(id.as_str()).concat(" not found"),
            Error::RunNotSuccessful(id) => "run ".to_owned().concat(id.as_str()).concat(
                " was not successful",
            ),
            Error::ArtifactsMissing(id) => "artifacts missing for run ".to_owned().concat(
                id.as_str(),
            ),
            Error::ArtifactRetrievalTimeout(
                id,
            ) => "timeout retrieving artifacts for run ".to_owned().concat(id.as_str()),
            Error::ArtifactRetrievalFailed {
                run_id,
                reason,
            } => "failed to retrieve artifacts for run ".to_owned().concat(run_id.as_str()).concat(
                ": ",
            ).concat(reason.as_str()),
            Error::DiffCommandTimeout(command) => "timeout running ".to_owned().concat(command),
            Error::DiffCommandMemoryError(command) => (*command).to_owned().concat(
                " used too much memory",
            ),
            Error::DiffCommandError { command, reason } => (*command).to_owned().concat(
                ": ",
            ).concat(reason.as_str()),
            Error::ContentNegotiationFailed {
                offered,
            } => "no acceptable content type; offered: ".to_owned().concat(offered.as_str()),
            Error::InvalidRunId(id) => "invalid run id ".to_owned().concat(
                quote_debug(id.as_str()).as_str(),
            ),
            Error::Database { text, .. } => "database error: ".to_owned().concat(text.as_str()),
            Error::Diffoscope(e) => e.to_text(),
            Error::Artifacts(text) => text.clone(),
            Error::Io(text) => text.clone(),
            Error::Json(text) => text.clone(),
        }
    }
}

/// Every error is answered with a status of an error, and one that names a run is
/// never answered as a failure of our own.
pub proof fn lemma_errors_are_errors(e: Error)
    ensures
        400 <= error_status(e) < 600,
        error_run_id(e) is Some ==> error_status(e) != 500,
{
}

/// What a client asked wrongly is answered as its fault, what took too long or too
/// much memory as that, and what lies with others as theirs.
pub proof fn lemma_errors_are_answered_as_what_they_are(e: Error)
    ensures
        e is RunNotFound || e is ArtifactsMissing ==> error_status(e) == 404,
        e is RunNotSuccessful ==> error_status(e) == 422,
        e is InvalidRunId || e is DiffCommandError ==> error_status(e) == 400,
        e is ContentNegotiationFailed ==> error_status(e) == 406,
        e is DiffCommandTimeout || e is ArtifactRetrievalTimeout ==> error_status(e) == 504,
        e == Error::Diffoscope(DiffoscopeError::Timeout) ==> error_status(e) == 504,
        e is DiffCommandMemoryError ==> error_status(e) == 507,
        e is ArtifactRetrievalFailed || e is Artifacts ==> error_status(e) == 502,
        error_status(e) == 503 ==> e is Database,
        error_status(e) == 404 ==> e is RunNotFound || e is ArtifactsMissing,
        error_status(e) == 500 ==> e is Database || e is Diffoscope || e is Io || e is Json,
{
}

/// A database is short where none of its connections was free, or where it says so
/// by a code of that kind; else its errors are its own.
pub proof fn lemma_short_databases_are_told_apart(
    text: String,
    pool_timed_out: bool,
    code: Option<String>,
)
    ensures
        error_status(Error::Database { text, pool_timed_out: true, code }) == 503,
        error_status(Error::Database { text, pool_timed_out: false, code: None }) == 500,
        code is Some && "53"@.is_prefix_of(code->0@) ==> error_status(
            Error::Database { text, pool_timed_out, code },
        ) == 503,
        code is Some && !"53"@.is_prefix_of(code->0@) ==> error_status(
            Error::Database { text, pool_timed_out: false, code },
        ) == 500,
{
}

/// An error names the run that it is about, in its text too.
pub proof fn lemma_errors_name_their_run(e: Error)
    ensures
        error_run_id(e) is Some <==> e is RunNotFound || e is RunNotSuccessful
            || e is ArtifactsMissing || e is ArtifactRetrievalTimeout || e is ArtifactRetrievalFailed,
        error_run_id(e) matches Some(id) ==> occurs_in(id, error_text(e)),
        e matches Error::RunNotFound(id) ==> error_run_id(e) == Some(id@),
        e matches Error::RunNotSuccessful(id) ==> error_run_id(e) == Some(id@),
        e matches Error::ArtifactsMissing(id) ==> error_run_id(e) == Some(id@),
        e matches Error::ArtifactRetrievalTimeout(id) ==> error_run_id(e) == Some(id@),
        e matches Error::ArtifactRetrievalFailed { run_id, reason } ==> error_run_id(e) == Some(
            run_id@,
        ),
{
    let before = match e {
        Error::RunNotFound(_) => "run "@,
        Error::RunNotSuccessful(_) => "run "@,
        Error::ArtifactsMissing(_) => "artifacts missing for run "@,
        Error::ArtifactRetrievalTimeout(_) => "timeout retrieving artifacts for run "@,
        _ => "failed to retrieve artifacts for run "@,
    };
    if let Some(id) = error_run_id(e) {
        let rest = error_text(e).skip(before.len() as int);
        assert(rest.subrange(0, id.len() as int) =~= id);
    }
}

} // verus!
