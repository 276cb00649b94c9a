//! What can go wrong while uploading.
use crate::text::{decimal, decimal_of};
use vstd::prelude::*;

verus! {

/// Why an upload did not happen.
#[derive(Debug)]
pub enum UploadError {
    /// The package could not be signed.
    DebsignFailure(String),
    /// The package could not be uploaded.
    DputFailure(String),
    /// None of the packages of a run was uploaded.
    NoPackagesUploaded,
    /// Some of the packages of a run were not uploaded.
    PartialUpload {
        /// Packages that were uploaded.
        successful: usize,
        /// Packages that the run produced.
        total: usize,
    },
    /// The artifacts of a run are gone.
    ArtifactsMissing(String),
    /// The artifacts hold nothing to upload.
    NoChangesFiles,
    /// The database failed; holds the rendered error.
    Database(String),
    /// The database cannot be reached; holds the rendered error.
    DatabaseConnect(String),
    /// The message bus failed; holds the rendered error.
    Redis(String),
    /// What the services share failed; holds the rendered error.
    Janitor(String),
    /// The file system failed; holds the rendered error.
    Io(String),
    /// The configuration is wrong.
    Config(String),
    /// A value is missing from the configuration.
    MissingConfig(&'static str),
    /// A task of the service panicked.
    TaskPanic {
        /// The task.
        name: &'static str,
        /// The rendered panic.
        source: String,
    },
    /// The configuration could not be loaded.
    ConfigLoad(ConfigError),
}

/// Failure to load the configuration.
#[derive(Debug)]
pub struct ConfigError {
    /// Path that was tried.
    pub path: String,
    /// What went wrong.
    pub message: String,
}

/// The message of a failure to load the configuration.
pub open spec fn config_error_text(e: ConfigError) -> Seq<char> {
    "failed to load config from "@ + e.path@ + ": "@ + e.message@
}

impl ConfigError {
    /// The message of this error.
    pub fn to_text(&self) -> (r: String)
        ensures
            r@ == config_error_text(*self),
    {
        "failed to load config from ".to_owned().concat(self.path.as_str()).concat(": ").concat(
            self.message.as_str(),
        )
    }
}

/// The message of an upload error.
pub open spec fn upload_error_text(e: UploadError) -> Seq<char> {
    match e {
        UploadError::DebsignFailure(msg) => "Failed to sign package: "@ + msg@,
        UploadError::DputFailure(msg) => "Failed to upload package: "@ + msg@,
        UploadError::NoPackagesUploaded => "no packages uploaded for run"@,
        UploadError::PartialUpload { successful, total } => "partial upload: "@ + decimal(
            successful as nat,
        ) + "/"@ + decimal(total as nat) + " packages uploaded"@,
        UploadError::ArtifactsMissing(run_id) => "Artifacts missing for run "@ + run_id@,
        UploadError::NoChangesFiles => "No changes files found in artifacts"@,
        UploadError::Database(text) => text@,
        UploadError::DatabaseConnect(text) => text@,
        UploadError::Redis(text) => "Redis error: "@ + text@,
        UploadError::Janitor(text) => text@,
        UploadError::Io(text) => "IO error: "@ + text@,
        UploadError::Config(text) => "Configuration error: "@ + text@,
        UploadError::MissingConfig(name) => "no "@ + name@ + " configured"@,
        UploadError::TaskPanic { name, source } => name@ + " task panicked: "@ + source@,
        UploadError::ConfigLoad(e) => config_error_text(e),
    }
}

impl UploadError {
    /// The message of this error.
    pub fn to_text(&self) -> (r: String)
        ensures
            r@ == upload_error_text(*self),
    {
        match self {
            UploadError::DebsignFailure(msg) => "Failed to sign package: ".to_owned().concat(
                msg.as_str(),
            ),
            UploadError::DputFailure(msg) => "Failed to upload package: ".to_owned().concat(
                msg.as_str(),
            ),
            UploadError::NoPackagesUploaded => "no packages uploaded for run".to_owned(),
            UploadError::PartialUpload { successful, total } => {
                let done = decimal_of(*successful as u64);
                let all = decimal_of(*total as u64);
                "partial upload: ".to_owned().concat(done.as_str()).concat("/").concat(
                    all.as_str(),
                ).concat(" packages uploaded")
            },
            UploadError::ArtifactsMissing(run_id) => "Artifacts missing for run ".to_owned().concat(
                run_id.as_str(),
            ),
            UploadError::NoChangesFiles => "No changes files found in artifacts".to_owned(),
            UploadError::Database(text) => text.clone(),
            UploadError::DatabaseConnect(text) => text.clone(),
            UploadError::Janitor(text) => text.clone(),
            UploadError::Redis(text) => "Redis error: ".to_owned().concat(text.as_str()),
            UploadError::Io(text) => "IO error: ".to_owned().concat(text.as_str()),
            UploadError::Config(text) => "Configuration error: ".to_owned().concat(text.as_str()),
            UploadError::MissingConfig(name) => "no ".to_owned().concat(name).concat(" configured"),
            UploadError::TaskPanic { name, source } => (*name).to_owned().concat(
                " task panicked: ",
            ).concat(source.as_str()),
            UploadError::ConfigLoad(e) => e.to_text(),
        }
    }
}

/// How a task of the service ended.
#[derive(Debug)]
pub enum TaskEnd {
    /// It returned, with or without success.
    Returned(Result<(), UploadError>),
    /// It panicked; holds the rendered panic.
    Panicked(String),
}

/// What the end of a task means for the service: a panic becomes an error that
/// names the task.
pub fn join_result(name: &'static str, end: TaskEnd) -> (r: Result<(), UploadError>)
    ensures
        r == (match end {
            TaskEnd::Returned(result) => result,
            TaskEnd::Panicked(source) => Err(UploadError::TaskPanic { name, source }),
        }),
{
    match end {
        TaskEnd::Returned(result) => result,
        TaskEnd::Panicked(source) => Err(UploadError::TaskPanic { name, source }),
    }
}

} // verus!
