//! Results of builds, as the runner announces them.
use crate::upload::config::UploadConfig;
use crate::text::{str_eq, texts};
use vstd::prelude::*;

verus! {

/// Details of a build's target.
#[derive(Debug)]
pub struct BuildTargetDetails {
    /// Distribution that the build is for.
    pub build_distribution: String,
}

/// Target of a build.
#[derive(Debug)]
pub struct BuildTarget {
    /// Kind of target, such as `debian`.
    pub name: Option<String>,
    /// Details, if there are any.
    pub details: Option<BuildTargetDetails>,
}

/// The result of a build.
#[derive(Debug)]
pub struct BuildResultMessage {
    /// The run.
    pub log_id: String,
    /// What was built.
    pub target: BuildTarget,
}

impl BuildResultMessage {
    /// The channel on which results are announced.
    pub fn channel() -> (r: &'static str)
        ensures
            r@ == "result"@,
    {
        "result"
    }
}

/// Whether the packages of a build are uploaded: it is a Debian build, and for a
/// distribution that is uploaded.
pub open spec fn processes_message(config: UploadConfig, message: BuildResultMessage) -> bool {
    &&& message.target.name matches Some(name)
    &&& name@ == "debian"@
    &&& message.target.details matches Some(details)
    &&& config.distributions@.len() == 0 || texts(config.distributions@).contains(
        details.build_distribution@,
    )
}

/// Whether the packages of a build are uploaded.
pub fn should_process_message(config: &UploadConfig, message: &BuildResultMessage) -> (r: bool)
    ensures
        r == processes_message(*config, *message),
{
    match &message.target.name {
        Some(name) => {
            if !str_eq(name.as_str(), "debian") {
                return false;
            }
        },
        None => {
            return false;
        },
    }
    match &message.target.details {
        Some(details) => config.should_upload_distribution(details.build_distribution.as_str()),
        None => false,
    }
}

/// Only builds for Debian are uploaded, and of these, where distributions are named,
/// only those for one of them; where none is named, all.
pub proof fn lemma_uploads_are_those_asked_for(config: UploadConfig, message: BuildResultMessage)
    ensures
        processes_message(config, message) ==> {
            &&& message.target.name is Some && message.target.name->0@ == "debian"@
            &&& message.target.details is Some
            &&& config.distributions@.len() > 0 ==> texts(config.distributions@).contains(
                message.target.details->0.build_distribution@,
            )
        },
        message.target.name is Some && message.target.name->0@ == "debian"@
            && message.target.details is Some && config.distributions@.len() == 0
            ==> processes_message(config, message),
        message.target.name is Some && message.target.name->0@ == "debian"@
            && message.target.details is Some && texts(config.distributions@).contains(
            message.target.details->0.build_distribution@,
        ) ==> processes_message(config, message),
{
}

} // verus!
