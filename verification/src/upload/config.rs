//! What to upload, and what the service needs to run.
use crate::text::{contains_text, texts};
use crate::upload::error::UploadError;
use vstd::prelude::*;

verus! {

/// Which packages to upload and how.
#[derive(Debug)]
pub struct UploadConfig {
    /// Key to sign with.
    pub debsign_keyid: Option<String>,
    /// Where to upload to; the default of `dput` where there is none.
    pub dput_host: Option<String>,
    /// Only upload sources.
    pub source_only: bool,
    /// If non-empty, only upload builds for one of these distributions.
    pub distributions: Vec<String>,
}

impl UploadConfig {
    /// Whether builds for `distribution` are uploaded: it is on the list, or the
    /// list is empty.
    pub fn should_upload_distribution(&self, distribution: &str) -> (r: bool)
        ensures
            r == (self.distributions@.len() == 0 || texts(self.distributions@).contains(
                distribution@,
            )),
    {
        self.distributions.is_empty() || contains_text(&self.distributions, distribution)
    }
}

/// Where the service finds the other services.
#[derive(Debug)]
pub struct Config {
    /// Where artifacts are kept.
    pub artifact_location: Option<String>,
    /// The message bus.
    pub redis_location: Option<String>,
    /// The database.
    pub database_location: Option<String>,
}

impl Config {
    /// Where artifacts are kept, if that is set.
    pub fn artifact_location(&self) -> (r: Option<&str>)
        ensures
            r is Some == self.artifact_location is Some,
            r is Some ==> r->0@ == self.artifact_location->0@,
    {
        match &self.artifact_location {
            Some(location) => Some(location.as_str()),
            None => None,
        }
    }

    /// The message bus, if that is set.
    pub fn redis_location(&self) -> (r: Option<&str>)
        ensures
            r is Some == self.redis_location is Some,
            r is Some ==> r->0@ == self.redis_location->0@,
    {
        match &self.redis_location {
            Some(location) => Some(location.as_str()),
            None => None,
        }
    }

    /// The database, if that is set.
    pub fn database_location(&self) -> (r: Option<&str>)
        ensures
            r is Some == self.database_location is Some,
            r is Some ==> r->0@ == self.database_location->0@,
    {
        match &self.database_location {
            Some(location) => Some(location.as_str()),
            None => None,
        }
    }
}

/// The locations that a run of the service needs.
#[derive(Debug)]
pub struct Locations {
    /// The message bus.
    pub redis: String,
    /// Where artifacts are kept.
    pub artifacts: String,
    /// The database, where old builds are to be uploaded too.
    pub database: Option<String>,
}

/// The first location that is missing from `config`, in the order in which they
/// are asked for. The database is only needed to upload old builds.
pub open spec fn missing_location(config: Config, run_backfill: bool) -> Option<Seq<char>> {
    if config.redis_location is None {
        Some("redis_location"@)
    } else if config.artifact_location is None {
        Some("artifact_location"@)
    } else if run_backfill && config.database_location is None {
        Some("database_location"@)
    } else {
        None
    }
}

/// The locations that a run of the service needs, or the first that is missing.
pub fn required_locations(config: &Config, run_backfill: bool) -> (r: Result<
    Locations,
    UploadError,
>)
    ensures
        match missing_location(*config, run_backfill) {
            Some(name) => r matches Err(UploadError::MissingConfig(found)) && found@ == name,
            None => {
                &&& r matches Ok(locations)
                &&& Some(locations.redis) == config.redis_location
                &&& Some(locations.artifacts) == config.artifact_location
                &&& locations.database == (if run_backfill {
                    config.database_location
                } else {
                    None
                })
            },
        },
{
    let redis = match &config.redis_location {
        Some(location) => location.clone(),
        None => {
            return Err(UploadError::MissingConfig("redis_location"));
        },
    };
    let artifacts = match &config.artifact_location {
        Some(location) => location.clone(),
        None => {
            return Err(UploadError::MissingConfig("artifact_location"));
        },
    };
    if !run_backfill {
        return Ok(Locations { redis, artifacts, database: None });
    }
    match &config.database_location {
        Some(location) => Ok(Locations { redis, artifacts, database: Some(location.clone()) }),
        None => Err(UploadError::MissingConfig("database_location")),
    }
}

/// A location is missing only where it is not configured and is needed; the database
/// is needed only to upload earlier builds.
pub proof fn lemma_only_needed_locations_are_missed(config: Config, run_backfill: bool)
    ensures
        missing_location(config, run_backfill) is None <==> config.redis_location is Some
            && config.artifact_location is Some && (run_backfill ==> config.database_location
            is Some),
        missing_location(config, run_backfill) == Some("redis_location"@)
            ==> config.redis_location is None,
        missing_location(config, run_backfill) == Some("artifact_location"@)
            ==> config.artifact_location is None,
        missing_location(config, run_backfill) == Some("database_location"@)
            ==> config.database_location is None && run_backfill,
{
    reveal_strlit("redis_location");
    reveal_strlit("artifact_location");
    reveal_strlit("database_location");
    assert("redis_location"@.len() == 14 && "artifact_location"@.len() == 17);
    assert("database_location"@.len() == 17);
    assert("artifact_location"@[0] == 'a' && "database_location"@[0] == 'd');
}

} // verus!
