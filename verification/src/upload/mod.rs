//! Uploading: from the artifacts of a build to an archive.
pub mod backfill;
pub mod config;
pub mod error;
pub mod message;
pub mod process;
