//! The differ: how the packages of two runs differ.
pub mod binaries;
pub mod cache;
pub mod diffoscope;
pub mod error;
pub mod negotiate;
pub mod precache;
pub mod requests;
pub mod runs;
