//! Decision logic of the janitor services: publishing results, diffing builds
//! and uploading packages.
pub mod differ;
pub mod publish;
pub mod test_utils;
pub mod text;
pub mod text_map;
pub mod time;
pub mod upload;
pub mod urls;
