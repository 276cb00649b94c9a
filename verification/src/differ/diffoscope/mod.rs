//! Running diffoscope, and working on what it finds.
pub mod boring;
pub mod command;
pub mod pairs;
pub mod tree;
pub mod udiff;
