//! Checking a merge proposal that was opened before.
//!
//! A check is a conversation: [`steps::MpCheck`] holds what is known, its `next`
//! says what to find out or to do next, and the answer is noted down before the
//! next step is asked for.
pub mod check;
pub mod decision;
pub mod gate;
pub mod laws;
pub mod steps;
