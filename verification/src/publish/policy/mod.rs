//! Publishing one branch of a run under the policy of its campaign.
//!
//! As with the check of a proposal, [`steps::PolicyPublish`] holds what is known
//! and its `next` says what to find out or to do next.
pub mod decision;
pub mod laws;
pub mod publish;
pub mod steps;
