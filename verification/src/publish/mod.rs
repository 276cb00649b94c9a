//! Publishing: from the result of a run to a branch push or a merge proposal.
pub mod api_types;
pub mod backoff;
pub mod branches;
pub mod closing;
pub mod command;
pub mod consider;
pub mod counts;
pub mod debdiff;
pub mod direct;
pub mod errors;
pub mod existing;
pub mod failure;
pub mod health;
pub mod policy;
pub mod proposal_info;
pub mod record;
pub mod publish_one;
pub mod queue;
pub mod rate_limiter;
pub mod redis;
pub mod run;
pub mod scan;
pub mod schedule;
pub mod state;
pub mod types;
pub mod web;
pub mod worker;
