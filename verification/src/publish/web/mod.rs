//! What the publisher answers to requests.
pub mod answer;
pub mod blockers;
pub mod credentials;
pub mod limits;
pub mod listing;
pub mod policies;
pub mod publishing;
pub mod transition;
