//! Epoch-scoped accounting of gauge voting power: the accounts a vote
//! touches, the consistency guard run before any change, and the commit and
//! revert transitions that keep the per-gauge and per-voter totals in step.
pub mod error;
pub mod state;
pub mod address;
pub mod guard;
pub mod gauge_commit_vote;
pub mod gauge_revert_vote;
pub mod laws;
