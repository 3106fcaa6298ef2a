//! Weighted multi-key account authorisation: the engine that adds, re-weights
//! and removes associated keys and sets the action thresholds of an account.
pub mod error;
pub mod directory;
pub mod planner;
pub mod batch;
