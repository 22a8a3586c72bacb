//! Runs one command on a cron-style recurrence until a stop condition is met.
//!
//! The crate decides; its host acts. The host sleeps and launches the command,
//! and reports back what happened; every decision in between (whether to
//! stop, how long to wait, what a failure means) is made here.

pub mod config;
pub mod error;
pub mod job;
pub mod laws;
pub mod recurrence;
pub mod run;
pub mod scheduler;
pub mod time;
pub mod until;
