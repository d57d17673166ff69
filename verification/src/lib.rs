//! Scheduling rules and request planning for unattended reward claiming.
//!
//! The crate decides; it performs no I/O. A driver fetches, submits and
//! sleeps, and reports back what happened.

pub mod client;
pub mod decimal;
pub mod models;
pub mod orchestrator;
pub mod scheduler;
pub mod trace;
pub mod wait;
