//! Weekly reminder scheduling: recurrence sequences, wait computation, the
//! runner's decisions and the notification payload, with machine-checked
//! contracts.

pub mod config;
pub mod notification;
pub mod recurrence;
pub mod runner;
pub mod time;
