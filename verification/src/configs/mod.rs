//! The configuration that the daemon is run with.

pub mod config;
pub mod setup;
