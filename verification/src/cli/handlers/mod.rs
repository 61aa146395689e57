//! The decisions of the commands that start, stop and query the daemon.

pub mod status;
