//! The background process: its life cycle, its watch loop, and the record
//! of its process id.

pub mod daemon;
pub mod pid;
