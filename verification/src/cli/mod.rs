//! What the command line asks for, and what is decided before anything is
//! done about it.

pub mod cli;
pub mod handlers;
