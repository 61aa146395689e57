//! Screenshot renaming daemon: the decisions, parsers and state machines.

pub mod cli;
pub mod config;
pub mod configs;
pub mod daemon;
pub mod decimal;
pub mod files;
pub mod json;
pub mod launchd;
pub mod manager;
pub mod paths;
pub mod text;
pub mod utils;
