//! The files that the user has chosen.

pub mod macos;
