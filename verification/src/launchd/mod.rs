//! The service manager of the operating system, as this program uses it.

pub mod launchd;
