//! Where screenshots are found.

pub mod ss;
