//! The rename pipeline: the captioning service and the screenshot manager.

pub mod ai;
pub mod image;
