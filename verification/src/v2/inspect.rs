//! The inspection of the deliverables of a category.

pub mod inspector;
pub mod result;
