//! The audit of the order in which the files of a deliverable were made.

pub mod adam;
pub mod audit;
pub mod sdtm;
pub mod tfl;
