//! Where the files of a deliverable lie, and what was seen of them.

pub mod adam;
pub mod investigator;
pub mod sdtm;
pub mod tfl;
pub mod utils;
