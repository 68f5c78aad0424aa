//! The catalogs of the three categories.

pub mod adam;
pub mod reader;
pub mod sdtm;
pub mod tfl;
