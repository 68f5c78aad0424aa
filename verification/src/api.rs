//! The report of an audit: for each deliverable the files of its two
//! tracks as they are shown, and the timeline of the files that were found.

pub mod adam;
pub mod module;
pub mod sdtm;
pub mod tfls;

pub use adam::inspect_adam;
pub use module::{split_filename, File, Group, Item, Module};
pub use sdtm::inspect_sdtm;
pub use tfls::inspect_tfls;
