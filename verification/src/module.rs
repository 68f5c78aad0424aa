//! The audit's data: files, the group of files of one track, the item that
//! holds both tracks of a deliverable, and the study's directory layout.

pub mod file;
pub mod group;
pub mod item;
pub mod module;
pub mod paths;

pub use file::{File, FileKind, FileStatus};
pub use group::{Group, GroupKind, GroupStatus};
pub use item::Item;
pub use module::Module;
pub use paths::Paths;
