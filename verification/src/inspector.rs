//! A plain collection of the files of a directory tree.

pub mod inspector;

pub use inspector::{split_filename, File, Inspector};
