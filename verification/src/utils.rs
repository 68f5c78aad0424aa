//! Helpers around the study's directories.

pub mod infer;

pub use crate::snapshot::latest_timestamp;
pub use infer::{InferResult, ProjectDirInfer};
