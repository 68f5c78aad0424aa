//! Readiness audit for clinical-trial statistical deliverables.
//!
//! Every deliverable (an SDTM domain, an ADaM dataset or a table, figure or
//! listing) is produced twice: once on the production track and once on the
//! validation track. From the name, size and modification time of the files
//! found in the study's directories the library derives where each track
//! stands: not started, building, changed upstream, out of order, ready, or,
//! on the validation track, whether the QC report passes.

pub mod adam;
pub mod api;
pub mod chain;
pub mod error;
pub mod inspector;
pub mod module;
pub mod order;
pub mod qc;
pub mod sdtm;
pub mod sheet;
pub mod snapshot;
pub mod text;
pub mod tfls;
pub mod track;
pub mod utils;
pub mod v2;

pub use api::adam::inspect_adam;
pub use api::sdtm::inspect_sdtm;
pub use api::tfls::inspect_tfls;
pub use utils::ProjectDirInfer;
