//! The audit by pairs: each file of a track is held against the one file
//! it is made from, and the catalogs, the products and the trials of the
//! studies are read.

pub mod category;
pub mod config;
pub mod error;
pub mod inspect;
pub mod investigator;
pub mod product;
pub mod purpose;
pub mod sequence;
pub mod trial;

pub use category::{Group, Kind};
pub use config::reader::read_config;
pub use investigator::investigator::{Investigator, InvestigatorParam};
pub use inspect::inspector::{inspect, log_detail, qc_detail, sequence_detail};
pub use inspect::result::InspectionResult;
pub use sequence::audit::AuditResult;
pub use product::{list_products, Product};
