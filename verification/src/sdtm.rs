//! The audit of the SDTM domains.

pub mod inspect;
pub mod spec;

pub use inspect::Inspector;
pub use spec::read_spec;
