//! The audit of the ADaM datasets.

pub mod inspect;
pub mod spec;

pub use inspect::Inspector;
pub use spec::read_spec;
