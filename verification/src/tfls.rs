//! The audit of the tables, figures and listings.

pub mod inspect;
pub mod top;

pub use inspect::Inspector;
pub use top::read_top;
