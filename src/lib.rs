//! A four-function calculator engine: digit, operation and equals keys in, display text
//! out, with chained operations, repeated equals, and overflow and division-by-zero
//! errors.
pub mod calculator;
pub mod decimal;
pub mod laws;
pub mod model;
pub mod operation;

pub use calculator::{Calculator, DisplayListener};
pub use model::MAX_DIGITS;
pub use operation::Operation;
