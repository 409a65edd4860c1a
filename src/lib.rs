//! Exact amounts of US currency: whole cents of unbounded size, with the
//! arithmetic, order and text of dollars and cents.
pub mod integer;
pub mod usd;

pub use usd::USD;
