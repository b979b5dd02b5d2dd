//! Small integer helpers: a sum, a deliberately wrong sum, and a division
//! whose quotient is known to be at least one.
mod arith;

pub use arith::{add, bad_add, divide_non_zero_result};
