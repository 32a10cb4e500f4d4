//! Validated powers of two.
//!
//! [`PowerOfTwo`] holds a positive 128-bit integer with exactly one bit set.
//! It is built only by [`PowerOfTwo::parse`] or by `TryFrom` on one of the
//! integer types, renders as `2^k (n)` and converts back into `u128`.

pub mod decimal;
pub mod errors;
pub mod power_of_two;
pub mod powers;

pub use errors::PowerOfTwoError;
pub use power_of_two::PowerOfTwo;
