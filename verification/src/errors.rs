//! The ways in which a number can fail to become a [`PowerOfTwo`].
//!
//! [`PowerOfTwo`]: crate::PowerOfTwo

use vstd::prelude::*;

verus! {

/// Why an integer was refused.
///
/// A negative input of a signed type is reported by the variant of its own
/// width, which keeps the value in the type it came in. Every other refused
/// input is reported by `InvalidPowerOfTwo`, widened to `u128`.
#[derive(Debug)]
pub enum PowerOfTwoError {
    /// The number is zero or has more than one bit set.
    InvalidPowerOfTwo(u128),
    /// A negative `i8`.
    InvalidInputi8(i8),
    /// A negative `i16`.
    InvalidInputi16(i16),
    /// A negative `i32`.
    InvalidInputi32(i32),
    /// A negative `i64`.
    InvalidInputi64(i64),
    /// A negative `i128`.
    InvalidInputi128(i128),
    /// A negative `isize`.
    InvalidInputisize(isize),
}

} // verus!
