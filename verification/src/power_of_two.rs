//! The validated value and its conversions.

use crate::decimal::{decimal, push_decimal};
use crate::errors::PowerOfTwoError;
use crate::powers::{
    has_single_bit, is_power_of_two, lemma_log2_below, lemma_log2_of_power, lemma_pow2_128,
    lemma_power_iff_single_bit, lemma_successor_is_no_power, log2,
};
use std::cmp::Ordering;
use vstd::arithmetic::power2::{lemma_pow2_strictly_increases, pow2};
use vstd::prelude::*;
use vstd::std_specs::cmp::PartialOrdSpecImpl;
use vstd::std_specs::convert::{FromSpec, FromSpecImpl, TryFromSpec, TryFromSpecImpl};

verus! {

/// A positive integer with exactly one bit set, held as a `u128`.
#[derive(Debug, Clone, Copy, PartialEq, Eq, Structural, Ord, Hash)]
pub struct PowerOfTwo(u128);

impl View for PowerOfTwo {
    type V = u128;

    /// The magnitude.
    closed spec fn view(&self) -> u128 {
        self.0
    }
}

/// How a power of two `n` is written: `2^k (n)`, with `k` the exponent and
/// both numbers in decimal notation.
pub open spec fn rendering(n: nat) -> Seq<char> {
    seq!['2', '^'] + decimal(log2(n)) + seq![' ', '('] + decimal(n) + seq![')']
}

impl PowerOfTwo {
    /// Every value of this type is a power of two.
    #[verifier::type_invariant]
    pub closed spec fn is_valid(&self) -> bool {
        is_power_of_two(self.0 as nat)
    }

    /// The value whose magnitude is `number`.
    pub closed spec fn with_magnitude(number: u128) -> PowerOfTwo {
        PowerOfTwo(number)
    }

    /// What `parse` returns for `number`.
    pub open spec fn parse_spec(number: u128) -> Result<PowerOfTwo, PowerOfTwoError> {
        if is_power_of_two(number as nat) {
            Ok(PowerOfTwo::with_magnitude(number))
        } else {
            Err(PowerOfTwoError::InvalidPowerOfTwo(number))
        }
    }

    /// The value built from `number` has `number` as its magnitude.
    pub proof fn lemma_magnitude_of_built(number: u128)
        ensures
            PowerOfTwo::with_magnitude(number)@ == number,
    {
    }

    /// A value is the one built from its own magnitude, so two values with
    /// the same magnitude are equal.
    pub proof fn lemma_built_from_magnitude(p: PowerOfTwo)
        ensures
            PowerOfTwo::with_magnitude(p@) == p,
    {
    }

    /// A number is accepted exactly when it is at least 1 and has a single
    /// set bit.
    pub proof fn lemma_accepts_single_bit(number: u128)
        ensures
            PowerOfTwo::parse_spec(number) is Ok <==> has_single_bit(number),
    {
        lemma_power_iff_single_bit(number);
    }

    /// For every exponent `k` below 128, `2^k` is accepted, and is written
    /// as `2^k (n)` with `k` and `n = 2^k` in decimal notation.
    pub proof fn lemma_power_is_accepted_and_rendered(k: nat)
        requires
            k < 128,
        ensures
            pow2(k) <= u128::MAX,
            PowerOfTwo::parse_spec(pow2(k) as u128) == Ok::<PowerOfTwo, PowerOfTwoError>(
                PowerOfTwo::with_magnitude(pow2(k) as u128),
            ),
            rendering(pow2(k)) == seq!['2', '^'] + decimal(k) + seq![' ', '('] + decimal(pow2(k))
                + seq![')'],
    {
        lemma_pow2_128();
        lemma_pow2_strictly_increases(k, 128);
        lemma_log2_of_power(k);
    }

    /// For every exponent `k` from 1 to 127, `2^k + 1` is refused.
    pub proof fn lemma_successor_is_refused(k: nat)
        requires
            1 <= k < 128,
        ensures
            pow2(k) + 1 <= u128::MAX,
            PowerOfTwo::parse_spec((pow2(k) + 1) as u128) == Err::<PowerOfTwo, PowerOfTwoError>(
                PowerOfTwoError::InvalidPowerOfTwo((pow2(k) + 1) as u128),
            ),
    {
        lemma_pow2_128();
        lemma_pow2_strictly_increases(k, 128);
        lemma_successor_is_no_power(k);
    }

    /// Parsing and then taking the magnitude gives the number back.
    pub proof fn lemma_round_trip(number: u128)
        requires
            is_power_of_two(number as nat),
        ensures
            PowerOfTwo::parse_spec(number) is Ok,
            <u128 as FromSpec<PowerOfTwo>>::from_spec(PowerOfTwo::parse_spec(number)->Ok_0) == number,
    {
    }

    /// Accepts `number` if it is a power of two and refuses it otherwise.
    pub fn parse(number: u128) -> (result: Result<PowerOfTwo, PowerOfTwoError>)
        ensures
            result == PowerOfTwo::parse_spec(number),
            result matches Ok(p) ==> p@ == number,
    {
        proof {
            lemma_power_iff_single_bit(number);
        }
        if number < 1 || number & (number - 1) != 0 {
            return Err(PowerOfTwoError::InvalidPowerOfTwo(number));
        }
        Ok(PowerOfTwo(number))
    }

    /// Writes the value as `2^k (n)`.
    pub fn to_string(&self) -> (text: String)
        ensures
            text@ == rendering(self@ as nat),
    {
        let mut number: u128 = self.0;
        let mut power: u128 = 0;
        proof {
            lemma_pow2_128();
            lemma_log2_below(self.0 as nat, 128);
        }
        while number > 1
            invariant
                power + log2(number as nat) == log2(self.0 as nat),
                log2(self.0 as nat) < 128,
            decreases number,
        {
            assert(number >> 1 == number / 2) by (bit_vector);
            number >>= 1;
            power += 1;
        }
        proof {
            reveal_strlit("2^");
            reveal_strlit(" (");
            reveal_strlit(")");
        }
        let mut text = String::new();
        text.append("2^");
        push_decimal(&mut text, power);
        text.append(" (");
        push_decimal(&mut text, self.0);
        text.append(")");
        assert(text@ =~= rendering(self@ as nat));
        text
    }
}

impl PartialOrd for PowerOfTwo {
    fn partial_cmp(&self, other: &PowerOfTwo) -> (order: Option<Ordering>) {
        if self.0 < other.0 {
            Some(Ordering::Less)
        } else if self.0 > other.0 {
            Some(Ordering::Greater)
        } else {
            Some(Ordering::Equal)
        }
    }
}

impl PartialOrdSpecImpl for PowerOfTwo {
    open spec fn obeys_partial_cmp_spec() -> bool {
        true
    }

    /// Values are ordered as their magnitudes are.
    open spec fn partial_cmp_spec(&self, other: &PowerOfTwo) -> Option<Ordering> {
        if self@ < other@ {
            Some(Ordering::Less)
        } else if self@ > other@ {
            Some(Ordering::Greater)
        } else {
            Some(Ordering::Equal)
        }
    }
}

impl TryFrom<u8> for PowerOfTwo {
    type Error = PowerOfTwoError;

    fn try_from(value: u8) -> (result: Result<PowerOfTwo, PowerOfTwoError>) {
        PowerOfTwo::parse(value as u128)
    }
}

impl TryFromSpecImpl<u8> for PowerOfTwo {
    open spec fn obeys_try_from_spec() -> bool {
        true
    }

    /// The widened value, parsed.
    open spec fn try_from_spec(value: u8) -> Result<PowerOfTwo, PowerOfTwoError> {
        PowerOfTwo::parse_spec(value as u128)
    }
}

impl TryFrom<u16> for PowerOfTwo {
    type Error = PowerOfTwoError;

    fn try_from(value: u16) -> (result: Result<PowerOfTwo, PowerOfTwoError>) {
        PowerOfTwo::parse(value as u128)
    }
}

impl TryFromSpecImpl<u16> for PowerOfTwo {
    open spec fn obeys_try_from_spec() -> bool {
        true
    }

    /// The widened value, parsed.
    open spec fn try_from_spec(value: u16) -> Result<PowerOfTwo, PowerOfTwoError> {
        PowerOfTwo::parse_spec(value as u128)
    }
}

impl TryFrom<u32> for PowerOfTwo {
    type Error = PowerOfTwoError;

    fn try_from(value: u32) -> (result: Result<PowerOfTwo, PowerOfTwoError>) {
        PowerOfTwo::parse(value as u128)
    }
}

impl TryFromSpecImpl<u32> for PowerOfTwo {
    open spec fn obeys_try_from_spec() -> bool {
        true
    }

    /// The widened value, parsed.
    open spec fn try_from_spec(value: u32) -> Result<PowerOfTwo, PowerOfTwoError> {
        PowerOfTwo::parse_spec(value as u128)
    }
}

impl TryFrom<u64> for PowerOfTwo {
    type Error = PowerOfTwoError;

    fn try_from(value: u64) -> (result: Result<PowerOfTwo, PowerOfTwoError>) {
        PowerOfTwo::parse(value as u128)
    }
}

impl TryFromSpecImpl<u64> for PowerOfTwo {
    open spec fn obeys_try_from_spec() -> bool {
        true
    }

    /// The widened value, parsed.
    open spec fn try_from_spec(value: u64) -> Result<PowerOfTwo, PowerOfTwoError> {
        PowerOfTwo::parse_spec(value as u128)
    }
}

impl TryFrom<u128> for PowerOfTwo {
    type Error = PowerOfTwoError;

    fn try_from(value: u128) -> (result: Result<PowerOfTwo, PowerOfTwoError>) {
        PowerOfTwo::parse(value)
    }
}

impl TryFromSpecImpl<u128> for PowerOfTwo {
    open spec fn obeys_try_from_spec() -> bool {
        true
    }

    /// The widened value, parsed.
    open spec fn try_from_spec(value: u128) -> Result<PowerOfTwo, PowerOfTwoError> {
        PowerOfTwo::parse_spec(value)
    }
}

impl TryFrom<usize> for PowerOfTwo {
    type Error = PowerOfTwoError;

    fn try_from(value: usize) -> (result: Result<PowerOfTwo, PowerOfTwoError>) {
        PowerOfTwo::parse(value as u128)
    }
}

impl TryFromSpecImpl<usize> for PowerOfTwo {
    open spec fn obeys_try_from_spec() -> bool {
        true
    }

    /// The widened value, parsed.
    open spec fn try_from_spec(value: usize) -> Result<PowerOfTwo, PowerOfTwoError> {
        PowerOfTwo::parse_spec(value as u128)
    }
}

impl TryFrom<i8> for PowerOfTwo {
    type Error = PowerOfTwoError;

    fn try_from(value: i8) -> (result: Result<PowerOfTwo, PowerOfTwoError>) {
        if value < 0 {
            return Err(PowerOfTwoError::InvalidInputi8(value));
        }
        PowerOfTwo::parse(value as u128)
    }
}

impl TryFromSpecImpl<i8> for PowerOfTwo {
    open spec fn obeys_try_from_spec() -> bool {
        true
    }

    /// A negative value is refused under its own width; any other is
    /// widened and parsed.
    open spec fn try_from_spec(value: i8) -> Result<PowerOfTwo, PowerOfTwoError> {
        if value < 0 {
            Err(PowerOfTwoError::InvalidInputi8(value))
        } else {
            PowerOfTwo::parse_spec(value as u128)
        }
    }
}

impl TryFrom<i16> for PowerOfTwo {
    type Error = PowerOfTwoError;

    fn try_from(value: i16) -> (result: Result<PowerOfTwo, PowerOfTwoError>) {
        if value < 0 {
            return Err(PowerOfTwoError::InvalidInputi16(value));
        }
        PowerOfTwo::parse(value as u128)
    }
}

impl TryFromSpecImpl<i16> for PowerOfTwo {
    open spec fn obeys_try_from_spec() -> bool {
        true
    }

    /// A negative value is refused under its own width; any other is
    /// widened and parsed.
    open spec fn try_from_spec(value: i16) -> Result<PowerOfTwo, PowerOfTwoError> {
        if value < 0 {
            Err(PowerOfTwoError::InvalidInputi16(value))
        } else {
            PowerOfTwo::parse_spec(value as u128)
        }
    }
}

impl TryFrom<i32> for PowerOfTwo {
    type Error = PowerOfTwoError;

    fn try_from(value: i32) -> (result: Result<PowerOfTwo, PowerOfTwoError>) {
        if value < 0 {
            return Err(PowerOfTwoError::InvalidInputi32(value));
        }
        PowerOfTwo::parse(value as u128)
    }
}

impl TryFromSpecImpl<i32> for PowerOfTwo {
    open spec fn obeys_try_from_spec() -> bool {
        true
    }

    /// A negative value is refused under its own width; any other is
    /// widened and parsed.
    open spec fn try_from_spec(value: i32) -> Result<PowerOfTwo, PowerOfTwoError> {
        if value < 0 {
            Err(PowerOfTwoError::InvalidInputi32(value))
        } else {
            PowerOfTwo::parse_spec(value as u128)
        }
    }
}

impl TryFrom<i64> for PowerOfTwo {
    type Error = PowerOfTwoError;

    fn try_from(value: i64) -> (result: Result<PowerOfTwo, PowerOfTwoError>) {
        if value < 0 {
            return Err(PowerOfTwoError::InvalidInputi64(value));
        }
        PowerOfTwo::parse(value as u128)
    }
}

impl TryFromSpecImpl<i64> for PowerOfTwo {
    open spec fn obeys_try_from_spec() -> bool {
        true
    }

    /// A negative value is refused under its own width; any other is
    /// widened and parsed.
    open spec fn try_from_spec(value: i64) -> Result<PowerOfTwo, PowerOfTwoError> {
        if value < 0 {
            Err(PowerOfTwoError::InvalidInputi64(value))
        } else {
            PowerOfTwo::parse_spec(value as u128)
        }
    }
}

impl TryFrom<i128> for PowerOfTwo {
    type Error = PowerOfTwoError;

    fn try_from(value: i128) -> (result: Result<PowerOfTwo, PowerOfTwoError>) {
        if value < 0 {
            return Err(PowerOfTwoError::InvalidInputi128(value));
        }
        PowerOfTwo::parse(value as u128)
    }
}

impl TryFromSpecImpl<i128> for PowerOfTwo {
    open spec fn obeys_try_from_spec() -> bool {
        true
    }

    /// A negative value is refused under its own width; any other is
    /// widened and parsed.
    open spec fn try_from_spec(value: i128) -> Result<PowerOfTwo, PowerOfTwoError> {
        if value < 0 {
            Err(PowerOfTwoError::InvalidInputi128(value))
        } else {
            PowerOfTwo::parse_spec(value as u128)
        }
    }
}

impl TryFrom<isize> for PowerOfTwo {
    type Error = PowerOfTwoError;

    fn try_from(value: isize) -> (result: Result<PowerOfTwo, PowerOfTwoError>) {
        if value < 0 {
            return Err(PowerOfTwoError::InvalidInputisize(value));
        }
        PowerOfTwo::parse(value as u128)
    }
}

impl TryFromSpecImpl<isize> for PowerOfTwo {
    open spec fn obeys_try_from_spec() -> bool {
        true
    }

    /// A negative value is refused under its own width; any other is
    /// widened and parsed.
    open spec fn try_from_spec(value: isize) -> Result<PowerOfTwo, PowerOfTwoError> {
        if value < 0 {
            Err(PowerOfTwoError::InvalidInputisize(value))
        } else {
            PowerOfTwo::parse_spec(value as u128)
        }
    }
}

impl From<PowerOfTwo> for u128 {
    fn from(value: PowerOfTwo) -> (magnitude: u128)
        ensures
            is_power_of_two(magnitude as nat),
    {
        proof {
            use_type_invariant(&value);
        }
        value.0
    }
}

impl FromSpecImpl<PowerOfTwo> for u128 {
    open spec fn obeys_from_spec() -> bool {
        true
    }

    /// The magnitude, unchanged.
    open spec fn from_spec(value: PowerOfTwo) -> u128 {
        value@
    }
}

/// A negative `i8` is refused under its own width; any other converts as
/// the same number does from `u8`.
pub proof fn lemma_i8_follows_u8(value: i8)
    ensures
        value < 0 ==> <PowerOfTwo as TryFromSpec<i8>>::try_from_spec(value) == Err::<
            PowerOfTwo,
            PowerOfTwoError,
        >(PowerOfTwoError::InvalidInputi8(value)),
        value >= 0 ==> <PowerOfTwo as TryFromSpec<i8>>::try_from_spec(value) == <
            PowerOfTwo as TryFromSpec<u8>
        >::try_from_spec(value as u8),
{
}

/// A negative `i16` is refused under its own width; any other converts as
/// the same number does from `u16`.
pub proof fn lemma_i16_follows_u16(value: i16)
    ensures
        value < 0 ==> <PowerOfTwo as TryFromSpec<i16>>::try_from_spec(value) == Err::<
            PowerOfTwo,
            PowerOfTwoError,
        >(PowerOfTwoError::InvalidInputi16(value)),
        value >= 0 ==> <PowerOfTwo as TryFromSpec<i16>>::try_from_spec(value) == <
            PowerOfTwo as TryFromSpec<u16>
        >::try_from_spec(value as u16),
{
}

/// A negative `i32` is refused under its own width; any other converts as
/// the same number does from `u32`.
pub proof fn lemma_i32_follows_u32(value: i32)
    ensures
        value < 0 ==> <PowerOfTwo as TryFromSpec<i32>>::try_from_spec(value) == Err::<
            PowerOfTwo,
            PowerOfTwoError,
        >(PowerOfTwoError::InvalidInputi32(value)),
        value >= 0 ==> <PowerOfTwo as TryFromSpec<i32>>::try_from_spec(value) == <
            PowerOfTwo as TryFromSpec<u32>
        >::try_from_spec(value as u32),
{
}

/// A negative `i64` is refused under its own width; any other converts as
/// the same number does from `u64`.
pub proof fn lemma_i64_follows_u64(value: i64)
    ensures
        value < 0 ==> <PowerOfTwo as TryFromSpec<i64>>::try_from_spec(value) == Err::<
            PowerOfTwo,
            PowerOfTwoError,
        >(PowerOfTwoError::InvalidInputi64(value)),
        value >= 0 ==> <PowerOfTwo as TryFromSpec<i64>>::try_from_spec(value) == <
            PowerOfTwo as TryFromSpec<u64>
        >::try_from_spec(value as u64),
{
}

/// A negative `i128` is refused under its own width; any other converts as
/// the same number does from `u128`.
pub proof fn lemma_i128_follows_u128(value: i128)
    ensures
        value < 0 ==> <PowerOfTwo as TryFromSpec<i128>>::try_from_spec(value) == Err::<
            PowerOfTwo,
            PowerOfTwoError,
        >(PowerOfTwoError::InvalidInputi128(value)),
        value >= 0 ==> <PowerOfTwo as TryFromSpec<i128>>::try_from_spec(value) == <
            PowerOfTwo as TryFromSpec<u128>
        >::try_from_spec(value as u128),
{
}

/// A negative `isize` is refused under its own width; any other converts as
/// the same number does from `usize`.
pub proof fn lemma_isize_follows_usize(value: isize)
    ensures
        value < 0 ==> <PowerOfTwo as TryFromSpec<isize>>::try_from_spec(value) == Err::<
            PowerOfTwo,
            PowerOfTwoError,
        >(PowerOfTwoError::InvalidInputisize(value)),
        value >= 0 ==> <PowerOfTwo as TryFromSpec<isize>>::try_from_spec(value) == <
            PowerOfTwo as TryFromSpec<usize>
        >::try_from_spec(value as usize),
{
}

} // verus!
