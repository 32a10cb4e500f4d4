use binexp::PowerOfTwo;
use binexp::PowerOfTwoError;

#[test]
fn zero_is_not_a_power_of_two() {
    assert!(PowerOfTwo::parse(0).is_err());
}

#[test]
fn one_is_a_power_of_two() {
    assert!(PowerOfTwo::parse(1).is_ok());
}

#[test]
fn two_is_a_power_of_two() {
    assert!(PowerOfTwo::parse(2).is_ok());
}

#[test]
fn powers_of_two_are_parsed_correctly() {
    for i in 0..128 {
        let number = 1 << i;
        assert!(PowerOfTwo::parse(number).is_ok());
    }
}

#[test]
fn non_powers_of_two_are_not_parsed() {
    for i in 1..128 {
        let number = (1 << i) + 1;
        assert!(PowerOfTwo::parse(number).is_err());
    }
}

#[test]
fn integer_types_can_be_converted_to_power_of_two() {
    assert!(PowerOfTwo::try_from(1u8).is_ok());
    assert!(PowerOfTwo::try_from(1u16).is_ok());
    assert!(PowerOfTwo::try_from(1u32).is_ok());
    assert!(PowerOfTwo::try_from(1u64).is_ok());
    assert!(PowerOfTwo::try_from(1u128).is_ok());
    assert!(PowerOfTwo::try_from(1usize).is_ok());

    assert!(PowerOfTwo::try_from(1i8).is_ok());
    assert!(PowerOfTwo::try_from(1i16).is_ok());
    assert!(PowerOfTwo::try_from(1i32).is_ok());
    assert!(PowerOfTwo::try_from(1i64).is_ok());
    assert!(PowerOfTwo::try_from(1i128).is_ok());
    assert!(PowerOfTwo::try_from(1isize).is_ok());
}

#[test]
fn power_of_two_can_be_converted_into_u128() {
    let power_of_two = PowerOfTwo::try_from(1u8).unwrap();
    assert_eq!(u128::from(power_of_two), 1u128);
}

#[test]
fn parse_refuses_zero_with_its_value() {
    assert!(matches!(
        PowerOfTwo::parse(0),
        Err(PowerOfTwoError::InvalidPowerOfTwo(0))
    ));
}

#[test]
fn parse_refuses_three_with_its_value() {
    assert!(matches!(
        PowerOfTwo::parse(3),
        Err(PowerOfTwoError::InvalidPowerOfTwo(3))
    ));
}

#[test]
fn parse_refuses_the_largest_number() {
    assert!(matches!(
        PowerOfTwo::parse(u128::MAX),
        Err(PowerOfTwoError::InvalidPowerOfTwo(u128::MAX))
    ));
}

#[test]
fn parse_accepts_exactly_the_single_bit_numbers_below_4096() {
    for number in 0u128..4096 {
        assert_eq!(
            PowerOfTwo::parse(number).is_ok(),
            number.count_ones() == 1,
            "{}",
            number
        );
    }
}

#[test]
fn one_renders_with_exponent_zero() {
    assert_eq!(PowerOfTwo::parse(1).unwrap().to_string(), "2^0 (1)");
}

#[test]
fn four_renders_with_exponent_two() {
    assert_eq!(PowerOfTwo::parse(4).unwrap().to_string(), "2^2 (4)");
}

#[test]
fn eight_from_i8_renders_with_exponent_three() {
    let eight: PowerOfTwo = 8i8.try_into().unwrap();
    assert_eq!(eight.to_string(), "2^3 (8)");
}

#[test]
fn a_thousand_and_twenty_four_renders_with_two_digit_exponent() {
    assert_eq!(PowerOfTwo::parse(1024).unwrap().to_string(), "2^10 (1024)");
}

#[test]
fn the_largest_power_renders_in_full() {
    assert_eq!(
        PowerOfTwo::parse(1 << 127).unwrap().to_string(),
        "2^127 (170141183460469231731687303715884105728)"
    );
}

#[test]
fn every_power_renders_as_exponent_and_value() {
    for k in 0..128u32 {
        let number: u128 = 1 << k;
        let expected = format!("2^{} ({})", k, number);
        assert_eq!(PowerOfTwo::parse(number).unwrap().to_string(), expected);
    }
}

#[test]
fn every_power_comes_back_unchanged() {
    for k in 0..128u32 {
        let number: u128 = 1 << k;
        assert_eq!(u128::from(PowerOfTwo::parse(number).unwrap()), number);
    }
}

#[test]
fn successors_of_powers_are_refused_with_their_value() {
    for k in 1..128u32 {
        let number: u128 = (1 << k) + 1;
        match PowerOfTwo::parse(number) {
            Err(PowerOfTwoError::InvalidPowerOfTwo(n)) => assert_eq!(n, number),
            other => panic!("{:?}", other),
        }
    }
}

#[test]
fn unsigned_five_is_refused_as_no_power_of_two() {
    assert!(matches!(
        PowerOfTwo::try_from(5u8),
        Err(PowerOfTwoError::InvalidPowerOfTwo(5))
    ));
    assert!(matches!(
        PowerOfTwo::try_from(5u16),
        Err(PowerOfTwoError::InvalidPowerOfTwo(5))
    ));
    assert!(matches!(
        PowerOfTwo::try_from(5u32),
        Err(PowerOfTwoError::InvalidPowerOfTwo(5))
    ));
    assert!(matches!(
        PowerOfTwo::try_from(5u64),
        Err(PowerOfTwoError::InvalidPowerOfTwo(5))
    ));
    assert!(matches!(
        PowerOfTwo::try_from(5u128),
        Err(PowerOfTwoError::InvalidPowerOfTwo(5))
    ));
    assert!(matches!(
        PowerOfTwo::try_from(5usize),
        Err(PowerOfTwoError::InvalidPowerOfTwo(5))
    ));
}

#[test]
fn negative_one_is_refused_under_its_own_width() {
    assert!(matches!(
        PowerOfTwo::try_from(-1i8),
        Err(PowerOfTwoError::InvalidInputi8(-1))
    ));
    assert!(matches!(
        PowerOfTwo::try_from(-1i16),
        Err(PowerOfTwoError::InvalidInputi16(-1))
    ));
    assert!(matches!(
        PowerOfTwo::try_from(-1i32),
        Err(PowerOfTwoError::InvalidInputi32(-1))
    ));
    assert!(matches!(
        PowerOfTwo::try_from(-1i64),
        Err(PowerOfTwoError::InvalidInputi64(-1))
    ));
    assert!(matches!(
        PowerOfTwo::try_from(-1i128),
        Err(PowerOfTwoError::InvalidInputi128(-1))
    ));
    assert!(matches!(
        PowerOfTwo::try_from(-1isize),
        Err(PowerOfTwoError::InvalidInputisize(-1))
    ));
}

#[test]
fn the_least_of_each_signed_width_is_refused_under_its_own_width() {
    assert!(matches!(
        PowerOfTwo::try_from(i8::MIN),
        Err(PowerOfTwoError::InvalidInputi8(i8::MIN))
    ));
    assert!(matches!(
        PowerOfTwo::try_from(i16::MIN),
        Err(PowerOfTwoError::InvalidInputi16(i16::MIN))
    ));
    assert!(matches!(
        PowerOfTwo::try_from(i32::MIN),
        Err(PowerOfTwoError::InvalidInputi32(i32::MIN))
    ));
    assert!(matches!(
        PowerOfTwo::try_from(i64::MIN),
        Err(PowerOfTwoError::InvalidInputi64(i64::MIN))
    ));
    assert!(matches!(
        PowerOfTwo::try_from(i128::MIN),
        Err(PowerOfTwoError::InvalidInputi128(i128::MIN))
    ));
    assert!(matches!(
        PowerOfTwo::try_from(isize::MIN),
        Err(PowerOfTwoError::InvalidInputisize(isize::MIN))
    ));
}

#[test]
fn signed_zero_is_refused_as_no_power_of_two() {
    assert!(matches!(
        PowerOfTwo::try_from(0i8),
        Err(PowerOfTwoError::InvalidPowerOfTwo(0))
    ));
    assert!(matches!(
        PowerOfTwo::try_from(0i128),
        Err(PowerOfTwoError::InvalidPowerOfTwo(0))
    ));
}

#[test]
fn non_negative_i8_converts_as_u8_does() {
    for value in 0..=i8::MAX {
        let signed = PowerOfTwo::try_from(value);
        let unsigned = PowerOfTwo::try_from(value as u8);
        match (signed, unsigned) {
            (Ok(a), Ok(b)) => assert_eq!(a, b),
            (
                Err(PowerOfTwoError::InvalidPowerOfTwo(a)),
                Err(PowerOfTwoError::InvalidPowerOfTwo(b)),
            ) => assert_eq!(a, b),
            other => panic!("{:?}", other),
        }
    }
}

#[test]
fn the_largest_power_of_each_width_is_accepted() {
    assert_eq!(u128::from(PowerOfTwo::try_from(1u8 << 7).unwrap()), 1 << 7);
    assert_eq!(u128::from(PowerOfTwo::try_from(1u16 << 15).unwrap()), 1 << 15);
    assert_eq!(u128::from(PowerOfTwo::try_from(1u32 << 31).unwrap()), 1 << 31);
    assert_eq!(u128::from(PowerOfTwo::try_from(1u64 << 63).unwrap()), 1 << 63);
    assert_eq!(u128::from(PowerOfTwo::try_from(1u128 << 127).unwrap()), 1 << 127);
    assert_eq!(u128::from(PowerOfTwo::try_from(1i8 << 6).unwrap()), 1 << 6);
    assert_eq!(u128::from(PowerOfTwo::try_from(1i16 << 14).unwrap()), 1 << 14);
    assert_eq!(u128::from(PowerOfTwo::try_from(1i32 << 30).unwrap()), 1 << 30);
    assert_eq!(u128::from(PowerOfTwo::try_from(1i64 << 62).unwrap()), 1 << 62);
    assert_eq!(u128::from(PowerOfTwo::try_from(1i128 << 126).unwrap()), 1 << 126);
}

#[test]
fn the_largest_of_each_signed_width_is_refused_as_no_power_of_two() {
    assert!(matches!(
        PowerOfTwo::try_from(i8::MAX),
        Err(PowerOfTwoError::InvalidPowerOfTwo(127))
    ));
    assert!(matches!(
        PowerOfTwo::try_from(i64::MAX),
        Err(PowerOfTwoError::InvalidPowerOfTwo(9223372036854775807))
    ));
}

#[test]
fn values_are_ordered_and_compared_by_magnitude() {
    let two = PowerOfTwo::parse(2).unwrap();
    let four = PowerOfTwo::parse(4).unwrap();
    assert!(two < four);
    assert!(four > two);
    assert_eq!(two, PowerOfTwo::try_from(2i32).unwrap());
    assert_ne!(two, four);
    assert_eq!(two.max(four), four);
}

#[test]
fn a_copy_keeps_the_magnitude() {
    let sixteen = PowerOfTwo::parse(16).unwrap();
    let copy = sixteen;
    assert_eq!(u128::from(copy), 16);
    assert_eq!(u128::from(sixteen.clone()), 16);
}
