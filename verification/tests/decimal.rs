use binexp::decimal::{push_decimal, to_decimal};

#[test]
fn zero_is_a_single_digit() {
    assert_eq!(to_decimal(0), "0");
}

#[test]
fn single_digits_are_written_alone() {
    let digits = ["0", "1", "2", "3", "4", "5", "6", "7", "8", "9"];
    for (value, digit) in digits.iter().enumerate() {
        assert_eq!(to_decimal(value as u128), *digit);
    }
}

#[test]
fn ten_has_two_digits() {
    assert_eq!(to_decimal(10), "10");
}

#[test]
fn digits_come_most_significant_first() {
    assert_eq!(to_decimal(1234567890), "1234567890");
}

#[test]
fn the_largest_number_is_written_in_full() {
    assert_eq!(
        to_decimal(u128::MAX),
        "340282366920938463463374607431768211455"
    );
}

#[test]
fn decimal_agrees_with_the_standard_rendering() {
    let mut value: u128 = 1;
    for _ in 0..38 {
        assert_eq!(to_decimal(value), format!("{}", value));
        assert_eq!(to_decimal(value - 1), format!("{}", value - 1));
        value *= 10;
    }
}

#[test]
fn push_decimal_keeps_what_was_there() {
    let mut text = String::from("n = ");
    push_decimal(&mut text, 4096);
    assert_eq!(text, "n = 4096");
}
