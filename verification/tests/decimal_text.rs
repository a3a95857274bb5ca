use revault_gui::decimal::{i64_to_decimal, u64_to_decimal};

#[test]
fn single_digits_render_as_one_character() {
    assert_eq!(u64_to_decimal(0), "0");
    assert_eq!(u64_to_decimal(7), "7");
    assert_eq!(u64_to_decimal(9), "9");
}

#[test]
fn several_digits_render_most_significant_first() {
    assert_eq!(u64_to_decimal(10), "10");
    assert_eq!(u64_to_decimal(1234567890), "1234567890");
    assert_eq!(u64_to_decimal(4294967295), "4294967295");
}

#[test]
fn largest_unsigned_value_renders_in_full() {
    assert_eq!(u64_to_decimal(u64::MAX), "18446744073709551615");
}

#[test]
fn zeros_inside_a_number_are_kept() {
    assert_eq!(u64_to_decimal(1002003), "1002003");
    assert_eq!(u64_to_decimal(100), "100");
}

#[test]
fn negative_numbers_carry_a_minus_sign() {
    assert_eq!(i64_to_decimal(-1), "-1");
    assert_eq!(i64_to_decimal(-32601), "-32601");
}

#[test]
fn non_negative_numbers_carry_no_sign() {
    assert_eq!(i64_to_decimal(0), "0");
    assert_eq!(i64_to_decimal(42), "42");
    assert_eq!(i64_to_decimal(i64::MAX), "9223372036854775807");
}

#[test]
fn smallest_signed_value_renders_in_full() {
    assert_eq!(i64_to_decimal(i64::MIN), "-9223372036854775808");
}

#[test]
fn decimal_text_agrees_with_the_standard_rendering() {
    let samples: [u64; 8] = [0, 5, 10, 99, 100, 65535, 1_000_000_007, u64::MAX - 1];
    for n in samples {
        assert_eq!(u64_to_decimal(n), format!("{}", n));
    }
    let signed: [i64; 6] = [0, -9, -10, 2147483647, -2147483648, i64::MIN + 1];
    for n in signed {
        assert_eq!(i64_to_decimal(n), format!("{}", n));
    }
}
