use arel::decimal::{int_to_string, is_fractional_decimal_str, uint_to_string};

#[test]
fn unsigned_zero_is_one_digit() {
    assert_eq!(uint_to_string(0), "0");
}

#[test]
fn unsigned_numbers_have_no_leading_zero() {
    assert_eq!(uint_to_string(7), "7");
    assert_eq!(uint_to_string(10), "10");
    assert_eq!(uint_to_string(1009), "1009");
}

#[test]
fn unsigned_largest_number() {
    assert_eq!(uint_to_string(u64::MAX), "18446744073709551615");
}

#[test]
fn signed_numbers_carry_a_minus_sign_only_when_negative() {
    assert_eq!(int_to_string(0), "0");
    assert_eq!(int_to_string(42), "42");
    assert_eq!(int_to_string(-1), "-1");
    assert_eq!(int_to_string(-120), "-120");
}

#[test]
fn signed_extremes() {
    assert_eq!(int_to_string(i64::MAX), "9223372036854775807");
    assert_eq!(int_to_string(i64::MIN), "-9223372036854775808");
}

#[test]
fn decimal_text_agrees_with_std() {
    for u in [0u64, 9, 10, 99, 100, 12345, 1 << 40, u64::MAX - 1] {
        assert_eq!(uint_to_string(u), u.to_string());
    }
    for i in [0i64, -9, -10, 99, -100, 12345, -(1 << 40), i64::MIN + 1] {
        assert_eq!(int_to_string(i), i.to_string());
    }
}

#[test]
fn fractional_decimal_accepts_numbers() {
    assert!(is_fractional_decimal_str("0"));
    assert!(is_fractional_decimal_str("10"));
    assert!(is_fractional_decimal_str("-7"));
    assert!(is_fractional_decimal_str("1.5"));
    assert!(is_fractional_decimal_str("-0.25"));
    assert!(is_fractional_decimal_str("0.000001"));
    assert!(is_fractional_decimal_str("100000000000000000000.0"));
}

#[test]
fn fractional_decimal_rejects_everything_else() {
    assert!(!is_fractional_decimal_str(""));
    assert!(!is_fractional_decimal_str("-"));
    assert!(!is_fractional_decimal_str("."));
    assert!(!is_fractional_decimal_str("1."));
    assert!(!is_fractional_decimal_str(".5"));
    assert!(!is_fractional_decimal_str("-.5"));
    assert!(!is_fractional_decimal_str("1..2"));
    assert!(!is_fractional_decimal_str("1.2.3"));
    assert!(!is_fractional_decimal_str("1e5"));
    assert!(!is_fractional_decimal_str("inf"));
    assert!(!is_fractional_decimal_str("NaN"));
    assert!(!is_fractional_decimal_str("1 "));
    assert!(!is_fractional_decimal_str(" 1"));
    assert!(!is_fractional_decimal_str("+1"));
    assert!(!is_fractional_decimal_str("--1"));
    assert!(!is_fractional_decimal_str("1-"));
    assert!(!is_fractional_decimal_str("\u{ff11}"));
    assert!(!is_fractional_decimal_str("1; DROP TABLE users"));
}

#[test]
fn fractional_decimal_accepts_what_std_writes_for_finite_floats() {
    for f in [0.0f64, 1.0, -1.5, 0.1, 1e-7, 1e21, f64::MAX, f64::MIN_POSITIVE] {
        assert!(is_fractional_decimal_str(&f.to_string()));
    }
    for f in [0.0f32, 2.5, -3.25, f32::MAX] {
        assert!(is_fractional_decimal_str(&f.to_string()));
    }
    assert!(!is_fractional_decimal_str(&f64::INFINITY.to_string()));
    assert!(!is_fractional_decimal_str(&f64::NAN.to_string()));
}
