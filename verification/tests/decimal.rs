use destructive_changes_checker::text::{push_decimal, push_decimal_nat};

fn decimal(n: i64) -> String {
    let mut out = String::new();
    push_decimal(&mut out, n);
    out
}

#[test]
fn single_digits() {
    let digits = ["0", "1", "2", "3", "4", "5", "6", "7", "8", "9"];
    for (n, digit) in digits.iter().enumerate() {
        assert_eq!(decimal(n as i64), *digit);
    }
}

#[test]
fn several_digits_have_no_leading_zero() {
    assert_eq!(decimal(10), "10");
    assert_eq!(decimal(42), "42");
    assert_eq!(decimal(100), "100");
    assert_eq!(decimal(1090), "1090");
    assert_eq!(decimal(1234567890), "1234567890");
}

#[test]
fn negative_numbers_have_a_minus_sign() {
    assert_eq!(decimal(-1), "-1");
    assert_eq!(decimal(-10), "-10");
    assert_eq!(decimal(-907), "-907");
}

#[test]
fn the_ends_of_the_range() {
    assert_eq!(decimal(i64::MAX), "9223372036854775807");
    assert_eq!(decimal(i64::MIN), "-9223372036854775808");
    assert_eq!(decimal(i64::MIN + 1), "-9223372036854775807");
}

#[test]
fn the_numeral_is_appended_to_what_is_there() {
    let mut out = String::from("rows: ");
    push_decimal(&mut out, 15);
    out.push_str(", values: ");
    push_decimal(&mut out, -3);
    assert_eq!(out, "rows: 15, values: -3");
}

#[test]
fn naturals_up_to_the_largest() {
    let mut out = String::new();
    push_decimal_nat(&mut out, 0);
    out.push(' ');
    push_decimal_nat(&mut out, u64::MAX);
    assert_eq!(out, "0 18446744073709551615");
}

#[test]
fn agrees_with_the_standard_formatting() {
    let mut n: i64 = 1;
    for _ in 0..62 {
        assert_eq!(decimal(n), n.to_string());
        assert_eq!(decimal(-n), (-n).to_string());
        assert_eq!(decimal(n - 1), (n - 1).to_string());
        n *= 2;
    }
}

#[test]
fn a_numeral_read_back_gives_the_number() {
    for n in [0, 7, -7, 10, -10, 99, 100, -12345, i64::MAX, i64::MIN] {
        let numeral = decimal(n);
        assert!(!numeral.is_empty());
        assert_eq!(numeral.parse::<i64>(), Ok(n));
    }
}
