use catalog_export::decimal::{decimal_string, signed_decimal_string, zero_padded_string};

#[test]
fn single_digits() {
    for (n, text) in [(0u64, "0"), (1, "1"), (2, "2"), (3, "3"), (4, "4"), (5, "5"), (6, "6"), (7, "7"), (8, "8"), (9, "9")] {
        assert_eq!(decimal_string(n), text);
    }
}

#[test]
fn several_digits() {
    assert_eq!(decimal_string(10), "10");
    assert_eq!(decimal_string(250), "250");
    assert_eq!(decimal_string(1_000_000), "1000000");
    assert_eq!(decimal_string(9_007_199_254_740_993), "9007199254740993");
}

#[test]
fn largest_numbers() {
    assert_eq!(decimal_string(u32::MAX as u64), "4294967295");
    assert_eq!(decimal_string(u64::MAX), "18446744073709551615");
}

#[test]
fn decimal_agrees_with_std() {
    let mut n: u64 = 1;
    for _ in 0..64 {
        assert_eq!(decimal_string(n), n.to_string());
        assert_eq!(decimal_string(n - 1), (n - 1).to_string());
        n = n.wrapping_mul(2);
    }
}

#[test]
fn signed_numbers() {
    assert_eq!(signed_decimal_string(0), "0");
    assert_eq!(signed_decimal_string(17), "17");
    assert_eq!(signed_decimal_string(-1), "-1");
    assert_eq!(signed_decimal_string(-250), "-250");
    assert_eq!(signed_decimal_string(i64::MAX), "9223372036854775807");
    assert_eq!(signed_decimal_string(i64::MIN), "-9223372036854775808");
}

#[test]
fn zero_padding() {
    assert_eq!(zero_padded_string(7, 2), "07");
    assert_eq!(zero_padded_string(12, 2), "12");
    assert_eq!(zero_padded_string(123, 2), "123");
    assert_eq!(zero_padded_string(0, 4), "0000");
    assert_eq!(zero_padded_string(2026, 4), "2026");
    assert_eq!(zero_padded_string(5, 0), "5");
    assert_eq!(zero_padded_string(5, 1), "5");
}
