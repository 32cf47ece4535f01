use daqhats_rs::decimal::{i32_decimal, u32_decimal};

#[test]
fn test_u32_decimal_single_digits() {
    assert_eq!(u32_decimal(0), "0");
    assert_eq!(u32_decimal(9), "9");
}

#[test]
fn test_u32_decimal_multiple_digits() {
    assert_eq!(u32_decimal(10), "10");
    assert_eq!(u32_decimal(322), "322");
    assert_eq!(u32_decimal(1234567890), "1234567890");
    assert_eq!(u32_decimal(u32::MAX), "4294967295");
}

#[test]
fn test_i32_decimal_signs() {
    assert_eq!(i32_decimal(0), "0");
    assert_eq!(i32_decimal(42), "42");
    assert_eq!(i32_decimal(-1), "-1");
    assert_eq!(i32_decimal(-10), "-10");
    assert_eq!(i32_decimal(i32::MAX), "2147483647");
    assert_eq!(i32_decimal(i32::MIN), "-2147483648");
}

#[test]
fn test_decimal_matches_formatter() {
    let codes: [i32; 7] = [0, 5, -5, 1000, -1000, 999999999, -999999999];
    for &code in codes.iter() {
        assert_eq!(i32_decimal(code), format!("{}", code));
    }
}
