use greeter::decimal::u32_to_decimal;

#[test]
fn single_digits() {
    assert_eq!(u32_to_decimal(0), "0");
    assert_eq!(u32_to_decimal(5), "5");
    assert_eq!(u32_to_decimal(9), "9");
}

#[test]
fn multiple_digits() {
    assert_eq!(u32_to_decimal(10), "10");
    assert_eq!(u32_to_decimal(30), "30");
    assert_eq!(u32_to_decimal(1234567890), "1234567890");
}

#[test]
fn interior_and_trailing_zeros() {
    assert_eq!(u32_to_decimal(100), "100");
    assert_eq!(u32_to_decimal(90007), "90007");
}

#[test]
fn largest_value() {
    assert_eq!(u32_to_decimal(u32::MAX), "4294967295");
}
