use sendflare_sdk::decimal::to_decimal;

#[test]
fn decimal_of_small_numbers() {
    assert_eq!(to_decimal(0), "0");
    assert_eq!(to_decimal(1), "1");
    assert_eq!(to_decimal(9), "9");
    assert_eq!(to_decimal(10), "10");
    assert_eq!(to_decimal(-1), "-1");
    assert_eq!(to_decimal(-10), "-10");
    assert_eq!(to_decimal(1234567890), "1234567890");
    assert_eq!(to_decimal(100200), "100200");
}

#[test]
fn decimal_of_the_ends_of_the_range() {
    assert_eq!(to_decimal(i32::MAX), "2147483647");
    assert_eq!(to_decimal(i32::MIN), "-2147483648");
}

#[test]
fn decimal_agrees_with_the_standard_library() {
    let mut n: i32 = -1000003;
    while n < 1000003 {
        assert_eq!(to_decimal(n), n.to_string());
        n += 7919;
    }
}
