use emigui::decimal::decimal;
use emigui::decimal::digits;

#[test]
fn single_digits() {
    assert_eq!(decimal(0), "0");
    assert_eq!(decimal(7), "7");
    assert_eq!(decimal(9), "9");
}

#[test]
fn several_digits() {
    assert_eq!(decimal(10), "10");
    assert_eq!(decimal(50), "50");
    assert_eq!(decimal(1234567890), "1234567890");
    assert_eq!(decimal(1000), "1000");
}

#[test]
fn negative_numbers_carry_a_sign() {
    assert_eq!(decimal(-1), "-1");
    assert_eq!(decimal(-305), "-305");
}

#[test]
fn the_ends_of_the_range() {
    assert_eq!(decimal(i32::MAX), "2147483647");
    assert_eq!(decimal(i32::MIN), "-2147483648");
}

#[test]
fn digits_of_unsigned_numbers() {
    assert_eq!(digits(0), "0");
    assert_eq!(digits(42), "42");
    assert_eq!(digits(u32::MAX), "4294967295");
}

#[test]
fn decimal_agrees_with_the_standard_formatting() {
    let mut v: i32 = -2500;
    while v <= 2500 {
        assert_eq!(decimal(v), format!("{}", v));
        v += 7;
    }
}
