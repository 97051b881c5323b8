use clu_full_transmute::decimal::decimal_string;

#[test]
fn single_digits() {
    assert_eq!(decimal_string(0), "0");
    assert_eq!(decimal_string(7), "7");
    assert_eq!(decimal_string(9), "9");
}

#[test]
fn carries_and_zero_digits() {
    assert_eq!(decimal_string(10), "10");
    assert_eq!(decimal_string(100), "100");
    assert_eq!(decimal_string(305), "305");
    assert_eq!(decimal_string(1_000), "1000");
}

#[test]
fn every_digit_appears() {
    assert_eq!(decimal_string(1_234_567_890), "1234567890");
}

#[test]
fn large_values() {
    assert_eq!(decimal_string(4_294_967_295), "4294967295");
}
