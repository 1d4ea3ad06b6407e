use sway_engines::text::decimal_string;
use sway_engines::text::push_decimal;

#[test]
fn decimal_numerals_have_no_leading_zeros() {
    assert_eq!(decimal_string(0), "0");
    assert_eq!(decimal_string(7), "7");
    assert_eq!(decimal_string(10), "10");
    assert_eq!(decimal_string(256), "256");
    assert_eq!(decimal_string(1_000_000), "1000000");
    assert_eq!(decimal_string(u64::MAX), "18446744073709551615");
}

#[test]
fn push_decimal_appends() {
    let mut s = String::from("u");
    push_decimal(&mut s, 64);
    assert_eq!(s, "u64");
    push_decimal(&mut s, 0);
    assert_eq!(s, "u640");
}
