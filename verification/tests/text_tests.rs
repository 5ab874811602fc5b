use replicode::text::{decimal_string, push_decimal};

#[test]
fn decimal_numerals() {
    assert_eq!(decimal_string(0), "0");
    assert_eq!(decimal_string(7), "7");
    assert_eq!(decimal_string(9), "9");
    assert_eq!(decimal_string(10), "10");
    assert_eq!(decimal_string(99), "99");
    assert_eq!(decimal_string(100), "100");
    assert_eq!(decimal_string(4095), "4095");
    assert_eq!(decimal_string(1234567890), "1234567890");
    assert_eq!(decimal_string(u64::MAX), "18446744073709551615");
}

#[test]
fn decimal_numerals_agree_with_the_standard_library() {
    let mut n: u64 = 1;
    for _ in 0..64 {
        assert_eq!(decimal_string(n), n.to_string());
        assert_eq!(decimal_string(n - 1), (n - 1).to_string());
        n = n.wrapping_mul(3).wrapping_add(7);
    }
}

#[test]
fn push_decimal_appends() {
    let mut out = String::from("n = ");
    push_decimal(&mut out, 305);
    assert_eq!(out, "n = 305");
    push_decimal(&mut out, 0);
    assert_eq!(out, "n = 3050");
}
