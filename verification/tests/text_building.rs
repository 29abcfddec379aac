use ding_rs::text::{joined, decimal, write_decimal};

#[test]
fn decimal_writes_plain_numerals() {
    assert_eq!(decimal(0), "0");
    assert_eq!(decimal(7), "7");
    assert_eq!(decimal(10), "10");
    assert_eq!(decimal(1234567890), "1234567890");
    assert_eq!(decimal(u64::MAX), "18446744073709551615");
    for n in [9u64, 99, 100, 101, 4096, 1_000_000_007] {
        assert_eq!(decimal(n), n.to_string());
    }
}

#[test]
fn write_decimal_appends_to_what_is_there() {
    let mut s = String::from("offset=");
    write_decimal(&mut s, 250);
    assert_eq!(s, "offset=250");
    write_decimal(&mut s, 0);
    assert_eq!(s, "offset=2500");
}

#[test]
fn joined_keeps_order() {
    assert_eq!(joined("Token ", "abc"), "Token abc");
    assert_eq!(joined("", ""), "");
    assert_eq!(joined("a", ""), "a");
    assert_eq!(joined("", "b"), "b");
}
