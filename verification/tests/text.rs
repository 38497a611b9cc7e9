//! Numbers in decimal and text from characters.

use knot::text::{chars_of, decimal, join, join3, text_of};

#[test]
fn decimal_of_single_digits() {
    assert_eq!(decimal(0), "0");
    assert_eq!(decimal(7), "7");
    assert_eq!(decimal(9), "9");
}

#[test]
fn decimal_of_several_digits() {
    assert_eq!(decimal(10), "10");
    assert_eq!(decimal(255), "255");
    assert_eq!(decimal(1_000_000), "1000000");
    assert_eq!(decimal(4_294_967_295), "4294967295");
    assert_eq!(decimal(u64::MAX), "18446744073709551615");
}

#[test]
fn text_splits_into_characters_and_back() {
    let chars = chars_of("a\u{e9}\u{65e5}\u{1f510}");
    assert_eq!(chars, vec!['a', '\u{e9}', '\u{65e5}', '\u{1f510}']);
    assert_eq!(text_of(&chars), "a\u{e9}\u{65e5}\u{1f510}");
    assert_eq!(chars_of(""), Vec::<char>::new());
    assert_eq!(text_of(&Vec::new()), "");
}

#[test]
fn joining_keeps_order() {
    assert_eq!(join("ab", "cd"), "abcd");
    assert_eq!(join("", ""), "");
    assert_eq!(join3("a", "", "c"), "ac");
    assert_eq!(join3("x (", "2", ")"), "x (2)");
}
