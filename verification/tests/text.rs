use l1_chain_analyzer::text::{
    format_decimal, parse_decimal, push_decimal, str_equals, strip_spaces,
};

#[test]
fn equal_texts_are_equal() {
    assert!(str_equals("", ""));
    assert!(str_equals("Ethereum", "Ethereum"));
    assert!(str_equals("zkSync Era", "zkSync Era"));
    assert!(str_equals("héllo wörld", "héllo wörld"));
}

#[test]
fn different_texts_are_not_equal() {
    assert!(!str_equals("Ethereum", "ethereum"));
    assert!(!str_equals("Ethereum", "Ethereu"));
    assert!(!str_equals("Ethereu", "Ethereum"));
    assert!(!str_equals("", "a"));
    assert!(!str_equals("a", ""));
    assert!(!str_equals("abc", "abd"));
    assert!(!str_equals("e", "é"));
}

#[test]
fn spaces_are_dropped_and_order_is_kept() {
    assert_eq!(strip_spaces("zksync era"), "zksyncera");
    assert_eq!(strip_spaces(" a b  c "), "abc");
    assert_eq!(strip_spaces("   "), "");
    assert_eq!(strip_spaces(""), "");
    assert_eq!(strip_spaces("nospace"), "nospace");
}

#[test]
fn only_the_space_character_is_dropped() {
    assert_eq!(strip_spaces("a\tb\nc"), "a\tb\nc");
    assert_eq!(strip_spaces("a\u{a0}b"), "a\u{a0}b");
    assert_eq!(strip_spaces("é è"), "éè");
}

#[test]
fn plain_numerals_are_read() {
    assert_eq!(parse_decimal("0"), Some(0));
    assert_eq!(parse_decimal("7"), Some(7));
    assert_eq!(parse_decimal("100"), Some(100));
    assert_eq!(parse_decimal("1000000000"), Some(1_000_000_000));
    assert_eq!(parse_decimal("999999000"), Some(999_999_000));
}

#[test]
fn leading_zeros_and_plus_sign_are_accepted() {
    assert_eq!(parse_decimal("007"), Some(7));
    assert_eq!(parse_decimal("+5"), Some(5));
    assert_eq!(parse_decimal("+000"), Some(0));
    assert_eq!(parse_decimal("00000000000000000000000000000001"), Some(1));
}

#[test]
fn the_largest_value_is_read_and_the_next_is_not() {
    assert_eq!(parse_decimal("18446744073709551615"), Some(u64::MAX));
    assert_eq!(parse_decimal("18446744073709551616"), None);
    assert_eq!(parse_decimal("18446744073709551620"), None);
    assert_eq!(parse_decimal("99999999999999999999"), None);
    assert_eq!(parse_decimal("184467440737095516150"), None);
}

#[test]
fn texts_that_are_no_numeral_are_refused() {
    assert_eq!(parse_decimal(""), None);
    assert_eq!(parse_decimal("+"), None);
    assert_eq!(parse_decimal("++1"), None);
    assert_eq!(parse_decimal("1+"), None);
    assert_eq!(parse_decimal("-1"), None);
    assert_eq!(parse_decimal("-0"), None);
    assert_eq!(parse_decimal(" 1"), None);
    assert_eq!(parse_decimal("1 "), None);
    assert_eq!(parse_decimal("12a"), None);
    assert_eq!(parse_decimal("a12"), None);
    assert_eq!(parse_decimal("1.5"), None);
    assert_eq!(parse_decimal("1e3"), None);
    assert_eq!(parse_decimal("0x10"), None);
    assert_eq!(parse_decimal("1_000"), None);
    assert_eq!(parse_decimal("١٢٣"), None);
    assert_eq!(parse_decimal("１２"), None);
}

#[test]
fn reading_agrees_with_the_standard_parser() {
    let samples = [
        "", "0", "+", "+1", "-1", "42", "0042", "18446744073709551615", "18446744073709551616",
        "1a", "a1", " 7", "7 ", "+-7", "9999999999999999999", "１２",
    ];
    for text in samples {
        assert_eq!(parse_decimal(text), text.parse::<u64>().ok(), "{text:?}");
    }
}

#[test]
fn numbers_are_written_without_sign_or_padding() {
    assert_eq!(format_decimal(0), "0");
    assert_eq!(format_decimal(9), "9");
    assert_eq!(format_decimal(10), "10");
    assert_eq!(format_decimal(37), "37");
    assert_eq!(format_decimal(1_000_000), "1000000");
    assert_eq!(format_decimal(u64::MAX as u128), "18446744073709551615");
    assert_eq!(format_decimal(u128::MAX), "340282366920938463463374607431768211455");
}

#[test]
fn numerals_are_appended_to_what_is_there() {
    let mut out = String::from("n=");
    push_decimal(&mut out, 405);
    assert_eq!(out, "n=405");
    push_decimal(&mut out, 0);
    assert_eq!(out, "n=4050");
}

#[test]
fn what_is_written_is_read_back() {
    let samples: [u64; 9] = [0, 1, 9, 10, 99, 100, 12_345, 4_294_967_296, u64::MAX];
    for n in samples {
        assert_eq!(parse_decimal(&format_decimal(n as u128)), Some(n));
    }
}
