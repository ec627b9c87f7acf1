use toolbox::number::{decimal, decimal_chars, parse_unsigned};
use toolbox::text::{begins_with, chars_of, comes_before, joined, same_chars, same_text, starts_with, string_of};

#[test]
fn parse_unsigned_reads_digits() {
    assert_eq!(parse_unsigned("0", 10), Some(0));
    assert_eq!(parse_unsigned("7", 10), Some(7));
    assert_eq!(parse_unsigned("10", 10), Some(10));
    assert_eq!(parse_unsigned("+10", 10), Some(10));
    assert_eq!(parse_unsigned("0010", 10), Some(10));
    assert_eq!(parse_unsigned("18446744073709551615", u64::MAX), Some(u64::MAX));
    assert_eq!(parse_unsigned("0", 0), Some(0));
}

#[test]
fn parse_unsigned_refuses_what_is_no_number_within_the_bound() {
    assert_eq!(parse_unsigned("11", 10), None);
    assert_eq!(parse_unsigned("18446744073709551616", u64::MAX), None);
    assert_eq!(parse_unsigned("99999999999999999999999", u64::MAX), None);
    assert_eq!(parse_unsigned("1", 0), None);
    assert_eq!(parse_unsigned("", 10), None);
    assert_eq!(parse_unsigned("+", 10), None);
    assert_eq!(parse_unsigned("++1", 10), None);
    assert_eq!(parse_unsigned("-1", 10), None);
    assert_eq!(parse_unsigned("1 ", 10), None);
    assert_eq!(parse_unsigned("1_0", 10), None);
    assert_eq!(parse_unsigned("\u{661}", 10), None);
    assert_eq!(parse_unsigned("99x", 10), None);
}

#[test]
fn decimal_writes_without_leading_zeros() {
    assert_eq!(decimal(0), "0");
    assert_eq!(decimal(9), "9");
    assert_eq!(decimal(10), "10");
    assert_eq!(decimal(3493), "3493");
    assert_eq!(decimal(u64::MAX), "18446744073709551615");
    assert_eq!(decimal_chars(105), vec!['1', '0', '5']);
}

#[test]
fn reading_inverts_writing_of_numbers() {
    for n in [0, 1, 9, 10, 99, 100, 65535, 4294967295, u64::MAX] {
        assert_eq!(parse_unsigned(&decimal(n), u64::MAX), Some(n));
    }
}

#[test]
fn strings_and_their_characters() {
    assert_eq!(chars_of("a\u{e4}\u{1F50B}"), vec!['a', '\u{e4}', '\u{1F50B}']);
    assert_eq!(chars_of(""), Vec::<char>::new());
    assert_eq!(string_of(&['a', '\u{e4}', '\u{1F50B}']), "a\u{e4}\u{1F50B}");
    assert_eq!(joined("ab", "cd"), "abcd");
    assert!(same_text("abc", "abc"));
    assert!(!same_text("abc", "abd"));
    assert!(!same_text("abc", "ab"));
    assert!(same_chars(&['a'], &['a']));
    assert!(!same_chars(&['a'], &[]));
}

#[test]
fn prefixes() {
    assert!(starts_with("BEGIN LIST UPS", "BEGIN LIST UPS"));
    assert!(starts_with("BEGIN LIST UPS now", "BEGIN LIST UPS"));
    assert!(starts_with("anything", ""));
    assert!(!starts_with("BEGIN LIST", "BEGIN LIST UPS"));
    assert!(!starts_with("begin list ups", "BEGIN LIST UPS"));
    assert!(begins_with(&['a', 'b'], &['a']));
    assert!(!begins_with(&['a', 'b'], &['b']));
}

#[test]
fn the_order_of_strings() {
    assert!(comes_before("a", "b"));
    assert!(!comes_before("b", "a"));
    assert!(!comes_before("a", "a"));
    assert!(comes_before("", "a"));
    assert!(!comes_before("a", ""));
    assert!(!comes_before("", ""));
    assert!(comes_before("ups", "ups.status"));
    assert!(comes_before("B", "a"));
    assert!(comes_before("z", "\u{e4}"));
    assert!(comes_before("\u{ffff}", "\u{10000}"));
    let mut words = vec!["b", "", "a\u{e4}", "ab", "B", "\u{1F50B}", "a"];
    let mut sorted = words.clone();
    sorted.sort();
    words.sort_by(|x, y| {
        if comes_before(x, y) {
            std::cmp::Ordering::Less
        } else if comes_before(y, x) {
            std::cmp::Ordering::Greater
        } else {
            std::cmp::Ordering::Equal
        }
    });
    assert_eq!(words, sorted);
}
