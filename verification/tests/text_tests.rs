use asimov_readwise_module::text::chars_of;
use asimov_readwise_module::text::is_prefix;
use asimov_readwise_module::text::push_decimal;
use asimov_readwise_module::text::str_eq;

fn decimal(n: u64) -> String {
    let mut out = String::new();
    push_decimal(&mut out, n);
    out
}

#[test]
fn decimal_numerals_are_exact() {
    assert_eq!(decimal(0), "0");
    assert_eq!(decimal(7), "7");
    assert_eq!(decimal(10), "10");
    assert_eq!(decimal(100), "100");
    assert_eq!(decimal(1234567890), "1234567890");
    assert_eq!(decimal(u64::MAX), "18446744073709551615");
}

#[test]
fn push_decimal_appends() {
    let mut out = "page=".to_string();
    push_decimal(&mut out, 42);
    assert_eq!(out, "page=42");
}

#[test]
fn chars_of_gives_every_character() {
    assert_eq!(chars_of(""), Vec::<char>::new());
    assert_eq!(chars_of("a\u{e9}\u{4e2d}"), vec!['a', '\u{e9}', '\u{4e2d}']);
}

#[test]
fn prefix_tests_are_literal() {
    assert!(is_prefix(&chars_of("https://readwise.io/"), &chars_of("https://readwise.io/books")));
    assert!(is_prefix(&chars_of(""), &chars_of("abc")));
    assert!(is_prefix(&chars_of(""), &chars_of("")));
    assert!(is_prefix(&chars_of("abc"), &chars_of("abc")));
    assert!(!is_prefix(&chars_of("abcd"), &chars_of("abc")));
    assert!(!is_prefix(&chars_of("Abc"), &chars_of("abc")));
    assert!(!is_prefix(&chars_of("a"), &chars_of("")));
    assert!(is_prefix(&vec!['a'], &vec!['a', 'b']));
    assert!(!is_prefix(&vec!['b'], &vec!['a', 'b']));
}

#[test]
fn string_equality_is_exact() {
    assert!(str_eq("", ""));
    assert!(str_eq("name", "name"));
    assert!(!str_eq("name", "Name"));
    assert!(!str_eq("name", "names"));
    assert!(!str_eq("names", "name"));
}
