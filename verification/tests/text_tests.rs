use loadramp::text::{chars_of, contains, push_decimal, push_line, starts_with};

fn decimal(n: u64) -> String {
    let mut text = String::new();
    push_decimal(&mut text, n);
    text
}

#[test]
fn decimal_of_single_digits() {
    assert_eq!(decimal(0), "0");
    assert_eq!(decimal(7), "7");
    assert_eq!(decimal(9), "9");
}

#[test]
fn decimal_of_several_digits() {
    assert_eq!(decimal(10), "10");
    assert_eq!(decimal(60), "60");
    assert_eq!(decimal(100), "100");
    assert_eq!(decimal(12345), "12345");
    assert_eq!(decimal(1000000007), "1000000007");
}

#[test]
fn decimal_of_the_largest_number() {
    assert_eq!(decimal(u64::MAX), "18446744073709551615");
}

#[test]
fn decimal_is_appended() {
    let mut text = String::from("TPS: ");
    push_decimal(&mut text, 20);
    assert_eq!(text, "TPS: 20");
}

#[test]
fn line_follows_a_line_break() {
    let mut text = String::new();
    push_line(&mut text, "first");
    assert_eq!(text, "\nfirst");
    push_line(&mut text, "second");
    assert_eq!(text, "\nfirst\nsecond");
    push_line(&mut text, "");
    assert_eq!(text, "\nfirst\nsecond\n");
}

#[test]
fn characters_of_a_text() {
    assert_eq!(chars_of(""), Vec::<char>::new());
    assert_eq!(chars_of("a\u{e9}\u{4e2d}"), vec!['a', '\u{e9}', '\u{4e2d}']);
}

#[test]
fn text_begins_with_a_prefix() {
    assert!(starts_with("http://a", "http"));
    assert!(starts_with("http", "http"));
    assert!(starts_with("anything", ""));
    assert!(starts_with("", ""));
    assert!(!starts_with("htt", "http"));
    assert!(!starts_with("xhttp", "http"));
    assert!(!starts_with("Http://a", "http"));
    assert!(!starts_with("", "http"));
    assert!(starts_with("\u{e9}t\u{e9}", "\u{e9}t"));
    assert!(!starts_with("\u{e9}t\u{e9}", "e"));
}

#[test]
fn text_holds_a_needle() {
    assert!(contains("localhost:80", "localhost"));
    assert!(contains("my.localhost", "localhost"));
    assert!(contains("a.localhost.b", "localhost"));
    assert!(contains("localhost", "localhost"));
    assert!(contains("anything", ""));
    assert!(contains("", ""));
    assert!(!contains("localhos", "localhost"));
    assert!(!contains("local-host", "localhost"));
    assert!(!contains("LOCALHOST", "localhost"));
    assert!(!contains("", "localhost"));
    assert!(contains("llocalhost", "localhost"));
    assert!(contains("locallocalhost", "localhost"));
    assert!(contains("caf\u{e9}s", "\u{e9}s"));
    assert!(contains("aab", "ab"));
    assert!(!contains("aba", "bb"));
}
