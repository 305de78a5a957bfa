use leo_bot::text::{
    copy_text, cut_before, cut_behind, has_prefix, join, own, push_decimal, same_text,
    strip_prefix, usual_notation,
};

fn decimal_of(n: u64) -> String {
    let mut text = String::from("n=");
    push_decimal(&mut text, n);
    text
}

#[test]
fn same_text_compares_characters() {
    assert!(same_text("", ""));
    assert!(same_text("größe", "größe"));
    assert!(!same_text("abc", "abd"));
    assert!(!same_text("abc", "ab"));
    assert!(!same_text("ab", "abc"));
}

#[test]
fn prefixes_are_stripped() {
    assert_eq!(strip_prefix("!askleo play x", "!askleo play "), Some("x"));
    assert_eq!(strip_prefix("!askleo play", "!askleo play "), None);
    assert_eq!(strip_prefix("äöü", "äö"), Some("ü"));
    assert_eq!(strip_prefix("abc", ""), Some("abc"));
    assert_eq!(strip_prefix("abc", "abc"), Some(""));
    assert!(has_prefix("abc", "ab"));
    assert!(!has_prefix("abc", "b"));
}

#[test]
fn text_is_cut_at_marks() {
    assert_eq!(cut_before("host:443:x", ':'), ("host", true));
    assert_eq!(cut_before("host", ':'), ("host", false));
    assert_eq!(cut_before(":443", ':'), ("", true));
    assert_eq!(cut_before("ümlaut:1", ':'), ("ümlaut", true));
    assert_eq!(cut_behind("a/b/c", '/'), "c");
    assert_eq!(cut_behind("abc", '/'), "abc");
    assert_eq!(cut_behind("abc/", '/'), "");
    assert_eq!(cut_behind("é.ü", '.'), "ü");
}

#[test]
fn decimals_are_written() {
    assert_eq!(decimal_of(0), "n=0");
    assert_eq!(decimal_of(10), "n=10");
    assert_eq!(decimal_of(9_876_543_210), "n=9876543210");
    assert_eq!(decimal_of(u64::MAX), "n=18446744073709551615");
}

#[test]
fn decimal_notation_reads_back() {
    for n in [0, 1, 9, 10, 99, 100, 2147483648, u64::MAX] {
        assert_eq!(decimal_of(n)[2..].parse::<u64>(), Ok(n));
    }
}

#[test]
fn copies_and_joins() {
    assert_eq!(own(Some("a")), Some(String::from("a")));
    assert_eq!(own(None), None);
    assert_eq!(copy_text(&Some(String::from("b"))), Some(String::from("b")));
    assert_eq!(copy_text(&None), None);
    assert_eq!(join("ab", "cd"), "abcd");
}

#[test]
fn numbers_get_their_usual_notation() {
    assert_eq!(usual_notation("0010"), Some(String::from("10")));
    assert_eq!(usual_notation("-0010"), Some(String::from("-10")));
    assert_eq!(usual_notation("+99999999999999999999999"), Some(String::from("99999999999999999999999")));
    assert_eq!(usual_notation("00"), Some(String::from("0")));
    for text in ["", "-", "+", "--1", "1-", "1 ", "x", "٣"] {
        assert_eq!(usual_notation(text), None, "{text}");
    }
}
