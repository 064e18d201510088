use diself::text::{join, parse_u64, starts_with, str_eq, u64_to_string};

#[test]
fn numbers_are_written_in_decimal() {
    assert_eq!(u64_to_string(0), "0");
    assert_eq!(u64_to_string(9), "9");
    assert_eq!(u64_to_string(10), "10");
    assert_eq!(u64_to_string(41250), "41250");
    assert_eq!(u64_to_string(u64::MAX), "18446744073709551615");
    for n in [1u64, 99, 100, 101, 1_000_000, 3276799, 16381] {
        assert_eq!(u64_to_string(n), n.to_string());
    }
}

#[test]
fn numbers_are_read_from_decimal() {
    assert_eq!(parse_u64("0"), Some(0));
    assert_eq!(parse_u64("41250"), Some(41250));
    assert_eq!(parse_u64("+7"), Some(7));
    assert_eq!(parse_u64("000"), Some(0));
    assert_eq!(parse_u64("18446744073709551615"), Some(u64::MAX));
    assert_eq!(parse_u64("18446744073709551616"), None);
    assert_eq!(parse_u64("184467440737095516150"), None);
    assert_eq!(parse_u64(""), None);
    assert_eq!(parse_u64("+"), None);
    assert_eq!(parse_u64("-"), None);
    assert_eq!(parse_u64("-5"), None);
    assert_eq!(parse_u64("5+"), None);
    assert_eq!(parse_u64("1.0"), None);
    assert_eq!(parse_u64("é"), None);
}

#[test]
fn reading_undoes_writing() {
    for n in [0u64, 1, 9, 10, 255, 65536, u64::MAX - 1, u64::MAX] {
        assert_eq!(parse_u64(&u64_to_string(n)), Some(n));
    }
}

#[test]
fn prefixes_are_recognised() {
    assert!(starts_with("a_hash", "a_"));
    assert!(starts_with("a_", "a_"));
    assert!(!starts_with("a", "a_"));
    assert!(!starts_with("b_hash", "a_"));
    assert!(starts_with("anything", ""));
    assert!(starts_with("", ""));
    assert!(!starts_with("", "x"));
    assert!(starts_with("héllo", "hé"));
    assert!(!starts_with("héllo", "he"));
}

#[test]
fn equality_is_by_characters() {
    assert!(str_eq("READY", "READY"));
    assert!(!str_eq("READY", "ready"));
    assert!(!str_eq("READY", "READY "));
    assert!(str_eq("", ""));
}

#[test]
fn joining_puts_the_separator_between() {
    let none: Vec<String> = Vec::new();
    assert_eq!(join(&none, "&"), "");
    assert_eq!(join(&vec!["a".to_string()], "&"), "a");
    assert_eq!(join(&vec!["a".to_string(), "b".to_string()], "&"), "a&b");
    assert_eq!(join(&vec!["a".to_string(), "".to_string(), "c".to_string()], ", "), "a, , c");
    assert_eq!(join(&vec!["".to_string(), "".to_string()], "-"), "-");
}
