use townlink_server::text::{
    bool_str, chars_of, fill_template, i64_text, quoted_list, text_after_last, text_before_first,
    text_contains, text_eq, u64_text,
};
use townlink_server::timestamp::{Timestamp, MAX_SECS, MIN_SECS};

#[test]
fn integers_render_in_decimal() {
    assert_eq!(i64_text(0), "0");
    assert_eq!(i64_text(7), "7");
    assert_eq!(i64_text(-1234), "-1234");
    assert_eq!(i64_text(i64::MIN), i64::MIN.to_string());
    assert_eq!(i64_text(i64::MAX), i64::MAX.to_string());
    assert_eq!(u64_text(u64::MAX), u64::MAX.to_string());
    assert_eq!(u64_text(100), "100");
}

#[test]
fn booleans_render_as_words() {
    assert_eq!(bool_str(true), "true");
    assert_eq!(bool_str(false), "false");
}

#[test]
fn quoted_list_quotes_and_separates() {
    let v = vec!["a".to_string(), "".to_string(), "c d".to_string()];
    assert_eq!(quoted_list(&v), "'a', '', 'c d'");
    assert_eq!(quoted_list(&[]), "");
    assert_eq!(quoted_list(&["x".to_string()]), "'x'");
}

#[test]
fn fill_template_places_arguments() {
    let out = fill_template(&["<", "|", ">"], &["1".to_string(), "22".to_string()]);
    assert_eq!(out, "<1|22>");
    assert_eq!(fill_template(&["only"], &[]), "only");
}

#[test]
fn before_first_and_after_last() {
    assert_eq!(text_before_first("a=b=c", '='), "a");
    assert_eq!(text_before_first("abc", '='), "abc");
    assert_eq!(text_before_first("=abc", '='), "");
    assert_eq!(text_after_last("a/b/c", '/'), "c");
    assert_eq!(text_after_last("abc", '/'), "abc");
    assert_eq!(text_after_last("abc/", '/'), "");
    assert_eq!(text_before_first("é=ü", '='), "é");
}

#[test]
fn contains_and_equality() {
    assert!(text_contains("database \"x\" already exists", "already exists"));
    assert!(!text_contains("permission denied", "already exists"));
    assert!(text_contains("abc", ""));
    assert!(!text_contains("ab", "abc"));
    assert!(text_eq("google", "google"));
    assert!(!text_eq("google", "Google"));
    assert_eq!(chars_of("héllo"), vec!['h', 'é', 'l', 'l', 'o']);
}

#[allow(deprecated)]
fn chrono_text(secs: i64, nanos: u32) -> Option<String> {
    chrono::NaiveDateTime::from_timestamp_opt(secs, nanos).map(|t| t.to_string())
}

#[test]
fn timestamps_render_as_chrono_does() {
    let t = Timestamp::from_secs(0).unwrap();
    assert_eq!(t.text(), "1970-01-01 00:00:00");
    let t = Timestamp::new(1714566600, 250_000_000).unwrap();
    assert_eq!(t.text(), "2024-05-01 12:30:00.250");
    for (s, n) in [(-1i64, 0u32), (86399, 999_999_999), (1_000_000_000, 123), (MIN_SECS, 0), (MAX_SECS, 0)] {
        let t = Timestamp::new(s, n).unwrap();
        assert_eq!(Some(t.text()), chrono_text(s, n));
        assert_eq!(t.secs(), s);
        assert_eq!(t.nanos(), n);
    }
}

#[test]
fn timestamp_range_is_chronos_range() {
    let cases = [
        (MAX_SECS, 0u32),
        (MAX_SECS + 1, 0),
        (MIN_SECS, 0),
        (MIN_SECS - 1, 0),
        (59, 1_500_000_000),
        (58, 1_500_000_000),
        (-1, 1_999_999_999),
        (-2, 1_000_000_000),
        (0, 2_000_000_000),
        (i64::MAX, 0),
        (i64::MIN, 0),
    ];
    for (s, n) in cases {
        assert_eq!(Timestamp::new(s, n).is_some(), chrono_text(s, n).is_some(), "{} {}", s, n);
    }
    assert!(Timestamp::from_secs(MAX_SECS).is_some());
    assert!(Timestamp::from_secs(MAX_SECS + 1).is_none());
    assert_eq!(Timestamp::new(59, 1_500_000_000).unwrap().text(), "1970-01-01 00:00:60.500");
}
