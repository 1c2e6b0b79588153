use hqaudio_api::number::{format_i64, format_u64, parse_i32, parse_i64};
use hqaudio_api::text::{
    contains, ends_with, join2, join3, replace_all, replace_first, same_text, split_nth,
    starts_with, trim,
};

#[test]
fn searching_text() {
    assert!(contains("song_96.mp4", "_96"));
    assert!(!contains("song_9.mp4", "_96"));
    assert!(contains("abc", ""));
    assert!(starts_with("http://x", "http://"));
    assert!(!starts_with("htt", "http://"));
    assert!(ends_with("requests_1.log", ".log"));
    assert!(!ends_with("requests_1.logs", ".log"));
    assert!(same_text("é", "é"));
    assert!(!same_text("a", "ab"));
}

#[test]
fn replacing_text() {
    assert_eq!(replace_all("a_96b_96", "_96", "_12"), "a_12b_12");
    assert_eq!(replace_all("aaa", "aa", "b"), "ba");
    assert_eq!(replace_all("none", "_96", "_12"), "none");
    assert_eq!(replace_first("http://a/http://b", "http://", "https://"), "https://a/http://b");
    assert_eq!(replace_first("abc", "x", "y"), "abc");
}

#[test]
fn splitting_text() {
    assert_eq!(split_nth("a/b/c", "/", 0), Some("a".to_string()));
    assert_eq!(split_nth("a/b/c", "/", 2), Some("c".to_string()));
    assert_eq!(split_nth("a/b/c", "/", 3), None);
    assert_eq!(split_nth("abc", "?", 0), Some("abc".to_string()));
    assert_eq!(split_nth("a--b", "--", 1), Some("b".to_string()));
}

#[test]
fn trimming_text() {
    assert_eq!(trim("  a b \n"), "a b");
    assert_eq!(trim("\u{3000}x\u{a0}"), "x");
    assert_eq!(trim(" \t "), "");
    assert_eq!(trim("x"), "x");
}

#[test]
fn joining_text() {
    assert_eq!(join2("ab", "cd"), "abcd");
    assert_eq!(join3("a", "", "c"), "ac");
}

#[test]
fn parsing_integers_like_std() {
    for s in ["0", "42", "-42", "+7", "007", "9223372036854775807", "-9223372036854775808",
        "9223372036854775808", "-9223372036854775809", "", "-", "+", " 1", "1 ", "1.5", "x",
        "99999999999999999999999"] {
        assert_eq!(parse_i64(s), s.parse::<i64>().ok(), "{}", s);
        assert_eq!(parse_i32(s), s.parse::<i32>().ok(), "{}", s);
    }
    assert_eq!(parse_i32("2147483648"), None);
    assert_eq!(parse_i32("-2147483648"), Some(i32::MIN));
}

#[test]
fn formatting_integers_like_std() {
    for n in [0i64, 7, 10, 99, 100, -1, -20, i64::MAX, i64::MIN] {
        assert_eq!(format_i64(n), n.to_string());
    }
    for n in [0i64, 5, -5, 123456, i64::MAX, i64::MIN] {
        assert_eq!(parse_i64(&format_i64(n)), Some(n));
    }
    for n in [0u64, 9, 1234567890, u64::MAX] {
        assert_eq!(format_u64(n), n.to_string());
    }
}
