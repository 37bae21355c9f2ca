use magnesium::header::{header_or_empty, header_text, parse_dimension, parse_u32};
use magnesium::text::{ends_with, i32_text, join_path, push_decimal};

#[test]
fn decimal_text_of_i32() {
    assert_eq!(i32_text(0), "0");
    assert_eq!(i32_text(7), "7");
    assert_eq!(i32_text(-5), "-5");
    assert_eq!(i32_text(1234567), "1234567");
    assert_eq!(i32_text(i32::MAX), "2147483647");
    assert_eq!(i32_text(i32::MIN), "-2147483648");
}

#[test]
fn decimal_text_appends() {
    let mut s = String::from("n=");
    push_decimal(&mut s, 18446744073709551615);
    assert_eq!(s, "n=18446744073709551615");
    let mut t = String::new();
    push_decimal(&mut t, 10);
    assert_eq!(t, "10");
}

#[test]
fn suffix_test() {
    assert!(ends_with("picture.jpg", "jpg"));
    assert!(ends_with("jpg", "jpg"));
    assert!(ends_with("abc", ""));
    assert!(!ends_with("pg", "jpg"));
    assert!(!ends_with("picture.jpeg", "jpg"));
    assert!(ends_with("ünïcødé", "ødé"));
}

#[test]
fn joining_paths() {
    assert_eq!(join_path("a", "b"), "a/b");
    assert_eq!(join_path("a/", "b"), "a/b");
    assert_eq!(join_path("", "b"), "b");
    assert_eq!(join_path("a", "/b"), "/b");
    assert_eq!(join_path("a", ""), "a/");
    assert_eq!(join_path("./test_setup/bucket", "x.png"), "./test_setup/bucket/x.png");
}

#[test]
fn header_values_as_text() {
    assert_eq!(header_text(b"secret"), Some("secret".to_string()));
    assert_eq!(header_text(b"a b\tc~"), Some("a b\tc~".to_string()));
    assert_eq!(header_text(b""), Some(String::new()));
    assert_eq!(header_text(&[0x61, 0x7f]), None);
    assert_eq!(header_text(&[0x61, 0x0a]), None);
    assert_eq!(header_text(&[0xc3, 0xa9]), None);
}

#[test]
fn missing_or_bad_headers_read_as_empty() {
    assert_eq!(header_or_empty(None), "");
    assert_eq!(header_or_empty(Some(&[0x80])), "");
    assert_eq!(header_or_empty(Some(b"key_1")), "key_1");
}

#[test]
fn parsing_u32_like_str_parse() {
    assert_eq!(parse_u32(b"123"), Some(123));
    assert_eq!(parse_u32(b"+7"), Some(7));
    assert_eq!(parse_u32(b"007"), Some(7));
    assert_eq!(parse_u32(b"0"), Some(0));
    assert_eq!(parse_u32(b"4294967295"), Some(4294967295));
    assert_eq!(parse_u32(b"4294967296"), None);
    assert_eq!(parse_u32(b"99999999999999999999"), None);
    assert_eq!(parse_u32(b"+"), None);
    assert_eq!(parse_u32(b""), None);
    assert_eq!(parse_u32(b"-1"), None);
    assert_eq!(parse_u32(b"-"), None);
    assert_eq!(parse_u32(b"12a"), None);
    assert_eq!(parse_u32(b" 12"), None);
    assert_eq!(parse_u32(b"++1"), None);
    for text in ["0", "+5", "4294967295", "4294967296", "", "x", "-3", "+"] {
        assert_eq!(parse_u32(text.as_bytes()), text.parse::<u32>().ok(), "{text}");
    }
}

#[test]
fn dimension_headers() {
    assert_eq!(parse_dimension(None), None);
    assert_eq!(parse_dimension(Some(b"640")), Some(640));
    assert_eq!(parse_dimension(Some(b"abc")), None);
    assert_eq!(parse_dimension(Some(&[0x36, 0x34, 0x80])), None);
}
