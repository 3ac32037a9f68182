use nvisy_sdk::text::byte_count;
use nvisy_sdk::text::decimal;
use nvisy_sdk::text::first_chars;
use nvisy_sdk::text::is_blank;
use nvisy_sdk::text::is_white_space;
use nvisy_sdk::text::join2;
use nvisy_sdk::text::join3;
use nvisy_sdk::text::same_text;
use nvisy_sdk::text::signed_decimal;
use nvisy_sdk::text::starts_with;
use nvisy_sdk::text::trim_end;
use nvisy_sdk::text::trim_start;

#[test]
fn white_space_agrees_with_unicode() {
    for code in 0u32..=0x11_0000 {
        if let Some(c) = char::from_u32(code) {
            assert_eq!(is_white_space(c), c.is_whitespace(), "U+{:04X}", code);
        }
    }
}

#[test]
fn blank_texts() {
    assert!(is_blank(""));
    assert!(is_blank(" "));
    assert!(is_blank(" \t\r\n\u{b}\u{c}\u{85}\u{a0}\u{1680}\u{2003}\u{2028}\u{2029}\u{202f}\u{205f}\u{3000}"));
    assert!(!is_blank("a"));
    assert!(!is_blank("  a  "));
    assert!(!is_blank("\u{200b}"));
    for text in ["", "  ", " x", "\u{feff}", "\n\n", "\u{2000}\u{200a}"] {
        assert_eq!(is_blank(text), text.trim().is_empty());
    }
}

#[test]
fn prefixes() {
    assert!(starts_with("https://api", "https://"));
    assert!(!starts_with("https://api", "http://"));
    assert!(starts_with("http://", "http://"));
    assert!(!starts_with("http:/", "http://"));
    assert!(starts_with("anything", ""));
    assert!(starts_with("", ""));
    assert!(!starts_with("", "x"));
    assert!(!starts_with("Http://x", "http://"));
    assert!(starts_with("\u{e9}t\u{e9}", "\u{e9}t"));
}

#[test]
fn same_text_compares_content() {
    assert!(same_text("pdf", "pdf"));
    assert!(!same_text("pdf", "pdF"));
    assert!(!same_text("pdf", "pd"));
    assert!(same_text("", ""));
}

#[test]
fn joins() {
    assert_eq!(join2("Bearer ", "key"), "Bearer key");
    assert_eq!(join2("", ""), "");
    assert_eq!(join3("/files/", "id", "/content"), "/files/id/content");
    assert_eq!(join3("a", "", "c"), "ac");
}

#[test]
fn trimming_ends() {
    assert_eq!(trim_end("/v1///", '/'), "/v1");
    assert_eq!(trim_end("/", '/'), "");
    assert_eq!(trim_end("///", '/'), "");
    assert_eq!(trim_end("", '/'), "");
    assert_eq!(trim_end("/a/b", '/'), "/a/b");
    assert_eq!(trim_end("a/ ", '/'), "a/ ");
    assert_eq!(trim_end("/\u{e9}//", '/'), "/\u{e9}");
    for text in ["", "/", "//a//", "a", "/a/b/"] {
        assert_eq!(trim_end(text, '/'), text.trim_end_matches('/'));
    }
}

#[test]
fn trimming_starts() {
    assert_eq!(trim_start("..pdf", '.'), "pdf");
    assert_eq!(trim_start(".", '.'), "");
    assert_eq!(trim_start("", '.'), "");
    assert_eq!(trim_start("pdf.", '.'), "pdf.");
    assert_eq!(trim_start(".a.b", '.'), "a.b");
    assert_eq!(trim_start("..\u{e9}.", '.'), "\u{e9}.");
    for text in ["", ".", "..a..", "a", ".a.b."] {
        assert_eq!(trim_start(text, '.'), text.trim_start_matches('.'));
    }
}

#[test]
fn first_characters() {
    assert_eq!(first_chars("secret", 4), "secr");
    assert_eq!(first_chars("abc", 4), "abc");
    assert_eq!(first_chars("abcd", 4), "abcd");
    assert_eq!(first_chars("", 4), "");
    assert_eq!(first_chars("abc", 0), "");
    assert_eq!(first_chars("\u{e9}\u{e8}\u{ea}", 2), "\u{e9}\u{e8}");
}

#[test]
fn decimals() {
    assert_eq!(decimal(0), "0");
    assert_eq!(decimal(7), "7");
    assert_eq!(decimal(10), "10");
    assert_eq!(decimal(404), "404");
    assert_eq!(decimal(1_000_000), "1000000");
    assert_eq!(decimal(u64::MAX), "18446744073709551615");
    for n in [0u64, 9, 10, 99, 100, 12345, 4_294_967_295] {
        assert_eq!(decimal(n), n.to_string());
    }
}

#[test]
fn signed_decimals() {
    assert_eq!(signed_decimal(0), "0");
    assert_eq!(signed_decimal(50), "50");
    assert_eq!(signed_decimal(-1), "-1");
    assert_eq!(signed_decimal(-2_147_483_648), "-2147483648");
    assert_eq!(signed_decimal(i64::MAX), "9223372036854775807");
    assert_eq!(signed_decimal(i64::MIN), "-9223372036854775808");
    for n in [i32::MIN, -10, -9, 0, 9, 10, i32::MAX] {
        assert_eq!(signed_decimal(n as i64), n.to_string());
    }
}

#[test]
fn byte_counts() {
    assert_eq!(byte_count(""), 0);
    assert_eq!(byte_count("abc"), 3);
    assert_eq!(byte_count("\u{e9}"), 2);
    assert_eq!(byte_count("\u{20ac}\u{1f600}"), 7);
}
