use js::text::{push_char, push_decimal, push_signed_decimal};
use js::utf16::{encode_utf16, string_from_utf16};

#[test]
fn utf16_matches_std() {
    for s in ["", "abc", "h\u{e9}llo", "\u{20ac}5", "\u{1f600} ok \u{10ffff}"] {
        let expected: Vec<u16> = s.encode_utf16().collect();
        assert_eq!(encode_utf16(s), expected);
    }
    assert_eq!(encode_utf16("\u{1f600}"), vec![0xD83D, 0xDE00]);
}

#[test]
fn decimals() {
    let mut s = String::new();
    push_decimal(&mut s, 0);
    assert_eq!(s, "0");
    let mut s = String::from("x=");
    push_decimal(&mut s, 1234567890123);
    assert_eq!(s, "x=1234567890123");
    let mut s = String::new();
    push_signed_decimal(&mut s, -42);
    assert_eq!(s, "-42");
    let mut s = String::new();
    push_signed_decimal(&mut s, i64::MIN);
    assert_eq!(s, i64::MIN.to_string());
    let mut s = String::new();
    push_decimal(&mut s, u64::MAX);
    assert_eq!(s, u64::MAX.to_string());
    push_char(&mut s, '!');
    assert!(s.ends_with('!'));
}

#[test]
fn utf16_decodes_back() {
    for s in ["", "abc", "h\u{e9}llo", "\u{1F600} smile", "\u{10FFFF}"] {
        assert_eq!(string_from_utf16(&encode_utf16(s)), s);
    }
    assert_eq!(string_from_utf16(&[0x61, 0xD800, 0x62]), "a\u{FFFD}b");
}
