use runtime_cfparser::text::{cow_as_str, cow_into_string, str_equal};
use runtime_cfparser::CowExt;
use std::borrow::Cow;

#[test]
fn valid_utf8_is_read_as_it_is() {
    let bytes: Cow<[u8]> = Cow::Borrowed(b"Code");
    assert_eq!(bytes.to_str_lossy(), "Code");
    let bytes: Cow<[u8]> = Cow::Owned("h\u{E9}llo \u{1F600}".as_bytes().to_vec());
    assert_eq!(bytes.to_str_lossy(), "h\u{E9}llo \u{1F600}");
    let empty: Cow<[u8]> = Cow::Borrowed(b"");
    assert_eq!(empty.to_str_lossy(), "");
}

#[test]
fn borrowed_valid_utf8_stays_borrowed() {
    let bytes: Cow<[u8]> = Cow::Borrowed(b"Signature");
    assert!(matches!(bytes.to_str_lossy(), Cow::Borrowed("Signature")));
}

#[test]
fn invalid_utf8_gets_replacement_characters() {
    let bytes: Cow<[u8]> = Cow::Borrowed(&[b'a', 0xFF, b'b']);
    assert_eq!(bytes.to_str_lossy(), "a\u{FFFD}b");
    let bytes: Cow<[u8]> = Cow::Owned(vec![0xC0, 0x80]);
    assert_eq!(bytes.to_str_lossy(), "\u{FFFD}\u{FFFD}");
}

#[test]
fn text_of_a_cow_is_borrowed_or_owned() {
    let borrowed: Cow<str> = Cow::Borrowed("abc");
    assert_eq!(cow_as_str(&borrowed), "abc");
    let owned: Cow<str> = Cow::Owned(String::from("xyz"));
    assert_eq!(cow_as_str(&owned), "xyz");
    assert_eq!(cow_into_string(borrowed), String::from("abc"));
    assert_eq!(cow_into_string(owned), String::from("xyz"));
}

#[test]
fn str_equal_compares_character_for_character() {
    assert!(str_equal("", ""));
    assert!(str_equal("Code", "Code"));
    assert!(!str_equal("Code", "code"));
    assert!(!str_equal("Code", "Cod"));
    assert!(!str_equal("Cod", "Code"));
    assert!(!str_equal("", "a"));
    assert!(str_equal("h\u{E9}llo", "h\u{E9}llo"));
    assert!(!str_equal("h\u{E9}llo", "hello"));
}
