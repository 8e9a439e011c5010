//! The human-readable rendering of keys and its best-effort inverse.

use stupid_simple_kv::display::{parse_display_string_to_key, to_display_string};
use stupid_simple_kv::kv_key::{IntoKey, KvKey};

#[test]
fn renders_segments_joined_with_colons() {
    let key = ("foo", 2u64, true, -5i64, 7i64).to_key();
    let s = to_display_string(&key.0).unwrap();
    assert_eq!(s, "foo:2:true:-5:7i");
}

#[test]
fn renders_empty_key_as_empty_string() {
    let key = KvKey(vec![]);
    assert_eq!(to_display_string(&key.0).unwrap(), "");
}

#[test]
fn escapes_colons_in_strings() {
    let key = ("a:b",).to_key();
    let s = to_display_string(&key.0).unwrap();
    assert_eq!(s, "a\\:b");
}

#[test]
fn rejects_malformed_bytes() {
    assert!(to_display_string(&[0x07, 1, 2]).is_none());
    assert!(to_display_string(&[0x02, 1]).is_none());
}

#[test]
fn parses_rendered_form_back() {
    let key = ("foo", 2u64, true, -5i64, 7i64, false).to_key();
    let s = to_display_string(&key.0).unwrap();
    let back = parse_display_string_to_key(&s).unwrap();
    assert_eq!(back.0, key.0);
}

#[test]
fn parses_escaped_colon_back() {
    let key = ("a:b", 1u64).to_key();
    let s = to_display_string(&key.0).unwrap();
    let back = parse_display_string_to_key(&s).unwrap();
    assert_eq!(back.0, key.0);
}

#[test]
fn parse_classifies_literals() {
    let parsed = parse_display_string_to_key("true:false:12:-3:4i:word").unwrap();
    let expected = (true, false, 12u64, -3i64, 4i64, "word").to_key();
    assert_eq!(parsed.0, expected.0);
}

#[test]
fn parse_overflowing_number_falls_back_to_string() {
    // One more than u64::MAX: not a number any more, so a string segment.
    let parsed = parse_display_string_to_key("18446744073709551616").unwrap();
    let expected = ("18446744073709551616",).to_key();
    assert_eq!(parsed.0, expected.0);
}

#[test]
fn parse_extreme_numbers() {
    let parsed = parse_display_string_to_key("-9223372036854775808:18446744073709551615").unwrap();
    let expected = (i64::MIN, u64::MAX).to_key();
    assert_eq!(parsed.0, expected.0);
}
