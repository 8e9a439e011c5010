//! Key encoding, decoding and ordering.

use stupid_simple_kv::key_decoder::{DecodeError, FromKey, KeyDecoder};
use stupid_simple_kv::kv_error::KvResult;
use stupid_simple_kv::kv_key::{IntoKey, KvKey};

#[test]
fn roundtrip_decode_macro_works() {
    let key = ("hi", 42u64, true).to_key();
    let mut decoder = KeyDecoder::new(&key.0);
    let a = decoder.next_str().unwrap();
    let b = decoder.next_u64().unwrap();
    let c = decoder.next_bool().unwrap();
    assert_eq!(a, "hi");
    assert_eq!(b, 42);
    assert!(c);
}

#[test]
fn roundtrip_one_tuple() -> KvResult<()> {
    let tup = (42u64,);
    let key = tup.to_key();
    let out: (u64,) = FromKey::from_key(&key).unwrap();
    assert_eq!(tup, out);
    Ok(())
}

#[test]
fn roundtrip_simple_tuple() -> KvResult<()> {
    let tup = (1234u64, String::from("hello"));
    let key = tup.clone().to_key();
    let out: (u64, String) = FromKey::from_key(&key).unwrap();
    assert_eq!(tup, out);
    Ok(())
}

#[test]
fn roundtrip_longer_tuple() -> KvResult<()> {
    let tup = (19u64, -5i64, "foo", true, false);
    let key = tup.clone().to_key();
    let out: (u64, i64, String, bool, bool) = FromKey::from_key(&key).unwrap();
    assert_eq!((tup.0, tup.1, tup.2.to_owned(), tup.3, tup.4), out);
    Ok(())
}

#[test]
fn roundtrip_tuple_tryfrom() -> KvResult<()> {
    let tup = (7u64, "hello world", true);
    let key = tup.clone().to_key();
    let out: (u64, String, bool) = FromKey::from_key(&key).unwrap();
    assert_eq!((tup.0, tup.1.to_owned(), tup.2), out);
    Ok(())
}

#[test]
fn decode_error_wrong_type() -> KvResult<()> {
    let tup = (237u64, false);
    let key = tup.to_key();
    // Attempt to decode as (bool, u64): type order/encoding mismatch
    let out: Result<(bool, u64), _> = FromKey::from_key(&key);
    assert!(out.is_err());
    Ok(())
}

#[test]
fn decode_error_wrong_length() -> KvResult<()> {
    let tup = (55u64, "xyz");
    let key = tup.to_key();
    // Attempt to decode as a 3-tuple (should fail)
    let out: Result<(u64, String, bool), _> = FromKey::from_key(&key);
    assert!(out.is_err());
    Ok(())
}

#[test]
fn roundtrip_with_strings() -> KvResult<()> {
    let tup = (999u64, "potato", "apple", true);
    let key = tup.clone().to_key();
    let out: (u64, String, String, bool) = FromKey::from_key(&key).unwrap();
    assert_eq!((tup.0, tup.1.to_owned(), tup.2.to_owned(), tup.3), out);
    Ok(())
}

#[test]
fn roundtrip_false_bool() -> KvResult<()> {
    let tup = (0u64, false, "z");
    let key = tup.clone().to_key();
    let out: (u64, bool, String) = FromKey::from_key(&key).unwrap();
    assert_eq!((tup.0, tup.1, tup.2.to_owned()), out);
    Ok(())
}

#[test]
fn roundtrip_every_primitive() {
    let key = (u64::MAX, i64::MIN, i64::MAX, false, true, "").to_key();
    let out: (u64, i64, i64, bool, bool, String) = FromKey::from_key(&key).unwrap();
    assert_eq!(out, (u64::MAX, i64::MIN, i64::MAX, false, true, String::new()));
}

#[test]
fn leftover_bytes_are_tolerated() {
    let key = (3u64, "tail").to_key();
    // Decoding fewer positions than encoded succeeds and ignores the rest.
    let out: (u64,) = FromKey::from_key(&key).unwrap();
    assert_eq!(out, (3u64,));
}

#[test]
fn numeric_order_beats_lexical() {
    // ("foo", 2) sorts before ("foo", 10): fixed-width big-endian encoding.
    let a = ("foo", 2u64).to_key();
    let b = ("foo", 10u64).to_key();
    assert!(a.0 < b.0);
}

#[test]
fn tuple_order_matches_byte_order() {
    let a = (1u64, "a").to_key();
    let b = (1u64, "b").to_key();
    assert!(a.0 < b.0);
    let c = (1u64,).to_key();
    let d = (2u64,).to_key();
    assert!(c.0 < d.0);
}

#[test]
fn successor_increments_last_byte() {
    let key = KvKey(vec![1, 2, 3]);
    let next = key.successor().unwrap();
    assert_eq!(next.0, vec![1, 2, 4]);
    assert!(key.0 < next.0);
}

#[test]
fn successor_skips_trailing_ff() {
    let key = KvKey(vec![7, 0xFF, 0xFF]);
    let next = key.successor().unwrap();
    assert_eq!(next.0, vec![8]);
    assert!(key.0 < next.0);
}

#[test]
fn successor_of_all_ff_is_none() {
    assert!(KvKey(vec![0xFF, 0xFF, 0xFF]).successor().is_none());
    assert!(KvKey(vec![]).successor().is_none());
}

#[test]
fn starts_with_checks_byte_prefix() {
    let long = (9u64, "x").to_key();
    let short = (9u64,).to_key();
    assert!(long.starts_with(&short));
    assert!(!short.starts_with(&long));
}

#[test]
fn bool_decode_rejects_other_bytes() {
    let bytes = vec![0x05u8, 2];
    let mut decoder = KeyDecoder::new(&bytes);
    assert!(decoder.next_bool().is_none());
}

#[test]
fn str_decode_rejects_bad_utf8() {
    // tag, 8-byte big-endian length 1, then an invalid UTF-8 byte
    let bytes = vec![0x01u8, 0, 0, 0, 0, 0, 0, 0, 1, 0xFF];
    let mut decoder = KeyDecoder::new(&bytes);
    assert!(decoder.next_str().is_none());
}

#[test]
fn str_decode_rejects_truncated_payload() {
    // declared length 5, only 2 payload bytes present
    let bytes = vec![0x01u8, 0, 0, 0, 0, 0, 0, 0, 5, b'a', b'b'];
    let mut decoder = KeyDecoder::new(&bytes);
    assert!(decoder.next_str().is_none());
}

#[test]
fn widened_integers_share_the_64_bit_encoding() {
    let narrow = (7u8, 300u16, 70000u32, -3i8, -300i16, -70000i32).to_key();
    let wide = (7u64, 300u64, 70000u64, -3i64, -300i64, -70000i64).to_key();
    assert_eq!(narrow.0, wide.0);
}

#[test]
fn segment_layout_is_fixed() {
    let key = (1u64,).to_key();
    assert_eq!(key.0, vec![0x02, 0, 0, 0, 0, 0, 0, 0, 1]);
    let key = (true,).to_key();
    assert_eq!(key.0, vec![0x05, 1]);
    let key = (-1i64,).to_key();
    assert_eq!(key.0, vec![0x03, 0xFF, 0xFF, 0xFF, 0xFF, 0xFF, 0xFF, 0xFF, 0xFF]);
    let key = ("ab",).to_key();
    assert_eq!(key.0, vec![0x01, 0, 0, 0, 0, 0, 0, 0, 2, b'a', b'b']);
}

#[test]
fn tuple_decode_names_position_and_kind() {
    // Running out of data at the second position.
    let key = (1u64,).to_key();
    let out: Result<(u64, bool), _> = FromKey::from_key(&key);
    assert_eq!(
        out.unwrap_err(),
        DecodeError::Msg("Failed to decode key segment 2: unexpected end of data".to_string())
    );
    // A tag mismatch at the first position is an invalid encoding.
    let key = (237u64, false).to_key();
    let out: Result<(bool, u64), _> = FromKey::from_key(&key);
    assert_eq!(
        out.unwrap_err(),
        DecodeError::Msg("Failed to decode key segment 1: invalid encoding".to_string())
    );
    // Asking for a third position that was never encoded.
    let key = (55u64, "xyz").to_key();
    let out: Result<(u64, String, bool), _> = FromKey::from_key(&key);
    assert_eq!(
        out.unwrap_err(),
        DecodeError::Msg("Failed to decode key segment 3: unexpected end of data".to_string())
    );
}

#[test]
fn primitive_decode_distinguishes_error_kinds() {
    // Wrong tag: invalid encoding.
    let key = (true,).to_key();
    let out: Result<u64, _> = FromKey::from_key(&key);
    assert_eq!(out.unwrap_err(), DecodeError::Invalid);
    // Empty buffer: end of data.
    let out: Result<u64, _> = FromKey::from_key(&KvKey(vec![]));
    assert_eq!(out.unwrap_err(), DecodeError::UnexpectedEof);
    // Malformed UTF-8 payload: invalid encoding.
    let bad = KvKey(vec![0x01, 0, 0, 0, 0, 0, 0, 0, 1, 0xFF]);
    let out: Result<String, _> = FromKey::from_key(&bad);
    assert_eq!(out.unwrap_err(), DecodeError::Invalid);
    // Boolean payload byte other than 0/1: invalid encoding.
    let bad = KvKey(vec![0x05, 2]);
    let out: Result<bool, _> = FromKey::from_key(&bad);
    assert_eq!(out.unwrap_err(), DecodeError::Invalid);
    // Truncated string payload: end of data.
    let bad = KvKey(vec![0x01, 0, 0, 0, 0, 0, 0, 0, 5, b'a', b'b']);
    let out: Result<String, _> = FromKey::from_key(&bad);
    assert_eq!(out.unwrap_err(), DecodeError::UnexpectedEof);
}
