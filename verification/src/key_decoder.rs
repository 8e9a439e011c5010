//! Decoding composite keys back into typed values.
//!
//! A decode cursor walks the key's bytes from the front; each step checks
//! the leading type tag and consumes one segment, or reports failure without
//! consuming past the end. A mismatched tag, a payload running past the end
//! of the buffer, malformed UTF-8 and a boolean byte other than 0/1 are all
//! decode failures, never panics.

use crate::segment::{
    can_parse_bool, can_parse_i64, can_parse_str, can_parse_u64, parse_bool_val, parse_i64_val,
    parse_str_val, parse_u64_val, read_be64, str_payload_len, str_seg_len, TAG_BOOL, TAG_I64,
    TAG_STRING, TAG_U64,
};
use vstd::prelude::*;
use vstd::slice::slice_subrange;
use vstd::utf8::{decode_utf8, valid_utf8};

verus! {

/// Relies on std's `str::from_utf8`: it accepts exactly the valid UTF-8
/// byte sequences and decodes them to the characters they encode; the
/// decoded characters are returned as an owned string.
#[verifier::external_body]
fn utf8_to_string(v: &[u8]) -> (r: Option<String>)
    ensures
        r is Some <==> valid_utf8(v@),
        r matches Some(s) ==> s@ == decode_utf8(v@),
{
    match core::str::from_utf8(v) {
        Ok(s) => Some(s.to_string()),
        Err(_) => None,
    }
}

/// A decode cursor over a key's bytes: the not-yet-consumed tail.
pub struct KeyDecoder<'a> {
    bytes: &'a [u8],
    pos: usize,
}

impl<'a> KeyDecoder<'a> {
    /// The bytes not yet consumed.
    pub closed spec fn remaining(&self) -> Seq<u8> {
        self.bytes@.skip(self.pos as int)
    }

    pub closed spec fn wf(&self) -> bool {
        self.pos <= self.bytes@.len()
    }

    pub fn new(rem: &'a [u8]) -> (d: KeyDecoder<'a>)
        ensures
            d.wf(),
            d.remaining() == rem@,
    {
        let d = KeyDecoder { bytes: rem, pos: 0 };
        proof {
            assert(d.remaining() =~= rem@);
        }
        d
    }

    /// Whether every byte has been consumed.
    pub fn done(&self) -> (b: bool)
        requires
            self.wf(),
        ensures
            b == (self.remaining().len() == 0),
    {
        self.pos == self.bytes.len()
    }

    /// Consumes one unsigned segment, or returns `None` (leaving the cursor
    /// unchanged) when the front of the buffer is not one.
    pub fn next_u64(&mut self) -> (r: Option<u64>)
        requires
            old(self).wf(),
        ensures
            final(self).wf(),
            r is Some <==> can_parse_u64(old(self).remaining()),
            r matches Some(v) ==> v == parse_u64_val(old(self).remaining()) && final(self).remaining() == old(self).remaining().skip(9),
            r is None ==> *final(self) == *old(self),
    {
        if self.bytes.len() - self.pos < 9 || self.bytes[self.pos] != TAG_U64 {
            return None;
        }
        let v = read_be64(self.bytes, self.pos + 1);
        proof {
            assert(self.bytes@.subrange(self.pos as int + 1, self.pos as int + 9)
                =~= self.remaining().subrange(1, 9));
            assert(self.bytes@.skip(self.pos as int + 9) =~= self.remaining().skip(9));
        }
        self.pos = self.pos + 9;
        Some(v)
    }

    /// Consumes one signed segment, or returns `None` (leaving the cursor
    /// unchanged) when the front of the buffer is not one.
    pub fn next_i64(&mut self) -> (r: Option<i64>)
        requires
            old(self).wf(),
        ensures
            final(self).wf(),
            r is Some <==> can_parse_i64(old(self).remaining()),
            r matches Some(v) ==> v == parse_i64_val(old(self).remaining()) && final(self).remaining() == old(self).remaining().skip(9),
            r is None ==> *final(self) == *old(self),
    {
        if self.bytes.len() - self.pos < 9 || self.bytes[self.pos] != TAG_I64 {
            return None;
        }
        let v = read_be64(self.bytes, self.pos + 1);
        proof {
            assert(self.bytes@.subrange(self.pos as int + 1, self.pos as int + 9)
                =~= self.remaining().subrange(1, 9));
            assert(self.bytes@.skip(self.pos as int + 9) =~= self.remaining().skip(9));
        }
        self.pos = self.pos + 9;
        Some(#[verifier::truncate] (v as i64))
    }

    /// Consumes one boolean segment; payload bytes other than 0 and 1 are
    /// rejected.
    pub fn next_bool(&mut self) -> (r: Option<bool>)
        requires
            old(self).wf(),
        ensures
            final(self).wf(),
            r is Some <==> can_parse_bool(old(self).remaining()),
            r matches Some(v) ==> v == parse_bool_val(old(self).remaining()) && final(self).remaining() == old(self).remaining().skip(2),
            r is None ==> *final(self) == *old(self),
    {
        if self.bytes.len() - self.pos < 2 || self.bytes[self.pos] != TAG_BOOL {
            return None;
        }
        let b = self.bytes[self.pos + 1];
        if b > 1 {
            return None;
        }
        proof {
            assert(self.bytes@.skip(self.pos as int + 2) =~= self.remaining().skip(2));
        }
        self.pos = self.pos + 2;
        Some(b == 1)
    }

    /// Consumes one string segment: tag, 8-byte big-endian byte length, then
    /// that many UTF-8 bytes. Fails when the declared length runs past the
    /// end of the buffer or the payload is not valid UTF-8.
    pub fn next_str(&mut self) -> (r: Option<String>)
        requires
            old(self).wf(),
        ensures
            final(self).wf(),
            r is Some <==> can_parse_str(old(self).remaining()),
            r matches Some(s) ==> s@ == parse_str_val(old(self).remaining()) && final(self).remaining() == old(self).remaining().skip(str_seg_len(old(self).remaining())),
            r is None ==> *final(self) == *old(self),
    {
        if self.bytes.len() - self.pos < 9 || self.bytes[self.pos] != TAG_STRING {
            return None;
        }
        let declared = read_be64(self.bytes, self.pos + 1);
        proof {
            assert(self.bytes@.subrange(self.pos as int + 1, self.pos as int + 9)
                =~= self.remaining().subrange(1, 9));
        }
        let avail = self.bytes.len() - self.pos - 9;
        if declared > avail as u64 {
            return None;
        }
        let n = declared as usize;
        let payload = slice_subrange(self.bytes, self.pos + 9, self.pos + 9 + n);
        proof {
            assert(payload@ =~= self.remaining().subrange(9, 9 + str_payload_len(
                self.remaining(),
            )));
        }
        match utf8_to_string(payload) {
            Some(s) => {
                proof {
                    assert(self.bytes@.skip(self.pos as int + 9 + n as int)
                        =~= self.remaining().skip(str_seg_len(self.remaining())));
                }
                self.pos = self.pos + 9 + n;
                Some(s)
            },
            None => None,
        }
    }
}


/// The kind of failure when an unsigned segment cannot be read: a present
/// but different leading tag is an invalid encoding; anything else ran out
/// of bytes.
pub open spec fn u64_fail(b: Seq<u8>) -> DecodeError
    recommends
        !can_parse_u64(b),
{
    if b.len() >= 1 && b[0] != TAG_U64 {
        DecodeError::Invalid
    } else {
        DecodeError::UnexpectedEof
    }
}

/// The kind of failure when a signed segment cannot be read.
pub open spec fn i64_fail(b: Seq<u8>) -> DecodeError
    recommends
        !can_parse_i64(b),
{
    if b.len() >= 1 && b[0] != TAG_I64 {
        DecodeError::Invalid
    } else {
        DecodeError::UnexpectedEof
    }
}

/// The kind of failure when a boolean segment cannot be read: a wrong tag
/// or a payload byte other than 0/1 is an invalid encoding, a missing byte
/// ran out of data.
pub open spec fn bool_fail(b: Seq<u8>) -> DecodeError
    recommends
        !can_parse_bool(b),
{
    if b.len() >= 1 && b[0] != TAG_BOOL {
        DecodeError::Invalid
    } else if b.len() >= 2 && b[1] != 0u8 && b[1] != 1u8 {
        DecodeError::Invalid
    } else {
        DecodeError::UnexpectedEof
    }
}

/// The kind of failure when a string segment cannot be read: a wrong tag
/// is an invalid encoding; when the header and the declared payload fit the
/// buffer and decoding still failed, the payload's UTF-8 is malformed; a
/// short buffer ran out of data.
pub open spec fn str_fail(b: Seq<u8>) -> DecodeError
    recommends
        !can_parse_str(b),
{
    if b.len() >= 1 && b[0] != TAG_STRING {
        DecodeError::Invalid
    } else if b.len() >= 9 && b.len() >= 9 + str_payload_len(b) {
        DecodeError::Invalid
    } else {
        DecodeError::UnexpectedEof
    }
}

impl<'a> KeyDecoder<'a> {
    /// Why the front of the buffer is not an unsigned segment.
    fn u64_decode_err(&self) -> (e: DecodeError)
        requires
            self.wf(),
            !can_parse_u64(self.remaining()),
        ensures
            e == u64_fail(self.remaining()),
    {
        if self.pos < self.bytes.len() && self.bytes[self.pos] != TAG_U64 {
            DecodeError::Invalid
        } else {
            DecodeError::UnexpectedEof
        }
    }

    /// Why the front of the buffer is not a signed segment.
    fn i64_decode_err(&self) -> (e: DecodeError)
        requires
            self.wf(),
            !can_parse_i64(self.remaining()),
        ensures
            e == i64_fail(self.remaining()),
    {
        if self.pos < self.bytes.len() && self.bytes[self.pos] != TAG_I64 {
            DecodeError::Invalid
        } else {
            DecodeError::UnexpectedEof
        }
    }

    /// Why the front of the buffer is not a boolean segment.
    fn bool_decode_err(&self) -> (e: DecodeError)
        requires
            self.wf(),
            !can_parse_bool(self.remaining()),
        ensures
            e == bool_fail(self.remaining()),
    {
        let n = self.bytes.len();
        if self.pos < n && self.bytes[self.pos] != TAG_BOOL {
            DecodeError::Invalid
        } else if self.pos < n && n - self.pos >= 2 && self.bytes[self.pos + 1] > 1 {
            DecodeError::Invalid
        } else {
            DecodeError::UnexpectedEof
        }
    }

    /// Why the front of the buffer is not a string segment.
    fn str_decode_err(&self) -> (e: DecodeError)
        requires
            self.wf(),
            !can_parse_str(self.remaining()),
        ensures
            e == str_fail(self.remaining()),
    {
        let n = self.bytes.len();
        if self.pos < n && self.bytes[self.pos] != TAG_STRING {
            DecodeError::Invalid
        } else if n - self.pos >= 9 {
            let declared = read_be64(self.bytes, self.pos + 1);
            proof {
                assert(self.bytes@.subrange(self.pos as int + 1, self.pos as int + 9)
                    =~= self.remaining().subrange(1, 9));
            }
            let avail = n - self.pos - 9;
            if declared <= avail as u64 {
                DecodeError::Invalid
            } else {
                DecodeError::UnexpectedEof
            }
        } else {
            DecodeError::UnexpectedEof
        }
    }
}

/// Failure of a key decode.
#[derive(Debug, Clone, PartialEq, Eq)]
pub enum DecodeError {
    /// A failure at a named tuple position, described in words.
    Msg(String),
    /// The buffer ended before the expected segment did.
    UnexpectedEof,
    /// A malformed segment: a mismatched type tag, a boolean payload byte
    /// other than 0/1, or malformed UTF-8 in a string payload.
    Invalid,
}

/// The decimal rendering of a tuple position, 1-based.
pub open spec fn pos_digit_view(pos: int) -> Seq<char> {
    if pos == 1 {
        "1"@
    } else if pos == 2 {
        "2"@
    } else if pos == 3 {
        "3"@
    } else if pos == 4 {
        "4"@
    } else if pos == 5 {
        "5"@
    } else if pos == 6 {
        "6"@
    } else if pos == 7 {
        "7"@
    } else if pos == 8 {
        "8"@
    } else {
        "9"@
    }
}

/// The error a tuple decode reports when its component at 1-based position
/// `pos` fails with `inner`: a message naming the position and the failure
/// kind. A component that already carries a message (a nested tuple) keeps
/// it unchanged.
pub open spec fn wrapped_err(pos: int, inner: DecodeError, e: DecodeError) -> bool {
    match inner {
        DecodeError::UnexpectedEof => e matches DecodeError::Msg(m) && m@
            == "Failed to decode key segment "@ + pos_digit_view(pos)
            + ": unexpected end of data"@,
        DecodeError::Invalid => e matches DecodeError::Msg(m) && m@
            == "Failed to decode key segment "@ + pos_digit_view(pos) + ": invalid encoding"@,
        DecodeError::Msg(_) => e == inner,
    }
}

/// Attaches a 1-based tuple position to a component's decode error.
fn wrap_component_err(pos_digit: &str, inner: DecodeError) -> (e: DecodeError)
    ensures
        (match inner {
            DecodeError::UnexpectedEof => e matches DecodeError::Msg(m) && m@
                == "Failed to decode key segment "@ + pos_digit@ + ": unexpected end of data"@,
            DecodeError::Invalid => e matches DecodeError::Msg(m) && m@
                == "Failed to decode key segment "@ + pos_digit@ + ": invalid encoding"@,
            DecodeError::Msg(_) => e == inner,
        }),
{
    match inner {
        DecodeError::UnexpectedEof => {
            let mut s = String::from_str("Failed to decode key segment ");
            s.append(pos_digit);
            s.append(": unexpected end of data");
            DecodeError::Msg(s)
        },
        DecodeError::Invalid => {
            let mut s = String::from_str("Failed to decode key segment ");
            s.append(pos_digit);
            s.append(": invalid encoding");
            DecodeError::Msg(s)
        },
        DecodeError::Msg(m) => DecodeError::Msg(m),
    }
}

/// A value, or tuple of values, that can be reconstructed from the front of
/// an encoded key. `can_parse` says on which buffers decoding succeeds,
/// `parse_dview` gives the decoded value (as its mathematical view),
/// `parse_len` the number of bytes one decode consumes, and `fail_spec`
/// which error a failed decode reports: the kind that spec distinguishes
/// (end of data against invalid encoding), with the failed position named
/// for tuples.
pub trait FromKvKey: Sized + DeepView {
    spec fn can_parse(b: Seq<u8>) -> bool;

    spec fn parse_dview(b: Seq<u8>) -> Self::V;

    spec fn parse_len(b: Seq<u8>) -> int;

    spec fn fail_spec(b: Seq<u8>, e: DecodeError) -> bool;

    fn from_kv_key<'a>(decoder: &mut KeyDecoder<'a>) -> (r: Result<Self, DecodeError>)
        requires
            old(decoder).wf(),
        ensures
            final(decoder).wf(),
            r is Ok <==> Self::can_parse(old(decoder).remaining()),
            r is Ok ==> 0 <= Self::parse_len(old(decoder).remaining()) <= old(decoder).remaining().len(),
            r matches Ok(v) ==> v.deep_view() == Self::parse_dview(old(decoder).remaining()) && final(decoder).remaining() == old(decoder).remaining().skip(Self::parse_len(old(decoder).remaining())),
            r matches Err(e) ==> Self::fail_spec(old(decoder).remaining(), e),
    ;
}

impl FromKvKey for u64 {
    open spec fn can_parse(b: Seq<u8>) -> bool {
        can_parse_u64(b)
    }

    open spec fn parse_dview(b: Seq<u8>) -> u64 {
        parse_u64_val(b)
    }

    open spec fn parse_len(b: Seq<u8>) -> int {
        9
    }

    open spec fn fail_spec(b: Seq<u8>, e: DecodeError) -> bool {
        e == u64_fail(b)
    }

    fn from_kv_key<'a>(decoder: &mut KeyDecoder<'a>) -> (r: Result<Self, DecodeError>)
        ensures
            r is Err ==> *final(decoder) == *old(decoder),
    {
        match decoder.next_u64() {
            Some(v) => Ok(v),
            None => Err(decoder.u64_decode_err()),
        }
    }
}


impl FromKvKey for i64 {
    open spec fn can_parse(b: Seq<u8>) -> bool {
        can_parse_i64(b)
    }

    open spec fn parse_dview(b: Seq<u8>) -> i64 {
        parse_i64_val(b)
    }

    open spec fn parse_len(b: Seq<u8>) -> int {
        9
    }

    open spec fn fail_spec(b: Seq<u8>, e: DecodeError) -> bool {
        e == i64_fail(b)
    }

    fn from_kv_key<'a>(decoder: &mut KeyDecoder<'a>) -> (r: Result<Self, DecodeError>)
        ensures
            r is Err ==> *final(decoder) == *old(decoder),
    {
        match decoder.next_i64() {
            Some(v) => Ok(v),
            None => Err(decoder.i64_decode_err()),
        }
    }
}


impl FromKvKey for bool {
    open spec fn can_parse(b: Seq<u8>) -> bool {
        can_parse_bool(b)
    }

    open spec fn parse_dview(b: Seq<u8>) -> bool {
        parse_bool_val(b)
    }

    open spec fn parse_len(b: Seq<u8>) -> int {
        2
    }

    open spec fn fail_spec(b: Seq<u8>, e: DecodeError) -> bool {
        e == bool_fail(b)
    }

    fn from_kv_key<'a>(decoder: &mut KeyDecoder<'a>) -> (r: Result<Self, DecodeError>)
        ensures
            r is Err ==> *final(decoder) == *old(decoder),
    {
        match decoder.next_bool() {
            Some(v) => Ok(v),
            None => Err(decoder.bool_decode_err()),
        }
    }
}


impl FromKvKey for String {
    open spec fn can_parse(b: Seq<u8>) -> bool {
        can_parse_str(b)
    }

    open spec fn parse_dview(b: Seq<u8>) -> Seq<char> {
        parse_str_val(b)
    }

    open spec fn parse_len(b: Seq<u8>) -> int {
        str_seg_len(b)
    }

    open spec fn fail_spec(b: Seq<u8>, e: DecodeError) -> bool {
        e == str_fail(b)
    }

    fn from_kv_key<'a>(decoder: &mut KeyDecoder<'a>) -> (r: Result<Self, DecodeError>)
        ensures
            r is Err ==> *final(decoder) == *old(decoder),
    {
        match decoder.next_str() {
            Some(v) => Ok(v),
            None => Err(decoder.str_decode_err()),
        }
    }
}


impl<A: FromKvKey> FromKvKey for (A,) {
    open spec fn can_parse(b: Seq<u8>) -> bool {
        A::can_parse(b)
    }

    open spec fn parse_dview(b: Seq<u8>) -> Self::V {
        (A::parse_dview(b),)
    }

    open spec fn parse_len(b: Seq<u8>) -> int {
        A::parse_len(b)
    }

    open spec fn fail_spec(b: Seq<u8>, e: DecodeError) -> bool {
        if !A::can_parse(b) {
            exists|inner: DecodeError| #[trigger] A::fail_spec(b, inner) && wrapped_err(1, inner, e)
        } else {
            true
        }
    }

    fn from_kv_key<'a>(decoder: &mut KeyDecoder<'a>) -> (r: Result<Self, DecodeError>) {
        let ghost rem0 = decoder.remaining();
        let v0 = match A::from_kv_key(decoder) {
            Ok(v) => v,
            Err(inner) => {
                let e = wrap_component_err("1", inner);
                proof {
                    let b = old(decoder).remaining();
                    assert(A::fail_spec(b, inner) && wrapped_err(1, inner, e));
                    assert(Self::fail_spec(b, e));
                }
                return Err(e);
            },
        };
        Ok((v0,))
    }
}


impl<A: FromKvKey, B: FromKvKey> FromKvKey for (A, B) {
    open spec fn can_parse(b: Seq<u8>) -> bool {
        A::can_parse(b) && B::can_parse(b.skip(A::parse_len(b)))
    }

    open spec fn parse_dview(b: Seq<u8>) -> Self::V {
        (A::parse_dview(b), B::parse_dview(b.skip(A::parse_len(b))))
    }

    open spec fn parse_len(b: Seq<u8>) -> int {
        A::parse_len(b) + B::parse_len(b.skip(A::parse_len(b)))
    }

    open spec fn fail_spec(b: Seq<u8>, e: DecodeError) -> bool {
        if !A::can_parse(b) {
            exists|inner: DecodeError| #[trigger] A::fail_spec(b, inner) && wrapped_err(1, inner, e)
        } else if !B::can_parse(b.skip(A::parse_len(b))) {
            exists|inner: DecodeError| #[trigger] B::fail_spec(b.skip(A::parse_len(b)), inner) && wrapped_err(2, inner, e)
        } else {
            true
        }
    }

    fn from_kv_key<'a>(decoder: &mut KeyDecoder<'a>) -> (r: Result<Self, DecodeError>) {
        let ghost rem0 = decoder.remaining();
        let v0 = match A::from_kv_key(decoder) {
            Ok(v) => v,
            Err(inner) => {
                let e = wrap_component_err("1", inner);
                proof {
                    let b = old(decoder).remaining();
                    assert(A::fail_spec(b, inner) && wrapped_err(1, inner, e));
                    assert(Self::fail_spec(b, e));
                }
                return Err(e);
            },
        };
        let ghost rem1 = decoder.remaining();
        let v1 = match B::from_kv_key(decoder) {
            Ok(v) => v,
            Err(inner) => {
                let e = wrap_component_err("2", inner);
                proof {
                    let b = old(decoder).remaining();
                    assert(rem1 == b.skip(A::parse_len(b)));
                    assert(B::fail_spec(b.skip(A::parse_len(b)), inner) && wrapped_err(2, inner, e));
                    assert(Self::fail_spec(b, e));
                }
                return Err(e);
            },
        };
        proof {
            let b = old(decoder).remaining();
            assert(decoder.remaining() =~= b.skip(Self::parse_len(b)));
        }
        Ok((v0, v1))
    }
}


impl<A: FromKvKey, B: FromKvKey, C: FromKvKey> FromKvKey for (A, B, C) {
    open spec fn can_parse(b: Seq<u8>) -> bool {
        A::can_parse(b) && B::can_parse(b.skip(A::parse_len(b))) && C::can_parse(b.skip(A::parse_len(b)).skip(B::parse_len(b.skip(A::parse_len(b)))))
    }

    open spec fn parse_dview(b: Seq<u8>) -> Self::V {
        (A::parse_dview(b), B::parse_dview(b.skip(A::parse_len(b))), C::parse_dview(b.skip(A::parse_len(b)).skip(B::parse_len(b.skip(A::parse_len(b))))))
    }

    open spec fn parse_len(b: Seq<u8>) -> int {
        A::parse_len(b) + B::parse_len(b.skip(A::parse_len(b))) + C::parse_len(b.skip(A::parse_len(b)).skip(B::parse_len(b.skip(A::parse_len(b)))))
    }

    open spec fn fail_spec(b: Seq<u8>, e: DecodeError) -> bool {
        if !A::can_parse(b) {
            exists|inner: DecodeError| #[trigger] A::fail_spec(b, inner) && wrapped_err(1, inner, e)
        } else if !B::can_parse(b.skip(A::parse_len(b))) {
            exists|inner: DecodeError| #[trigger] B::fail_spec(b.skip(A::parse_len(b)), inner) && wrapped_err(2, inner, e)
        } else if !C::can_parse(b.skip(A::parse_len(b)).skip(B::parse_len(b.skip(A::parse_len(b))))) {
            exists|inner: DecodeError| #[trigger] C::fail_spec(b.skip(A::parse_len(b)).skip(B::parse_len(b.skip(A::parse_len(b)))), inner) && wrapped_err(3, inner, e)
        } else {
            true
        }
    }

    fn from_kv_key<'a>(decoder: &mut KeyDecoder<'a>) -> (r: Result<Self, DecodeError>) {
        let ghost rem0 = decoder.remaining();
        let v0 = match A::from_kv_key(decoder) {
            Ok(v) => v,
            Err(inner) => {
                let e = wrap_component_err("1", inner);
                proof {
                    let b = old(decoder).remaining();
                    assert(A::fail_spec(b, inner) && wrapped_err(1, inner, e));
                    assert(Self::fail_spec(b, e));
                }
                return Err(e);
            },
        };
        let ghost rem1 = decoder.remaining();
        let v1 = match B::from_kv_key(decoder) {
            Ok(v) => v,
            Err(inner) => {
                let e = wrap_component_err("2", inner);
                proof {
                    let b = old(decoder).remaining();
                    assert(rem1 == b.skip(A::parse_len(b)));
                    assert(B::fail_spec(b.skip(A::parse_len(b)), inner) && wrapped_err(2, inner, e));
                    assert(Self::fail_spec(b, e));
                }
                return Err(e);
            },
        };
        let ghost rem2 = decoder.remaining();
        let v2 = match C::from_kv_key(decoder) {
            Ok(v) => v,
            Err(inner) => {
                let e = wrap_component_err("3", inner);
                proof {
                    let b = old(decoder).remaining();
                    assert(rem1 == b.skip(A::parse_len(b)));
                    assert(rem2 == b.skip(A::parse_len(b)).skip(B::parse_len(b.skip(A::parse_len(b)))));
                    assert(C::fail_spec(b.skip(A::parse_len(b)).skip(B::parse_len(b.skip(A::parse_len(b)))), inner) && wrapped_err(3, inner, e));
                    assert(Self::fail_spec(b, e));
                }
                return Err(e);
            },
        };
        proof {
            let b = old(decoder).remaining();
            assert(decoder.remaining() =~= b.skip(Self::parse_len(b)));
        }
        Ok((v0, v1, v2))
    }
}


impl<A: FromKvKey, B: FromKvKey, C: FromKvKey, D: FromKvKey> FromKvKey for (A, B, C, D) {
    open spec fn can_parse(b: Seq<u8>) -> bool {
        A::can_parse(b) && B::can_parse(b.skip(A::parse_len(b))) && C::can_parse(b.skip(A::parse_len(b)).skip(B::parse_len(b.skip(A::parse_len(b))))) && D::can_parse(b.skip(A::parse_len(b)).skip(B::parse_len(b.skip(A::parse_len(b)))).skip(C::parse_len(b.skip(A::parse_len(b)).skip(B::parse_len(b.skip(A::parse_len(b)))))))
    }

    open spec fn parse_dview(b: Seq<u8>) -> Self::V {
        (A::parse_dview(b), B::parse_dview(b.skip(A::parse_len(b))), C::parse_dview(b.skip(A::parse_len(b)).skip(B::parse_len(b.skip(A::parse_len(b))))), D::parse_dview(b.skip(A::parse_len(b)).skip(B::parse_len(b.skip(A::parse_len(b)))).skip(C::parse_len(b.skip(A::parse_len(b)).skip(B::parse_len(b.skip(A::parse_len(b))))))))
    }

    open spec fn parse_len(b: Seq<u8>) -> int {
        A::parse_len(b) + B::parse_len(b.skip(A::parse_len(b))) + C::parse_len(b.skip(A::parse_len(b)).skip(B::parse_len(b.skip(A::parse_len(b))))) + D::parse_len(b.skip(A::parse_len(b)).skip(B::parse_len(b.skip(A::parse_len(b)))).skip(C::parse_len(b.skip(A::parse_len(b)).skip(B::parse_len(b.skip(A::parse_len(b)))))))
    }

    open spec fn fail_spec(b: Seq<u8>, e: DecodeError) -> bool {
        if !A::can_parse(b) {
            exists|inner: DecodeError| #[trigger] A::fail_spec(b, inner) && wrapped_err(1, inner, e)
        } else if !B::can_parse(b.skip(A::parse_len(b))) {
            exists|inner: DecodeError| #[trigger] B::fail_spec(b.skip(A::parse_len(b)), inner) && wrapped_err(2, inner, e)
        } else if !C::can_parse(b.skip(A::parse_len(b)).skip(B::parse_len(b.skip(A::parse_len(b))))) {
            exists|inner: DecodeError| #[trigger] C::fail_spec(b.skip(A::parse_len(b)).skip(B::parse_len(b.skip(A::parse_len(b)))), inner) && wrapped_err(3, inner, e)
        } else if !D::can_parse(b.skip(A::parse_len(b)).skip(B::parse_len(b.skip(A::parse_len(b)))).skip(C::parse_len(b.skip(A::parse_len(b)).skip(B::parse_len(b.skip(A::parse_len(b))))))) {
            exists|inner: DecodeError| #[trigger] D::fail_spec(b.skip(A::parse_len(b)).skip(B::parse_len(b.skip(A::parse_len(b)))).skip(C::parse_len(b.skip(A::parse_len(b)).skip(B::parse_len(b.skip(A::parse_len(b)))))), inner) && wrapped_err(4, inner, e)
        } else {
            true
        }
    }

    fn from_kv_key<'a>(decoder: &mut KeyDecoder<'a>) -> (r: Result<Self, DecodeError>) {
        let ghost rem0 = decoder.remaining();
        let v0 = match A::from_kv_key(decoder) {
            Ok(v) => v,
            Err(inner) => {
                let e = wrap_component_err("1", inner);
                proof {
                    let b = old(decoder).remaining();
                    assert(A::fail_spec(b, inner) && wrapped_err(1, inner, e));
                    assert(Self::fail_spec(b, e));
                }
                return Err(e);
            },
        };
        let ghost rem1 = decoder.remaining();
        let v1 = match B::from_kv_key(decoder) {
            Ok(v) => v,
            Err(inner) => {
                let e = wrap_component_err("2", inner);
                proof {
                    let b = old(decoder).remaining();
                    assert(rem1 == b.skip(A::parse_len(b)));
                    assert(B::fail_spec(b.skip(A::parse_len(b)), inner) && wrapped_err(2, inner, e));
                    assert(Self::fail_spec(b, e));
                }
                return Err(e);
            },
        };
        let ghost rem2 = decoder.remaining();
        let v2 = match C::from_kv_key(decoder) {
            Ok(v) => v,
            Err(inner) => {
                let e = wrap_component_err("3", inner);
                proof {
                    let b = old(decoder).remaining();
                    assert(rem1 == b.skip(A::parse_len(b)));
                    assert(rem2 == b.skip(A::parse_len(b)).skip(B::parse_len(b.skip(A::parse_len(b)))));
                    assert(C::fail_spec(b.skip(A::parse_len(b)).skip(B::parse_len(b.skip(A::parse_len(b)))), inner) && wrapped_err(3, inner, e));
                    assert(Self::fail_spec(b, e));
                }
                return Err(e);
            },
        };
        let ghost rem3 = decoder.remaining();
        let v3 = match D::from_kv_key(decoder) {
            Ok(v) => v,
            Err(inner) => {
                let e = wrap_component_err("4", inner);
                proof {
                    let b = old(decoder).remaining();
                    assert(rem1 == b.skip(A::parse_len(b)));
                    assert(rem2 == b.skip(A::parse_len(b)).skip(B::parse_len(b.skip(A::parse_len(b)))));
                    assert(rem3 == b.skip(A::parse_len(b)).skip(B::parse_len(b.skip(A::parse_len(b)))).skip(C::parse_len(b.skip(A::parse_len(b)).skip(B::parse_len(b.skip(A::parse_len(b)))))));
                    assert(D::fail_spec(b.skip(A::parse_len(b)).skip(B::parse_len(b.skip(A::parse_len(b)))).skip(C::parse_len(b.skip(A::parse_len(b)).skip(B::parse_len(b.skip(A::parse_len(b)))))), inner) && wrapped_err(4, inner, e));
                    assert(Self::fail_spec(b, e));
                }
                return Err(e);
            },
        };
        proof {
            let b = old(decoder).remaining();
            assert(decoder.remaining() =~= b.skip(Self::parse_len(b)));
        }
        Ok((v0, v1, v2, v3))
    }
}


impl<A: FromKvKey, B: FromKvKey, C: FromKvKey, D: FromKvKey, E: FromKvKey> FromKvKey for (A, B, C, D, E) {
    open spec fn can_parse(b: Seq<u8>) -> bool {
        A::can_parse(b) && B::can_parse(b.skip(A::parse_len(b))) && C::can_parse(b.skip(A::parse_len(b)).skip(B::parse_len(b.skip(A::parse_len(b))))) && D::can_parse(b.skip(A::parse_len(b)).skip(B::parse_len(b.skip(A::parse_len(b)))).skip(C::parse_len(b.skip(A::parse_len(b)).skip(B::parse_len(b.skip(A::parse_len(b))))))) && E::can_parse(b.skip(A::parse_len(b)).skip(B::parse_len(b.skip(A::parse_len(b)))).skip(C::parse_len(b.skip(A::parse_len(b)).skip(B::parse_len(b.skip(A::parse_len(b)))))).skip(D::parse_len(b.skip(A::parse_len(b)).skip(B::parse_len(b.skip(A::parse_len(b)))).skip(C::parse_len(b.skip(A::parse_len(b)).skip(B::parse_len(b.skip(A::parse_len(b)))))))))
    }

    open spec fn parse_dview(b: Seq<u8>) -> Self::V {
        (A::parse_dview(b), B::parse_dview(b.skip(A::parse_len(b))), C::parse_dview(b.skip(A::parse_len(b)).skip(B::parse_len(b.skip(A::parse_len(b))))), D::parse_dview(b.skip(A::parse_len(b)).skip(B::parse_len(b.skip(A::parse_len(b)))).skip(C::parse_len(b.skip(A::parse_len(b)).skip(B::parse_len(b.skip(A::parse_len(b))))))), E::parse_dview(b.skip(A::parse_len(b)).skip(B::parse_len(b.skip(A::parse_len(b)))).skip(C::parse_len(b.skip(A::parse_len(b)).skip(B::parse_len(b.skip(A::parse_len(b)))))).skip(D::parse_len(b.skip(A::parse_len(b)).skip(B::parse_len(b.skip(A::parse_len(b)))).skip(C::parse_len(b.skip(A::parse_len(b)).skip(B::parse_len(b.skip(A::parse_len(b))))))))))
    }

    open spec fn parse_len(b: Seq<u8>) -> int {
        A::parse_len(b) + B::parse_len(b.skip(A::parse_len(b))) + C::parse_len(b.skip(A::parse_len(b)).skip(B::parse_len(b.skip(A::parse_len(b))))) + D::parse_len(b.skip(A::parse_len(b)).skip(B::parse_len(b.skip(A::parse_len(b)))).skip(C::parse_len(b.skip(A::parse_len(b)).skip(B::parse_len(b.skip(A::parse_len(b))))))) + E::parse_len(b.skip(A::parse_len(b)).skip(B::parse_len(b.skip(A::parse_len(b)))).skip(C::parse_len(b.skip(A::parse_len(b)).skip(B::parse_len(b.skip(A::parse_len(b)))))).skip(D::parse_len(b.skip(A::parse_len(b)).skip(B::parse_len(b.skip(A::parse_len(b)))).skip(C::parse_len(b.skip(A::parse_len(b)).skip(B::parse_len(b.skip(A::parse_len(b)))))))))
    }

    open spec fn fail_spec(b: Seq<u8>, e: DecodeError) -> bool {
        if !A::can_parse(b) {
            exists|inner: DecodeError| #[trigger] A::fail_spec(b, inner) && wrapped_err(1, inner, e)
        } else if !B::can_parse(b.skip(A::parse_len(b))) {
            exists|inner: DecodeError| #[trigger] B::fail_spec(b.skip(A::parse_len(b)), inner) && wrapped_err(2, inner, e)
        } else if !C::can_parse(b.skip(A::parse_len(b)).skip(B::parse_len(b.skip(A::parse_len(b))))) {
            exists|inner: DecodeError| #[trigger] C::fail_spec(b.skip(A::parse_len(b)).skip(B::parse_len(b.skip(A::parse_len(b)))), inner) && wrapped_err(3, inner, e)
        } else if !D::can_parse(b.skip(A::parse_len(b)).skip(B::parse_len(b.skip(A::parse_len(b)))).skip(C::parse_len(b.skip(A::parse_len(b)).skip(B::parse_len(b.skip(A::parse_len(b))))))) {
            exists|inner: DecodeError| #[trigger] D::fail_spec(b.skip(A::parse_len(b)).skip(B::parse_len(b.skip(A::parse_len(b)))).skip(C::parse_len(b.skip(A::parse_len(b)).skip(B::parse_len(b.skip(A::parse_len(b)))))), inner) && wrapped_err(4, inner, e)
        } else if !E::can_parse(b.skip(A::parse_len(b)).skip(B::parse_len(b.skip(A::parse_len(b)))).skip(C::parse_len(b.skip(A::parse_len(b)).skip(B::parse_len(b.skip(A::parse_len(b)))))).skip(D::parse_len(b.skip(A::parse_len(b)).skip(B::parse_len(b.skip(A::parse_len(b)))).skip(C::parse_len(b.skip(A::parse_len(b)).skip(B::parse_len(b.skip(A::parse_len(b))))))))) {
            exists|inner: DecodeError| #[trigger] E::fail_spec(b.skip(A::parse_len(b)).skip(B::parse_len(b.skip(A::parse_len(b)))).skip(C::parse_len(b.skip(A::parse_len(b)).skip(B::parse_len(b.skip(A::parse_len(b)))))).skip(D::parse_len(b.skip(A::parse_len(b)).skip(B::parse_len(b.skip(A::parse_len(b)))).skip(C::parse_len(b.skip(A::parse_len(b)).skip(B::parse_len(b.skip(A::parse_len(b)))))))), inner) && wrapped_err(5, inner, e)
        } else {
            true
        }
    }

    fn from_kv_key<'a>(decoder: &mut KeyDecoder<'a>) -> (r: Result<Self, DecodeError>) {
        let ghost rem0 = decoder.remaining();
        let v0 = match A::from_kv_key(decoder) {
            Ok(v) => v,
            Err(inner) => {
                let e = wrap_component_err("1", inner);
                proof {
                    let b = old(decoder).remaining();
                    assert(A::fail_spec(b, inner) && wrapped_err(1, inner, e));
                    assert(Self::fail_spec(b, e));
                }
                return Err(e);
            },
        };
        let ghost rem1 = decoder.remaining();
        let v1 = match B::from_kv_key(decoder) {
            Ok(v) => v,
            Err(inner) => {
                let e = wrap_component_err("2", inner);
                proof {
                    let b = old(decoder).remaining();
                    assert(rem1 == b.skip(A::parse_len(b)));
                    assert(B::fail_spec(b.skip(A::parse_len(b)), inner) && wrapped_err(2, inner, e));
                    assert(Self::fail_spec(b, e));
                }
                return Err(e);
            },
        };
        let ghost rem2 = decoder.remaining();
        let v2 = match C::from_kv_key(decoder) {
            Ok(v) => v,
            Err(inner) => {
                let e = wrap_component_err("3", inner);
                proof {
                    let b = old(decoder).remaining();
                    assert(rem1 == b.skip(A::parse_len(b)));
                    assert(rem2 == b.skip(A::parse_len(b)).skip(B::parse_len(b.skip(A::parse_len(b)))));
                    assert(C::fail_spec(b.skip(A::parse_len(b)).skip(B::parse_len(b.skip(A::parse_len(b)))), inner) && wrapped_err(3, inner, e));
                    assert(Self::fail_spec(b, e));
                }
                return Err(e);
            },
        };
        let ghost rem3 = decoder.remaining();
        let v3 = match D::from_kv_key(decoder) {
            Ok(v) => v,
            Err(inner) => {
                let e = wrap_component_err("4", inner);
                proof {
                    let b = old(decoder).remaining();
                    assert(rem1 == b.skip(A::parse_len(b)));
                    assert(rem2 == b.skip(A::parse_len(b)).skip(B::parse_len(b.skip(A::parse_len(b)))));
                    assert(rem3 == b.skip(A::parse_len(b)).skip(B::parse_len(b.skip(A::parse_len(b)))).skip(C::parse_len(b.skip(A::parse_len(b)).skip(B::parse_len(b.skip(A::parse_len(b)))))));
                    assert(D::fail_spec(b.skip(A::parse_len(b)).skip(B::parse_len(b.skip(A::parse_len(b)))).skip(C::parse_len(b.skip(A::parse_len(b)).skip(B::parse_len(b.skip(A::parse_len(b)))))), inner) && wrapped_err(4, inner, e));
                    assert(Self::fail_spec(b, e));
                }
                return Err(e);
            },
        };
        let ghost rem4 = decoder.remaining();
        let v4 = match E::from_kv_key(decoder) {
            Ok(v) => v,
            Err(inner) => {
                let e = wrap_component_err("5", inner);
                proof {
                    let b = old(decoder).remaining();
                    assert(rem1 == b.skip(A::parse_len(b)));
                    assert(rem2 == b.skip(A::parse_len(b)).skip(B::parse_len(b.skip(A::parse_len(b)))));
                    assert(rem3 == b.skip(A::parse_len(b)).skip(B::parse_len(b.skip(A::parse_len(b)))).skip(C::parse_len(b.skip(A::parse_len(b)).skip(B::parse_len(b.skip(A::parse_len(b)))))));
                    assert(rem4 == b.skip(A::parse_len(b)).skip(B::parse_len(b.skip(A::parse_len(b)))).skip(C::parse_len(b.skip(A::parse_len(b)).skip(B::parse_len(b.skip(A::parse_len(b)))))).skip(D::parse_len(b.skip(A::parse_len(b)).skip(B::parse_len(b.skip(A::parse_len(b)))).skip(C::parse_len(b.skip(A::parse_len(b)).skip(B::parse_len(b.skip(A::parse_len(b)))))))));
                    assert(E::fail_spec(b.skip(A::parse_len(b)).skip(B::parse_len(b.skip(A::parse_len(b)))).skip(C::parse_len(b.skip(A::parse_len(b)).skip(B::parse_len(b.skip(A::parse_len(b)))))).skip(D::parse_len(b.skip(A::parse_len(b)).skip(B::parse_len(b.skip(A::parse_len(b)))).skip(C::parse_len(b.skip(A::parse_len(b)).skip(B::parse_len(b.skip(A::parse_len(b)))))))), inner) && wrapped_err(5, inner, e));
                    assert(Self::fail_spec(b, e));
                }
                return Err(e);
            },
        };
        proof {
            let b = old(decoder).remaining();
            assert(decoder.remaining() =~= b.skip(Self::parse_len(b)));
        }
        Ok((v0, v1, v2, v3, v4))
    }
}


impl<A: FromKvKey, B: FromKvKey, C: FromKvKey, D: FromKvKey, E: FromKvKey, F: FromKvKey> FromKvKey for (A, B, C, D, E, F) {
    open spec fn can_parse(b: Seq<u8>) -> bool {
        A::can_parse(b) && B::can_parse(b.skip(A::parse_len(b))) && C::can_parse(b.skip(A::parse_len(b)).skip(B::parse_len(b.skip(A::parse_len(b))))) && D::can_parse(b.skip(A::parse_len(b)).skip(B::parse_len(b.skip(A::parse_len(b)))).skip(C::parse_len(b.skip(A::parse_len(b)).skip(B::parse_len(b.skip(A::parse_len(b))))))) && E::can_parse(b.skip(A::parse_len(b)).skip(B::parse_len(b.skip(A::parse_len(b)))).skip(C::parse_len(b.skip(A::parse_len(b)).skip(B::parse_len(b.skip(A::parse_len(b)))))).skip(D::parse_len(b.skip(A::parse_len(b)).skip(B::parse_len(b.skip(A::parse_len(b)))).skip(C::parse_len(b.skip(A::parse_len(b)).skip(B::parse_len(b.skip(A::parse_len(b))))))))) && F::can_parse(b.skip(A::parse_len(b)).skip(B::parse_len(b.skip(A::parse_len(b)))).skip(C::parse_len(b.skip(A::parse_len(b)).skip(B::parse_len(b.skip(A::parse_len(b)))))).skip(D::parse_len(b.skip(A::parse_len(b)).skip(B::parse_len(b.skip(A::parse_len(b)))).skip(C::parse_len(b.skip(A::parse_len(b)).skip(B::parse_len(b.skip(A::parse_len(b)))))))).skip(E::parse_len(b.skip(A::parse_len(b)).skip(B::parse_len(b.skip(A::parse_len(b)))).skip(C::parse_len(b.skip(A::parse_len(b)).skip(B::parse_len(b.skip(A::parse_len(b)))))).skip(D::parse_len(b.skip(A::parse_len(b)).skip(B::parse_len(b.skip(A::parse_len(b)))).skip(C::parse_len(b.skip(A::parse_len(b)).skip(B::parse_len(b.skip(A::parse_len(b)))))))))))
    }

    open spec fn parse_dview(b: Seq<u8>) -> Self::V {
        (A::parse_dview(b), B::parse_dview(b.skip(A::parse_len(b))), C::parse_dview(b.skip(A::parse_len(b)).skip(B::parse_len(b.skip(A::parse_len(b))))), D::parse_dview(b.skip(A::parse_len(b)).skip(B::parse_len(b.skip(A::parse_len(b)))).skip(C::parse_len(b.skip(A::parse_len(b)).skip(B::parse_len(b.skip(A::parse_len(b))))))), E::parse_dview(b.skip(A::parse_len(b)).skip(B::parse_len(b.skip(A::parse_len(b)))).skip(C::parse_len(b.skip(A::parse_len(b)).skip(B::parse_len(b.skip(A::parse_len(b)))))).skip(D::parse_len(b.skip(A::parse_len(b)).skip(B::parse_len(b.skip(A::parse_len(b)))).skip(C::parse_len(b.skip(A::parse_len(b)).skip(B::parse_len(b.skip(A::parse_len(b))))))))), F::parse_dview(b.skip(A::parse_len(b)).skip(B::parse_len(b.skip(A::parse_len(b)))).skip(C::parse_len(b.skip(A::parse_len(b)).skip(B::parse_len(b.skip(A::parse_len(b)))))).skip(D::parse_len(b.skip(A::parse_len(b)).skip(B::parse_len(b.skip(A::parse_len(b)))).skip(C::parse_len(b.skip(A::parse_len(b)).skip(B::parse_len(b.skip(A::parse_len(b)))))))).skip(E::parse_len(b.skip(A::parse_len(b)).skip(B::parse_len(b.skip(A::parse_len(b)))).skip(C::parse_len(b.skip(A::parse_len(b)).skip(B::parse_len(b.skip(A::parse_len(b)))))).skip(D::parse_len(b.skip(A::parse_len(b)).skip(B::parse_len(b.skip(A::parse_len(b)))).skip(C::parse_len(b.skip(A::parse_len(b)).skip(B::parse_len(b.skip(A::parse_len(b))))))))))))
    }

    open spec fn parse_len(b: Seq<u8>) -> int {
        A::parse_len(b) + B::parse_len(b.skip(A::parse_len(b))) + C::parse_len(b.skip(A::parse_len(b)).skip(B::parse_len(b.skip(A::parse_len(b))))) + D::parse_len(b.skip(A::parse_len(b)).skip(B::parse_len(b.skip(A::parse_len(b)))).skip(C::parse_len(b.skip(A::parse_len(b)).skip(B::parse_len(b.skip(A::parse_len(b))))))) + E::parse_len(b.skip(A::parse_len(b)).skip(B::parse_len(b.skip(A::parse_len(b)))).skip(C::parse_len(b.skip(A::parse_len(b)).skip(B::parse_len(b.skip(A::parse_len(b)))))).skip(D::parse_len(b.skip(A::parse_len(b)).skip(B::parse_len(b.skip(A::parse_len(b)))).skip(C::parse_len(b.skip(A::parse_len(b)).skip(B::parse_len(b.skip(A::parse_len(b))))))))) + F::parse_len(b.skip(A::parse_len(b)).skip(B::parse_len(b.skip(A::parse_len(b)))).skip(C::parse_len(b.skip(A::parse_len(b)).skip(B::parse_len(b.skip(A::parse_len(b)))))).skip(D::parse_len(b.skip(A::parse_len(b)).skip(B::parse_len(b.skip(A::parse_len(b)))).skip(C::parse_len(b.skip(A::parse_len(b)).skip(B::parse_len(b.skip(A::parse_len(b)))))))).skip(E::parse_len(b.skip(A::parse_len(b)).skip(B::parse_len(b.skip(A::parse_len(b)))).skip(C::parse_len(b.skip(A::parse_len(b)).skip(B::parse_len(b.skip(A::parse_len(b)))))).skip(D::parse_len(b.skip(A::parse_len(b)).skip(B::parse_len(b.skip(A::parse_len(b)))).skip(C::parse_len(b.skip(A::parse_len(b)).skip(B::parse_len(b.skip(A::parse_len(b)))))))))))
    }

    open spec fn fail_spec(b: Seq<u8>, e: DecodeError) -> bool {
        if !A::can_parse(b) {
            exists|inner: DecodeError| #[trigger] A::fail_spec(b, inner) && wrapped_err(1, inner, e)
        } else if !B::can_parse(b.skip(A::parse_len(b))) {
            exists|inner: DecodeError| #[trigger] B::fail_spec(b.skip(A::parse_len(b)), inner) && wrapped_err(2, inner, e)
        } else if !C::can_parse(b.skip(A::parse_len(b)).skip(B::parse_len(b.skip(A::parse_len(b))))) {
            exists|inner: DecodeError| #[trigger] C::fail_spec(b.skip(A::parse_len(b)).skip(B::parse_len(b.skip(A::parse_len(b)))), inner) && wrapped_err(3, inner, e)
        } else if !D::can_parse(b.skip(A::parse_len(b)).skip(B::parse_len(b.skip(A::parse_len(b)))).skip(C::parse_len(b.skip(A::parse_len(b)).skip(B::parse_len(b.skip(A::parse_len(b))))))) {
            exists|inner: DecodeError| #[trigger] D::fail_spec(b.skip(A::parse_len(b)).skip(B::parse_len(b.skip(A::parse_len(b)))).skip(C::parse_len(b.skip(A::parse_len(b)).skip(B::parse_len(b.skip(A::parse_len(b)))))), inner) && wrapped_err(4, inner, e)
        } else if !E::can_parse(b.skip(A::parse_len(b)).skip(B::parse_len(b.skip(A::parse_len(b)))).skip(C::parse_len(b.skip(A::parse_len(b)).skip(B::parse_len(b.skip(A::parse_len(b)))))).skip(D::parse_len(b.skip(A::parse_len(b)).skip(B::parse_len(b.skip(A::parse_len(b)))).skip(C::parse_len(b.skip(A::parse_len(b)).skip(B::parse_len(b.skip(A::parse_len(b))))))))) {
            exists|inner: DecodeError| #[trigger] E::fail_spec(b.skip(A::parse_len(b)).skip(B::parse_len(b.skip(A::parse_len(b)))).skip(C::parse_len(b.skip(A::parse_len(b)).skip(B::parse_len(b.skip(A::parse_len(b)))))).skip(D::parse_len(b.skip(A::parse_len(b)).skip(B::parse_len(b.skip(A::parse_len(b)))).skip(C::parse_len(b.skip(A::parse_len(b)).skip(B::parse_len(b.skip(A::parse_len(b)))))))), inner) && wrapped_err(5, inner, e)
        } else if !F::can_parse(b.skip(A::parse_len(b)).skip(B::parse_len(b.skip(A::parse_len(b)))).skip(C::parse_len(b.skip(A::parse_len(b)).skip(B::parse_len(b.skip(A::parse_len(b)))))).skip(D::parse_len(b.skip(A::parse_len(b)).skip(B::parse_len(b.skip(A::parse_len(b)))).skip(C::parse_len(b.skip(A::parse_len(b)).skip(B::parse_len(b.skip(A::parse_len(b)))))))).skip(E::parse_len(b.skip(A::parse_len(b)).skip(B::parse_len(b.skip(A::parse_len(b)))).skip(C::parse_len(b.skip(A::parse_len(b)).skip(B::parse_len(b.skip(A::parse_len(b)))))).skip(D::parse_len(b.skip(A::parse_len(b)).skip(B::parse_len(b.skip(A::parse_len(b)))).skip(C::parse_len(b.skip(A::parse_len(b)).skip(B::parse_len(b.skip(A::parse_len(b))))))))))) {
            exists|inner: DecodeError| #[trigger] F::fail_spec(b.skip(A::parse_len(b)).skip(B::parse_len(b.skip(A::parse_len(b)))).skip(C::parse_len(b.skip(A::parse_len(b)).skip(B::parse_len(b.skip(A::parse_len(b)))))).skip(D::parse_len(b.skip(A::parse_len(b)).skip(B::parse_len(b.skip(A::parse_len(b)))).skip(C::parse_len(b.skip(A::parse_len(b)).skip(B::parse_len(b.skip(A::parse_len(b)))))))).skip(E::parse_len(b.skip(A::parse_len(b)).skip(B::parse_len(b.skip(A::parse_len(b)))).skip(C::parse_len(b.skip(A::parse_len(b)).skip(B::parse_len(b.skip(A::parse_len(b)))))).skip(D::parse_len(b.skip(A::parse_len(b)).skip(B::parse_len(b.skip(A::parse_len(b)))).skip(C::parse_len(b.skip(A::parse_len(b)).skip(B::parse_len(b.skip(A::parse_len(b)))))))))), inner) && wrapped_err(6, inner, e)
        } else {
            true
        }
    }

    fn from_kv_key<'a>(decoder: &mut KeyDecoder<'a>) -> (r: Result<Self, DecodeError>) {
        let ghost rem0 = decoder.remaining();
        let v0 = match A::from_kv_key(decoder) {
            Ok(v) => v,
            Err(inner) => {
                let e = wrap_component_err("1", inner);
                proof {
                    let b = old(decoder).remaining();
                    assert(A::fail_spec(b, inner) && wrapped_err(1, inner, e));
                    assert(Self::fail_spec(b, e));
                }
                return Err(e);
            },
        };
        let ghost rem1 = decoder.remaining();
        let v1 = match B::from_kv_key(decoder) {
            Ok(v) => v,
            Err(inner) => {
                let e = wrap_component_err("2", inner);
                proof {
                    let b = old(decoder).remaining();
                    assert(rem1 == b.skip(A::parse_len(b)));
                    assert(B::fail_spec(b.skip(A::parse_len(b)), inner) && wrapped_err(2, inner, e));
                    assert(Self::fail_spec(b, e));
                }
                return Err(e);
            },
        };
        let ghost rem2 = decoder.remaining();
        let v2 = match C::from_kv_key(decoder) {
            Ok(v) => v,
            Err(inner) => {
                let e = wrap_component_err("3", inner);
                proof {
                    let b = old(decoder).remaining();
                    assert(rem1 == b.skip(A::parse_len(b)));
                    assert(rem2 == b.skip(A::parse_len(b)).skip(B::parse_len(b.skip(A::parse_len(b)))));
                    assert(C::fail_spec(b.skip(A::parse_len(b)).skip(B::parse_len(b.skip(A::parse_len(b)))), inner) && wrapped_err(3, inner, e));
                    assert(Self::fail_spec(b, e));
                }
                return Err(e);
            },
        };
        let ghost rem3 = decoder.remaining();
        let v3 = match D::from_kv_key(decoder) {
            Ok(v) => v,
            Err(inner) => {
                let e = wrap_component_err("4", inner);
                proof {
                    let b = old(decoder).remaining();
                    assert(rem1 == b.skip(A::parse_len(b)));
                    assert(rem2 == b.skip(A::parse_len(b)).skip(B::parse_len(b.skip(A::parse_len(b)))));
                    assert(rem3 == b.skip(A::parse_len(b)).skip(B::parse_len(b.skip(A::parse_len(b)))).skip(C::parse_len(b.skip(A::parse_len(b)).skip(B::parse_len(b.skip(A::parse_len(b)))))));
                    assert(D::fail_spec(b.skip(A::parse_len(b)).skip(B::parse_len(b.skip(A::parse_len(b)))).skip(C::parse_len(b.skip(A::parse_len(b)).skip(B::parse_len(b.skip(A::parse_len(b)))))), inner) && wrapped_err(4, inner, e));
                    assert(Self::fail_spec(b, e));
                }
                return Err(e);
            },
        };
        let ghost rem4 = decoder.remaining();
        let v4 = match E::from_kv_key(decoder) {
            Ok(v) => v,
            Err(inner) => {
                let e = wrap_component_err("5", inner);
                proof {
                    let b = old(decoder).remaining();
                    assert(rem1 == b.skip(A::parse_len(b)));
                    assert(rem2 == b.skip(A::parse_len(b)).skip(B::parse_len(b.skip(A::parse_len(b)))));
                    assert(rem3 == b.skip(A::parse_len(b)).skip(B::parse_len(b.skip(A::parse_len(b)))).skip(C::parse_len(b.skip(A::parse_len(b)).skip(B::parse_len(b.skip(A::parse_len(b)))))));
                    assert(rem4 == b.skip(A::parse_len(b)).skip(B::parse_len(b.skip(A::parse_len(b)))).skip(C::parse_len(b.skip(A::parse_len(b)).skip(B::parse_len(b.skip(A::parse_len(b)))))).skip(D::parse_len(b.skip(A::parse_len(b)).skip(B::parse_len(b.skip(A::parse_len(b)))).skip(C::parse_len(b.skip(A::parse_len(b)).skip(B::parse_len(b.skip(A::parse_len(b)))))))));
                    assert(E::fail_spec(b.skip(A::parse_len(b)).skip(B::parse_len(b.skip(A::parse_len(b)))).skip(C::parse_len(b.skip(A::parse_len(b)).skip(B::parse_len(b.skip(A::parse_len(b)))))).skip(D::parse_len(b.skip(A::parse_len(b)).skip(B::parse_len(b.skip(A::parse_len(b)))).skip(C::parse_len(b.skip(A::parse_len(b)).skip(B::parse_len(b.skip(A::parse_len(b)))))))), inner) && wrapped_err(5, inner, e));
                    assert(Self::fail_spec(b, e));
                }
                return Err(e);
            },
        };
        let ghost rem5 = decoder.remaining();
        let v5 = match F::from_kv_key(decoder) {
            Ok(v) => v,
            Err(inner) => {
                let e = wrap_component_err("6", inner);
                proof {
                    let b = old(decoder).remaining();
                    assert(rem1 == b.skip(A::parse_len(b)));
                    assert(rem2 == b.skip(A::parse_len(b)).skip(B::parse_len(b.skip(A::parse_len(b)))));
                    assert(rem3 == b.skip(A::parse_len(b)).skip(B::parse_len(b.skip(A::parse_len(b)))).skip(C::parse_len(b.skip(A::parse_len(b)).skip(B::parse_len(b.skip(A::parse_len(b)))))));
                    assert(rem4 == b.skip(A::parse_len(b)).skip(B::parse_len(b.skip(A::parse_len(b)))).skip(C::parse_len(b.skip(A::parse_len(b)).skip(B::parse_len(b.skip(A::parse_len(b)))))).skip(D::parse_len(b.skip(A::parse_len(b)).skip(B::parse_len(b.skip(A::parse_len(b)))).skip(C::parse_len(b.skip(A::parse_len(b)).skip(B::parse_len(b.skip(A::parse_len(b)))))))));
                    assert(rem5 == b.skip(A::parse_len(b)).skip(B::parse_len(b.skip(A::parse_len(b)))).skip(C::parse_len(b.skip(A::parse_len(b)).skip(B::parse_len(b.skip(A::parse_len(b)))))).skip(D::parse_len(b.skip(A::parse_len(b)).skip(B::parse_len(b.skip(A::parse_len(b)))).skip(C::parse_len(b.skip(A::parse_len(b)).skip(B::parse_len(b.skip(A::parse_len(b)))))))).skip(E::parse_len(b.skip(A::parse_len(b)).skip(B::parse_len(b.skip(A::parse_len(b)))).skip(C::parse_len(b.skip(A::parse_len(b)).skip(B::parse_len(b.skip(A::parse_len(b)))))).skip(D::parse_len(b.skip(A::parse_len(b)).skip(B::parse_len(b.skip(A::parse_len(b)))).skip(C::parse_len(b.skip(A::parse_len(b)).skip(B::parse_len(b.skip(A::parse_len(b)))))))))));
                    assert(F::fail_spec(b.skip(A::parse_len(b)).skip(B::parse_len(b.skip(A::parse_len(b)))).skip(C::parse_len(b.skip(A::parse_len(b)).skip(B::parse_len(b.skip(A::parse_len(b)))))).skip(D::parse_len(b.skip(A::parse_len(b)).skip(B::parse_len(b.skip(A::parse_len(b)))).skip(C::parse_len(b.skip(A::parse_len(b)).skip(B::parse_len(b.skip(A::parse_len(b)))))))).skip(E::parse_len(b.skip(A::parse_len(b)).skip(B::parse_len(b.skip(A::parse_len(b)))).skip(C::parse_len(b.skip(A::parse_len(b)).skip(B::parse_len(b.skip(A::parse_len(b)))))).skip(D::parse_len(b.skip(A::parse_len(b)).skip(B::parse_len(b.skip(A::parse_len(b)))).skip(C::parse_len(b.skip(A::parse_len(b)).skip(B::parse_len(b.skip(A::parse_len(b)))))))))), inner) && wrapped_err(6, inner, e));
                    assert(Self::fail_spec(b, e));
                }
                return Err(e);
            },
        };
        proof {
            let b = old(decoder).remaining();
            assert(decoder.remaining() =~= b.skip(Self::parse_len(b)));
        }
        Ok((v0, v1, v2, v3, v4, v5))
    }
}


impl<A: FromKvKey, B: FromKvKey, C: FromKvKey, D: FromKvKey, E: FromKvKey, F: FromKvKey, G: FromKvKey> FromKvKey for (A, B, C, D, E, F, G) {
    open spec fn can_parse(b: Seq<u8>) -> bool {
        A::can_parse(b) && B::can_parse(b.skip(A::parse_len(b))) && C::can_parse(b.skip(A::parse_len(b)).skip(B::parse_len(b.skip(A::parse_len(b))))) && D::can_parse(b.skip(A::parse_len(b)).skip(B::parse_len(b.skip(A::parse_len(b)))).skip(C::parse_len(b.skip(A::parse_len(b)).skip(B::parse_len(b.skip(A::parse_len(b))))))) && E::can_parse(b.skip(A::parse_len(b)).skip(B::parse_len(b.skip(A::parse_len(b)))).skip(C::parse_len(b.skip(A::parse_len(b)).skip(B::parse_len(b.skip(A::parse_len(b)))))).skip(D::parse_len(b.skip(A::parse_len(b)).skip(B::parse_len(b.skip(A::parse_len(b)))).skip(C::parse_len(b.skip(A::parse_len(b)).skip(B::parse_len(b.skip(A::parse_len(b))))))))) && F::can_parse(b.skip(A::parse_len(b)).skip(B::parse_len(b.skip(A::parse_len(b)))).skip(C::parse_len(b.skip(A::parse_len(b)).skip(B::parse_len(b.skip(A::parse_len(b)))))).skip(D::parse_len(b.skip(A::parse_len(b)).skip(B::parse_len(b.skip(A::parse_len(b)))).skip(C::parse_len(b.skip(A::parse_len(b)).skip(B::parse_len(b.skip(A::parse_len(b)))))))).skip(E::parse_len(b.skip(A::parse_len(b)).skip(B::parse_len(b.skip(A::parse_len(b)))).skip(C::parse_len(b.skip(A::parse_len(b)).skip(B::parse_len(b.skip(A::parse_len(b)))))).skip(D::parse_len(b.skip(A::parse_len(b)).skip(B::parse_len(b.skip(A::parse_len(b)))).skip(C::parse_len(b.skip(A::parse_len(b)).skip(B::parse_len(b.skip(A::parse_len(b))))))))))) && G::can_parse(b.skip(A::parse_len(b)).skip(B::parse_len(b.skip(A::parse_len(b)))).skip(C::parse_len(b.skip(A::parse_len(b)).skip(B::parse_len(b.skip(A::parse_len(b)))))).skip(D::parse_len(b.skip(A::parse_len(b)).skip(B::parse_len(b.skip(A::parse_len(b)))).skip(C::parse_len(b.skip(A::parse_len(b)).skip(B::parse_len(b.skip(A::parse_len(b)))))))).skip(E::parse_len(b.skip(A::parse_len(b)).skip(B::parse_len(b.skip(A::parse_len(b)))).skip(C::parse_len(b.skip(A::parse_len(b)).skip(B::parse_len(b.skip(A::parse_len(b)))))).skip(D::parse_len(b.skip(A::parse_len(b)).skip(B::parse_len(b.skip(A::parse_len(b)))).skip(C::parse_len(b.skip(A::parse_len(b)).skip(B::parse_len(b.skip(A::parse_len(b)))))))))).skip(F::parse_len(b.skip(A::parse_len(b)).skip(B::parse_len(b.skip(A::parse_len(b)))).skip(C::parse_len(b.skip(A::parse_len(b)).skip(B::parse_len(b.skip(A::parse_len(b)))))).skip(D::parse_len(b.skip(A::parse_len(b)).skip(B::parse_len(b.skip(A::parse_len(b)))).skip(C::parse_len(b.skip(A::parse_len(b)).skip(B::parse_len(b.skip(A::parse_len(b)))))))).skip(E::parse_len(b.skip(A::parse_len(b)).skip(B::parse_len(b.skip(A::parse_len(b)))).skip(C::parse_len(b.skip(A::parse_len(b)).skip(B::parse_len(b.skip(A::parse_len(b)))))).skip(D::parse_len(b.skip(A::parse_len(b)).skip(B::parse_len(b.skip(A::parse_len(b)))).skip(C::parse_len(b.skip(A::parse_len(b)).skip(B::parse_len(b.skip(A::parse_len(b)))))))))))))
    }

    open spec fn parse_dview(b: Seq<u8>) -> Self::V {
        (A::parse_dview(b), B::parse_dview(b.skip(A::parse_len(b))), C::parse_dview(b.skip(A::parse_len(b)).skip(B::parse_len(b.skip(A::parse_len(b))))), D::parse_dview(b.skip(A::parse_len(b)).skip(B::parse_len(b.skip(A::parse_len(b)))).skip(C::parse_len(b.skip(A::parse_len(b)).skip(B::parse_len(b.skip(A::parse_len(b))))))), E::parse_dview(b.skip(A::parse_len(b)).skip(B::parse_len(b.skip(A::parse_len(b)))).skip(C::parse_len(b.skip(A::parse_len(b)).skip(B::parse_len(b.skip(A::parse_len(b)))))).skip(D::parse_len(b.skip(A::parse_len(b)).skip(B::parse_len(b.skip(A::parse_len(b)))).skip(C::parse_len(b.skip(A::parse_len(b)).skip(B::parse_len(b.skip(A::parse_len(b))))))))), F::parse_dview(b.skip(A::parse_len(b)).skip(B::parse_len(b.skip(A::parse_len(b)))).skip(C::parse_len(b.skip(A::parse_len(b)).skip(B::parse_len(b.skip(A::parse_len(b)))))).skip(D::parse_len(b.skip(A::parse_len(b)).skip(B::parse_len(b.skip(A::parse_len(b)))).skip(C::parse_len(b.skip(A::parse_len(b)).skip(B::parse_len(b.skip(A::parse_len(b)))))))).skip(E::parse_len(b.skip(A::parse_len(b)).skip(B::parse_len(b.skip(A::parse_len(b)))).skip(C::parse_len(b.skip(A::parse_len(b)).skip(B::parse_len(b.skip(A::parse_len(b)))))).skip(D::parse_len(b.skip(A::parse_len(b)).skip(B::parse_len(b.skip(A::parse_len(b)))).skip(C::parse_len(b.skip(A::parse_len(b)).skip(B::parse_len(b.skip(A::parse_len(b))))))))))), G::parse_dview(b.skip(A::parse_len(b)).skip(B::parse_len(b.skip(A::parse_len(b)))).skip(C::parse_len(b.skip(A::parse_len(b)).skip(B::parse_len(b.skip(A::parse_len(b)))))).skip(D::parse_len(b.skip(A::parse_len(b)).skip(B::parse_len(b.skip(A::parse_len(b)))).skip(C::parse_len(b.skip(A::parse_len(b)).skip(B::parse_len(b.skip(A::parse_len(b)))))))).skip(E::parse_len(b.skip(A::parse_len(b)).skip(B::parse_len(b.skip(A::parse_len(b)))).skip(C::parse_len(b.skip(A::parse_len(b)).skip(B::parse_len(b.skip(A::parse_len(b)))))).skip(D::parse_len(b.skip(A::parse_len(b)).skip(B::parse_len(b.skip(A::parse_len(b)))).skip(C::parse_len(b.skip(A::parse_len(b)).skip(B::parse_len(b.skip(A::parse_len(b)))))))))).skip(F::parse_len(b.skip(A::parse_len(b)).skip(B::parse_len(b.skip(A::parse_len(b)))).skip(C::parse_len(b.skip(A::parse_len(b)).skip(B::parse_len(b.skip(A::parse_len(b)))))).skip(D::parse_len(b.skip(A::parse_len(b)).skip(B::parse_len(b.skip(A::parse_len(b)))).skip(C::parse_len(b.skip(A::parse_len(b)).skip(B::parse_len(b.skip(A::parse_len(b)))))))).skip(E::parse_len(b.skip(A::parse_len(b)).skip(B::parse_len(b.skip(A::parse_len(b)))).skip(C::parse_len(b.skip(A::parse_len(b)).skip(B::parse_len(b.skip(A::parse_len(b)))))).skip(D::parse_len(b.skip(A::parse_len(b)).skip(B::parse_len(b.skip(A::parse_len(b)))).skip(C::parse_len(b.skip(A::parse_len(b)).skip(B::parse_len(b.skip(A::parse_len(b))))))))))))))
    }

    open spec fn parse_len(b: Seq<u8>) -> int {
        A::parse_len(b) + B::parse_len(b.skip(A::parse_len(b))) + C::parse_len(b.skip(A::parse_len(b)).skip(B::parse_len(b.skip(A::parse_len(b))))) + D::parse_len(b.skip(A::parse_len(b)).skip(B::parse_len(b.skip(A::parse_len(b)))).skip(C::parse_len(b.skip(A::parse_len(b)).skip(B::parse_len(b.skip(A::parse_len(b))))))) + E::parse_len(b.skip(A::parse_len(b)).skip(B::parse_len(b.skip(A::parse_len(b)))).skip(C::parse_len(b.skip(A::parse_len(b)).skip(B::parse_len(b.skip(A::parse_len(b)))))).skip(D::parse_len(b.skip(A::parse_len(b)).skip(B::parse_len(b.skip(A::parse_len(b)))).skip(C::parse_len(b.skip(A::parse_len(b)).skip(B::parse_len(b.skip(A::parse_len(b))))))))) + F::parse_len(b.skip(A::parse_len(b)).skip(B::parse_len(b.skip(A::parse_len(b)))).skip(C::parse_len(b.skip(A::parse_len(b)).skip(B::parse_len(b.skip(A::parse_len(b)))))).skip(D::parse_len(b.skip(A::parse_len(b)).skip(B::parse_len(b.skip(A::parse_len(b)))).skip(C::parse_len(b.skip(A::parse_len(b)).skip(B::parse_len(b.skip(A::parse_len(b)))))))).skip(E::parse_len(b.skip(A::parse_len(b)).skip(B::parse_len(b.skip(A::parse_len(b)))).skip(C::parse_len(b.skip(A::parse_len(b)).skip(B::parse_len(b.skip(A::parse_len(b)))))).skip(D::parse_len(b.skip(A::parse_len(b)).skip(B::parse_len(b.skip(A::parse_len(b)))).skip(C::parse_len(b.skip(A::parse_len(b)).skip(B::parse_len(b.skip(A::parse_len(b))))))))))) + G::parse_len(b.skip(A::parse_len(b)).skip(B::parse_len(b.skip(A::parse_len(b)))).skip(C::parse_len(b.skip(A::parse_len(b)).skip(B::parse_len(b.skip(A::parse_len(b)))))).skip(D::parse_len(b.skip(A::parse_len(b)).skip(B::parse_len(b.skip(A::parse_len(b)))).skip(C::parse_len(b.skip(A::parse_len(b)).skip(B::parse_len(b.skip(A::parse_len(b)))))))).skip(E::parse_len(b.skip(A::parse_len(b)).skip(B::parse_len(b.skip(A::parse_len(b)))).skip(C::parse_len(b.skip(A::parse_len(b)).skip(B::parse_len(b.skip(A::parse_len(b)))))).skip(D::parse_len(b.skip(A::parse_len(b)).skip(B::parse_len(b.skip(A::parse_len(b)))).skip(C::parse_len(b.skip(A::parse_len(b)).skip(B::parse_len(b.skip(A::parse_len(b)))))))))).skip(F::parse_len(b.skip(A::parse_len(b)).skip(B::parse_len(b.skip(A::parse_len(b)))).skip(C::parse_len(b.skip(A::parse_len(b)).skip(B::parse_len(b.skip(A::parse_len(b)))))).skip(D::parse_len(b.skip(A::parse_len(b)).skip(B::parse_len(b.skip(A::parse_len(b)))).skip(C::parse_len(b.skip(A::parse_len(b)).skip(B::parse_len(b.skip(A::parse_len(b)))))))).skip(E::parse_len(b.skip(A::parse_len(b)).skip(B::parse_len(b.skip(A::parse_len(b)))).skip(C::parse_len(b.skip(A::parse_len(b)).skip(B::parse_len(b.skip(A::parse_len(b)))))).skip(D::parse_len(b.skip(A::parse_len(b)).skip(B::parse_len(b.skip(A::parse_len(b)))).skip(C::parse_len(b.skip(A::parse_len(b)).skip(B::parse_len(b.skip(A::parse_len(b)))))))))))))
    }

    open spec fn fail_spec(b: Seq<u8>, e: DecodeError) -> bool {
        if !A::can_parse(b) {
            exists|inner: DecodeError| #[trigger] A::fail_spec(b, inner) && wrapped_err(1, inner, e)
        } else if !B::can_parse(b.skip(A::parse_len(b))) {
            exists|inner: DecodeError| #[trigger] B::fail_spec(b.skip(A::parse_len(b)), inner) && wrapped_err(2, inner, e)
        } else if !C::can_parse(b.skip(A::parse_len(b)).skip(B::parse_len(b.skip(A::parse_len(b))))) {
            exists|inner: DecodeError| #[trigger] C::fail_spec(b.skip(A::parse_len(b)).skip(B::parse_len(b.skip(A::parse_len(b)))), inner) && wrapped_err(3, inner, e)
        } else if !D::can_parse(b.skip(A::parse_len(b)).skip(B::parse_len(b.skip(A::parse_len(b)))).skip(C::parse_len(b.skip(A::parse_len(b)).skip(B::parse_len(b.skip(A::parse_len(b))))))) {
            exists|inner: DecodeError| #[trigger] D::fail_spec(b.skip(A::parse_len(b)).skip(B::parse_len(b.skip(A::parse_len(b)))).skip(C::parse_len(b.skip(A::parse_len(b)).skip(B::parse_len(b.skip(A::parse_len(b)))))), inner) && wrapped_err(4, inner, e)
        } else if !E::can_parse(b.skip(A::parse_len(b)).skip(B::parse_len(b.skip(A::parse_len(b)))).skip(C::parse_len(b.skip(A::parse_len(b)).skip(B::parse_len(b.skip(A::parse_len(b)))))).skip(D::parse_len(b.skip(A::parse_len(b)).skip(B::parse_len(b.skip(A::parse_len(b)))).skip(C::parse_len(b.skip(A::parse_len(b)).skip(B::parse_len(b.skip(A::parse_len(b))))))))) {
            exists|inner: DecodeError| #[trigger] E::fail_spec(b.skip(A::parse_len(b)).skip(B::parse_len(b.skip(A::parse_len(b)))).skip(C::parse_len(b.skip(A::parse_len(b)).skip(B::parse_len(b.skip(A::parse_len(b)))))).skip(D::parse_len(b.skip(A::parse_len(b)).skip(B::parse_len(b.skip(A::parse_len(b)))).skip(C::parse_len(b.skip(A::parse_len(b)).skip(B::parse_len(b.skip(A::parse_len(b)))))))), inner) && wrapped_err(5, inner, e)
        } else if !F::can_parse(b.skip(A::parse_len(b)).skip(B::parse_len(b.skip(A::parse_len(b)))).skip(C::parse_len(b.skip(A::parse_len(b)).skip(B::parse_len(b.skip(A::parse_len(b)))))).skip(D::parse_len(b.skip(A::parse_len(b)).skip(B::parse_len(b.skip(A::parse_len(b)))).skip(C::parse_len(b.skip(A::parse_len(b)).skip(B::parse_len(b.skip(A::parse_len(b)))))))).skip(E::parse_len(b.skip(A::parse_len(b)).skip(B::parse_len(b.skip(A::parse_len(b)))).skip(C::parse_len(b.skip(A::parse_len(b)).skip(B::parse_len(b.skip(A::parse_len(b)))))).skip(D::parse_len(b.skip(A::parse_len(b)).skip(B::parse_len(b.skip(A::parse_len(b)))).skip(C::parse_len(b.skip(A::parse_len(b)).skip(B::parse_len(b.skip(A::parse_len(b))))))))))) {
            exists|inner: DecodeError| #[trigger] F::fail_spec(b.skip(A::parse_len(b)).skip(B::parse_len(b.skip(A::parse_len(b)))).skip(C::parse_len(b.skip(A::parse_len(b)).skip(B::parse_len(b.skip(A::parse_len(b)))))).skip(D::parse_len(b.skip(A::parse_len(b)).skip(B::parse_len(b.skip(A::parse_len(b)))).skip(C::parse_len(b.skip(A::parse_len(b)).skip(B::parse_len(b.skip(A::parse_len(b)))))))).skip(E::parse_len(b.skip(A::parse_len(b)).skip(B::parse_len(b.skip(A::parse_len(b)))).skip(C::parse_len(b.skip(A::parse_len(b)).skip(B::parse_len(b.skip(A::parse_len(b)))))).skip(D::parse_len(b.skip(A::parse_len(b)).skip(B::parse_len(b.skip(A::parse_len(b)))).skip(C::parse_len(b.skip(A::parse_len(b)).skip(B::parse_len(b.skip(A::parse_len(b)))))))))), inner) && wrapped_err(6, inner, e)
        } else if !G::can_parse(b.skip(A::parse_len(b)).skip(B::parse_len(b.skip(A::parse_len(b)))).skip(C::parse_len(b.skip(A::parse_len(b)).skip(B::parse_len(b.skip(A::parse_len(b)))))).skip(D::parse_len(b.skip(A::parse_len(b)).skip(B::parse_len(b.skip(A::parse_len(b)))).skip(C::parse_len(b.skip(A::parse_len(b)).skip(B::parse_len(b.skip(A::parse_len(b)))))))).skip(E::parse_len(b.skip(A::parse_len(b)).skip(B::parse_len(b.skip(A::parse_len(b)))).skip(C::parse_len(b.skip(A::parse_len(b)).skip(B::parse_len(b.skip(A::parse_len(b)))))).skip(D::parse_len(b.skip(A::parse_len(b)).skip(B::parse_len(b.skip(A::parse_len(b)))).skip(C::parse_len(b.skip(A::parse_len(b)).skip(B::parse_len(b.skip(A::parse_len(b)))))))))).skip(F::parse_len(b.skip(A::parse_len(b)).skip(B::parse_len(b.skip(A::parse_len(b)))).skip(C::parse_len(b.skip(A::parse_len(b)).skip(B::parse_len(b.skip(A::parse_len(b)))))).skip(D::parse_len(b.skip(A::parse_len(b)).skip(B::parse_len(b.skip(A::parse_len(b)))).skip(C::parse_len(b.skip(A::parse_len(b)).skip(B::parse_len(b.skip(A::parse_len(b)))))))).skip(E::parse_len(b.skip(A::parse_len(b)).skip(B::parse_len(b.skip(A::parse_len(b)))).skip(C::parse_len(b.skip(A::parse_len(b)).skip(B::parse_len(b.skip(A::parse_len(b)))))).skip(D::parse_len(b.skip(A::parse_len(b)).skip(B::parse_len(b.skip(A::parse_len(b)))).skip(C::parse_len(b.skip(A::parse_len(b)).skip(B::parse_len(b.skip(A::parse_len(b))))))))))))) {
            exists|inner: DecodeError| #[trigger] G::fail_spec(b.skip(A::parse_len(b)).skip(B::parse_len(b.skip(A::parse_len(b)))).skip(C::parse_len(b.skip(A::parse_len(b)).skip(B::parse_len(b.skip(A::parse_len(b)))))).skip(D::parse_len(b.skip(A::parse_len(b)).skip(B::parse_len(b.skip(A::parse_len(b)))).skip(C::parse_len(b.skip(A::parse_len(b)).skip(B::parse_len(b.skip(A::parse_len(b)))))))).skip(E::parse_len(b.skip(A::parse_len(b)).skip(B::parse_len(b.skip(A::parse_len(b)))).skip(C::parse_len(b.skip(A::parse_len(b)).skip(B::parse_len(b.skip(A::parse_len(b)))))).skip(D::parse_len(b.skip(A::parse_len(b)).skip(B::parse_len(b.skip(A::parse_len(b)))).skip(C::parse_len(b.skip(A::parse_len(b)).skip(B::parse_len(b.skip(A::parse_len(b)))))))))).skip(F::parse_len(b.skip(A::parse_len(b)).skip(B::parse_len(b.skip(A::parse_len(b)))).skip(C::parse_len(b.skip(A::parse_len(b)).skip(B::parse_len(b.skip(A::parse_len(b)))))).skip(D::parse_len(b.skip(A::parse_len(b)).skip(B::parse_len(b.skip(A::parse_len(b)))).skip(C::parse_len(b.skip(A::parse_len(b)).skip(B::parse_len(b.skip(A::parse_len(b)))))))).skip(E::parse_len(b.skip(A::parse_len(b)).skip(B::parse_len(b.skip(A::parse_len(b)))).skip(C::parse_len(b.skip(A::parse_len(b)).skip(B::parse_len(b.skip(A::parse_len(b)))))).skip(D::parse_len(b.skip(A::parse_len(b)).skip(B::parse_len(b.skip(A::parse_len(b)))).skip(C::parse_len(b.skip(A::parse_len(b)).skip(B::parse_len(b.skip(A::parse_len(b)))))))))))), inner) && wrapped_err(7, inner, e)
        } else {
            true
        }
    }

    fn from_kv_key<'a>(decoder: &mut KeyDecoder<'a>) -> (r: Result<Self, DecodeError>) {
        let ghost rem0 = decoder.remaining();
        let v0 = match A::from_kv_key(decoder) {
            Ok(v) => v,
            Err(inner) => {
                let e = wrap_component_err("1", inner);
                proof {
                    let b = old(decoder).remaining();
                    assert(A::fail_spec(b, inner) && wrapped_err(1, inner, e));
                    assert(Self::fail_spec(b, e));
                }
                return Err(e);
            },
        };
        let ghost rem1 = decoder.remaining();
        let v1 = match B::from_kv_key(decoder) {
            Ok(v) => v,
            Err(inner) => {
                let e = wrap_component_err("2", inner);
                proof {
                    let b = old(decoder).remaining();
                    assert(rem1 == b.skip(A::parse_len(b)));
                    assert(B::fail_spec(b.skip(A::parse_len(b)), inner) && wrapped_err(2, inner, e));
                    assert(Self::fail_spec(b, e));
                }
                return Err(e);
            },
        };
        let ghost rem2 = decoder.remaining();
        let v2 = match C::from_kv_key(decoder) {
            Ok(v) => v,
            Err(inner) => {
                let e = wrap_component_err("3", inner);
                proof {
                    let b = old(decoder).remaining();
                    assert(rem1 == b.skip(A::parse_len(b)));
                    assert(rem2 == b.skip(A::parse_len(b)).skip(B::parse_len(b.skip(A::parse_len(b)))));
                    assert(C::fail_spec(b.skip(A::parse_len(b)).skip(B::parse_len(b.skip(A::parse_len(b)))), inner) && wrapped_err(3, inner, e));
                    assert(Self::fail_spec(b, e));
                }
                return Err(e);
            },
        };
        let ghost rem3 = decoder.remaining();
        let v3 = match D::from_kv_key(decoder) {
            Ok(v) => v,
            Err(inner) => {
                let e = wrap_component_err("4", inner);
                proof {
                    let b = old(decoder).remaining();
                    assert(rem1 == b.skip(A::parse_len(b)));
                    assert(rem2 == b.skip(A::parse_len(b)).skip(B::parse_len(b.skip(A::parse_len(b)))));
                    assert(rem3 == b.skip(A::parse_len(b)).skip(B::parse_len(b.skip(A::parse_len(b)))).skip(C::parse_len(b.skip(A::parse_len(b)).skip(B::parse_len(b.skip(A::parse_len(b)))))));
                    assert(D::fail_spec(b.skip(A::parse_len(b)).skip(B::parse_len(b.skip(A::parse_len(b)))).skip(C::parse_len(b.skip(A::parse_len(b)).skip(B::parse_len(b.skip(A::parse_len(b)))))), inner) && wrapped_err(4, inner, e));
                    assert(Self::fail_spec(b, e));
                }
                return Err(e);
            },
        };
        let ghost rem4 = decoder.remaining();
        let v4 = match E::from_kv_key(decoder) {
            Ok(v) => v,
            Err(inner) => {
                let e = wrap_component_err("5", inner);
                proof {
                    let b = old(decoder).remaining();
                    assert(rem1 == b.skip(A::parse_len(b)));
                    assert(rem2 == b.skip(A::parse_len(b)).skip(B::parse_len(b.skip(A::parse_len(b)))));
                    assert(rem3 == b.skip(A::parse_len(b)).skip(B::parse_len(b.skip(A::parse_len(b)))).skip(C::parse_len(b.skip(A::parse_len(b)).skip(B::parse_len(b.skip(A::parse_len(b)))))));
                    assert(rem4 == b.skip(A::parse_len(b)).skip(B::parse_len(b.skip(A::parse_len(b)))).skip(C::parse_len(b.skip(A::parse_len(b)).skip(B::parse_len(b.skip(A::parse_len(b)))))).skip(D::parse_len(b.skip(A::parse_len(b)).skip(B::parse_len(b.skip(A::parse_len(b)))).skip(C::parse_len(b.skip(A::parse_len(b)).skip(B::parse_len(b.skip(A::parse_len(b)))))))));
                    assert(E::fail_spec(b.skip(A::parse_len(b)).skip(B::parse_len(b.skip(A::parse_len(b)))).skip(C::parse_len(b.skip(A::parse_len(b)).skip(B::parse_len(b.skip(A::parse_len(b)))))).skip(D::parse_len(b.skip(A::parse_len(b)).skip(B::parse_len(b.skip(A::parse_len(b)))).skip(C::parse_len(b.skip(A::parse_len(b)).skip(B::parse_len(b.skip(A::parse_len(b)))))))), inner) && wrapped_err(5, inner, e));
                    assert(Self::fail_spec(b, e));
                }
                return Err(e);
            },
        };
        let ghost rem5 = decoder.remaining();
        let v5 = match F::from_kv_key(decoder) {
            Ok(v) => v,
            Err(inner) => {
                let e = wrap_component_err("6", inner);
                proof {
                    let b = old(decoder).remaining();
                    assert(rem1 == b.skip(A::parse_len(b)));
                    assert(rem2 == b.skip(A::parse_len(b)).skip(B::parse_len(b.skip(A::parse_len(b)))));
                    assert(rem3 == b.skip(A::parse_len(b)).skip(B::parse_len(b.skip(A::parse_len(b)))).skip(C::parse_len(b.skip(A::parse_len(b)).skip(B::parse_len(b.skip(A::parse_len(b)))))));
                    assert(rem4 == b.skip(A::parse_len(b)).skip(B::parse_len(b.skip(A::parse_len(b)))).skip(C::parse_len(b.skip(A::parse_len(b)).skip(B::parse_len(b.skip(A::parse_len(b)))))).skip(D::parse_len(b.skip(A::parse_len(b)).skip(B::parse_len(b.skip(A::parse_len(b)))).skip(C::parse_len(b.skip(A::parse_len(b)).skip(B::parse_len(b.skip(A::parse_len(b)))))))));
                    assert(rem5 == b.skip(A::parse_len(b)).skip(B::parse_len(b.skip(A::parse_len(b)))).skip(C::parse_len(b.skip(A::parse_len(b)).skip(B::parse_len(b.skip(A::parse_len(b)))))).skip(D::parse_len(b.skip(A::parse_len(b)).skip(B::parse_len(b.skip(A::parse_len(b)))).skip(C::parse_len(b.skip(A::parse_len(b)).skip(B::parse_len(b.skip(A::parse_len(b)))))))).skip(E::parse_len(b.skip(A::parse_len(b)).skip(B::parse_len(b.skip(A::parse_len(b)))).skip(C::parse_len(b.skip(A::parse_len(b)).skip(B::parse_len(b.skip(A::parse_len(b)))))).skip(D::parse_len(b.skip(A::parse_len(b)).skip(B::parse_len(b.skip(A::parse_len(b)))).skip(C::parse_len(b.skip(A::parse_len(b)).skip(B::parse_len(b.skip(A::parse_len(b)))))))))));
                    assert(F::fail_spec(b.skip(A::parse_len(b)).skip(B::parse_len(b.skip(A::parse_len(b)))).skip(C::parse_len(b.skip(A::parse_len(b)).skip(B::parse_len(b.skip(A::parse_len(b)))))).skip(D::parse_len(b.skip(A::parse_len(b)).skip(B::parse_len(b.skip(A::parse_len(b)))).skip(C::parse_len(b.skip(A::parse_len(b)).skip(B::parse_len(b.skip(A::parse_len(b)))))))).skip(E::parse_len(b.skip(A::parse_len(b)).skip(B::parse_len(b.skip(A::parse_len(b)))).skip(C::parse_len(b.skip(A::parse_len(b)).skip(B::parse_len(b.skip(A::parse_len(b)))))).skip(D::parse_len(b.skip(A::parse_len(b)).skip(B::parse_len(b.skip(A::parse_len(b)))).skip(C::parse_len(b.skip(A::parse_len(b)).skip(B::parse_len(b.skip(A::parse_len(b)))))))))), inner) && wrapped_err(6, inner, e));
                    assert(Self::fail_spec(b, e));
                }
                return Err(e);
            },
        };
        let ghost rem6 = decoder.remaining();
        let v6 = match G::from_kv_key(decoder) {
            Ok(v) => v,
            Err(inner) => {
                let e = wrap_component_err("7", inner);
                proof {
                    let b = old(decoder).remaining();
                    assert(rem1 == b.skip(A::parse_len(b)));
                    assert(rem2 == b.skip(A::parse_len(b)).skip(B::parse_len(b.skip(A::parse_len(b)))));
                    assert(rem3 == b.skip(A::parse_len(b)).skip(B::parse_len(b.skip(A::parse_len(b)))).skip(C::parse_len(b.skip(A::parse_len(b)).skip(B::parse_len(b.skip(A::parse_len(b)))))));
                    assert(rem4 == b.skip(A::parse_len(b)).skip(B::parse_len(b.skip(A::parse_len(b)))).skip(C::parse_len(b.skip(A::parse_len(b)).skip(B::parse_len(b.skip(A::parse_len(b)))))).skip(D::parse_len(b.skip(A::parse_len(b)).skip(B::parse_len(b.skip(A::parse_len(b)))).skip(C::parse_len(b.skip(A::parse_len(b)).skip(B::parse_len(b.skip(A::parse_len(b)))))))));
                    assert(rem5 == b.skip(A::parse_len(b)).skip(B::parse_len(b.skip(A::parse_len(b)))).skip(C::parse_len(b.skip(A::parse_len(b)).skip(B::parse_len(b.skip(A::parse_len(b)))))).skip(D::parse_len(b.skip(A::parse_len(b)).skip(B::parse_len(b.skip(A::parse_len(b)))).skip(C::parse_len(b.skip(A::parse_len(b)).skip(B::parse_len(b.skip(A::parse_len(b)))))))).skip(E::parse_len(b.skip(A::parse_len(b)).skip(B::parse_len(b.skip(A::parse_len(b)))).skip(C::parse_len(b.skip(A::parse_len(b)).skip(B::parse_len(b.skip(A::parse_len(b)))))).skip(D::parse_len(b.skip(A::parse_len(b)).skip(B::parse_len(b.skip(A::parse_len(b)))).skip(C::parse_len(b.skip(A::parse_len(b)).skip(B::parse_len(b.skip(A::parse_len(b)))))))))));
                    assert(rem6 == b.skip(A::parse_len(b)).skip(B::parse_len(b.skip(A::parse_len(b)))).skip(C::parse_len(b.skip(A::parse_len(b)).skip(B::parse_len(b.skip(A::parse_len(b)))))).skip(D::parse_len(b.skip(A::parse_len(b)).skip(B::parse_len(b.skip(A::parse_len(b)))).skip(C::parse_len(b.skip(A::parse_len(b)).skip(B::parse_len(b.skip(A::parse_len(b)))))))).skip(E::parse_len(b.skip(A::parse_len(b)).skip(B::parse_len(b.skip(A::parse_len(b)))).skip(C::parse_len(b.skip(A::parse_len(b)).skip(B::parse_len(b.skip(A::parse_len(b)))))).skip(D::parse_len(b.skip(A::parse_len(b)).skip(B::parse_len(b.skip(A::parse_len(b)))).skip(C::parse_len(b.skip(A::parse_len(b)).skip(B::parse_len(b.skip(A::parse_len(b)))))))))).skip(F::parse_len(b.skip(A::parse_len(b)).skip(B::parse_len(b.skip(A::parse_len(b)))).skip(C::parse_len(b.skip(A::parse_len(b)).skip(B::parse_len(b.skip(A::parse_len(b)))))).skip(D::parse_len(b.skip(A::parse_len(b)).skip(B::parse_len(b.skip(A::parse_len(b)))).skip(C::parse_len(b.skip(A::parse_len(b)).skip(B::parse_len(b.skip(A::parse_len(b)))))))).skip(E::parse_len(b.skip(A::parse_len(b)).skip(B::parse_len(b.skip(A::parse_len(b)))).skip(C::parse_len(b.skip(A::parse_len(b)).skip(B::parse_len(b.skip(A::parse_len(b)))))).skip(D::parse_len(b.skip(A::parse_len(b)).skip(B::parse_len(b.skip(A::parse_len(b)))).skip(C::parse_len(b.skip(A::parse_len(b)).skip(B::parse_len(b.skip(A::parse_len(b)))))))))))));
                    assert(G::fail_spec(b.skip(A::parse_len(b)).skip(B::parse_len(b.skip(A::parse_len(b)))).skip(C::parse_len(b.skip(A::parse_len(b)).skip(B::parse_len(b.skip(A::parse_len(b)))))).skip(D::parse_len(b.skip(A::parse_len(b)).skip(B::parse_len(b.skip(A::parse_len(b)))).skip(C::parse_len(b.skip(A::parse_len(b)).skip(B::parse_len(b.skip(A::parse_len(b)))))))).skip(E::parse_len(b.skip(A::parse_len(b)).skip(B::parse_len(b.skip(A::parse_len(b)))).skip(C::parse_len(b.skip(A::parse_len(b)).skip(B::parse_len(b.skip(A::parse_len(b)))))).skip(D::parse_len(b.skip(A::parse_len(b)).skip(B::parse_len(b.skip(A::parse_len(b)))).skip(C::parse_len(b.skip(A::parse_len(b)).skip(B::parse_len(b.skip(A::parse_len(b)))))))))).skip(F::parse_len(b.skip(A::parse_len(b)).skip(B::parse_len(b.skip(A::parse_len(b)))).skip(C::parse_len(b.skip(A::parse_len(b)).skip(B::parse_len(b.skip(A::parse_len(b)))))).skip(D::parse_len(b.skip(A::parse_len(b)).skip(B::parse_len(b.skip(A::parse_len(b)))).skip(C::parse_len(b.skip(A::parse_len(b)).skip(B::parse_len(b.skip(A::parse_len(b)))))))).skip(E::parse_len(b.skip(A::parse_len(b)).skip(B::parse_len(b.skip(A::parse_len(b)))).skip(C::parse_len(b.skip(A::parse_len(b)).skip(B::parse_len(b.skip(A::parse_len(b)))))).skip(D::parse_len(b.skip(A::parse_len(b)).skip(B::parse_len(b.skip(A::parse_len(b)))).skip(C::parse_len(b.skip(A::parse_len(b)).skip(B::parse_len(b.skip(A::parse_len(b)))))))))))), inner) && wrapped_err(7, inner, e));
                    assert(Self::fail_spec(b, e));
                }
                return Err(e);
            },
        };
        proof {
            let b = old(decoder).remaining();
            assert(decoder.remaining() =~= b.skip(Self::parse_len(b)));
        }
        Ok((v0, v1, v2, v3, v4, v5, v6))
    }
}


impl<A: FromKvKey, B: FromKvKey, C: FromKvKey, D: FromKvKey, E: FromKvKey, F: FromKvKey, G: FromKvKey, H: FromKvKey> FromKvKey for (A, B, C, D, E, F, G, H) {
    open spec fn can_parse(b: Seq<u8>) -> bool {
        A::can_parse(b) && B::can_parse(b.skip(A::parse_len(b))) && C::can_parse(b.skip(A::parse_len(b)).skip(B::parse_len(b.skip(A::parse_len(b))))) && D::can_parse(b.skip(A::parse_len(b)).skip(B::parse_len(b.skip(A::parse_len(b)))).skip(C::parse_len(b.skip(A::parse_len(b)).skip(B::parse_len(b.skip(A::parse_len(b))))))) && E::can_parse(b.skip(A::parse_len(b)).skip(B::parse_len(b.skip(A::parse_len(b)))).skip(C::parse_len(b.skip(A::parse_len(b)).skip(B::parse_len(b.skip(A::parse_len(b)))))).skip(D::parse_len(b.skip(A::parse_len(b)).skip(B::parse_len(b.skip(A::parse_len(b)))).skip(C::parse_len(b.skip(A::parse_len(b)).skip(B::parse_len(b.skip(A::parse_len(b))))))))) && F::can_parse(b.skip(A::parse_len(b)).skip(B::parse_len(b.skip(A::parse_len(b)))).skip(C::parse_len(b.skip(A::parse_len(b)).skip(B::parse_len(b.skip(A::parse_len(b)))))).skip(D::parse_len(b.skip(A::parse_len(b)).skip(B::parse_len(b.skip(A::parse_len(b)))).skip(C::parse_len(b.skip(A::parse_len(b)).skip(B::parse_len(b.skip(A::parse_len(b)))))))).skip(E::parse_len(b.skip(A::parse_len(b)).skip(B::parse_len(b.skip(A::parse_len(b)))).skip(C::parse_len(b.skip(A::parse_len(b)).skip(B::parse_len(b.skip(A::parse_len(b)))))).skip(D::parse_len(b.skip(A::parse_len(b)).skip(B::parse_len(b.skip(A::parse_len(b)))).skip(C::parse_len(b.skip(A::parse_len(b)).skip(B::parse_len(b.skip(A::parse_len(b))))))))))) && G::can_parse(b.skip(A::parse_len(b)).skip(B::parse_len(b.skip(A::parse_len(b)))).skip(C::parse_len(b.skip(A::parse_len(b)).skip(B::parse_len(b.skip(A::parse_len(b)))))).skip(D::parse_len(b.skip(A::parse_len(b)).skip(B::parse_len(b.skip(A::parse_len(b)))).skip(C::parse_len(b.skip(A::parse_len(b)).skip(B::parse_len(b.skip(A::parse_len(b)))))))).skip(E::parse_len(b.skip(A::parse_len(b)).skip(B::parse_len(b.skip(A::parse_len(b)))).skip(C::parse_len(b.skip(A::parse_len(b)).skip(B::parse_len(b.skip(A::parse_len(b)))))).skip(D::parse_len(b.skip(A::parse_len(b)).skip(B::parse_len(b.skip(A::parse_len(b)))).skip(C::parse_len(b.skip(A::parse_len(b)).skip(B::parse_len(b.skip(A::parse_len(b)))))))))).skip(F::parse_len(b.skip(A::parse_len(b)).skip(B::parse_len(b.skip(A::parse_len(b)))).skip(C::parse_len(b.skip(A::parse_len(b)).skip(B::parse_len(b.skip(A::parse_len(b)))))).skip(D::parse_len(b.skip(A::parse_len(b)).skip(B::parse_len(b.skip(A::parse_len(b)))).skip(C::parse_len(b.skip(A::parse_len(b)).skip(B::parse_len(b.skip(A::parse_len(b)))))))).skip(E::parse_len(b.skip(A::parse_len(b)).skip(B::parse_len(b.skip(A::parse_len(b)))).skip(C::parse_len(b.skip(A::parse_len(b)).skip(B::parse_len(b.skip(A::parse_len(b)))))).skip(D::parse_len(b.skip(A::parse_len(b)).skip(B::parse_len(b.skip(A::parse_len(b)))).skip(C::parse_len(b.skip(A::parse_len(b)).skip(B::parse_len(b.skip(A::parse_len(b))))))))))))) && H::can_parse(b.skip(A::parse_len(b)).skip(B::parse_len(b.skip(A::parse_len(b)))).skip(C::parse_len(b.skip(A::parse_len(b)).skip(B::parse_len(b.skip(A::parse_len(b)))))).skip(D::parse_len(b.skip(A::parse_len(b)).skip(B::parse_len(b.skip(A::parse_len(b)))).skip(C::parse_len(b.skip(A::parse_len(b)).skip(B::parse_len(b.skip(A::parse_len(b)))))))).skip(E::parse_len(b.skip(A::parse_len(b)).skip(B::parse_len(b.skip(A::parse_len(b)))).skip(C::parse_len(b.skip(A::parse_len(b)).skip(B::parse_len(b.skip(A::parse_len(b)))))).skip(D::parse_len(b.skip(A::parse_len(b)).skip(B::parse_len(b.skip(A::parse_len(b)))).skip(C::parse_len(b.skip(A::parse_len(b)).skip(B::parse_len(b.skip(A::parse_len(b)))))))))).skip(F::parse_len(b.skip(A::parse_len(b)).skip(B::parse_len(b.skip(A::parse_len(b)))).skip(C::parse_len(b.skip(A::parse_len(b)).skip(B::parse_len(b.skip(A::parse_len(b)))))).skip(D::parse_len(b.skip(A::parse_len(b)).skip(B::parse_len(b.skip(A::parse_len(b)))).skip(C::parse_len(b.skip(A::parse_len(b)).skip(B::parse_len(b.skip(A::parse_len(b)))))))).skip(E::parse_len(b.skip(A::parse_len(b)).skip(B::parse_len(b.skip(A::parse_len(b)))).skip(C::parse_len(b.skip(A::parse_len(b)).skip(B::parse_len(b.skip(A::parse_len(b)))))).skip(D::parse_len(b.skip(A::parse_len(b)).skip(B::parse_len(b.skip(A::parse_len(b)))).skip(C::parse_len(b.skip(A::parse_len(b)).skip(B::parse_len(b.skip(A::parse_len(b)))))))))))).skip(G::parse_len(b.skip(A::parse_len(b)).skip(B::parse_len(b.skip(A::parse_len(b)))).skip(C::parse_len(b.skip(A::parse_len(b)).skip(B::parse_len(b.skip(A::parse_len(b)))))).skip(D::parse_len(b.skip(A::parse_len(b)).skip(B::parse_len(b.skip(A::parse_len(b)))).skip(C::parse_len(b.skip(A::parse_len(b)).skip(B::parse_len(b.skip(A::parse_len(b)))))))).skip(E::parse_len(b.skip(A::parse_len(b)).skip(B::parse_len(b.skip(A::parse_len(b)))).skip(C::parse_len(b.skip(A::parse_len(b)).skip(B::parse_len(b.skip(A::parse_len(b)))))).skip(D::parse_len(b.skip(A::parse_len(b)).skip(B::parse_len(b.skip(A::parse_len(b)))).skip(C::parse_len(b.skip(A::parse_len(b)).skip(B::parse_len(b.skip(A::parse_len(b)))))))))).skip(F::parse_len(b.skip(A::parse_len(b)).skip(B::parse_len(b.skip(A::parse_len(b)))).skip(C::parse_len(b.skip(A::parse_len(b)).skip(B::parse_len(b.skip(A::parse_len(b)))))).skip(D::parse_len(b.skip(A::parse_len(b)).skip(B::parse_len(b.skip(A::parse_len(b)))).skip(C::parse_len(b.skip(A::parse_len(b)).skip(B::parse_len(b.skip(A::parse_len(b)))))))).skip(E::parse_len(b.skip(A::parse_len(b)).skip(B::parse_len(b.skip(A::parse_len(b)))).skip(C::parse_len(b.skip(A::parse_len(b)).skip(B::parse_len(b.skip(A::parse_len(b)))))).skip(D::parse_len(b.skip(A::parse_len(b)).skip(B::parse_len(b.skip(A::parse_len(b)))).skip(C::parse_len(b.skip(A::parse_len(b)).skip(B::parse_len(b.skip(A::parse_len(b)))))))))))))))
    }

    open spec fn parse_dview(b: Seq<u8>) -> Self::V {
        (A::parse_dview(b), B::parse_dview(b.skip(A::parse_len(b))), C::parse_dview(b.skip(A::parse_len(b)).skip(B::parse_len(b.skip(A::parse_len(b))))), D::parse_dview(b.skip(A::parse_len(b)).skip(B::parse_len(b.skip(A::parse_len(b)))).skip(C::parse_len(b.skip(A::parse_len(b)).skip(B::parse_len(b.skip(A::parse_len(b))))))), E::parse_dview(b.skip(A::parse_len(b)).skip(B::parse_len(b.skip(A::parse_len(b)))).skip(C::parse_len(b.skip(A::parse_len(b)).skip(B::parse_len(b.skip(A::parse_len(b)))))).skip(D::parse_len(b.skip(A::parse_len(b)).skip(B::parse_len(b.skip(A::parse_len(b)))).skip(C::parse_len(b.skip(A::parse_len(b)).skip(B::parse_len(b.skip(A::parse_len(b))))))))), F::parse_dview(b.skip(A::parse_len(b)).skip(B::parse_len(b.skip(A::parse_len(b)))).skip(C::parse_len(b.skip(A::parse_len(b)).skip(B::parse_len(b.skip(A::parse_len(b)))))).skip(D::parse_len(b.skip(A::parse_len(b)).skip(B::parse_len(b.skip(A::parse_len(b)))).skip(C::parse_len(b.skip(A::parse_len(b)).skip(B::parse_len(b.skip(A::parse_len(b)))))))).skip(E::parse_len(b.skip(A::parse_len(b)).skip(B::parse_len(b.skip(A::parse_len(b)))).skip(C::parse_len(b.skip(A::parse_len(b)).skip(B::parse_len(b.skip(A::parse_len(b)))))).skip(D::parse_len(b.skip(A::parse_len(b)).skip(B::parse_len(b.skip(A::parse_len(b)))).skip(C::parse_len(b.skip(A::parse_len(b)).skip(B::parse_len(b.skip(A::parse_len(b))))))))))), G::parse_dview(b.skip(A::parse_len(b)).skip(B::parse_len(b.skip(A::parse_len(b)))).skip(C::parse_len(b.skip(A::parse_len(b)).skip(B::parse_len(b.skip(A::parse_len(b)))))).skip(D::parse_len(b.skip(A::parse_len(b)).skip(B::parse_len(b.skip(A::parse_len(b)))).skip(C::parse_len(b.skip(A::parse_len(b)).skip(B::parse_len(b.skip(A::parse_len(b)))))))).skip(E::parse_len(b.skip(A::parse_len(b)).skip(B::parse_len(b.skip(A::parse_len(b)))).skip(C::parse_len(b.skip(A::parse_len(b)).skip(B::parse_len(b.skip(A::parse_len(b)))))).skip(D::parse_len(b.skip(A::parse_len(b)).skip(B::parse_len(b.skip(A::parse_len(b)))).skip(C::parse_len(b.skip(A::parse_len(b)).skip(B::parse_len(b.skip(A::parse_len(b)))))))))).skip(F::parse_len(b.skip(A::parse_len(b)).skip(B::parse_len(b.skip(A::parse_len(b)))).skip(C::parse_len(b.skip(A::parse_len(b)).skip(B::parse_len(b.skip(A::parse_len(b)))))).skip(D::parse_len(b.skip(A::parse_len(b)).skip(B::parse_len(b.skip(A::parse_len(b)))).skip(C::parse_len(b.skip(A::parse_len(b)).skip(B::parse_len(b.skip(A::parse_len(b)))))))).skip(E::parse_len(b.skip(A::parse_len(b)).skip(B::parse_len(b.skip(A::parse_len(b)))).skip(C::parse_len(b.skip(A::parse_len(b)).skip(B::parse_len(b.skip(A::parse_len(b)))))).skip(D::parse_len(b.skip(A::parse_len(b)).skip(B::parse_len(b.skip(A::parse_len(b)))).skip(C::parse_len(b.skip(A::parse_len(b)).skip(B::parse_len(b.skip(A::parse_len(b))))))))))))), H::parse_dview(b.skip(A::parse_len(b)).skip(B::parse_len(b.skip(A::parse_len(b)))).skip(C::parse_len(b.skip(A::parse_len(b)).skip(B::parse_len(b.skip(A::parse_len(b)))))).skip(D::parse_len(b.skip(A::parse_len(b)).skip(B::parse_len(b.skip(A::parse_len(b)))).skip(C::parse_len(b.skip(A::parse_len(b)).skip(B::parse_len(b.skip(A::parse_len(b)))))))).skip(E::parse_len(b.skip(A::parse_len(b)).skip(B::parse_len(b.skip(A::parse_len(b)))).skip(C::parse_len(b.skip(A::parse_len(b)).skip(B::parse_len(b.skip(A::parse_len(b)))))).skip(D::parse_len(b.skip(A::parse_len(b)).skip(B::parse_len(b.skip(A::parse_len(b)))).skip(C::parse_len(b.skip(A::parse_len(b)).skip(B::parse_len(b.skip(A::parse_len(b)))))))))).skip(F::parse_len(b.skip(A::parse_len(b)).skip(B::parse_len(b.skip(A::parse_len(b)))).skip(C::parse_len(b.skip(A::parse_len(b)).skip(B::parse_len(b.skip(A::parse_len(b)))))).skip(D::parse_len(b.skip(A::parse_len(b)).skip(B::parse_len(b.skip(A::parse_len(b)))).skip(C::parse_len(b.skip(A::parse_len(b)).skip(B::parse_len(b.skip(A::parse_len(b)))))))).skip(E::parse_len(b.skip(A::parse_len(b)).skip(B::parse_len(b.skip(A::parse_len(b)))).skip(C::parse_len(b.skip(A::parse_len(b)).skip(B::parse_len(b.skip(A::parse_len(b)))))).skip(D::parse_len(b.skip(A::parse_len(b)).skip(B::parse_len(b.skip(A::parse_len(b)))).skip(C::parse_len(b.skip(A::parse_len(b)).skip(B::parse_len(b.skip(A::parse_len(b)))))))))))).skip(G::parse_len(b.skip(A::parse_len(b)).skip(B::parse_len(b.skip(A::parse_len(b)))).skip(C::parse_len(b.skip(A::parse_len(b)).skip(B::parse_len(b.skip(A::parse_len(b)))))).skip(D::parse_len(b.skip(A::parse_len(b)).skip(B::parse_len(b.skip(A::parse_len(b)))).skip(C::parse_len(b.skip(A::parse_len(b)).skip(B::parse_len(b.skip(A::parse_len(b)))))))).skip(E::parse_len(b.skip(A::parse_len(b)).skip(B::parse_len(b.skip(A::parse_len(b)))).skip(C::parse_len(b.skip(A::parse_len(b)).skip(B::parse_len(b.skip(A::parse_len(b)))))).skip(D::parse_len(b.skip(A::parse_len(b)).skip(B::parse_len(b.skip(A::parse_len(b)))).skip(C::parse_len(b.skip(A::parse_len(b)).skip(B::parse_len(b.skip(A::parse_len(b)))))))))).skip(F::parse_len(b.skip(A::parse_len(b)).skip(B::parse_len(b.skip(A::parse_len(b)))).skip(C::parse_len(b.skip(A::parse_len(b)).skip(B::parse_len(b.skip(A::parse_len(b)))))).skip(D::parse_len(b.skip(A::parse_len(b)).skip(B::parse_len(b.skip(A::parse_len(b)))).skip(C::parse_len(b.skip(A::parse_len(b)).skip(B::parse_len(b.skip(A::parse_len(b)))))))).skip(E::parse_len(b.skip(A::parse_len(b)).skip(B::parse_len(b.skip(A::parse_len(b)))).skip(C::parse_len(b.skip(A::parse_len(b)).skip(B::parse_len(b.skip(A::parse_len(b)))))).skip(D::parse_len(b.skip(A::parse_len(b)).skip(B::parse_len(b.skip(A::parse_len(b)))).skip(C::parse_len(b.skip(A::parse_len(b)).skip(B::parse_len(b.skip(A::parse_len(b))))))))))))))))
    }

    open spec fn parse_len(b: Seq<u8>) -> int {
        A::parse_len(b) + B::parse_len(b.skip(A::parse_len(b))) + C::parse_len(b.skip(A::parse_len(b)).skip(B::parse_len(b.skip(A::parse_len(b))))) + D::parse_len(b.skip(A::parse_len(b)).skip(B::parse_len(b.skip(A::parse_len(b)))).skip(C::parse_len(b.skip(A::parse_len(b)).skip(B::parse_len(b.skip(A::parse_len(b))))))) + E::parse_len(b.skip(A::parse_len(b)).skip(B::parse_len(b.skip(A::parse_len(b)))).skip(C::parse_len(b.skip(A::parse_len(b)).skip(B::parse_len(b.skip(A::parse_len(b)))))).skip(D::parse_len(b.skip(A::parse_len(b)).skip(B::parse_len(b.skip(A::parse_len(b)))).skip(C::parse_len(b.skip(A::parse_len(b)).skip(B::parse_len(b.skip(A::parse_len(b))))))))) + F::parse_len(b.skip(A::parse_len(b)).skip(B::parse_len(b.skip(A::parse_len(b)))).skip(C::parse_len(b.skip(A::parse_len(b)).skip(B::parse_len(b.skip(A::parse_len(b)))))).skip(D::parse_len(b.skip(A::parse_len(b)).skip(B::parse_len(b.skip(A::parse_len(b)))).skip(C::parse_len(b.skip(A::parse_len(b)).skip(B::parse_len(b.skip(A::parse_len(b)))))))).skip(E::parse_len(b.skip(A::parse_len(b)).skip(B::parse_len(b.skip(A::parse_len(b)))).skip(C::parse_len(b.skip(A::parse_len(b)).skip(B::parse_len(b.skip(A::parse_len(b)))))).skip(D::parse_len(b.skip(A::parse_len(b)).skip(B::parse_len(b.skip(A::parse_len(b)))).skip(C::parse_len(b.skip(A::parse_len(b)).skip(B::parse_len(b.skip(A::parse_len(b))))))))))) + G::parse_len(b.skip(A::parse_len(b)).skip(B::parse_len(b.skip(A::parse_len(b)))).skip(C::parse_len(b.skip(A::parse_len(b)).skip(B::parse_len(b.skip(A::parse_len(b)))))).skip(D::parse_len(b.skip(A::parse_len(b)).skip(B::parse_len(b.skip(A::parse_len(b)))).skip(C::parse_len(b.skip(A::parse_len(b)).skip(B::parse_len(b.skip(A::parse_len(b)))))))).skip(E::parse_len(b.skip(A::parse_len(b)).skip(B::parse_len(b.skip(A::parse_len(b)))).skip(C::parse_len(b.skip(A::parse_len(b)).skip(B::parse_len(b.skip(A::parse_len(b)))))).skip(D::parse_len(b.skip(A::parse_len(b)).skip(B::parse_len(b.skip(A::parse_len(b)))).skip(C::parse_len(b.skip(A::parse_len(b)).skip(B::parse_len(b.skip(A::parse_len(b)))))))))).skip(F::parse_len(b.skip(A::parse_len(b)).skip(B::parse_len(b.skip(A::parse_len(b)))).skip(C::parse_len(b.skip(A::parse_len(b)).skip(B::parse_len(b.skip(A::parse_len(b)))))).skip(D::parse_len(b.skip(A::parse_len(b)).skip(B::parse_len(b.skip(A::parse_len(b)))).skip(C::parse_len(b.skip(A::parse_len(b)).skip(B::parse_len(b.skip(A::parse_len(b)))))))).skip(E::parse_len(b.skip(A::parse_len(b)).skip(B::parse_len(b.skip(A::parse_len(b)))).skip(C::parse_len(b.skip(A::parse_len(b)).skip(B::parse_len(b.skip(A::parse_len(b)))))).skip(D::parse_len(b.skip(A::parse_len(b)).skip(B::parse_len(b.skip(A::parse_len(b)))).skip(C::parse_len(b.skip(A::parse_len(b)).skip(B::parse_len(b.skip(A::parse_len(b))))))))))))) + H::parse_len(b.skip(A::parse_len(b)).skip(B::parse_len(b.skip(A::parse_len(b)))).skip(C::parse_len(b.skip(A::parse_len(b)).skip(B::parse_len(b.skip(A::parse_len(b)))))).skip(D::parse_len(b.skip(A::parse_len(b)).skip(B::parse_len(b.skip(A::parse_len(b)))).skip(C::parse_len(b.skip(A::parse_len(b)).skip(B::parse_len(b.skip(A::parse_len(b)))))))).skip(E::parse_len(b.skip(A::parse_len(b)).skip(B::parse_len(b.skip(A::parse_len(b)))).skip(C::parse_len(b.skip(A::parse_len(b)).skip(B::parse_len(b.skip(A::parse_len(b)))))).skip(D::parse_len(b.skip(A::parse_len(b)).skip(B::parse_len(b.skip(A::parse_len(b)))).skip(C::parse_len(b.skip(A::parse_len(b)).skip(B::parse_len(b.skip(A::parse_len(b)))))))))).skip(F::parse_len(b.skip(A::parse_len(b)).skip(B::parse_len(b.skip(A::parse_len(b)))).skip(C::parse_len(b.skip(A::parse_len(b)).skip(B::parse_len(b.skip(A::parse_len(b)))))).skip(D::parse_len(b.skip(A::parse_len(b)).skip(B::parse_len(b.skip(A::parse_len(b)))).skip(C::parse_len(b.skip(A::parse_len(b)).skip(B::parse_len(b.skip(A::parse_len(b)))))))).skip(E::parse_len(b.skip(A::parse_len(b)).skip(B::parse_len(b.skip(A::parse_len(b)))).skip(C::parse_len(b.skip(A::parse_len(b)).skip(B::parse_len(b.skip(A::parse_len(b)))))).skip(D::parse_len(b.skip(A::parse_len(b)).skip(B::parse_len(b.skip(A::parse_len(b)))).skip(C::parse_len(b.skip(A::parse_len(b)).skip(B::parse_len(b.skip(A::parse_len(b)))))))))))).skip(G::parse_len(b.skip(A::parse_len(b)).skip(B::parse_len(b.skip(A::parse_len(b)))).skip(C::parse_len(b.skip(A::parse_len(b)).skip(B::parse_len(b.skip(A::parse_len(b)))))).skip(D::parse_len(b.skip(A::parse_len(b)).skip(B::parse_len(b.skip(A::parse_len(b)))).skip(C::parse_len(b.skip(A::parse_len(b)).skip(B::parse_len(b.skip(A::parse_len(b)))))))).skip(E::parse_len(b.skip(A::parse_len(b)).skip(B::parse_len(b.skip(A::parse_len(b)))).skip(C::parse_len(b.skip(A::parse_len(b)).skip(B::parse_len(b.skip(A::parse_len(b)))))).skip(D::parse_len(b.skip(A::parse_len(b)).skip(B::parse_len(b.skip(A::parse_len(b)))).skip(C::parse_len(b.skip(A::parse_len(b)).skip(B::parse_len(b.skip(A::parse_len(b)))))))))).skip(F::parse_len(b.skip(A::parse_len(b)).skip(B::parse_len(b.skip(A::parse_len(b)))).skip(C::parse_len(b.skip(A::parse_len(b)).skip(B::parse_len(b.skip(A::parse_len(b)))))).skip(D::parse_len(b.skip(A::parse_len(b)).skip(B::parse_len(b.skip(A::parse_len(b)))).skip(C::parse_len(b.skip(A::parse_len(b)).skip(B::parse_len(b.skip(A::parse_len(b)))))))).skip(E::parse_len(b.skip(A::parse_len(b)).skip(B::parse_len(b.skip(A::parse_len(b)))).skip(C::parse_len(b.skip(A::parse_len(b)).skip(B::parse_len(b.skip(A::parse_len(b)))))).skip(D::parse_len(b.skip(A::parse_len(b)).skip(B::parse_len(b.skip(A::parse_len(b)))).skip(C::parse_len(b.skip(A::parse_len(b)).skip(B::parse_len(b.skip(A::parse_len(b)))))))))))))))
    }

    open spec fn fail_spec(b: Seq<u8>, e: DecodeError) -> bool {
        if !A::can_parse(b) {
            exists|inner: DecodeError| #[trigger] A::fail_spec(b, inner) && wrapped_err(1, inner, e)
        } else if !B::can_parse(b.skip(A::parse_len(b))) {
            exists|inner: DecodeError| #[trigger] B::fail_spec(b.skip(A::parse_len(b)), inner) && wrapped_err(2, inner, e)
        } else if !C::can_parse(b.skip(A::parse_len(b)).skip(B::parse_len(b.skip(A::parse_len(b))))) {
            exists|inner: DecodeError| #[trigger] C::fail_spec(b.skip(A::parse_len(b)).skip(B::parse_len(b.skip(A::parse_len(b)))), inner) && wrapped_err(3, inner, e)
        } else if !D::can_parse(b.skip(A::parse_len(b)).skip(B::parse_len(b.skip(A::parse_len(b)))).skip(C::parse_len(b.skip(A::parse_len(b)).skip(B::parse_len(b.skip(A::parse_len(b))))))) {
            exists|inner: DecodeError| #[trigger] D::fail_spec(b.skip(A::parse_len(b)).skip(B::parse_len(b.skip(A::parse_len(b)))).skip(C::parse_len(b.skip(A::parse_len(b)).skip(B::parse_len(b.skip(A::parse_len(b)))))), inner) && wrapped_err(4, inner, e)
        } else if !E::can_parse(b.skip(A::parse_len(b)).skip(B::parse_len(b.skip(A::parse_len(b)))).skip(C::parse_len(b.skip(A::parse_len(b)).skip(B::parse_len(b.skip(A::parse_len(b)))))).skip(D::parse_len(b.skip(A::parse_len(b)).skip(B::parse_len(b.skip(A::parse_len(b)))).skip(C::parse_len(b.skip(A::parse_len(b)).skip(B::parse_len(b.skip(A::parse_len(b))))))))) {
            exists|inner: DecodeError| #[trigger] E::fail_spec(b.skip(A::parse_len(b)).skip(B::parse_len(b.skip(A::parse_len(b)))).skip(C::parse_len(b.skip(A::parse_len(b)).skip(B::parse_len(b.skip(A::parse_len(b)))))).skip(D::parse_len(b.skip(A::parse_len(b)).skip(B::parse_len(b.skip(A::parse_len(b)))).skip(C::parse_len(b.skip(A::parse_len(b)).skip(B::parse_len(b.skip(A::parse_len(b)))))))), inner) && wrapped_err(5, inner, e)
        } else if !F::can_parse(b.skip(A::parse_len(b)).skip(B::parse_len(b.skip(A::parse_len(b)))).skip(C::parse_len(b.skip(A::parse_len(b)).skip(B::parse_len(b.skip(A::parse_len(b)))))).skip(D::parse_len(b.skip(A::parse_len(b)).skip(B::parse_len(b.skip(A::parse_len(b)))).skip(C::parse_len(b.skip(A::parse_len(b)).skip(B::parse_len(b.skip(A::parse_len(b)))))))).skip(E::parse_len(b.skip(A::parse_len(b)).skip(B::parse_len(b.skip(A::parse_len(b)))).skip(C::parse_len(b.skip(A::parse_len(b)).skip(B::parse_len(b.skip(A::parse_len(b)))))).skip(D::parse_len(b.skip(A::parse_len(b)).skip(B::parse_len(b.skip(A::parse_len(b)))).skip(C::parse_len(b.skip(A::parse_len(b)).skip(B::parse_len(b.skip(A::parse_len(b))))))))))) {
            exists|inner: DecodeError| #[trigger] F::fail_spec(b.skip(A::parse_len(b)).skip(B::parse_len(b.skip(A::parse_len(b)))).skip(C::parse_len(b.skip(A::parse_len(b)).skip(B::parse_len(b.skip(A::parse_len(b)))))).skip(D::parse_len(b.skip(A::parse_len(b)).skip(B::parse_len(b.skip(A::parse_len(b)))).skip(C::parse_len(b.skip(A::parse_len(b)).skip(B::parse_len(b.skip(A::parse_len(b)))))))).skip(E::parse_len(b.skip(A::parse_len(b)).skip(B::parse_len(b.skip(A::parse_len(b)))).skip(C::parse_len(b.skip(A::parse_len(b)).skip(B::parse_len(b.skip(A::parse_len(b)))))).skip(D::parse_len(b.skip(A::parse_len(b)).skip(B::parse_len(b.skip(A::parse_len(b)))).skip(C::parse_len(b.skip(A::parse_len(b)).skip(B::parse_len(b.skip(A::parse_len(b)))))))))), inner) && wrapped_err(6, inner, e)
        } else if !G::can_parse(b.skip(A::parse_len(b)).skip(B::parse_len(b.skip(A::parse_len(b)))).skip(C::parse_len(b.skip(A::parse_len(b)).skip(B::parse_len(b.skip(A::parse_len(b)))))).skip(D::parse_len(b.skip(A::parse_len(b)).skip(B::parse_len(b.skip(A::parse_len(b)))).skip(C::parse_len(b.skip(A::parse_len(b)).skip(B::parse_len(b.skip(A::parse_len(b)))))))).skip(E::parse_len(b.skip(A::parse_len(b)).skip(B::parse_len(b.skip(A::parse_len(b)))).skip(C::parse_len(b.skip(A::parse_len(b)).skip(B::parse_len(b.skip(A::parse_len(b)))))).skip(D::parse_len(b.skip(A::parse_len(b)).skip(B::parse_len(b.skip(A::parse_len(b)))).skip(C::parse_len(b.skip(A::parse_len(b)).skip(B::parse_len(b.skip(A::parse_len(b)))))))))).skip(F::parse_len(b.skip(A::parse_len(b)).skip(B::parse_len(b.skip(A::parse_len(b)))).skip(C::parse_len(b.skip(A::parse_len(b)).skip(B::parse_len(b.skip(A::parse_len(b)))))).skip(D::parse_len(b.skip(A::parse_len(b)).skip(B::parse_len(b.skip(A::parse_len(b)))).skip(C::parse_len(b.skip(A::parse_len(b)).skip(B::parse_len(b.skip(A::parse_len(b)))))))).skip(E::parse_len(b.skip(A::parse_len(b)).skip(B::parse_len(b.skip(A::parse_len(b)))).skip(C::parse_len(b.skip(A::parse_len(b)).skip(B::parse_len(b.skip(A::parse_len(b)))))).skip(D::parse_len(b.skip(A::parse_len(b)).skip(B::parse_len(b.skip(A::parse_len(b)))).skip(C::parse_len(b.skip(A::parse_len(b)).skip(B::parse_len(b.skip(A::parse_len(b))))))))))))) {
            exists|inner: DecodeError| #[trigger] G::fail_spec(b.skip(A::parse_len(b)).skip(B::parse_len(b.skip(A::parse_len(b)))).skip(C::parse_len(b.skip(A::parse_len(b)).skip(B::parse_len(b.skip(A::parse_len(b)))))).skip(D::parse_len(b.skip(A::parse_len(b)).skip(B::parse_len(b.skip(A::parse_len(b)))).skip(C::parse_len(b.skip(A::parse_len(b)).skip(B::parse_len(b.skip(A::parse_len(b)))))))).skip(E::parse_len(b.skip(A::parse_len(b)).skip(B::parse_len(b.skip(A::parse_len(b)))).skip(C::parse_len(b.skip(A::parse_len(b)).skip(B::parse_len(b.skip(A::parse_len(b)))))).skip(D::parse_len(b.skip(A::parse_len(b)).skip(B::parse_len(b.skip(A::parse_len(b)))).skip(C::parse_len(b.skip(A::parse_len(b)).skip(B::parse_len(b.skip(A::parse_len(b)))))))))).skip(F::parse_len(b.skip(A::parse_len(b)).skip(B::parse_len(b.skip(A::parse_len(b)))).skip(C::parse_len(b.skip(A::parse_len(b)).skip(B::parse_len(b.skip(A::parse_len(b)))))).skip(D::parse_len(b.skip(A::parse_len(b)).skip(B::parse_len(b.skip(A::parse_len(b)))).skip(C::parse_len(b.skip(A::parse_len(b)).skip(B::parse_len(b.skip(A::parse_len(b)))))))).skip(E::parse_len(b.skip(A::parse_len(b)).skip(B::parse_len(b.skip(A::parse_len(b)))).skip(C::parse_len(b.skip(A::parse_len(b)).skip(B::parse_len(b.skip(A::parse_len(b)))))).skip(D::parse_len(b.skip(A::parse_len(b)).skip(B::parse_len(b.skip(A::parse_len(b)))).skip(C::parse_len(b.skip(A::parse_len(b)).skip(B::parse_len(b.skip(A::parse_len(b)))))))))))), inner) && wrapped_err(7, inner, e)
        } else if !H::can_parse(b.skip(A::parse_len(b)).skip(B::parse_len(b.skip(A::parse_len(b)))).skip(C::parse_len(b.skip(A::parse_len(b)).skip(B::parse_len(b.skip(A::parse_len(b)))))).skip(D::parse_len(b.skip(A::parse_len(b)).skip(B::parse_len(b.skip(A::parse_len(b)))).skip(C::parse_len(b.skip(A::parse_len(b)).skip(B::parse_len(b.skip(A::parse_len(b)))))))).skip(E::parse_len(b.skip(A::parse_len(b)).skip(B::parse_len(b.skip(A::parse_len(b)))).skip(C::parse_len(b.skip(A::parse_len(b)).skip(B::parse_len(b.skip(A::parse_len(b)))))).skip(D::parse_len(b.skip(A::parse_len(b)).skip(B::parse_len(b.skip(A::parse_len(b)))).skip(C::parse_len(b.skip(A::parse_len(b)).skip(B::parse_len(b.skip(A::parse_len(b)))))))))).skip(F::parse_len(b.skip(A::parse_len(b)).skip(B::parse_len(b.skip(A::parse_len(b)))).skip(C::parse_len(b.skip(A::parse_len(b)).skip(B::parse_len(b.skip(A::parse_len(b)))))).skip(D::parse_len(b.skip(A::parse_len(b)).skip(B::parse_len(b.skip(A::parse_len(b)))).skip(C::parse_len(b.skip(A::parse_len(b)).skip(B::parse_len(b.skip(A::parse_len(b)))))))).skip(E::parse_len(b.skip(A::parse_len(b)).skip(B::parse_len(b.skip(A::parse_len(b)))).skip(C::parse_len(b.skip(A::parse_len(b)).skip(B::parse_len(b.skip(A::parse_len(b)))))).skip(D::parse_len(b.skip(A::parse_len(b)).skip(B::parse_len(b.skip(A::parse_len(b)))).skip(C::parse_len(b.skip(A::parse_len(b)).skip(B::parse_len(b.skip(A::parse_len(b)))))))))))).skip(G::parse_len(b.skip(A::parse_len(b)).skip(B::parse_len(b.skip(A::parse_len(b)))).skip(C::parse_len(b.skip(A::parse_len(b)).skip(B::parse_len(b.skip(A::parse_len(b)))))).skip(D::parse_len(b.skip(A::parse_len(b)).skip(B::parse_len(b.skip(A::parse_len(b)))).skip(C::parse_len(b.skip(A::parse_len(b)).skip(B::parse_len(b.skip(A::parse_len(b)))))))).skip(E::parse_len(b.skip(A::parse_len(b)).skip(B::parse_len(b.skip(A::parse_len(b)))).skip(C::parse_len(b.skip(A::parse_len(b)).skip(B::parse_len(b.skip(A::parse_len(b)))))).skip(D::parse_len(b.skip(A::parse_len(b)).skip(B::parse_len(b.skip(A::parse_len(b)))).skip(C::parse_len(b.skip(A::parse_len(b)).skip(B::parse_len(b.skip(A::parse_len(b)))))))))).skip(F::parse_len(b.skip(A::parse_len(b)).skip(B::parse_len(b.skip(A::parse_len(b)))).skip(C::parse_len(b.skip(A::parse_len(b)).skip(B::parse_len(b.skip(A::parse_len(b)))))).skip(D::parse_len(b.skip(A::parse_len(b)).skip(B::parse_len(b.skip(A::parse_len(b)))).skip(C::parse_len(b.skip(A::parse_len(b)).skip(B::parse_len(b.skip(A::parse_len(b)))))))).skip(E::parse_len(b.skip(A::parse_len(b)).skip(B::parse_len(b.skip(A::parse_len(b)))).skip(C::parse_len(b.skip(A::parse_len(b)).skip(B::parse_len(b.skip(A::parse_len(b)))))).skip(D::parse_len(b.skip(A::parse_len(b)).skip(B::parse_len(b.skip(A::parse_len(b)))).skip(C::parse_len(b.skip(A::parse_len(b)).skip(B::parse_len(b.skip(A::parse_len(b))))))))))))))) {
            exists|inner: DecodeError| #[trigger] H::fail_spec(b.skip(A::parse_len(b)).skip(B::parse_len(b.skip(A::parse_len(b)))).skip(C::parse_len(b.skip(A::parse_len(b)).skip(B::parse_len(b.skip(A::parse_len(b)))))).skip(D::parse_len(b.skip(A::parse_len(b)).skip(B::parse_len(b.skip(A::parse_len(b)))).skip(C::parse_len(b.skip(A::parse_len(b)).skip(B::parse_len(b.skip(A::parse_len(b)))))))).skip(E::parse_len(b.skip(A::parse_len(b)).skip(B::parse_len(b.skip(A::parse_len(b)))).skip(C::parse_len(b.skip(A::parse_len(b)).skip(B::parse_len(b.skip(A::parse_len(b)))))).skip(D::parse_len(b.skip(A::parse_len(b)).skip(B::parse_len(b.skip(A::parse_len(b)))).skip(C::parse_len(b.skip(A::parse_len(b)).skip(B::parse_len(b.skip(A::parse_len(b)))))))))).skip(F::parse_len(b.skip(A::parse_len(b)).skip(B::parse_len(b.skip(A::parse_len(b)))).skip(C::parse_len(b.skip(A::parse_len(b)).skip(B::parse_len(b.skip(A::parse_len(b)))))).skip(D::parse_len(b.skip(A::parse_len(b)).skip(B::parse_len(b.skip(A::parse_len(b)))).skip(C::parse_len(b.skip(A::parse_len(b)).skip(B::parse_len(b.skip(A::parse_len(b)))))))).skip(E::parse_len(b.skip(A::parse_len(b)).skip(B::parse_len(b.skip(A::parse_len(b)))).skip(C::parse_len(b.skip(A::parse_len(b)).skip(B::parse_len(b.skip(A::parse_len(b)))))).skip(D::parse_len(b.skip(A::parse_len(b)).skip(B::parse_len(b.skip(A::parse_len(b)))).skip(C::parse_len(b.skip(A::parse_len(b)).skip(B::parse_len(b.skip(A::parse_len(b)))))))))))).skip(G::parse_len(b.skip(A::parse_len(b)).skip(B::parse_len(b.skip(A::parse_len(b)))).skip(C::parse_len(b.skip(A::parse_len(b)).skip(B::parse_len(b.skip(A::parse_len(b)))))).skip(D::parse_len(b.skip(A::parse_len(b)).skip(B::parse_len(b.skip(A::parse_len(b)))).skip(C::parse_len(b.skip(A::parse_len(b)).skip(B::parse_len(b.skip(A::parse_len(b)))))))).skip(E::parse_len(b.skip(A::parse_len(b)).skip(B::parse_len(b.skip(A::parse_len(b)))).skip(C::parse_len(b.skip(A::parse_len(b)).skip(B::parse_len(b.skip(A::parse_len(b)))))).skip(D::parse_len(b.skip(A::parse_len(b)).skip(B::parse_len(b.skip(A::parse_len(b)))).skip(C::parse_len(b.skip(A::parse_len(b)).skip(B::parse_len(b.skip(A::parse_len(b)))))))))).skip(F::parse_len(b.skip(A::parse_len(b)).skip(B::parse_len(b.skip(A::parse_len(b)))).skip(C::parse_len(b.skip(A::parse_len(b)).skip(B::parse_len(b.skip(A::parse_len(b)))))).skip(D::parse_len(b.skip(A::parse_len(b)).skip(B::parse_len(b.skip(A::parse_len(b)))).skip(C::parse_len(b.skip(A::parse_len(b)).skip(B::parse_len(b.skip(A::parse_len(b)))))))).skip(E::parse_len(b.skip(A::parse_len(b)).skip(B::parse_len(b.skip(A::parse_len(b)))).skip(C::parse_len(b.skip(A::parse_len(b)).skip(B::parse_len(b.skip(A::parse_len(b)))))).skip(D::parse_len(b.skip(A::parse_len(b)).skip(B::parse_len(b.skip(A::parse_len(b)))).skip(C::parse_len(b.skip(A::parse_len(b)).skip(B::parse_len(b.skip(A::parse_len(b)))))))))))))), inner) && wrapped_err(8, inner, e)
        } else {
            true
        }
    }

    fn from_kv_key<'a>(decoder: &mut KeyDecoder<'a>) -> (r: Result<Self, DecodeError>) {
        let ghost rem0 = decoder.remaining();
        let v0 = match A::from_kv_key(decoder) {
            Ok(v) => v,
            Err(inner) => {
                let e = wrap_component_err("1", inner);
                proof {
                    let b = old(decoder).remaining();
                    assert(A::fail_spec(b, inner) && wrapped_err(1, inner, e));
                    assert(Self::fail_spec(b, e));
                }
                return Err(e);
            },
        };
        let ghost rem1 = decoder.remaining();
        let v1 = match B::from_kv_key(decoder) {
            Ok(v) => v,
            Err(inner) => {
                let e = wrap_component_err("2", inner);
                proof {
                    let b = old(decoder).remaining();
                    assert(rem1 == b.skip(A::parse_len(b)));
                    assert(B::fail_spec(b.skip(A::parse_len(b)), inner) && wrapped_err(2, inner, e));
                    assert(Self::fail_spec(b, e));
                }
                return Err(e);
            },
        };
        let ghost rem2 = decoder.remaining();
        let v2 = match C::from_kv_key(decoder) {
            Ok(v) => v,
            Err(inner) => {
                let e = wrap_component_err("3", inner);
                proof {
                    let b = old(decoder).remaining();
                    assert(rem1 == b.skip(A::parse_len(b)));
                    assert(rem2 == b.skip(A::parse_len(b)).skip(B::parse_len(b.skip(A::parse_len(b)))));
                    assert(C::fail_spec(b.skip(A::parse_len(b)).skip(B::parse_len(b.skip(A::parse_len(b)))), inner) && wrapped_err(3, inner, e));
                    assert(Self::fail_spec(b, e));
                }
                return Err(e);
            },
        };
        let ghost rem3 = decoder.remaining();
        let v3 = match D::from_kv_key(decoder) {
            Ok(v) => v,
            Err(inner) => {
                let e = wrap_component_err("4", inner);
                proof {
                    let b = old(decoder).remaining();
                    assert(rem1 == b.skip(A::parse_len(b)));
                    assert(rem2 == b.skip(A::parse_len(b)).skip(B::parse_len(b.skip(A::parse_len(b)))));
                    assert(rem3 == b.skip(A::parse_len(b)).skip(B::parse_len(b.skip(A::parse_len(b)))).skip(C::parse_len(b.skip(A::parse_len(b)).skip(B::parse_len(b.skip(A::parse_len(b)))))));
                    assert(D::fail_spec(b.skip(A::parse_len(b)).skip(B::parse_len(b.skip(A::parse_len(b)))).skip(C::parse_len(b.skip(A::parse_len(b)).skip(B::parse_len(b.skip(A::parse_len(b)))))), inner) && wrapped_err(4, inner, e));
                    assert(Self::fail_spec(b, e));
                }
                return Err(e);
            },
        };
        let ghost rem4 = decoder.remaining();
        let v4 = match E::from_kv_key(decoder) {
            Ok(v) => v,
            Err(inner) => {
                let e = wrap_component_err("5", inner);
                proof {
                    let b = old(decoder).remaining();
                    assert(rem1 == b.skip(A::parse_len(b)));
                    assert(rem2 == b.skip(A::parse_len(b)).skip(B::parse_len(b.skip(A::parse_len(b)))));
                    assert(rem3 == b.skip(A::parse_len(b)).skip(B::parse_len(b.skip(A::parse_len(b)))).skip(C::parse_len(b.skip(A::parse_len(b)).skip(B::parse_len(b.skip(A::parse_len(b)))))));
                    assert(rem4 == b.skip(A::parse_len(b)).skip(B::parse_len(b.skip(A::parse_len(b)))).skip(C::parse_len(b.skip(A::parse_len(b)).skip(B::parse_len(b.skip(A::parse_len(b)))))).skip(D::parse_len(b.skip(A::parse_len(b)).skip(B::parse_len(b.skip(A::parse_len(b)))).skip(C::parse_len(b.skip(A::parse_len(b)).skip(B::parse_len(b.skip(A::parse_len(b)))))))));
                    assert(E::fail_spec(b.skip(A::parse_len(b)).skip(B::parse_len(b.skip(A::parse_len(b)))).skip(C::parse_len(b.skip(A::parse_len(b)).skip(B::parse_len(b.skip(A::parse_len(b)))))).skip(D::parse_len(b.skip(A::parse_len(b)).skip(B::parse_len(b.skip(A::parse_len(b)))).skip(C::parse_len(b.skip(A::parse_len(b)).skip(B::parse_len(b.skip(A::parse_len(b)))))))), inner) && wrapped_err(5, inner, e));
                    assert(Self::fail_spec(b, e));
                }
                return Err(e);
            },
        };
        let ghost rem5 = decoder.remaining();
        let v5 = match F::from_kv_key(decoder) {
            Ok(v) => v,
            Err(inner) => {
                let e = wrap_component_err("6", inner);
                proof {
                    let b = old(decoder).remaining();
                    assert(rem1 == b.skip(A::parse_len(b)));
                    assert(rem2 == b.skip(A::parse_len(b)).skip(B::parse_len(b.skip(A::parse_len(b)))));
                    assert(rem3 == b.skip(A::parse_len(b)).skip(B::parse_len(b.skip(A::parse_len(b)))).skip(C::parse_len(b.skip(A::parse_len(b)).skip(B::parse_len(b.skip(A::parse_len(b)))))));
                    assert(rem4 == b.skip(A::parse_len(b)).skip(B::parse_len(b.skip(A::parse_len(b)))).skip(C::parse_len(b.skip(A::parse_len(b)).skip(B::parse_len(b.skip(A::parse_len(b)))))).skip(D::parse_len(b.skip(A::parse_len(b)).skip(B::parse_len(b.skip(A::parse_len(b)))).skip(C::parse_len(b.skip(A::parse_len(b)).skip(B::parse_len(b.skip(A::parse_len(b)))))))));
                    assert(rem5 == b.skip(A::parse_len(b)).skip(B::parse_len(b.skip(A::parse_len(b)))).skip(C::parse_len(b.skip(A::parse_len(b)).skip(B::parse_len(b.skip(A::parse_len(b)))))).skip(D::parse_len(b.skip(A::parse_len(b)).skip(B::parse_len(b.skip(A::parse_len(b)))).skip(C::parse_len(b.skip(A::parse_len(b)).skip(B::parse_len(b.skip(A::parse_len(b)))))))).skip(E::parse_len(b.skip(A::parse_len(b)).skip(B::parse_len(b.skip(A::parse_len(b)))).skip(C::parse_len(b.skip(A::parse_len(b)).skip(B::parse_len(b.skip(A::parse_len(b)))))).skip(D::parse_len(b.skip(A::parse_len(b)).skip(B::parse_len(b.skip(A::parse_len(b)))).skip(C::parse_len(b.skip(A::parse_len(b)).skip(B::parse_len(b.skip(A::parse_len(b)))))))))));
                    assert(F::fail_spec(b.skip(A::parse_len(b)).skip(B::parse_len(b.skip(A::parse_len(b)))).skip(C::parse_len(b.skip(A::parse_len(b)).skip(B::parse_len(b.skip(A::parse_len(b)))))).skip(D::parse_len(b.skip(A::parse_len(b)).skip(B::parse_len(b.skip(A::parse_len(b)))).skip(C::parse_len(b.skip(A::parse_len(b)).skip(B::parse_len(b.skip(A::parse_len(b)))))))).skip(E::parse_len(b.skip(A::parse_len(b)).skip(B::parse_len(b.skip(A::parse_len(b)))).skip(C::parse_len(b.skip(A::parse_len(b)).skip(B::parse_len(b.skip(A::parse_len(b)))))).skip(D::parse_len(b.skip(A::parse_len(b)).skip(B::parse_len(b.skip(A::parse_len(b)))).skip(C::parse_len(b.skip(A::parse_len(b)).skip(B::parse_len(b.skip(A::parse_len(b)))))))))), inner) && wrapped_err(6, inner, e));
                    assert(Self::fail_spec(b, e));
                }
                return Err(e);
            },
        };
        let ghost rem6 = decoder.remaining();
        let v6 = match G::from_kv_key(decoder) {
            Ok(v) => v,
            Err(inner) => {
                let e = wrap_component_err("7", inner);
                proof {
                    let b = old(decoder).remaining();
                    assert(rem1 == b.skip(A::parse_len(b)));
                    assert(rem2 == b.skip(A::parse_len(b)).skip(B::parse_len(b.skip(A::parse_len(b)))));
                    assert(rem3 == b.skip(A::parse_len(b)).skip(B::parse_len(b.skip(A::parse_len(b)))).skip(C::parse_len(b.skip(A::parse_len(b)).skip(B::parse_len(b.skip(A::parse_len(b)))))));
                    assert(rem4 == b.skip(A::parse_len(b)).skip(B::parse_len(b.skip(A::parse_len(b)))).skip(C::parse_len(b.skip(A::parse_len(b)).skip(B::parse_len(b.skip(A::parse_len(b)))))).skip(D::parse_len(b.skip(A::parse_len(b)).skip(B::parse_len(b.skip(A::parse_len(b)))).skip(C::parse_len(b.skip(A::parse_len(b)).skip(B::parse_len(b.skip(A::parse_len(b)))))))));
                    assert(rem5 == b.skip(A::parse_len(b)).skip(B::parse_len(b.skip(A::parse_len(b)))).skip(C::parse_len(b.skip(A::parse_len(b)).skip(B::parse_len(b.skip(A::parse_len(b)))))).skip(D::parse_len(b.skip(A::parse_len(b)).skip(B::parse_len(b.skip(A::parse_len(b)))).skip(C::parse_len(b.skip(A::parse_len(b)).skip(B::parse_len(b.skip(A::parse_len(b)))))))).skip(E::parse_len(b.skip(A::parse_len(b)).skip(B::parse_len(b.skip(A::parse_len(b)))).skip(C::parse_len(b.skip(A::parse_len(b)).skip(B::parse_len(b.skip(A::parse_len(b)))))).skip(D::parse_len(b.skip(A::parse_len(b)).skip(B::parse_len(b.skip(A::parse_len(b)))).skip(C::parse_len(b.skip(A::parse_len(b)).skip(B::parse_len(b.skip(A::parse_len(b)))))))))));
                    assert(rem6 == b.skip(A::parse_len(b)).skip(B::parse_len(b.skip(A::parse_len(b)))).skip(C::parse_len(b.skip(A::parse_len(b)).skip(B::parse_len(b.skip(A::parse_len(b)))))).skip(D::parse_len(b.skip(A::parse_len(b)).skip(B::parse_len(b.skip(A::parse_len(b)))).skip(C::parse_len(b.skip(A::parse_len(b)).skip(B::parse_len(b.skip(A::parse_len(b)))))))).skip(E::parse_len(b.skip(A::parse_len(b)).skip(B::parse_len(b.skip(A::parse_len(b)))).skip(C::parse_len(b.skip(A::parse_len(b)).skip(B::parse_len(b.skip(A::parse_len(b)))))).skip(D::parse_len(b.skip(A::parse_len(b)).skip(B::parse_len(b.skip(A::parse_len(b)))).skip(C::parse_len(b.skip(A::parse_len(b)).skip(B::parse_len(b.skip(A::parse_len(b)))))))))).skip(F::parse_len(b.skip(A::parse_len(b)).skip(B::parse_len(b.skip(A::parse_len(b)))).skip(C::parse_len(b.skip(A::parse_len(b)).skip(B::parse_len(b.skip(A::parse_len(b)))))).skip(D::parse_len(b.skip(A::parse_len(b)).skip(B::parse_len(b.skip(A::parse_len(b)))).skip(C::parse_len(b.skip(A::parse_len(b)).skip(B::parse_len(b.skip(A::parse_len(b)))))))).skip(E::parse_len(b.skip(A::parse_len(b)).skip(B::parse_len(b.skip(A::parse_len(b)))).skip(C::parse_len(b.skip(A::parse_len(b)).skip(B::parse_len(b.skip(A::parse_len(b)))))).skip(D::parse_len(b.skip(A::parse_len(b)).skip(B::parse_len(b.skip(A::parse_len(b)))).skip(C::parse_len(b.skip(A::parse_len(b)).skip(B::parse_len(b.skip(A::parse_len(b)))))))))))));
                    assert(G::fail_spec(b.skip(A::parse_len(b)).skip(B::parse_len(b.skip(A::parse_len(b)))).skip(C::parse_len(b.skip(A::parse_len(b)).skip(B::parse_len(b.skip(A::parse_len(b)))))).skip(D::parse_len(b.skip(A::parse_len(b)).skip(B::parse_len(b.skip(A::parse_len(b)))).skip(C::parse_len(b.skip(A::parse_len(b)).skip(B::parse_len(b.skip(A::parse_len(b)))))))).skip(E::parse_len(b.skip(A::parse_len(b)).skip(B::parse_len(b.skip(A::parse_len(b)))).skip(C::parse_len(b.skip(A::parse_len(b)).skip(B::parse_len(b.skip(A::parse_len(b)))))).skip(D::parse_len(b.skip(A::parse_len(b)).skip(B::parse_len(b.skip(A::parse_len(b)))).skip(C::parse_len(b.skip(A::parse_len(b)).skip(B::parse_len(b.skip(A::parse_len(b)))))))))).skip(F::parse_len(b.skip(A::parse_len(b)).skip(B::parse_len(b.skip(A::parse_len(b)))).skip(C::parse_len(b.skip(A::parse_len(b)).skip(B::parse_len(b.skip(A::parse_len(b)))))).skip(D::parse_len(b.skip(A::parse_len(b)).skip(B::parse_len(b.skip(A::parse_len(b)))).skip(C::parse_len(b.skip(A::parse_len(b)).skip(B::parse_len(b.skip(A::parse_len(b)))))))).skip(E::parse_len(b.skip(A::parse_len(b)).skip(B::parse_len(b.skip(A::parse_len(b)))).skip(C::parse_len(b.skip(A::parse_len(b)).skip(B::parse_len(b.skip(A::parse_len(b)))))).skip(D::parse_len(b.skip(A::parse_len(b)).skip(B::parse_len(b.skip(A::parse_len(b)))).skip(C::parse_len(b.skip(A::parse_len(b)).skip(B::parse_len(b.skip(A::parse_len(b)))))))))))), inner) && wrapped_err(7, inner, e));
                    assert(Self::fail_spec(b, e));
                }
                return Err(e);
            },
        };
        let ghost rem7 = decoder.remaining();
        let v7 = match H::from_kv_key(decoder) {
            Ok(v) => v,
            Err(inner) => {
                let e = wrap_component_err("8", inner);
                proof {
                    let b = old(decoder).remaining();
                    assert(rem1 == b.skip(A::parse_len(b)));
                    assert(rem2 == b.skip(A::parse_len(b)).skip(B::parse_len(b.skip(A::parse_len(b)))));
                    assert(rem3 == b.skip(A::parse_len(b)).skip(B::parse_len(b.skip(A::parse_len(b)))).skip(C::parse_len(b.skip(A::parse_len(b)).skip(B::parse_len(b.skip(A::parse_len(b)))))));
                    assert(rem4 == b.skip(A::parse_len(b)).skip(B::parse_len(b.skip(A::parse_len(b)))).skip(C::parse_len(b.skip(A::parse_len(b)).skip(B::parse_len(b.skip(A::parse_len(b)))))).skip(D::parse_len(b.skip(A::parse_len(b)).skip(B::parse_len(b.skip(A::parse_len(b)))).skip(C::parse_len(b.skip(A::parse_len(b)).skip(B::parse_len(b.skip(A::parse_len(b)))))))));
                    assert(rem5 == b.skip(A::parse_len(b)).skip(B::parse_len(b.skip(A::parse_len(b)))).skip(C::parse_len(b.skip(A::parse_len(b)).skip(B::parse_len(b.skip(A::parse_len(b)))))).skip(D::parse_len(b.skip(A::parse_len(b)).skip(B::parse_len(b.skip(A::parse_len(b)))).skip(C::parse_len(b.skip(A::parse_len(b)).skip(B::parse_len(b.skip(A::parse_len(b)))))))).skip(E::parse_len(b.skip(A::parse_len(b)).skip(B::parse_len(b.skip(A::parse_len(b)))).skip(C::parse_len(b.skip(A::parse_len(b)).skip(B::parse_len(b.skip(A::parse_len(b)))))).skip(D::parse_len(b.skip(A::parse_len(b)).skip(B::parse_len(b.skip(A::parse_len(b)))).skip(C::parse_len(b.skip(A::parse_len(b)).skip(B::parse_len(b.skip(A::parse_len(b)))))))))));
                    assert(rem6 == b.skip(A::parse_len(b)).skip(B::parse_len(b.skip(A::parse_len(b)))).skip(C::parse_len(b.skip(A::parse_len(b)).skip(B::parse_len(b.skip(A::parse_len(b)))))).skip(D::parse_len(b.skip(A::parse_len(b)).skip(B::parse_len(b.skip(A::parse_len(b)))).skip(C::parse_len(b.skip(A::parse_len(b)).skip(B::parse_len(b.skip(A::parse_len(b)))))))).skip(E::parse_len(b.skip(A::parse_len(b)).skip(B::parse_len(b.skip(A::parse_len(b)))).skip(C::parse_len(b.skip(A::parse_len(b)).skip(B::parse_len(b.skip(A::parse_len(b)))))).skip(D::parse_len(b.skip(A::parse_len(b)).skip(B::parse_len(b.skip(A::parse_len(b)))).skip(C::parse_len(b.skip(A::parse_len(b)).skip(B::parse_len(b.skip(A::parse_len(b)))))))))).skip(F::parse_len(b.skip(A::parse_len(b)).skip(B::parse_len(b.skip(A::parse_len(b)))).skip(C::parse_len(b.skip(A::parse_len(b)).skip(B::parse_len(b.skip(A::parse_len(b)))))).skip(D::parse_len(b.skip(A::parse_len(b)).skip(B::parse_len(b.skip(A::parse_len(b)))).skip(C::parse_len(b.skip(A::parse_len(b)).skip(B::parse_len(b.skip(A::parse_len(b)))))))).skip(E::parse_len(b.skip(A::parse_len(b)).skip(B::parse_len(b.skip(A::parse_len(b)))).skip(C::parse_len(b.skip(A::parse_len(b)).skip(B::parse_len(b.skip(A::parse_len(b)))))).skip(D::parse_len(b.skip(A::parse_len(b)).skip(B::parse_len(b.skip(A::parse_len(b)))).skip(C::parse_len(b.skip(A::parse_len(b)).skip(B::parse_len(b.skip(A::parse_len(b)))))))))))));
                    assert(rem7 == b.skip(A::parse_len(b)).skip(B::parse_len(b.skip(A::parse_len(b)))).skip(C::parse_len(b.skip(A::parse_len(b)).skip(B::parse_len(b.skip(A::parse_len(b)))))).skip(D::parse_len(b.skip(A::parse_len(b)).skip(B::parse_len(b.skip(A::parse_len(b)))).skip(C::parse_len(b.skip(A::parse_len(b)).skip(B::parse_len(b.skip(A::parse_len(b)))))))).skip(E::parse_len(b.skip(A::parse_len(b)).skip(B::parse_len(b.skip(A::parse_len(b)))).skip(C::parse_len(b.skip(A::parse_len(b)).skip(B::parse_len(b.skip(A::parse_len(b)))))).skip(D::parse_len(b.skip(A::parse_len(b)).skip(B::parse_len(b.skip(A::parse_len(b)))).skip(C::parse_len(b.skip(A::parse_len(b)).skip(B::parse_len(b.skip(A::parse_len(b)))))))))).skip(F::parse_len(b.skip(A::parse_len(b)).skip(B::parse_len(b.skip(A::parse_len(b)))).skip(C::parse_len(b.skip(A::parse_len(b)).skip(B::parse_len(b.skip(A::parse_len(b)))))).skip(D::parse_len(b.skip(A::parse_len(b)).skip(B::parse_len(b.skip(A::parse_len(b)))).skip(C::parse_len(b.skip(A::parse_len(b)).skip(B::parse_len(b.skip(A::parse_len(b)))))))).skip(E::parse_len(b.skip(A::parse_len(b)).skip(B::parse_len(b.skip(A::parse_len(b)))).skip(C::parse_len(b.skip(A::parse_len(b)).skip(B::parse_len(b.skip(A::parse_len(b)))))).skip(D::parse_len(b.skip(A::parse_len(b)).skip(B::parse_len(b.skip(A::parse_len(b)))).skip(C::parse_len(b.skip(A::parse_len(b)).skip(B::parse_len(b.skip(A::parse_len(b)))))))))))).skip(G::parse_len(b.skip(A::parse_len(b)).skip(B::parse_len(b.skip(A::parse_len(b)))).skip(C::parse_len(b.skip(A::parse_len(b)).skip(B::parse_len(b.skip(A::parse_len(b)))))).skip(D::parse_len(b.skip(A::parse_len(b)).skip(B::parse_len(b.skip(A::parse_len(b)))).skip(C::parse_len(b.skip(A::parse_len(b)).skip(B::parse_len(b.skip(A::parse_len(b)))))))).skip(E::parse_len(b.skip(A::parse_len(b)).skip(B::parse_len(b.skip(A::parse_len(b)))).skip(C::parse_len(b.skip(A::parse_len(b)).skip(B::parse_len(b.skip(A::parse_len(b)))))).skip(D::parse_len(b.skip(A::parse_len(b)).skip(B::parse_len(b.skip(A::parse_len(b)))).skip(C::parse_len(b.skip(A::parse_len(b)).skip(B::parse_len(b.skip(A::parse_len(b)))))))))).skip(F::parse_len(b.skip(A::parse_len(b)).skip(B::parse_len(b.skip(A::parse_len(b)))).skip(C::parse_len(b.skip(A::parse_len(b)).skip(B::parse_len(b.skip(A::parse_len(b)))))).skip(D::parse_len(b.skip(A::parse_len(b)).skip(B::parse_len(b.skip(A::parse_len(b)))).skip(C::parse_len(b.skip(A::parse_len(b)).skip(B::parse_len(b.skip(A::parse_len(b)))))))).skip(E::parse_len(b.skip(A::parse_len(b)).skip(B::parse_len(b.skip(A::parse_len(b)))).skip(C::parse_len(b.skip(A::parse_len(b)).skip(B::parse_len(b.skip(A::parse_len(b)))))).skip(D::parse_len(b.skip(A::parse_len(b)).skip(B::parse_len(b.skip(A::parse_len(b)))).skip(C::parse_len(b.skip(A::parse_len(b)).skip(B::parse_len(b.skip(A::parse_len(b)))))))))))))));
                    assert(H::fail_spec(b.skip(A::parse_len(b)).skip(B::parse_len(b.skip(A::parse_len(b)))).skip(C::parse_len(b.skip(A::parse_len(b)).skip(B::parse_len(b.skip(A::parse_len(b)))))).skip(D::parse_len(b.skip(A::parse_len(b)).skip(B::parse_len(b.skip(A::parse_len(b)))).skip(C::parse_len(b.skip(A::parse_len(b)).skip(B::parse_len(b.skip(A::parse_len(b)))))))).skip(E::parse_len(b.skip(A::parse_len(b)).skip(B::parse_len(b.skip(A::parse_len(b)))).skip(C::parse_len(b.skip(A::parse_len(b)).skip(B::parse_len(b.skip(A::parse_len(b)))))).skip(D::parse_len(b.skip(A::parse_len(b)).skip(B::parse_len(b.skip(A::parse_len(b)))).skip(C::parse_len(b.skip(A::parse_len(b)).skip(B::parse_len(b.skip(A::parse_len(b)))))))))).skip(F::parse_len(b.skip(A::parse_len(b)).skip(B::parse_len(b.skip(A::parse_len(b)))).skip(C::parse_len(b.skip(A::parse_len(b)).skip(B::parse_len(b.skip(A::parse_len(b)))))).skip(D::parse_len(b.skip(A::parse_len(b)).skip(B::parse_len(b.skip(A::parse_len(b)))).skip(C::parse_len(b.skip(A::parse_len(b)).skip(B::parse_len(b.skip(A::parse_len(b)))))))).skip(E::parse_len(b.skip(A::parse_len(b)).skip(B::parse_len(b.skip(A::parse_len(b)))).skip(C::parse_len(b.skip(A::parse_len(b)).skip(B::parse_len(b.skip(A::parse_len(b)))))).skip(D::parse_len(b.skip(A::parse_len(b)).skip(B::parse_len(b.skip(A::parse_len(b)))).skip(C::parse_len(b.skip(A::parse_len(b)).skip(B::parse_len(b.skip(A::parse_len(b)))))))))))).skip(G::parse_len(b.skip(A::parse_len(b)).skip(B::parse_len(b.skip(A::parse_len(b)))).skip(C::parse_len(b.skip(A::parse_len(b)).skip(B::parse_len(b.skip(A::parse_len(b)))))).skip(D::parse_len(b.skip(A::parse_len(b)).skip(B::parse_len(b.skip(A::parse_len(b)))).skip(C::parse_len(b.skip(A::parse_len(b)).skip(B::parse_len(b.skip(A::parse_len(b)))))))).skip(E::parse_len(b.skip(A::parse_len(b)).skip(B::parse_len(b.skip(A::parse_len(b)))).skip(C::parse_len(b.skip(A::parse_len(b)).skip(B::parse_len(b.skip(A::parse_len(b)))))).skip(D::parse_len(b.skip(A::parse_len(b)).skip(B::parse_len(b.skip(A::parse_len(b)))).skip(C::parse_len(b.skip(A::parse_len(b)).skip(B::parse_len(b.skip(A::parse_len(b)))))))))).skip(F::parse_len(b.skip(A::parse_len(b)).skip(B::parse_len(b.skip(A::parse_len(b)))).skip(C::parse_len(b.skip(A::parse_len(b)).skip(B::parse_len(b.skip(A::parse_len(b)))))).skip(D::parse_len(b.skip(A::parse_len(b)).skip(B::parse_len(b.skip(A::parse_len(b)))).skip(C::parse_len(b.skip(A::parse_len(b)).skip(B::parse_len(b.skip(A::parse_len(b)))))))).skip(E::parse_len(b.skip(A::parse_len(b)).skip(B::parse_len(b.skip(A::parse_len(b)))).skip(C::parse_len(b.skip(A::parse_len(b)).skip(B::parse_len(b.skip(A::parse_len(b)))))).skip(D::parse_len(b.skip(A::parse_len(b)).skip(B::parse_len(b.skip(A::parse_len(b)))).skip(C::parse_len(b.skip(A::parse_len(b)).skip(B::parse_len(b.skip(A::parse_len(b)))))))))))))), inner) && wrapped_err(8, inner, e));
                    assert(Self::fail_spec(b, e));
                }
                return Err(e);
            },
        };
        proof {
            let b = old(decoder).remaining();
            assert(decoder.remaining() =~= b.skip(Self::parse_len(b)));
        }
        Ok((v0, v1, v2, v3, v4, v5, v6, v7))
    }
}


impl<A: FromKvKey, B: FromKvKey, C: FromKvKey, D: FromKvKey, E: FromKvKey, F: FromKvKey, G: FromKvKey, H: FromKvKey, I: FromKvKey> FromKvKey for (A, B, C, D, E, F, G, H, I) {
    open spec fn can_parse(b: Seq<u8>) -> bool {
        A::can_parse(b) && B::can_parse(b.skip(A::parse_len(b))) && C::can_parse(b.skip(A::parse_len(b)).skip(B::parse_len(b.skip(A::parse_len(b))))) && D::can_parse(b.skip(A::parse_len(b)).skip(B::parse_len(b.skip(A::parse_len(b)))).skip(C::parse_len(b.skip(A::parse_len(b)).skip(B::parse_len(b.skip(A::parse_len(b))))))) && E::can_parse(b.skip(A::parse_len(b)).skip(B::parse_len(b.skip(A::parse_len(b)))).skip(C::parse_len(b.skip(A::parse_len(b)).skip(B::parse_len(b.skip(A::parse_len(b)))))).skip(D::parse_len(b.skip(A::parse_len(b)).skip(B::parse_len(b.skip(A::parse_len(b)))).skip(C::parse_len(b.skip(A::parse_len(b)).skip(B::parse_len(b.skip(A::parse_len(b))))))))) && F::can_parse(b.skip(A::parse_len(b)).skip(B::parse_len(b.skip(A::parse_len(b)))).skip(C::parse_len(b.skip(A::parse_len(b)).skip(B::parse_len(b.skip(A::parse_len(b)))))).skip(D::parse_len(b.skip(A::parse_len(b)).skip(B::parse_len(b.skip(A::parse_len(b)))).skip(C::parse_len(b.skip(A::parse_len(b)).skip(B::parse_len(b.skip(A::parse_len(b)))))))).skip(E::parse_len(b.skip(A::parse_len(b)).skip(B::parse_len(b.skip(A::parse_len(b)))).skip(C::parse_len(b.skip(A::parse_len(b)).skip(B::parse_len(b.skip(A::parse_len(b)))))).skip(D::parse_len(b.skip(A::parse_len(b)).skip(B::parse_len(b.skip(A::parse_len(b)))).skip(C::parse_len(b.skip(A::parse_len(b)).skip(B::parse_len(b.skip(A::parse_len(b))))))))))) && G::can_parse(b.skip(A::parse_len(b)).skip(B::parse_len(b.skip(A::parse_len(b)))).skip(C::parse_len(b.skip(A::parse_len(b)).skip(B::parse_len(b.skip(A::parse_len(b)))))).skip(D::parse_len(b.skip(A::parse_len(b)).skip(B::parse_len(b.skip(A::parse_len(b)))).skip(C::parse_len(b.skip(A::parse_len(b)).skip(B::parse_len(b.skip(A::parse_len(b)))))))).skip(E::parse_len(b.skip(A::parse_len(b)).skip(B::parse_len(b.skip(A::parse_len(b)))).skip(C::parse_len(b.skip(A::parse_len(b)).skip(B::parse_len(b.skip(A::parse_len(b)))))).skip(D::parse_len(b.skip(A::parse_len(b)).skip(B::parse_len(b.skip(A::parse_len(b)))).skip(C::parse_len(b.skip(A::parse_len(b)).skip(B::parse_len(b.skip(A::parse_len(b)))))))))).skip(F::parse_len(b.skip(A::parse_len(b)).skip(B::parse_len(b.skip(A::parse_len(b)))).skip(C::parse_len(b.skip(A::parse_len(b)).skip(B::parse_len(b.skip(A::parse_len(b)))))).skip(D::parse_len(b.skip(A::parse_len(b)).skip(B::parse_len(b.skip(A::parse_len(b)))).skip(C::parse_len(b.skip(A::parse_len(b)).skip(B::parse_len(b.skip(A::parse_len(b)))))))).skip(E::parse_len(b.skip(A::parse_len(b)).skip(B::parse_len(b.skip(A::parse_len(b)))).skip(C::parse_len(b.skip(A::parse_len(b)).skip(B::parse_len(b.skip(A::parse_len(b)))))).skip(D::parse_len(b.skip(A::parse_len(b)).skip(B::parse_len(b.skip(A::parse_len(b)))).skip(C::parse_len(b.skip(A::parse_len(b)).skip(B::parse_len(b.skip(A::parse_len(b))))))))))))) && H::can_parse(b.skip(A::parse_len(b)).skip(B::parse_len(b.skip(A::parse_len(b)))).skip(C::parse_len(b.skip(A::parse_len(b)).skip(B::parse_len(b.skip(A::parse_len(b)))))).skip(D::parse_len(b.skip(A::parse_len(b)).skip(B::parse_len(b.skip(A::parse_len(b)))).skip(C::parse_len(b.skip(A::parse_len(b)).skip(B::parse_len(b.skip(A::parse_len(b)))))))).skip(E::parse_len(b.skip(A::parse_len(b)).skip(B::parse_len(b.skip(A::parse_len(b)))).skip(C::parse_len(b.skip(A::parse_len(b)).skip(B::parse_len(b.skip(A::parse_len(b)))))).skip(D::parse_len(b.skip(A::parse_len(b)).skip(B::parse_len(b.skip(A::parse_len(b)))).skip(C::parse_len(b.skip(A::parse_len(b)).skip(B::parse_len(b.skip(A::parse_len(b)))))))))).skip(F::parse_len(b.skip(A::parse_len(b)).skip(B::parse_len(b.skip(A::parse_len(b)))).skip(C::parse_len(b.skip(A::parse_len(b)).skip(B::parse_len(b.skip(A::parse_len(b)))))).skip(D::parse_len(b.skip(A::parse_len(b)).skip(B::parse_len(b.skip(A::parse_len(b)))).skip(C::parse_len(b.skip(A::parse_len(b)).skip(B::parse_len(b.skip(A::parse_len(b)))))))).skip(E::parse_len(b.skip(A::parse_len(b)).skip(B::parse_len(b.skip(A::parse_len(b)))).skip(C::parse_len(b.skip(A::parse_len(b)).skip(B::parse_len(b.skip(A::parse_len(b)))))).skip(D::parse_len(b.skip(A::parse_len(b)).skip(B::parse_len(b.skip(A::parse_len(b)))).skip(C::parse_len(b.skip(A::parse_len(b)).skip(B::parse_len(b.skip(A::parse_len(b)))))))))))).skip(G::parse_len(b.skip(A::parse_len(b)).skip(B::parse_len(b.skip(A::parse_len(b)))).skip(C::parse_len(b.skip(A::parse_len(b)).skip(B::parse_len(b.skip(A::parse_len(b)))))).skip(D::parse_len(b.skip(A::parse_len(b)).skip(B::parse_len(b.skip(A::parse_len(b)))).skip(C::parse_len(b.skip(A::parse_len(b)).skip(B::parse_len(b.skip(A::parse_len(b)))))))).skip(E::parse_len(b.skip(A::parse_len(b)).skip(B::parse_len(b.skip(A::parse_len(b)))).skip(C::parse_len(b.skip(A::parse_len(b)).skip(B::parse_len(b.skip(A::parse_len(b)))))).skip(D::parse_len(b.skip(A::parse_len(b)).skip(B::parse_len(b.skip(A::parse_len(b)))).skip(C::parse_len(b.skip(A::parse_len(b)).skip(B::parse_len(b.skip(A::parse_len(b)))))))))).skip(F::parse_len(b.skip(A::parse_len(b)).skip(B::parse_len(b.skip(A::parse_len(b)))).skip(C::parse_len(b.skip(A::parse_len(b)).skip(B::parse_len(b.skip(A::parse_len(b)))))).skip(D::parse_len(b.skip(A::parse_len(b)).skip(B::parse_len(b.skip(A::parse_len(b)))).skip(C::parse_len(b.skip(A::parse_len(b)).skip(B::parse_len(b.skip(A::parse_len(b)))))))).skip(E::parse_len(b.skip(A::parse_len(b)).skip(B::parse_len(b.skip(A::parse_len(b)))).skip(C::parse_len(b.skip(A::parse_len(b)).skip(B::parse_len(b.skip(A::parse_len(b)))))).skip(D::parse_len(b.skip(A::parse_len(b)).skip(B::parse_len(b.skip(A::parse_len(b)))).skip(C::parse_len(b.skip(A::parse_len(b)).skip(B::parse_len(b.skip(A::parse_len(b))))))))))))))) && I::can_parse(b.skip(A::parse_len(b)).skip(B::parse_len(b.skip(A::parse_len(b)))).skip(C::parse_len(b.skip(A::parse_len(b)).skip(B::parse_len(b.skip(A::parse_len(b)))))).skip(D::parse_len(b.skip(A::parse_len(b)).skip(B::parse_len(b.skip(A::parse_len(b)))).skip(C::parse_len(b.skip(A::parse_len(b)).skip(B::parse_len(b.skip(A::parse_len(b)))))))).skip(E::parse_len(b.skip(A::parse_len(b)).skip(B::parse_len(b.skip(A::parse_len(b)))).skip(C::parse_len(b.skip(A::parse_len(b)).skip(B::parse_len(b.skip(A::parse_len(b)))))).skip(D::parse_len(b.skip(A::parse_len(b)).skip(B::parse_len(b.skip(A::parse_len(b)))).skip(C::parse_len(b.skip(A::parse_len(b)).skip(B::parse_len(b.skip(A::parse_len(b)))))))))).skip(F::parse_len(b.skip(A::parse_len(b)).skip(B::parse_len(b.skip(A::parse_len(b)))).skip(C::parse_len(b.skip(A::parse_len(b)).skip(B::parse_len(b.skip(A::parse_len(b)))))).skip(D::parse_len(b.skip(A::parse_len(b)).skip(B::parse_len(b.skip(A::parse_len(b)))).skip(C::parse_len(b.skip(A::parse_len(b)).skip(B::parse_len(b.skip(A::parse_len(b)))))))).skip(E::parse_len(b.skip(A::parse_len(b)).skip(B::parse_len(b.skip(A::parse_len(b)))).skip(C::parse_len(b.skip(A::parse_len(b)).skip(B::parse_len(b.skip(A::parse_len(b)))))).skip(D::parse_len(b.skip(A::parse_len(b)).skip(B::parse_len(b.skip(A::parse_len(b)))).skip(C::parse_len(b.skip(A::parse_len(b)).skip(B::parse_len(b.skip(A::parse_len(b)))))))))))).skip(G::parse_len(b.skip(A::parse_len(b)).skip(B::parse_len(b.skip(A::parse_len(b)))).skip(C::parse_len(b.skip(A::parse_len(b)).skip(B::parse_len(b.skip(A::parse_len(b)))))).skip(D::parse_len(b.skip(A::parse_len(b)).skip(B::parse_len(b.skip(A::parse_len(b)))).skip(C::parse_len(b.skip(A::parse_len(b)).skip(B::parse_len(b.skip(A::parse_len(b)))))))).skip(E::parse_len(b.skip(A::parse_len(b)).skip(B::parse_len(b.skip(A::parse_len(b)))).skip(C::parse_len(b.skip(A::parse_len(b)).skip(B::parse_len(b.skip(A::parse_len(b)))))).skip(D::parse_len(b.skip(A::parse_len(b)).skip(B::parse_len(b.skip(A::parse_len(b)))).skip(C::parse_len(b.skip(A::parse_len(b)).skip(B::parse_len(b.skip(A::parse_len(b)))))))))).skip(F::parse_len(b.skip(A::parse_len(b)).skip(B::parse_len(b.skip(A::parse_len(b)))).skip(C::parse_len(b.skip(A::parse_len(b)).skip(B::parse_len(b.skip(A::parse_len(b)))))).skip(D::parse_len(b.skip(A::parse_len(b)).skip(B::parse_len(b.skip(A::parse_len(b)))).skip(C::parse_len(b.skip(A::parse_len(b)).skip(B::parse_len(b.skip(A::parse_len(b)))))))).skip(E::parse_len(b.skip(A::parse_len(b)).skip(B::parse_len(b.skip(A::parse_len(b)))).skip(C::parse_len(b.skip(A::parse_len(b)).skip(B::parse_len(b.skip(A::parse_len(b)))))).skip(D::parse_len(b.skip(A::parse_len(b)).skip(B::parse_len(b.skip(A::parse_len(b)))).skip(C::parse_len(b.skip(A::parse_len(b)).skip(B::parse_len(b.skip(A::parse_len(b)))))))))))))).skip(H::parse_len(b.skip(A::parse_len(b)).skip(B::parse_len(b.skip(A::parse_len(b)))).skip(C::parse_len(b.skip(A::parse_len(b)).skip(B::parse_len(b.skip(A::parse_len(b)))))).skip(D::parse_len(b.skip(A::parse_len(b)).skip(B::parse_len(b.skip(A::parse_len(b)))).skip(C::parse_len(b.skip(A::parse_len(b)).skip(B::parse_len(b.skip(A::parse_len(b)))))))).skip(E::parse_len(b.skip(A::parse_len(b)).skip(B::parse_len(b.skip(A::parse_len(b)))).skip(C::parse_len(b.skip(A::parse_len(b)).skip(B::parse_len(b.skip(A::parse_len(b)))))).skip(D::parse_len(b.skip(A::parse_len(b)).skip(B::parse_len(b.skip(A::parse_len(b)))).skip(C::parse_len(b.skip(A::parse_len(b)).skip(B::parse_len(b.skip(A::parse_len(b)))))))))).skip(F::parse_len(b.skip(A::parse_len(b)).skip(B::parse_len(b.skip(A::parse_len(b)))).skip(C::parse_len(b.skip(A::parse_len(b)).skip(B::parse_len(b.skip(A::parse_len(b)))))).skip(D::parse_len(b.skip(A::parse_len(b)).skip(B::parse_len(b.skip(A::parse_len(b)))).skip(C::parse_len(b.skip(A::parse_len(b)).skip(B::parse_len(b.skip(A::parse_len(b)))))))).skip(E::parse_len(b.skip(A::parse_len(b)).skip(B::parse_len(b.skip(A::parse_len(b)))).skip(C::parse_len(b.skip(A::parse_len(b)).skip(B::parse_len(b.skip(A::parse_len(b)))))).skip(D::parse_len(b.skip(A::parse_len(b)).skip(B::parse_len(b.skip(A::parse_len(b)))).skip(C::parse_len(b.skip(A::parse_len(b)).skip(B::parse_len(b.skip(A::parse_len(b)))))))))))).skip(G::parse_len(b.skip(A::parse_len(b)).skip(B::parse_len(b.skip(A::parse_len(b)))).skip(C::parse_len(b.skip(A::parse_len(b)).skip(B::parse_len(b.skip(A::parse_len(b)))))).skip(D::parse_len(b.skip(A::parse_len(b)).skip(B::parse_len(b.skip(A::parse_len(b)))).skip(C::parse_len(b.skip(A::parse_len(b)).skip(B::parse_len(b.skip(A::parse_len(b)))))))).skip(E::parse_len(b.skip(A::parse_len(b)).skip(B::parse_len(b.skip(A::parse_len(b)))).skip(C::parse_len(b.skip(A::parse_len(b)).skip(B::parse_len(b.skip(A::parse_len(b)))))).skip(D::parse_len(b.skip(A::parse_len(b)).skip(B::parse_len(b.skip(A::parse_len(b)))).skip(C::parse_len(b.skip(A::parse_len(b)).skip(B::parse_len(b.skip(A::parse_len(b)))))))))).skip(F::parse_len(b.skip(A::parse_len(b)).skip(B::parse_len(b.skip(A::parse_len(b)))).skip(C::parse_len(b.skip(A::parse_len(b)).skip(B::parse_len(b.skip(A::parse_len(b)))))).skip(D::parse_len(b.skip(A::parse_len(b)).skip(B::parse_len(b.skip(A::parse_len(b)))).skip(C::parse_len(b.skip(A::parse_len(b)).skip(B::parse_len(b.skip(A::parse_len(b)))))))).skip(E::parse_len(b.skip(A::parse_len(b)).skip(B::parse_len(b.skip(A::parse_len(b)))).skip(C::parse_len(b.skip(A::parse_len(b)).skip(B::parse_len(b.skip(A::parse_len(b)))))).skip(D::parse_len(b.skip(A::parse_len(b)).skip(B::parse_len(b.skip(A::parse_len(b)))).skip(C::parse_len(b.skip(A::parse_len(b)).skip(B::parse_len(b.skip(A::parse_len(b)))))))))))))))))
    }

    open spec fn parse_dview(b: Seq<u8>) -> Self::V {
        (A::parse_dview(b), B::parse_dview(b.skip(A::parse_len(b))), C::parse_dview(b.skip(A::parse_len(b)).skip(B::parse_len(b.skip(A::parse_len(b))))), D::parse_dview(b.skip(A::parse_len(b)).skip(B::parse_len(b.skip(A::parse_len(b)))).skip(C::parse_len(b.skip(A::parse_len(b)).skip(B::parse_len(b.skip(A::parse_len(b))))))), E::parse_dview(b.skip(A::parse_len(b)).skip(B::parse_len(b.skip(A::parse_len(b)))).skip(C::parse_len(b.skip(A::parse_len(b)).skip(B::parse_len(b.skip(A::parse_len(b)))))).skip(D::parse_len(b.skip(A::parse_len(b)).skip(B::parse_len(b.skip(A::parse_len(b)))).skip(C::parse_len(b.skip(A::parse_len(b)).skip(B::parse_len(b.skip(A::parse_len(b))))))))), F::parse_dview(b.skip(A::parse_len(b)).skip(B::parse_len(b.skip(A::parse_len(b)))).skip(C::parse_len(b.skip(A::parse_len(b)).skip(B::parse_len(b.skip(A::parse_len(b)))))).skip(D::parse_len(b.skip(A::parse_len(b)).skip(B::parse_len(b.skip(A::parse_len(b)))).skip(C::parse_len(b.skip(A::parse_len(b)).skip(B::parse_len(b.skip(A::parse_len(b)))))))).skip(E::parse_len(b.skip(A::parse_len(b)).skip(B::parse_len(b.skip(A::parse_len(b)))).skip(C::parse_len(b.skip(A::parse_len(b)).skip(B::parse_len(b.skip(A::parse_len(b)))))).skip(D::parse_len(b.skip(A::parse_len(b)).skip(B::parse_len(b.skip(A::parse_len(b)))).skip(C::parse_len(b.skip(A::parse_len(b)).skip(B::parse_len(b.skip(A::parse_len(b))))))))))), G::parse_dview(b.skip(A::parse_len(b)).skip(B::parse_len(b.skip(A::parse_len(b)))).skip(C::parse_len(b.skip(A::parse_len(b)).skip(B::parse_len(b.skip(A::parse_len(b)))))).skip(D::parse_len(b.skip(A::parse_len(b)).skip(B::parse_len(b.skip(A::parse_len(b)))).skip(C::parse_len(b.skip(A::parse_len(b)).skip(B::parse_len(b.skip(A::parse_len(b)))))))).skip(E::parse_len(b.skip(A::parse_len(b)).skip(B::parse_len(b.skip(A::parse_len(b)))).skip(C::parse_len(b.skip(A::parse_len(b)).skip(B::parse_len(b.skip(A::parse_len(b)))))).skip(D::parse_len(b.skip(A::parse_len(b)).skip(B::parse_len(b.skip(A::parse_len(b)))).skip(C::parse_len(b.skip(A::parse_len(b)).skip(B::parse_len(b.skip(A::parse_len(b)))))))))).skip(F::parse_len(b.skip(A::parse_len(b)).skip(B::parse_len(b.skip(A::parse_len(b)))).skip(C::parse_len(b.skip(A::parse_len(b)).skip(B::parse_len(b.skip(A::parse_len(b)))))).skip(D::parse_len(b.skip(A::parse_len(b)).skip(B::parse_len(b.skip(A::parse_len(b)))).skip(C::parse_len(b.skip(A::parse_len(b)).skip(B::parse_len(b.skip(A::parse_len(b)))))))).skip(E::parse_len(b.skip(A::parse_len(b)).skip(B::parse_len(b.skip(A::parse_len(b)))).skip(C::parse_len(b.skip(A::parse_len(b)).skip(B::parse_len(b.skip(A::parse_len(b)))))).skip(D::parse_len(b.skip(A::parse_len(b)).skip(B::parse_len(b.skip(A::parse_len(b)))).skip(C::parse_len(b.skip(A::parse_len(b)).skip(B::parse_len(b.skip(A::parse_len(b))))))))))))), H::parse_dview(b.skip(A::parse_len(b)).skip(B::parse_len(b.skip(A::parse_len(b)))).skip(C::parse_len(b.skip(A::parse_len(b)).skip(B::parse_len(b.skip(A::parse_len(b)))))).skip(D::parse_len(b.skip(A::parse_len(b)).skip(B::parse_len(b.skip(A::parse_len(b)))).skip(C::parse_len(b.skip(A::parse_len(b)).skip(B::parse_len(b.skip(A::parse_len(b)))))))).skip(E::parse_len(b.skip(A::parse_len(b)).skip(B::parse_len(b.skip(A::parse_len(b)))).skip(C::parse_len(b.skip(A::parse_len(b)).skip(B::parse_len(b.skip(A::parse_len(b)))))).skip(D::parse_len(b.skip(A::parse_len(b)).skip(B::parse_len(b.skip(A::parse_len(b)))).skip(C::parse_len(b.skip(A::parse_len(b)).skip(B::parse_len(b.skip(A::parse_len(b)))))))))).skip(F::parse_len(b.skip(A::parse_len(b)).skip(B::parse_len(b.skip(A::parse_len(b)))).skip(C::parse_len(b.skip(A::parse_len(b)).skip(B::parse_len(b.skip(A::parse_len(b)))))).skip(D::parse_len(b.skip(A::parse_len(b)).skip(B::parse_len(b.skip(A::parse_len(b)))).skip(C::parse_len(b.skip(A::parse_len(b)).skip(B::parse_len(b.skip(A::parse_len(b)))))))).skip(E::parse_len(b.skip(A::parse_len(b)).skip(B::parse_len(b.skip(A::parse_len(b)))).skip(C::parse_len(b.skip(A::parse_len(b)).skip(B::parse_len(b.skip(A::parse_len(b)))))).skip(D::parse_len(b.skip(A::parse_len(b)).skip(B::parse_len(b.skip(A::parse_len(b)))).skip(C::parse_len(b.skip(A::parse_len(b)).skip(B::parse_len(b.skip(A::parse_len(b)))))))))))).skip(G::parse_len(b.skip(A::parse_len(b)).skip(B::parse_len(b.skip(A::parse_len(b)))).skip(C::parse_len(b.skip(A::parse_len(b)).skip(B::parse_len(b.skip(A::parse_len(b)))))).skip(D::parse_len(b.skip(A::parse_len(b)).skip(B::parse_len(b.skip(A::parse_len(b)))).skip(C::parse_len(b.skip(A::parse_len(b)).skip(B::parse_len(b.skip(A::parse_len(b)))))))).skip(E::parse_len(b.skip(A::parse_len(b)).skip(B::parse_len(b.skip(A::parse_len(b)))).skip(C::parse_len(b.skip(A::parse_len(b)).skip(B::parse_len(b.skip(A::parse_len(b)))))).skip(D::parse_len(b.skip(A::parse_len(b)).skip(B::parse_len(b.skip(A::parse_len(b)))).skip(C::parse_len(b.skip(A::parse_len(b)).skip(B::parse_len(b.skip(A::parse_len(b)))))))))).skip(F::parse_len(b.skip(A::parse_len(b)).skip(B::parse_len(b.skip(A::parse_len(b)))).skip(C::parse_len(b.skip(A::parse_len(b)).skip(B::parse_len(b.skip(A::parse_len(b)))))).skip(D::parse_len(b.skip(A::parse_len(b)).skip(B::parse_len(b.skip(A::parse_len(b)))).skip(C::parse_len(b.skip(A::parse_len(b)).skip(B::parse_len(b.skip(A::parse_len(b)))))))).skip(E::parse_len(b.skip(A::parse_len(b)).skip(B::parse_len(b.skip(A::parse_len(b)))).skip(C::parse_len(b.skip(A::parse_len(b)).skip(B::parse_len(b.skip(A::parse_len(b)))))).skip(D::parse_len(b.skip(A::parse_len(b)).skip(B::parse_len(b.skip(A::parse_len(b)))).skip(C::parse_len(b.skip(A::parse_len(b)).skip(B::parse_len(b.skip(A::parse_len(b))))))))))))))), I::parse_dview(b.skip(A::parse_len(b)).skip(B::parse_len(b.skip(A::parse_len(b)))).skip(C::parse_len(b.skip(A::parse_len(b)).skip(B::parse_len(b.skip(A::parse_len(b)))))).skip(D::parse_len(b.skip(A::parse_len(b)).skip(B::parse_len(b.skip(A::parse_len(b)))).skip(C::parse_len(b.skip(A::parse_len(b)).skip(B::parse_len(b.skip(A::parse_len(b)))))))).skip(E::parse_len(b.skip(A::parse_len(b)).skip(B::parse_len(b.skip(A::parse_len(b)))).skip(C::parse_len(b.skip(A::parse_len(b)).skip(B::parse_len(b.skip(A::parse_len(b)))))).skip(D::parse_len(b.skip(A::parse_len(b)).skip(B::parse_len(b.skip(A::parse_len(b)))).skip(C::parse_len(b.skip(A::parse_len(b)).skip(B::parse_len(b.skip(A::parse_len(b)))))))))).skip(F::parse_len(b.skip(A::parse_len(b)).skip(B::parse_len(b.skip(A::parse_len(b)))).skip(C::parse_len(b.skip(A::parse_len(b)).skip(B::parse_len(b.skip(A::parse_len(b)))))).skip(D::parse_len(b.skip(A::parse_len(b)).skip(B::parse_len(b.skip(A::parse_len(b)))).skip(C::parse_len(b.skip(A::parse_len(b)).skip(B::parse_len(b.skip(A::parse_len(b)))))))).skip(E::parse_len(b.skip(A::parse_len(b)).skip(B::parse_len(b.skip(A::parse_len(b)))).skip(C::parse_len(b.skip(A::parse_len(b)).skip(B::parse_len(b.skip(A::parse_len(b)))))).skip(D::parse_len(b.skip(A::parse_len(b)).skip(B::parse_len(b.skip(A::parse_len(b)))).skip(C::parse_len(b.skip(A::parse_len(b)).skip(B::parse_len(b.skip(A::parse_len(b)))))))))))).skip(G::parse_len(b.skip(A::parse_len(b)).skip(B::parse_len(b.skip(A::parse_len(b)))).skip(C::parse_len(b.skip(A::parse_len(b)).skip(B::parse_len(b.skip(A::parse_len(b)))))).skip(D::parse_len(b.skip(A::parse_len(b)).skip(B::parse_len(b.skip(A::parse_len(b)))).skip(C::parse_len(b.skip(A::parse_len(b)).skip(B::parse_len(b.skip(A::parse_len(b)))))))).skip(E::parse_len(b.skip(A::parse_len(b)).skip(B::parse_len(b.skip(A::parse_len(b)))).skip(C::parse_len(b.skip(A::parse_len(b)).skip(B::parse_len(b.skip(A::parse_len(b)))))).skip(D::parse_len(b.skip(A::parse_len(b)).skip(B::parse_len(b.skip(A::parse_len(b)))).skip(C::parse_len(b.skip(A::parse_len(b)).skip(B::parse_len(b.skip(A::parse_len(b)))))))))).skip(F::parse_len(b.skip(A::parse_len(b)).skip(B::parse_len(b.skip(A::parse_len(b)))).skip(C::parse_len(b.skip(A::parse_len(b)).skip(B::parse_len(b.skip(A::parse_len(b)))))).skip(D::parse_len(b.skip(A::parse_len(b)).skip(B::parse_len(b.skip(A::parse_len(b)))).skip(C::parse_len(b.skip(A::parse_len(b)).skip(B::parse_len(b.skip(A::parse_len(b)))))))).skip(E::parse_len(b.skip(A::parse_len(b)).skip(B::parse_len(b.skip(A::parse_len(b)))).skip(C::parse_len(b.skip(A::parse_len(b)).skip(B::parse_len(b.skip(A::parse_len(b)))))).skip(D::parse_len(b.skip(A::parse_len(b)).skip(B::parse_len(b.skip(A::parse_len(b)))).skip(C::parse_len(b.skip(A::parse_len(b)).skip(B::parse_len(b.skip(A::parse_len(b)))))))))))))).skip(H::parse_len(b.skip(A::parse_len(b)).skip(B::parse_len(b.skip(A::parse_len(b)))).skip(C::parse_len(b.skip(A::parse_len(b)).skip(B::parse_len(b.skip(A::parse_len(b)))))).skip(D::parse_len(b.skip(A::parse_len(b)).skip(B::parse_len(b.skip(A::parse_len(b)))).skip(C::parse_len(b.skip(A::parse_len(b)).skip(B::parse_len(b.skip(A::parse_len(b)))))))).skip(E::parse_len(b.skip(A::parse_len(b)).skip(B::parse_len(b.skip(A::parse_len(b)))).skip(C::parse_len(b.skip(A::parse_len(b)).skip(B::parse_len(b.skip(A::parse_len(b)))))).skip(D::parse_len(b.skip(A::parse_len(b)).skip(B::parse_len(b.skip(A::parse_len(b)))).skip(C::parse_len(b.skip(A::parse_len(b)).skip(B::parse_len(b.skip(A::parse_len(b)))))))))).skip(F::parse_len(b.skip(A::parse_len(b)).skip(B::parse_len(b.skip(A::parse_len(b)))).skip(C::parse_len(b.skip(A::parse_len(b)).skip(B::parse_len(b.skip(A::parse_len(b)))))).skip(D::parse_len(b.skip(A::parse_len(b)).skip(B::parse_len(b.skip(A::parse_len(b)))).skip(C::parse_len(b.skip(A::parse_len(b)).skip(B::parse_len(b.skip(A::parse_len(b)))))))).skip(E::parse_len(b.skip(A::parse_len(b)).skip(B::parse_len(b.skip(A::parse_len(b)))).skip(C::parse_len(b.skip(A::parse_len(b)).skip(B::parse_len(b.skip(A::parse_len(b)))))).skip(D::parse_len(b.skip(A::parse_len(b)).skip(B::parse_len(b.skip(A::parse_len(b)))).skip(C::parse_len(b.skip(A::parse_len(b)).skip(B::parse_len(b.skip(A::parse_len(b)))))))))))).skip(G::parse_len(b.skip(A::parse_len(b)).skip(B::parse_len(b.skip(A::parse_len(b)))).skip(C::parse_len(b.skip(A::parse_len(b)).skip(B::parse_len(b.skip(A::parse_len(b)))))).skip(D::parse_len(b.skip(A::parse_len(b)).skip(B::parse_len(b.skip(A::parse_len(b)))).skip(C::parse_len(b.skip(A::parse_len(b)).skip(B::parse_len(b.skip(A::parse_len(b)))))))).skip(E::parse_len(b.skip(A::parse_len(b)).skip(B::parse_len(b.skip(A::parse_len(b)))).skip(C::parse_len(b.skip(A::parse_len(b)).skip(B::parse_len(b.skip(A::parse_len(b)))))).skip(D::parse_len(b.skip(A::parse_len(b)).skip(B::parse_len(b.skip(A::parse_len(b)))).skip(C::parse_len(b.skip(A::parse_len(b)).skip(B::parse_len(b.skip(A::parse_len(b)))))))))).skip(F::parse_len(b.skip(A::parse_len(b)).skip(B::parse_len(b.skip(A::parse_len(b)))).skip(C::parse_len(b.skip(A::parse_len(b)).skip(B::parse_len(b.skip(A::parse_len(b)))))).skip(D::parse_len(b.skip(A::parse_len(b)).skip(B::parse_len(b.skip(A::parse_len(b)))).skip(C::parse_len(b.skip(A::parse_len(b)).skip(B::parse_len(b.skip(A::parse_len(b)))))))).skip(E::parse_len(b.skip(A::parse_len(b)).skip(B::parse_len(b.skip(A::parse_len(b)))).skip(C::parse_len(b.skip(A::parse_len(b)).skip(B::parse_len(b.skip(A::parse_len(b)))))).skip(D::parse_len(b.skip(A::parse_len(b)).skip(B::parse_len(b.skip(A::parse_len(b)))).skip(C::parse_len(b.skip(A::parse_len(b)).skip(B::parse_len(b.skip(A::parse_len(b))))))))))))))))))
    }

    open spec fn parse_len(b: Seq<u8>) -> int {
        A::parse_len(b) + B::parse_len(b.skip(A::parse_len(b))) + C::parse_len(b.skip(A::parse_len(b)).skip(B::parse_len(b.skip(A::parse_len(b))))) + D::parse_len(b.skip(A::parse_len(b)).skip(B::parse_len(b.skip(A::parse_len(b)))).skip(C::parse_len(b.skip(A::parse_len(b)).skip(B::parse_len(b.skip(A::parse_len(b))))))) + E::parse_len(b.skip(A::parse_len(b)).skip(B::parse_len(b.skip(A::parse_len(b)))).skip(C::parse_len(b.skip(A::parse_len(b)).skip(B::parse_len(b.skip(A::parse_len(b)))))).skip(D::parse_len(b.skip(A::parse_len(b)).skip(B::parse_len(b.skip(A::parse_len(b)))).skip(C::parse_len(b.skip(A::parse_len(b)).skip(B::parse_len(b.skip(A::parse_len(b))))))))) + F::parse_len(b.skip(A::parse_len(b)).skip(B::parse_len(b.skip(A::parse_len(b)))).skip(C::parse_len(b.skip(A::parse_len(b)).skip(B::parse_len(b.skip(A::parse_len(b)))))).skip(D::parse_len(b.skip(A::parse_len(b)).skip(B::parse_len(b.skip(A::parse_len(b)))).skip(C::parse_len(b.skip(A::parse_len(b)).skip(B::parse_len(b.skip(A::parse_len(b)))))))).skip(E::parse_len(b.skip(A::parse_len(b)).skip(B::parse_len(b.skip(A::parse_len(b)))).skip(C::parse_len(b.skip(A::parse_len(b)).skip(B::parse_len(b.skip(A::parse_len(b)))))).skip(D::parse_len(b.skip(A::parse_len(b)).skip(B::parse_len(b.skip(A::parse_len(b)))).skip(C::parse_len(b.skip(A::parse_len(b)).skip(B::parse_len(b.skip(A::parse_len(b))))))))))) + G::parse_len(b.skip(A::parse_len(b)).skip(B::parse_len(b.skip(A::parse_len(b)))).skip(C::parse_len(b.skip(A::parse_len(b)).skip(B::parse_len(b.skip(A::parse_len(b)))))).skip(D::parse_len(b.skip(A::parse_len(b)).skip(B::parse_len(b.skip(A::parse_len(b)))).skip(C::parse_len(b.skip(A::parse_len(b)).skip(B::parse_len(b.skip(A::parse_len(b)))))))).skip(E::parse_len(b.skip(A::parse_len(b)).skip(B::parse_len(b.skip(A::parse_len(b)))).skip(C::parse_len(b.skip(A::parse_len(b)).skip(B::parse_len(b.skip(A::parse_len(b)))))).skip(D::parse_len(b.skip(A::parse_len(b)).skip(B::parse_len(b.skip(A::parse_len(b)))).skip(C::parse_len(b.skip(A::parse_len(b)).skip(B::parse_len(b.skip(A::parse_len(b)))))))))).skip(F::parse_len(b.skip(A::parse_len(b)).skip(B::parse_len(b.skip(A::parse_len(b)))).skip(C::parse_len(b.skip(A::parse_len(b)).skip(B::parse_len(b.skip(A::parse_len(b)))))).skip(D::parse_len(b.skip(A::parse_len(b)).skip(B::parse_len(b.skip(A::parse_len(b)))).skip(C::parse_len(b.skip(A::parse_len(b)).skip(B::parse_len(b.skip(A::parse_len(b)))))))).skip(E::parse_len(b.skip(A::parse_len(b)).skip(B::parse_len(b.skip(A::parse_len(b)))).skip(C::parse_len(b.skip(A::parse_len(b)).skip(B::parse_len(b.skip(A::parse_len(b)))))).skip(D::parse_len(b.skip(A::parse_len(b)).skip(B::parse_len(b.skip(A::parse_len(b)))).skip(C::parse_len(b.skip(A::parse_len(b)).skip(B::parse_len(b.skip(A::parse_len(b))))))))))))) + H::parse_len(b.skip(A::parse_len(b)).skip(B::parse_len(b.skip(A::parse_len(b)))).skip(C::parse_len(b.skip(A::parse_len(b)).skip(B::parse_len(b.skip(A::parse_len(b)))))).skip(D::parse_len(b.skip(A::parse_len(b)).skip(B::parse_len(b.skip(A::parse_len(b)))).skip(C::parse_len(b.skip(A::parse_len(b)).skip(B::parse_len(b.skip(A::parse_len(b)))))))).skip(E::parse_len(b.skip(A::parse_len(b)).skip(B::parse_len(b.skip(A::parse_len(b)))).skip(C::parse_len(b.skip(A::parse_len(b)).skip(B::parse_len(b.skip(A::parse_len(b)))))).skip(D::parse_len(b.skip(A::parse_len(b)).skip(B::parse_len(b.skip(A::parse_len(b)))).skip(C::parse_len(b.skip(A::parse_len(b)).skip(B::parse_len(b.skip(A::parse_len(b)))))))))).skip(F::parse_len(b.skip(A::parse_len(b)).skip(B::parse_len(b.skip(A::parse_len(b)))).skip(C::parse_len(b.skip(A::parse_len(b)).skip(B::parse_len(b.skip(A::parse_len(b)))))).skip(D::parse_len(b.skip(A::parse_len(b)).skip(B::parse_len(b.skip(A::parse_len(b)))).skip(C::parse_len(b.skip(A::parse_len(b)).skip(B::parse_len(b.skip(A::parse_len(b)))))))).skip(E::parse_len(b.skip(A::parse_len(b)).skip(B::parse_len(b.skip(A::parse_len(b)))).skip(C::parse_len(b.skip(A::parse_len(b)).skip(B::parse_len(b.skip(A::parse_len(b)))))).skip(D::parse_len(b.skip(A::parse_len(b)).skip(B::parse_len(b.skip(A::parse_len(b)))).skip(C::parse_len(b.skip(A::parse_len(b)).skip(B::parse_len(b.skip(A::parse_len(b)))))))))))).skip(G::parse_len(b.skip(A::parse_len(b)).skip(B::parse_len(b.skip(A::parse_len(b)))).skip(C::parse_len(b.skip(A::parse_len(b)).skip(B::parse_len(b.skip(A::parse_len(b)))))).skip(D::parse_len(b.skip(A::parse_len(b)).skip(B::parse_len(b.skip(A::parse_len(b)))).skip(C::parse_len(b.skip(A::parse_len(b)).skip(B::parse_len(b.skip(A::parse_len(b)))))))).skip(E::parse_len(b.skip(A::parse_len(b)).skip(B::parse_len(b.skip(A::parse_len(b)))).skip(C::parse_len(b.skip(A::parse_len(b)).skip(B::parse_len(b.skip(A::parse_len(b)))))).skip(D::parse_len(b.skip(A::parse_len(b)).skip(B::parse_len(b.skip(A::parse_len(b)))).skip(C::parse_len(b.skip(A::parse_len(b)).skip(B::parse_len(b.skip(A::parse_len(b)))))))))).skip(F::parse_len(b.skip(A::parse_len(b)).skip(B::parse_len(b.skip(A::parse_len(b)))).skip(C::parse_len(b.skip(A::parse_len(b)).skip(B::parse_len(b.skip(A::parse_len(b)))))).skip(D::parse_len(b.skip(A::parse_len(b)).skip(B::parse_len(b.skip(A::parse_len(b)))).skip(C::parse_len(b.skip(A::parse_len(b)).skip(B::parse_len(b.skip(A::parse_len(b)))))))).skip(E::parse_len(b.skip(A::parse_len(b)).skip(B::parse_len(b.skip(A::parse_len(b)))).skip(C::parse_len(b.skip(A::parse_len(b)).skip(B::parse_len(b.skip(A::parse_len(b)))))).skip(D::parse_len(b.skip(A::parse_len(b)).skip(B::parse_len(b.skip(A::parse_len(b)))).skip(C::parse_len(b.skip(A::parse_len(b)).skip(B::parse_len(b.skip(A::parse_len(b))))))))))))))) + I::parse_len(b.skip(A::parse_len(b)).skip(B::parse_len(b.skip(A::parse_len(b)))).skip(C::parse_len(b.skip(A::parse_len(b)).skip(B::parse_len(b.skip(A::parse_len(b)))))).skip(D::parse_len(b.skip(A::parse_len(b)).skip(B::parse_len(b.skip(A::parse_len(b)))).skip(C::parse_len(b.skip(A::parse_len(b)).skip(B::parse_len(b.skip(A::parse_len(b)))))))).skip(E::parse_len(b.skip(A::parse_len(b)).skip(B::parse_len(b.skip(A::parse_len(b)))).skip(C::parse_len(b.skip(A::parse_len(b)).skip(B::parse_len(b.skip(A::parse_len(b)))))).skip(D::parse_len(b.skip(A::parse_len(b)).skip(B::parse_len(b.skip(A::parse_len(b)))).skip(C::parse_len(b.skip(A::parse_len(b)).skip(B::parse_len(b.skip(A::parse_len(b)))))))))).skip(F::parse_len(b.skip(A::parse_len(b)).skip(B::parse_len(b.skip(A::parse_len(b)))).skip(C::parse_len(b.skip(A::parse_len(b)).skip(B::parse_len(b.skip(A::parse_len(b)))))).skip(D::parse_len(b.skip(A::parse_len(b)).skip(B::parse_len(b.skip(A::parse_len(b)))).skip(C::parse_len(b.skip(A::parse_len(b)).skip(B::parse_len(b.skip(A::parse_len(b)))))))).skip(E::parse_len(b.skip(A::parse_len(b)).skip(B::parse_len(b.skip(A::parse_len(b)))).skip(C::parse_len(b.skip(A::parse_len(b)).skip(B::parse_len(b.skip(A::parse_len(b)))))).skip(D::parse_len(b.skip(A::parse_len(b)).skip(B::parse_len(b.skip(A::parse_len(b)))).skip(C::parse_len(b.skip(A::parse_len(b)).skip(B::parse_len(b.skip(A::parse_len(b)))))))))))).skip(G::parse_len(b.skip(A::parse_len(b)).skip(B::parse_len(b.skip(A::parse_len(b)))).skip(C::parse_len(b.skip(A::parse_len(b)).skip(B::parse_len(b.skip(A::parse_len(b)))))).skip(D::parse_len(b.skip(A::parse_len(b)).skip(B::parse_len(b.skip(A::parse_len(b)))).skip(C::parse_len(b.skip(A::parse_len(b)).skip(B::parse_len(b.skip(A::parse_len(b)))))))).skip(E::parse_len(b.skip(A::parse_len(b)).skip(B::parse_len(b.skip(A::parse_len(b)))).skip(C::parse_len(b.skip(A::parse_len(b)).skip(B::parse_len(b.skip(A::parse_len(b)))))).skip(D::parse_len(b.skip(A::parse_len(b)).skip(B::parse_len(b.skip(A::parse_len(b)))).skip(C::parse_len(b.skip(A::parse_len(b)).skip(B::parse_len(b.skip(A::parse_len(b)))))))))).skip(F::parse_len(b.skip(A::parse_len(b)).skip(B::parse_len(b.skip(A::parse_len(b)))).skip(C::parse_len(b.skip(A::parse_len(b)).skip(B::parse_len(b.skip(A::parse_len(b)))))).skip(D::parse_len(b.skip(A::parse_len(b)).skip(B::parse_len(b.skip(A::parse_len(b)))).skip(C::parse_len(b.skip(A::parse_len(b)).skip(B::parse_len(b.skip(A::parse_len(b)))))))).skip(E::parse_len(b.skip(A::parse_len(b)).skip(B::parse_len(b.skip(A::parse_len(b)))).skip(C::parse_len(b.skip(A::parse_len(b)).skip(B::parse_len(b.skip(A::parse_len(b)))))).skip(D::parse_len(b.skip(A::parse_len(b)).skip(B::parse_len(b.skip(A::parse_len(b)))).skip(C::parse_len(b.skip(A::parse_len(b)).skip(B::parse_len(b.skip(A::parse_len(b)))))))))))))).skip(H::parse_len(b.skip(A::parse_len(b)).skip(B::parse_len(b.skip(A::parse_len(b)))).skip(C::parse_len(b.skip(A::parse_len(b)).skip(B::parse_len(b.skip(A::parse_len(b)))))).skip(D::parse_len(b.skip(A::parse_len(b)).skip(B::parse_len(b.skip(A::parse_len(b)))).skip(C::parse_len(b.skip(A::parse_len(b)).skip(B::parse_len(b.skip(A::parse_len(b)))))))).skip(E::parse_len(b.skip(A::parse_len(b)).skip(B::parse_len(b.skip(A::parse_len(b)))).skip(C::parse_len(b.skip(A::parse_len(b)).skip(B::parse_len(b.skip(A::parse_len(b)))))).skip(D::parse_len(b.skip(A::parse_len(b)).skip(B::parse_len(b.skip(A::parse_len(b)))).skip(C::parse_len(b.skip(A::parse_len(b)).skip(B::parse_len(b.skip(A::parse_len(b)))))))))).skip(F::parse_len(b.skip(A::parse_len(b)).skip(B::parse_len(b.skip(A::parse_len(b)))).skip(C::parse_len(b.skip(A::parse_len(b)).skip(B::parse_len(b.skip(A::parse_len(b)))))).skip(D::parse_len(b.skip(A::parse_len(b)).skip(B::parse_len(b.skip(A::parse_len(b)))).skip(C::parse_len(b.skip(A::parse_len(b)).skip(B::parse_len(b.skip(A::parse_len(b)))))))).skip(E::parse_len(b.skip(A::parse_len(b)).skip(B::parse_len(b.skip(A::parse_len(b)))).skip(C::parse_len(b.skip(A::parse_len(b)).skip(B::parse_len(b.skip(A::parse_len(b)))))).skip(D::parse_len(b.skip(A::parse_len(b)).skip(B::parse_len(b.skip(A::parse_len(b)))).skip(C::parse_len(b.skip(A::parse_len(b)).skip(B::parse_len(b.skip(A::parse_len(b)))))))))))).skip(G::parse_len(b.skip(A::parse_len(b)).skip(B::parse_len(b.skip(A::parse_len(b)))).skip(C::parse_len(b.skip(A::parse_len(b)).skip(B::parse_len(b.skip(A::parse_len(b)))))).skip(D::parse_len(b.skip(A::parse_len(b)).skip(B::parse_len(b.skip(A::parse_len(b)))).skip(C::parse_len(b.skip(A::parse_len(b)).skip(B::parse_len(b.skip(A::parse_len(b)))))))).skip(E::parse_len(b.skip(A::parse_len(b)).skip(B::parse_len(b.skip(A::parse_len(b)))).skip(C::parse_len(b.skip(A::parse_len(b)).skip(B::parse_len(b.skip(A::parse_len(b)))))).skip(D::parse_len(b.skip(A::parse_len(b)).skip(B::parse_len(b.skip(A::parse_len(b)))).skip(C::parse_len(b.skip(A::parse_len(b)).skip(B::parse_len(b.skip(A::parse_len(b)))))))))).skip(F::parse_len(b.skip(A::parse_len(b)).skip(B::parse_len(b.skip(A::parse_len(b)))).skip(C::parse_len(b.skip(A::parse_len(b)).skip(B::parse_len(b.skip(A::parse_len(b)))))).skip(D::parse_len(b.skip(A::parse_len(b)).skip(B::parse_len(b.skip(A::parse_len(b)))).skip(C::parse_len(b.skip(A::parse_len(b)).skip(B::parse_len(b.skip(A::parse_len(b)))))))).skip(E::parse_len(b.skip(A::parse_len(b)).skip(B::parse_len(b.skip(A::parse_len(b)))).skip(C::parse_len(b.skip(A::parse_len(b)).skip(B::parse_len(b.skip(A::parse_len(b)))))).skip(D::parse_len(b.skip(A::parse_len(b)).skip(B::parse_len(b.skip(A::parse_len(b)))).skip(C::parse_len(b.skip(A::parse_len(b)).skip(B::parse_len(b.skip(A::parse_len(b)))))))))))))))))
    }

    open spec fn fail_spec(b: Seq<u8>, e: DecodeError) -> bool {
        if !A::can_parse(b) {
            exists|inner: DecodeError| #[trigger] A::fail_spec(b, inner) && wrapped_err(1, inner, e)
        } else if !B::can_parse(b.skip(A::parse_len(b))) {
            exists|inner: DecodeError| #[trigger] B::fail_spec(b.skip(A::parse_len(b)), inner) && wrapped_err(2, inner, e)
        } else if !C::can_parse(b.skip(A::parse_len(b)).skip(B::parse_len(b.skip(A::parse_len(b))))) {
            exists|inner: DecodeError| #[trigger] C::fail_spec(b.skip(A::parse_len(b)).skip(B::parse_len(b.skip(A::parse_len(b)))), inner) && wrapped_err(3, inner, e)
        } else if !D::can_parse(b.skip(A::parse_len(b)).skip(B::parse_len(b.skip(A::parse_len(b)))).skip(C::parse_len(b.skip(A::parse_len(b)).skip(B::parse_len(b.skip(A::parse_len(b))))))) {
            exists|inner: DecodeError| #[trigger] D::fail_spec(b.skip(A::parse_len(b)).skip(B::parse_len(b.skip(A::parse_len(b)))).skip(C::parse_len(b.skip(A::parse_len(b)).skip(B::parse_len(b.skip(A::parse_len(b)))))), inner) && wrapped_err(4, inner, e)
        } else if !E::can_parse(b.skip(A::parse_len(b)).skip(B::parse_len(b.skip(A::parse_len(b)))).skip(C::parse_len(b.skip(A::parse_len(b)).skip(B::parse_len(b.skip(A::parse_len(b)))))).skip(D::parse_len(b.skip(A::parse_len(b)).skip(B::parse_len(b.skip(A::parse_len(b)))).skip(C::parse_len(b.skip(A::parse_len(b)).skip(B::parse_len(b.skip(A::parse_len(b))))))))) {
            exists|inner: DecodeError| #[trigger] E::fail_spec(b.skip(A::parse_len(b)).skip(B::parse_len(b.skip(A::parse_len(b)))).skip(C::parse_len(b.skip(A::parse_len(b)).skip(B::parse_len(b.skip(A::parse_len(b)))))).skip(D::parse_len(b.skip(A::parse_len(b)).skip(B::parse_len(b.skip(A::parse_len(b)))).skip(C::parse_len(b.skip(A::parse_len(b)).skip(B::parse_len(b.skip(A::parse_len(b)))))))), inner) && wrapped_err(5, inner, e)
        } else if !F::can_parse(b.skip(A::parse_len(b)).skip(B::parse_len(b.skip(A::parse_len(b)))).skip(C::parse_len(b.skip(A::parse_len(b)).skip(B::parse_len(b.skip(A::parse_len(b)))))).skip(D::parse_len(b.skip(A::parse_len(b)).skip(B::parse_len(b.skip(A::parse_len(b)))).skip(C::parse_len(b.skip(A::parse_len(b)).skip(B::parse_len(b.skip(A::parse_len(b)))))))).skip(E::parse_len(b.skip(A::parse_len(b)).skip(B::parse_len(b.skip(A::parse_len(b)))).skip(C::parse_len(b.skip(A::parse_len(b)).skip(B::parse_len(b.skip(A::parse_len(b)))))).skip(D::parse_len(b.skip(A::parse_len(b)).skip(B::parse_len(b.skip(A::parse_len(b)))).skip(C::parse_len(b.skip(A::parse_len(b)).skip(B::parse_len(b.skip(A::parse_len(b))))))))))) {
            exists|inner: DecodeError| #[trigger] F::fail_spec(b.skip(A::parse_len(b)).skip(B::parse_len(b.skip(A::parse_len(b)))).skip(C::parse_len(b.skip(A::parse_len(b)).skip(B::parse_len(b.skip(A::parse_len(b)))))).skip(D::parse_len(b.skip(A::parse_len(b)).skip(B::parse_len(b.skip(A::parse_len(b)))).skip(C::parse_len(b.skip(A::parse_len(b)).skip(B::parse_len(b.skip(A::parse_len(b)))))))).skip(E::parse_len(b.skip(A::parse_len(b)).skip(B::parse_len(b.skip(A::parse_len(b)))).skip(C::parse_len(b.skip(A::parse_len(b)).skip(B::parse_len(b.skip(A::parse_len(b)))))).skip(D::parse_len(b.skip(A::parse_len(b)).skip(B::parse_len(b.skip(A::parse_len(b)))).skip(C::parse_len(b.skip(A::parse_len(b)).skip(B::parse_len(b.skip(A::parse_len(b)))))))))), inner) && wrapped_err(6, inner, e)
        } else if !G::can_parse(b.skip(A::parse_len(b)).skip(B::parse_len(b.skip(A::parse_len(b)))).skip(C::parse_len(b.skip(A::parse_len(b)).skip(B::parse_len(b.skip(A::parse_len(b)))))).skip(D::parse_len(b.skip(A::parse_len(b)).skip(B::parse_len(b.skip(A::parse_len(b)))).skip(C::parse_len(b.skip(A::parse_len(b)).skip(B::parse_len(b.skip(A::parse_len(b)))))))).skip(E::parse_len(b.skip(A::parse_len(b)).skip(B::parse_len(b.skip(A::parse_len(b)))).skip(C::parse_len(b.skip(A::parse_len(b)).skip(B::parse_len(b.skip(A::parse_len(b)))))).skip(D::parse_len(b.skip(A::parse_len(b)).skip(B::parse_len(b.skip(A::parse_len(b)))).skip(C::parse_len(b.skip(A::parse_len(b)).skip(B::parse_len(b.skip(A::parse_len(b)))))))))).skip(F::parse_len(b.skip(A::parse_len(b)).skip(B::parse_len(b.skip(A::parse_len(b)))).skip(C::parse_len(b.skip(A::parse_len(b)).skip(B::parse_len(b.skip(A::parse_len(b)))))).skip(D::parse_len(b.skip(A::parse_len(b)).skip(B::parse_len(b.skip(A::parse_len(b)))).skip(C::parse_len(b.skip(A::parse_len(b)).skip(B::parse_len(b.skip(A::parse_len(b)))))))).skip(E::parse_len(b.skip(A::parse_len(b)).skip(B::parse_len(b.skip(A::parse_len(b)))).skip(C::parse_len(b.skip(A::parse_len(b)).skip(B::parse_len(b.skip(A::parse_len(b)))))).skip(D::parse_len(b.skip(A::parse_len(b)).skip(B::parse_len(b.skip(A::parse_len(b)))).skip(C::parse_len(b.skip(A::parse_len(b)).skip(B::parse_len(b.skip(A::parse_len(b))))))))))))) {
            exists|inner: DecodeError| #[trigger] G::fail_spec(b.skip(A::parse_len(b)).skip(B::parse_len(b.skip(A::parse_len(b)))).skip(C::parse_len(b.skip(A::parse_len(b)).skip(B::parse_len(b.skip(A::parse_len(b)))))).skip(D::parse_len(b.skip(A::parse_len(b)).skip(B::parse_len(b.skip(A::parse_len(b)))).skip(C::parse_len(b.skip(A::parse_len(b)).skip(B::parse_len(b.skip(A::parse_len(b)))))))).skip(E::parse_len(b.skip(A::parse_len(b)).skip(B::parse_len(b.skip(A::parse_len(b)))).skip(C::parse_len(b.skip(A::parse_len(b)).skip(B::parse_len(b.skip(A::parse_len(b)))))).skip(D::parse_len(b.skip(A::parse_len(b)).skip(B::parse_len(b.skip(A::parse_len(b)))).skip(C::parse_len(b.skip(A::parse_len(b)).skip(B::parse_len(b.skip(A::parse_len(b)))))))))).skip(F::parse_len(b.skip(A::parse_len(b)).skip(B::parse_len(b.skip(A::parse_len(b)))).skip(C::parse_len(b.skip(A::parse_len(b)).skip(B::parse_len(b.skip(A::parse_len(b)))))).skip(D::parse_len(b.skip(A::parse_len(b)).skip(B::parse_len(b.skip(A::parse_len(b)))).skip(C::parse_len(b.skip(A::parse_len(b)).skip(B::parse_len(b.skip(A::parse_len(b)))))))).skip(E::parse_len(b.skip(A::parse_len(b)).skip(B::parse_len(b.skip(A::parse_len(b)))).skip(C::parse_len(b.skip(A::parse_len(b)).skip(B::parse_len(b.skip(A::parse_len(b)))))).skip(D::parse_len(b.skip(A::parse_len(b)).skip(B::parse_len(b.skip(A::parse_len(b)))).skip(C::parse_len(b.skip(A::parse_len(b)).skip(B::parse_len(b.skip(A::parse_len(b)))))))))))), inner) && wrapped_err(7, inner, e)
        } else if !H::can_parse(b.skip(A::parse_len(b)).skip(B::parse_len(b.skip(A::parse_len(b)))).skip(C::parse_len(b.skip(A::parse_len(b)).skip(B::parse_len(b.skip(A::parse_len(b)))))).skip(D::parse_len(b.skip(A::parse_len(b)).skip(B::parse_len(b.skip(A::parse_len(b)))).skip(C::parse_len(b.skip(A::parse_len(b)).skip(B::parse_len(b.skip(A::parse_len(b)))))))).skip(E::parse_len(b.skip(A::parse_len(b)).skip(B::parse_len(b.skip(A::parse_len(b)))).skip(C::parse_len(b.skip(A::parse_len(b)).skip(B::parse_len(b.skip(A::parse_len(b)))))).skip(D::parse_len(b.skip(A::parse_len(b)).skip(B::parse_len(b.skip(A::parse_len(b)))).skip(C::parse_len(b.skip(A::parse_len(b)).skip(B::parse_len(b.skip(A::parse_len(b)))))))))).skip(F::parse_len(b.skip(A::parse_len(b)).skip(B::parse_len(b.skip(A::parse_len(b)))).skip(C::parse_len(b.skip(A::parse_len(b)).skip(B::parse_len(b.skip(A::parse_len(b)))))).skip(D::parse_len(b.skip(A::parse_len(b)).skip(B::parse_len(b.skip(A::parse_len(b)))).skip(C::parse_len(b.skip(A::parse_len(b)).skip(B::parse_len(b.skip(A::parse_len(b)))))))).skip(E::parse_len(b.skip(A::parse_len(b)).skip(B::parse_len(b.skip(A::parse_len(b)))).skip(C::parse_len(b.skip(A::parse_len(b)).skip(B::parse_len(b.skip(A::parse_len(b)))))).skip(D::parse_len(b.skip(A::parse_len(b)).skip(B::parse_len(b.skip(A::parse_len(b)))).skip(C::parse_len(b.skip(A::parse_len(b)).skip(B::parse_len(b.skip(A::parse_len(b)))))))))))).skip(G::parse_len(b.skip(A::parse_len(b)).skip(B::parse_len(b.skip(A::parse_len(b)))).skip(C::parse_len(b.skip(A::parse_len(b)).skip(B::parse_len(b.skip(A::parse_len(b)))))).skip(D::parse_len(b.skip(A::parse_len(b)).skip(B::parse_len(b.skip(A::parse_len(b)))).skip(C::parse_len(b.skip(A::parse_len(b)).skip(B::parse_len(b.skip(A::parse_len(b)))))))).skip(E::parse_len(b.skip(A::parse_len(b)).skip(B::parse_len(b.skip(A::parse_len(b)))).skip(C::parse_len(b.skip(A::parse_len(b)).skip(B::parse_len(b.skip(A::parse_len(b)))))).skip(D::parse_len(b.skip(A::parse_len(b)).skip(B::parse_len(b.skip(A::parse_len(b)))).skip(C::parse_len(b.skip(A::parse_len(b)).skip(B::parse_len(b.skip(A::parse_len(b)))))))))).skip(F::parse_len(b.skip(A::parse_len(b)).skip(B::parse_len(b.skip(A::parse_len(b)))).skip(C::parse_len(b.skip(A::parse_len(b)).skip(B::parse_len(b.skip(A::parse_len(b)))))).skip(D::parse_len(b.skip(A::parse_len(b)).skip(B::parse_len(b.skip(A::parse_len(b)))).skip(C::parse_len(b.skip(A::parse_len(b)).skip(B::parse_len(b.skip(A::parse_len(b)))))))).skip(E::parse_len(b.skip(A::parse_len(b)).skip(B::parse_len(b.skip(A::parse_len(b)))).skip(C::parse_len(b.skip(A::parse_len(b)).skip(B::parse_len(b.skip(A::parse_len(b)))))).skip(D::parse_len(b.skip(A::parse_len(b)).skip(B::parse_len(b.skip(A::parse_len(b)))).skip(C::parse_len(b.skip(A::parse_len(b)).skip(B::parse_len(b.skip(A::parse_len(b))))))))))))))) {
            exists|inner: DecodeError| #[trigger] H::fail_spec(b.skip(A::parse_len(b)).skip(B::parse_len(b.skip(A::parse_len(b)))).skip(C::parse_len(b.skip(A::parse_len(b)).skip(B::parse_len(b.skip(A::parse_len(b)))))).skip(D::parse_len(b.skip(A::parse_len(b)).skip(B::parse_len(b.skip(A::parse_len(b)))).skip(C::parse_len(b.skip(A::parse_len(b)).skip(B::parse_len(b.skip(A::parse_len(b)))))))).skip(E::parse_len(b.skip(A::parse_len(b)).skip(B::parse_len(b.skip(A::parse_len(b)))).skip(C::parse_len(b.skip(A::parse_len(b)).skip(B::parse_len(b.skip(A::parse_len(b)))))).skip(D::parse_len(b.skip(A::parse_len(b)).skip(B::parse_len(b.skip(A::parse_len(b)))).skip(C::parse_len(b.skip(A::parse_len(b)).skip(B::parse_len(b.skip(A::parse_len(b)))))))))).skip(F::parse_len(b.skip(A::parse_len(b)).skip(B::parse_len(b.skip(A::parse_len(b)))).skip(C::parse_len(b.skip(A::parse_len(b)).skip(B::parse_len(b.skip(A::parse_len(b)))))).skip(D::parse_len(b.skip(A::parse_len(b)).skip(B::parse_len(b.skip(A::parse_len(b)))).skip(C::parse_len(b.skip(A::parse_len(b)).skip(B::parse_len(b.skip(A::parse_len(b)))))))).skip(E::parse_len(b.skip(A::parse_len(b)).skip(B::parse_len(b.skip(A::parse_len(b)))).skip(C::parse_len(b.skip(A::parse_len(b)).skip(B::parse_len(b.skip(A::parse_len(b)))))).skip(D::parse_len(b.skip(A::parse_len(b)).skip(B::parse_len(b.skip(A::parse_len(b)))).skip(C::parse_len(b.skip(A::parse_len(b)).skip(B::parse_len(b.skip(A::parse_len(b)))))))))))).skip(G::parse_len(b.skip(A::parse_len(b)).skip(B::parse_len(b.skip(A::parse_len(b)))).skip(C::parse_len(b.skip(A::parse_len(b)).skip(B::parse_len(b.skip(A::parse_len(b)))))).skip(D::parse_len(b.skip(A::parse_len(b)).skip(B::parse_len(b.skip(A::parse_len(b)))).skip(C::parse_len(b.skip(A::parse_len(b)).skip(B::parse_len(b.skip(A::parse_len(b)))))))).skip(E::parse_len(b.skip(A::parse_len(b)).skip(B::parse_len(b.skip(A::parse_len(b)))).skip(C::parse_len(b.skip(A::parse_len(b)).skip(B::parse_len(b.skip(A::parse_len(b)))))).skip(D::parse_len(b.skip(A::parse_len(b)).skip(B::parse_len(b.skip(A::parse_len(b)))).skip(C::parse_len(b.skip(A::parse_len(b)).skip(B::parse_len(b.skip(A::parse_len(b)))))))))).skip(F::parse_len(b.skip(A::parse_len(b)).skip(B::parse_len(b.skip(A::parse_len(b)))).skip(C::parse_len(b.skip(A::parse_len(b)).skip(B::parse_len(b.skip(A::parse_len(b)))))).skip(D::parse_len(b.skip(A::parse_len(b)).skip(B::parse_len(b.skip(A::parse_len(b)))).skip(C::parse_len(b.skip(A::parse_len(b)).skip(B::parse_len(b.skip(A::parse_len(b)))))))).skip(E::parse_len(b.skip(A::parse_len(b)).skip(B::parse_len(b.skip(A::parse_len(b)))).skip(C::parse_len(b.skip(A::parse_len(b)).skip(B::parse_len(b.skip(A::parse_len(b)))))).skip(D::parse_len(b.skip(A::parse_len(b)).skip(B::parse_len(b.skip(A::parse_len(b)))).skip(C::parse_len(b.skip(A::parse_len(b)).skip(B::parse_len(b.skip(A::parse_len(b)))))))))))))), inner) && wrapped_err(8, inner, e)
        } else if !I::can_parse(b.skip(A::parse_len(b)).skip(B::parse_len(b.skip(A::parse_len(b)))).skip(C::parse_len(b.skip(A::parse_len(b)).skip(B::parse_len(b.skip(A::parse_len(b)))))).skip(D::parse_len(b.skip(A::parse_len(b)).skip(B::parse_len(b.skip(A::parse_len(b)))).skip(C::parse_len(b.skip(A::parse_len(b)).skip(B::parse_len(b.skip(A::parse_len(b)))))))).skip(E::parse_len(b.skip(A::parse_len(b)).skip(B::parse_len(b.skip(A::parse_len(b)))).skip(C::parse_len(b.skip(A::parse_len(b)).skip(B::parse_len(b.skip(A::parse_len(b)))))).skip(D::parse_len(b.skip(A::parse_len(b)).skip(B::parse_len(b.skip(A::parse_len(b)))).skip(C::parse_len(b.skip(A::parse_len(b)).skip(B::parse_len(b.skip(A::parse_len(b)))))))))).skip(F::parse_len(b.skip(A::parse_len(b)).skip(B::parse_len(b.skip(A::parse_len(b)))).skip(C::parse_len(b.skip(A::parse_len(b)).skip(B::parse_len(b.skip(A::parse_len(b)))))).skip(D::parse_len(b.skip(A::parse_len(b)).skip(B::parse_len(b.skip(A::parse_len(b)))).skip(C::parse_len(b.skip(A::parse_len(b)).skip(B::parse_len(b.skip(A::parse_len(b)))))))).skip(E::parse_len(b.skip(A::parse_len(b)).skip(B::parse_len(b.skip(A::parse_len(b)))).skip(C::parse_len(b.skip(A::parse_len(b)).skip(B::parse_len(b.skip(A::parse_len(b)))))).skip(D::parse_len(b.skip(A::parse_len(b)).skip(B::parse_len(b.skip(A::parse_len(b)))).skip(C::parse_len(b.skip(A::parse_len(b)).skip(B::parse_len(b.skip(A::parse_len(b)))))))))))).skip(G::parse_len(b.skip(A::parse_len(b)).skip(B::parse_len(b.skip(A::parse_len(b)))).skip(C::parse_len(b.skip(A::parse_len(b)).skip(B::parse_len(b.skip(A::parse_len(b)))))).skip(D::parse_len(b.skip(A::parse_len(b)).skip(B::parse_len(b.skip(A::parse_len(b)))).skip(C::parse_len(b.skip(A::parse_len(b)).skip(B::parse_len(b.skip(A::parse_len(b)))))))).skip(E::parse_len(b.skip(A::parse_len(b)).skip(B::parse_len(b.skip(A::parse_len(b)))).skip(C::parse_len(b.skip(A::parse_len(b)).skip(B::parse_len(b.skip(A::parse_len(b)))))).skip(D::parse_len(b.skip(A::parse_len(b)).skip(B::parse_len(b.skip(A::parse_len(b)))).skip(C::parse_len(b.skip(A::parse_len(b)).skip(B::parse_len(b.skip(A::parse_len(b)))))))))).skip(F::parse_len(b.skip(A::parse_len(b)).skip(B::parse_len(b.skip(A::parse_len(b)))).skip(C::parse_len(b.skip(A::parse_len(b)).skip(B::parse_len(b.skip(A::parse_len(b)))))).skip(D::parse_len(b.skip(A::parse_len(b)).skip(B::parse_len(b.skip(A::parse_len(b)))).skip(C::parse_len(b.skip(A::parse_len(b)).skip(B::parse_len(b.skip(A::parse_len(b)))))))).skip(E::parse_len(b.skip(A::parse_len(b)).skip(B::parse_len(b.skip(A::parse_len(b)))).skip(C::parse_len(b.skip(A::parse_len(b)).skip(B::parse_len(b.skip(A::parse_len(b)))))).skip(D::parse_len(b.skip(A::parse_len(b)).skip(B::parse_len(b.skip(A::parse_len(b)))).skip(C::parse_len(b.skip(A::parse_len(b)).skip(B::parse_len(b.skip(A::parse_len(b)))))))))))))).skip(H::parse_len(b.skip(A::parse_len(b)).skip(B::parse_len(b.skip(A::parse_len(b)))).skip(C::parse_len(b.skip(A::parse_len(b)).skip(B::parse_len(b.skip(A::parse_len(b)))))).skip(D::parse_len(b.skip(A::parse_len(b)).skip(B::parse_len(b.skip(A::parse_len(b)))).skip(C::parse_len(b.skip(A::parse_len(b)).skip(B::parse_len(b.skip(A::parse_len(b)))))))).skip(E::parse_len(b.skip(A::parse_len(b)).skip(B::parse_len(b.skip(A::parse_len(b)))).skip(C::parse_len(b.skip(A::parse_len(b)).skip(B::parse_len(b.skip(A::parse_len(b)))))).skip(D::parse_len(b.skip(A::parse_len(b)).skip(B::parse_len(b.skip(A::parse_len(b)))).skip(C::parse_len(b.skip(A::parse_len(b)).skip(B::parse_len(b.skip(A::parse_len(b)))))))))).skip(F::parse_len(b.skip(A::parse_len(b)).skip(B::parse_len(b.skip(A::parse_len(b)))).skip(C::parse_len(b.skip(A::parse_len(b)).skip(B::parse_len(b.skip(A::parse_len(b)))))).skip(D::parse_len(b.skip(A::parse_len(b)).skip(B::parse_len(b.skip(A::parse_len(b)))).skip(C::parse_len(b.skip(A::parse_len(b)).skip(B::parse_len(b.skip(A::parse_len(b)))))))).skip(E::parse_len(b.skip(A::parse_len(b)).skip(B::parse_len(b.skip(A::parse_len(b)))).skip(C::parse_len(b.skip(A::parse_len(b)).skip(B::parse_len(b.skip(A::parse_len(b)))))).skip(D::parse_len(b.skip(A::parse_len(b)).skip(B::parse_len(b.skip(A::parse_len(b)))).skip(C::parse_len(b.skip(A::parse_len(b)).skip(B::parse_len(b.skip(A::parse_len(b)))))))))))).skip(G::parse_len(b.skip(A::parse_len(b)).skip(B::parse_len(b.skip(A::parse_len(b)))).skip(C::parse_len(b.skip(A::parse_len(b)).skip(B::parse_len(b.skip(A::parse_len(b)))))).skip(D::parse_len(b.skip(A::parse_len(b)).skip(B::parse_len(b.skip(A::parse_len(b)))).skip(C::parse_len(b.skip(A::parse_len(b)).skip(B::parse_len(b.skip(A::parse_len(b)))))))).skip(E::parse_len(b.skip(A::parse_len(b)).skip(B::parse_len(b.skip(A::parse_len(b)))).skip(C::parse_len(b.skip(A::parse_len(b)).skip(B::parse_len(b.skip(A::parse_len(b)))))).skip(D::parse_len(b.skip(A::parse_len(b)).skip(B::parse_len(b.skip(A::parse_len(b)))).skip(C::parse_len(b.skip(A::parse_len(b)).skip(B::parse_len(b.skip(A::parse_len(b)))))))))).skip(F::parse_len(b.skip(A::parse_len(b)).skip(B::parse_len(b.skip(A::parse_len(b)))).skip(C::parse_len(b.skip(A::parse_len(b)).skip(B::parse_len(b.skip(A::parse_len(b)))))).skip(D::parse_len(b.skip(A::parse_len(b)).skip(B::parse_len(b.skip(A::parse_len(b)))).skip(C::parse_len(b.skip(A::parse_len(b)).skip(B::parse_len(b.skip(A::parse_len(b)))))))).skip(E::parse_len(b.skip(A::parse_len(b)).skip(B::parse_len(b.skip(A::parse_len(b)))).skip(C::parse_len(b.skip(A::parse_len(b)).skip(B::parse_len(b.skip(A::parse_len(b)))))).skip(D::parse_len(b.skip(A::parse_len(b)).skip(B::parse_len(b.skip(A::parse_len(b)))).skip(C::parse_len(b.skip(A::parse_len(b)).skip(B::parse_len(b.skip(A::parse_len(b))))))))))))))))) {
            exists|inner: DecodeError| #[trigger] I::fail_spec(b.skip(A::parse_len(b)).skip(B::parse_len(b.skip(A::parse_len(b)))).skip(C::parse_len(b.skip(A::parse_len(b)).skip(B::parse_len(b.skip(A::parse_len(b)))))).skip(D::parse_len(b.skip(A::parse_len(b)).skip(B::parse_len(b.skip(A::parse_len(b)))).skip(C::parse_len(b.skip(A::parse_len(b)).skip(B::parse_len(b.skip(A::parse_len(b)))))))).skip(E::parse_len(b.skip(A::parse_len(b)).skip(B::parse_len(b.skip(A::parse_len(b)))).skip(C::parse_len(b.skip(A::parse_len(b)).skip(B::parse_len(b.skip(A::parse_len(b)))))).skip(D::parse_len(b.skip(A::parse_len(b)).skip(B::parse_len(b.skip(A::parse_len(b)))).skip(C::parse_len(b.skip(A::parse_len(b)).skip(B::parse_len(b.skip(A::parse_len(b)))))))))).skip(F::parse_len(b.skip(A::parse_len(b)).skip(B::parse_len(b.skip(A::parse_len(b)))).skip(C::parse_len(b.skip(A::parse_len(b)).skip(B::parse_len(b.skip(A::parse_len(b)))))).skip(D::parse_len(b.skip(A::parse_len(b)).skip(B::parse_len(b.skip(A::parse_len(b)))).skip(C::parse_len(b.skip(A::parse_len(b)).skip(B::parse_len(b.skip(A::parse_len(b)))))))).skip(E::parse_len(b.skip(A::parse_len(b)).skip(B::parse_len(b.skip(A::parse_len(b)))).skip(C::parse_len(b.skip(A::parse_len(b)).skip(B::parse_len(b.skip(A::parse_len(b)))))).skip(D::parse_len(b.skip(A::parse_len(b)).skip(B::parse_len(b.skip(A::parse_len(b)))).skip(C::parse_len(b.skip(A::parse_len(b)).skip(B::parse_len(b.skip(A::parse_len(b)))))))))))).skip(G::parse_len(b.skip(A::parse_len(b)).skip(B::parse_len(b.skip(A::parse_len(b)))).skip(C::parse_len(b.skip(A::parse_len(b)).skip(B::parse_len(b.skip(A::parse_len(b)))))).skip(D::parse_len(b.skip(A::parse_len(b)).skip(B::parse_len(b.skip(A::parse_len(b)))).skip(C::parse_len(b.skip(A::parse_len(b)).skip(B::parse_len(b.skip(A::parse_len(b)))))))).skip(E::parse_len(b.skip(A::parse_len(b)).skip(B::parse_len(b.skip(A::parse_len(b)))).skip(C::parse_len(b.skip(A::parse_len(b)).skip(B::parse_len(b.skip(A::parse_len(b)))))).skip(D::parse_len(b.skip(A::parse_len(b)).skip(B::parse_len(b.skip(A::parse_len(b)))).skip(C::parse_len(b.skip(A::parse_len(b)).skip(B::parse_len(b.skip(A::parse_len(b)))))))))).skip(F::parse_len(b.skip(A::parse_len(b)).skip(B::parse_len(b.skip(A::parse_len(b)))).skip(C::parse_len(b.skip(A::parse_len(b)).skip(B::parse_len(b.skip(A::parse_len(b)))))).skip(D::parse_len(b.skip(A::parse_len(b)).skip(B::parse_len(b.skip(A::parse_len(b)))).skip(C::parse_len(b.skip(A::parse_len(b)).skip(B::parse_len(b.skip(A::parse_len(b)))))))).skip(E::parse_len(b.skip(A::parse_len(b)).skip(B::parse_len(b.skip(A::parse_len(b)))).skip(C::parse_len(b.skip(A::parse_len(b)).skip(B::parse_len(b.skip(A::parse_len(b)))))).skip(D::parse_len(b.skip(A::parse_len(b)).skip(B::parse_len(b.skip(A::parse_len(b)))).skip(C::parse_len(b.skip(A::parse_len(b)).skip(B::parse_len(b.skip(A::parse_len(b)))))))))))))).skip(H::parse_len(b.skip(A::parse_len(b)).skip(B::parse_len(b.skip(A::parse_len(b)))).skip(C::parse_len(b.skip(A::parse_len(b)).skip(B::parse_len(b.skip(A::parse_len(b)))))).skip(D::parse_len(b.skip(A::parse_len(b)).skip(B::parse_len(b.skip(A::parse_len(b)))).skip(C::parse_len(b.skip(A::parse_len(b)).skip(B::parse_len(b.skip(A::parse_len(b)))))))).skip(E::parse_len(b.skip(A::parse_len(b)).skip(B::parse_len(b.skip(A::parse_len(b)))).skip(C::parse_len(b.skip(A::parse_len(b)).skip(B::parse_len(b.skip(A::parse_len(b)))))).skip(D::parse_len(b.skip(A::parse_len(b)).skip(B::parse_len(b.skip(A::parse_len(b)))).skip(C::parse_len(b.skip(A::parse_len(b)).skip(B::parse_len(b.skip(A::parse_len(b)))))))))).skip(F::parse_len(b.skip(A::parse_len(b)).skip(B::parse_len(b.skip(A::parse_len(b)))).skip(C::parse_len(b.skip(A::parse_len(b)).skip(B::parse_len(b.skip(A::parse_len(b)))))).skip(D::parse_len(b.skip(A::parse_len(b)).skip(B::parse_len(b.skip(A::parse_len(b)))).skip(C::parse_len(b.skip(A::parse_len(b)).skip(B::parse_len(b.skip(A::parse_len(b)))))))).skip(E::parse_len(b.skip(A::parse_len(b)).skip(B::parse_len(b.skip(A::parse_len(b)))).skip(C::parse_len(b.skip(A::parse_len(b)).skip(B::parse_len(b.skip(A::parse_len(b)))))).skip(D::parse_len(b.skip(A::parse_len(b)).skip(B::parse_len(b.skip(A::parse_len(b)))).skip(C::parse_len(b.skip(A::parse_len(b)).skip(B::parse_len(b.skip(A::parse_len(b)))))))))))).skip(G::parse_len(b.skip(A::parse_len(b)).skip(B::parse_len(b.skip(A::parse_len(b)))).skip(C::parse_len(b.skip(A::parse_len(b)).skip(B::parse_len(b.skip(A::parse_len(b)))))).skip(D::parse_len(b.skip(A::parse_len(b)).skip(B::parse_len(b.skip(A::parse_len(b)))).skip(C::parse_len(b.skip(A::parse_len(b)).skip(B::parse_len(b.skip(A::parse_len(b)))))))).skip(E::parse_len(b.skip(A::parse_len(b)).skip(B::parse_len(b.skip(A::parse_len(b)))).skip(C::parse_len(b.skip(A::parse_len(b)).skip(B::parse_len(b.skip(A::parse_len(b)))))).skip(D::parse_len(b.skip(A::parse_len(b)).skip(B::parse_len(b.skip(A::parse_len(b)))).skip(C::parse_len(b.skip(A::parse_len(b)).skip(B::parse_len(b.skip(A::parse_len(b)))))))))).skip(F::parse_len(b.skip(A::parse_len(b)).skip(B::parse_len(b.skip(A::parse_len(b)))).skip(C::parse_len(b.skip(A::parse_len(b)).skip(B::parse_len(b.skip(A::parse_len(b)))))).skip(D::parse_len(b.skip(A::parse_len(b)).skip(B::parse_len(b.skip(A::parse_len(b)))).skip(C::parse_len(b.skip(A::parse_len(b)).skip(B::parse_len(b.skip(A::parse_len(b)))))))).skip(E::parse_len(b.skip(A::parse_len(b)).skip(B::parse_len(b.skip(A::parse_len(b)))).skip(C::parse_len(b.skip(A::parse_len(b)).skip(B::parse_len(b.skip(A::parse_len(b)))))).skip(D::parse_len(b.skip(A::parse_len(b)).skip(B::parse_len(b.skip(A::parse_len(b)))).skip(C::parse_len(b.skip(A::parse_len(b)).skip(B::parse_len(b.skip(A::parse_len(b)))))))))))))))), inner) && wrapped_err(9, inner, e)
        } else {
            true
        }
    }

    fn from_kv_key<'a>(decoder: &mut KeyDecoder<'a>) -> (r: Result<Self, DecodeError>) {
        let ghost rem0 = decoder.remaining();
        let v0 = match A::from_kv_key(decoder) {
            Ok(v) => v,
            Err(inner) => {
                let e = wrap_component_err("1", inner);
                proof {
                    let b = old(decoder).remaining();
                    assert(A::fail_spec(b, inner) && wrapped_err(1, inner, e));
                    assert(Self::fail_spec(b, e));
                }
                return Err(e);
            },
        };
        let ghost rem1 = decoder.remaining();
        let v1 = match B::from_kv_key(decoder) {
            Ok(v) => v,
            Err(inner) => {
                let e = wrap_component_err("2", inner);
                proof {
                    let b = old(decoder).remaining();
                    assert(rem1 == b.skip(A::parse_len(b)));
                    assert(B::fail_spec(b.skip(A::parse_len(b)), inner) && wrapped_err(2, inner, e));
                    assert(Self::fail_spec(b, e));
                }
                return Err(e);
            },
        };
        let ghost rem2 = decoder.remaining();
        let v2 = match C::from_kv_key(decoder) {
            Ok(v) => v,
            Err(inner) => {
                let e = wrap_component_err("3", inner);
                proof {
                    let b = old(decoder).remaining();
                    assert(rem1 == b.skip(A::parse_len(b)));
                    assert(rem2 == b.skip(A::parse_len(b)).skip(B::parse_len(b.skip(A::parse_len(b)))));
                    assert(C::fail_spec(b.skip(A::parse_len(b)).skip(B::parse_len(b.skip(A::parse_len(b)))), inner) && wrapped_err(3, inner, e));
                    assert(Self::fail_spec(b, e));
                }
                return Err(e);
            },
        };
        let ghost rem3 = decoder.remaining();
        let v3 = match D::from_kv_key(decoder) {
            Ok(v) => v,
            Err(inner) => {
                let e = wrap_component_err("4", inner);
                proof {
                    let b = old(decoder).remaining();
                    assert(rem1 == b.skip(A::parse_len(b)));
                    assert(rem2 == b.skip(A::parse_len(b)).skip(B::parse_len(b.skip(A::parse_len(b)))));
                    assert(rem3 == b.skip(A::parse_len(b)).skip(B::parse_len(b.skip(A::parse_len(b)))).skip(C::parse_len(b.skip(A::parse_len(b)).skip(B::parse_len(b.skip(A::parse_len(b)))))));
                    assert(D::fail_spec(b.skip(A::parse_len(b)).skip(B::parse_len(b.skip(A::parse_len(b)))).skip(C::parse_len(b.skip(A::parse_len(b)).skip(B::parse_len(b.skip(A::parse_len(b)))))), inner) && wrapped_err(4, inner, e));
                    assert(Self::fail_spec(b, e));
                }
                return Err(e);
            },
        };
        let ghost rem4 = decoder.remaining();
        let v4 = match E::from_kv_key(decoder) {
            Ok(v) => v,
            Err(inner) => {
                let e = wrap_component_err("5", inner);
                proof {
                    let b = old(decoder).remaining();
                    assert(rem1 == b.skip(A::parse_len(b)));
                    assert(rem2 == b.skip(A::parse_len(b)).skip(B::parse_len(b.skip(A::parse_len(b)))));
                    assert(rem3 == b.skip(A::parse_len(b)).skip(B::parse_len(b.skip(A::parse_len(b)))).skip(C::parse_len(b.skip(A::parse_len(b)).skip(B::parse_len(b.skip(A::parse_len(b)))))));
                    assert(rem4 == b.skip(A::parse_len(b)).skip(B::parse_len(b.skip(A::parse_len(b)))).skip(C::parse_len(b.skip(A::parse_len(b)).skip(B::parse_len(b.skip(A::parse_len(b)))))).skip(D::parse_len(b.skip(A::parse_len(b)).skip(B::parse_len(b.skip(A::parse_len(b)))).skip(C::parse_len(b.skip(A::parse_len(b)).skip(B::parse_len(b.skip(A::parse_len(b)))))))));
                    assert(E::fail_spec(b.skip(A::parse_len(b)).skip(B::parse_len(b.skip(A::parse_len(b)))).skip(C::parse_len(b.skip(A::parse_len(b)).skip(B::parse_len(b.skip(A::parse_len(b)))))).skip(D::parse_len(b.skip(A::parse_len(b)).skip(B::parse_len(b.skip(A::parse_len(b)))).skip(C::parse_len(b.skip(A::parse_len(b)).skip(B::parse_len(b.skip(A::parse_len(b)))))))), inner) && wrapped_err(5, inner, e));
                    assert(Self::fail_spec(b, e));
                }
                return Err(e);
            },
        };
        let ghost rem5 = decoder.remaining();
        let v5 = match F::from_kv_key(decoder) {
            Ok(v) => v,
            Err(inner) => {
                let e = wrap_component_err("6", inner);
                proof {
                    let b = old(decoder).remaining();
                    assert(rem1 == b.skip(A::parse_len(b)));
                    assert(rem2 == b.skip(A::parse_len(b)).skip(B::parse_len(b.skip(A::parse_len(b)))));
                    assert(rem3 == b.skip(A::parse_len(b)).skip(B::parse_len(b.skip(A::parse_len(b)))).skip(C::parse_len(b.skip(A::parse_len(b)).skip(B::parse_len(b.skip(A::parse_len(b)))))));
                    assert(rem4 == b.skip(A::parse_len(b)).skip(B::parse_len(b.skip(A::parse_len(b)))).skip(C::parse_len(b.skip(A::parse_len(b)).skip(B::parse_len(b.skip(A::parse_len(b)))))).skip(D::parse_len(b.skip(A::parse_len(b)).skip(B::parse_len(b.skip(A::parse_len(b)))).skip(C::parse_len(b.skip(A::parse_len(b)).skip(B::parse_len(b.skip(A::parse_len(b)))))))));
                    assert(rem5 == b.skip(A::parse_len(b)).skip(B::parse_len(b.skip(A::parse_len(b)))).skip(C::parse_len(b.skip(A::parse_len(b)).skip(B::parse_len(b.skip(A::parse_len(b)))))).skip(D::parse_len(b.skip(A::parse_len(b)).skip(B::parse_len(b.skip(A::parse_len(b)))).skip(C::parse_len(b.skip(A::parse_len(b)).skip(B::parse_len(b.skip(A::parse_len(b)))))))).skip(E::parse_len(b.skip(A::parse_len(b)).skip(B::parse_len(b.skip(A::parse_len(b)))).skip(C::parse_len(b.skip(A::parse_len(b)).skip(B::parse_len(b.skip(A::parse_len(b)))))).skip(D::parse_len(b.skip(A::parse_len(b)).skip(B::parse_len(b.skip(A::parse_len(b)))).skip(C::parse_len(b.skip(A::parse_len(b)).skip(B::parse_len(b.skip(A::parse_len(b)))))))))));
                    assert(F::fail_spec(b.skip(A::parse_len(b)).skip(B::parse_len(b.skip(A::parse_len(b)))).skip(C::parse_len(b.skip(A::parse_len(b)).skip(B::parse_len(b.skip(A::parse_len(b)))))).skip(D::parse_len(b.skip(A::parse_len(b)).skip(B::parse_len(b.skip(A::parse_len(b)))).skip(C::parse_len(b.skip(A::parse_len(b)).skip(B::parse_len(b.skip(A::parse_len(b)))))))).skip(E::parse_len(b.skip(A::parse_len(b)).skip(B::parse_len(b.skip(A::parse_len(b)))).skip(C::parse_len(b.skip(A::parse_len(b)).skip(B::parse_len(b.skip(A::parse_len(b)))))).skip(D::parse_len(b.skip(A::parse_len(b)).skip(B::parse_len(b.skip(A::parse_len(b)))).skip(C::parse_len(b.skip(A::parse_len(b)).skip(B::parse_len(b.skip(A::parse_len(b)))))))))), inner) && wrapped_err(6, inner, e));
                    assert(Self::fail_spec(b, e));
                }
                return Err(e);
            },
        };
        let ghost rem6 = decoder.remaining();
        let v6 = match G::from_kv_key(decoder) {
            Ok(v) => v,
            Err(inner) => {
                let e = wrap_component_err("7", inner);
                proof {
                    let b = old(decoder).remaining();
                    assert(rem1 == b.skip(A::parse_len(b)));
                    assert(rem2 == b.skip(A::parse_len(b)).skip(B::parse_len(b.skip(A::parse_len(b)))));
                    assert(rem3 == b.skip(A::parse_len(b)).skip(B::parse_len(b.skip(A::parse_len(b)))).skip(C::parse_len(b.skip(A::parse_len(b)).skip(B::parse_len(b.skip(A::parse_len(b)))))));
                    assert(rem4 == b.skip(A::parse_len(b)).skip(B::parse_len(b.skip(A::parse_len(b)))).skip(C::parse_len(b.skip(A::parse_len(b)).skip(B::parse_len(b.skip(A::parse_len(b)))))).skip(D::parse_len(b.skip(A::parse_len(b)).skip(B::parse_len(b.skip(A::parse_len(b)))).skip(C::parse_len(b.skip(A::parse_len(b)).skip(B::parse_len(b.skip(A::parse_len(b)))))))));
                    assert(rem5 == b.skip(A::parse_len(b)).skip(B::parse_len(b.skip(A::parse_len(b)))).skip(C::parse_len(b.skip(A::parse_len(b)).skip(B::parse_len(b.skip(A::parse_len(b)))))).skip(D::parse_len(b.skip(A::parse_len(b)).skip(B::parse_len(b.skip(A::parse_len(b)))).skip(C::parse_len(b.skip(A::parse_len(b)).skip(B::parse_len(b.skip(A::parse_len(b)))))))).skip(E::parse_len(b.skip(A::parse_len(b)).skip(B::parse_len(b.skip(A::parse_len(b)))).skip(C::parse_len(b.skip(A::parse_len(b)).skip(B::parse_len(b.skip(A::parse_len(b)))))).skip(D::parse_len(b.skip(A::parse_len(b)).skip(B::parse_len(b.skip(A::parse_len(b)))).skip(C::parse_len(b.skip(A::parse_len(b)).skip(B::parse_len(b.skip(A::parse_len(b)))))))))));
                    assert(rem6 == b.skip(A::parse_len(b)).skip(B::parse_len(b.skip(A::parse_len(b)))).skip(C::parse_len(b.skip(A::parse_len(b)).skip(B::parse_len(b.skip(A::parse_len(b)))))).skip(D::parse_len(b.skip(A::parse_len(b)).skip(B::parse_len(b.skip(A::parse_len(b)))).skip(C::parse_len(b.skip(A::parse_len(b)).skip(B::parse_len(b.skip(A::parse_len(b)))))))).skip(E::parse_len(b.skip(A::parse_len(b)).skip(B::parse_len(b.skip(A::parse_len(b)))).skip(C::parse_len(b.skip(A::parse_len(b)).skip(B::parse_len(b.skip(A::parse_len(b)))))).skip(D::parse_len(b.skip(A::parse_len(b)).skip(B::parse_len(b.skip(A::parse_len(b)))).skip(C::parse_len(b.skip(A::parse_len(b)).skip(B::parse_len(b.skip(A::parse_len(b)))))))))).skip(F::parse_len(b.skip(A::parse_len(b)).skip(B::parse_len(b.skip(A::parse_len(b)))).skip(C::parse_len(b.skip(A::parse_len(b)).skip(B::parse_len(b.skip(A::parse_len(b)))))).skip(D::parse_len(b.skip(A::parse_len(b)).skip(B::parse_len(b.skip(A::parse_len(b)))).skip(C::parse_len(b.skip(A::parse_len(b)).skip(B::parse_len(b.skip(A::parse_len(b)))))))).skip(E::parse_len(b.skip(A::parse_len(b)).skip(B::parse_len(b.skip(A::parse_len(b)))).skip(C::parse_len(b.skip(A::parse_len(b)).skip(B::parse_len(b.skip(A::parse_len(b)))))).skip(D::parse_len(b.skip(A::parse_len(b)).skip(B::parse_len(b.skip(A::parse_len(b)))).skip(C::parse_len(b.skip(A::parse_len(b)).skip(B::parse_len(b.skip(A::parse_len(b)))))))))))));
                    assert(G::fail_spec(b.skip(A::parse_len(b)).skip(B::parse_len(b.skip(A::parse_len(b)))).skip(C::parse_len(b.skip(A::parse_len(b)).skip(B::parse_len(b.skip(A::parse_len(b)))))).skip(D::parse_len(b.skip(A::parse_len(b)).skip(B::parse_len(b.skip(A::parse_len(b)))).skip(C::parse_len(b.skip(A::parse_len(b)).skip(B::parse_len(b.skip(A::parse_len(b)))))))).skip(E::parse_len(b.skip(A::parse_len(b)).skip(B::parse_len(b.skip(A::parse_len(b)))).skip(C::parse_len(b.skip(A::parse_len(b)).skip(B::parse_len(b.skip(A::parse_len(b)))))).skip(D::parse_len(b.skip(A::parse_len(b)).skip(B::parse_len(b.skip(A::parse_len(b)))).skip(C::parse_len(b.skip(A::parse_len(b)).skip(B::parse_len(b.skip(A::parse_len(b)))))))))).skip(F::parse_len(b.skip(A::parse_len(b)).skip(B::parse_len(b.skip(A::parse_len(b)))).skip(C::parse_len(b.skip(A::parse_len(b)).skip(B::parse_len(b.skip(A::parse_len(b)))))).skip(D::parse_len(b.skip(A::parse_len(b)).skip(B::parse_len(b.skip(A::parse_len(b)))).skip(C::parse_len(b.skip(A::parse_len(b)).skip(B::parse_len(b.skip(A::parse_len(b)))))))).skip(E::parse_len(b.skip(A::parse_len(b)).skip(B::parse_len(b.skip(A::parse_len(b)))).skip(C::parse_len(b.skip(A::parse_len(b)).skip(B::parse_len(b.skip(A::parse_len(b)))))).skip(D::parse_len(b.skip(A::parse_len(b)).skip(B::parse_len(b.skip(A::parse_len(b)))).skip(C::parse_len(b.skip(A::parse_len(b)).skip(B::parse_len(b.skip(A::parse_len(b)))))))))))), inner) && wrapped_err(7, inner, e));
                    assert(Self::fail_spec(b, e));
                }
                return Err(e);
            },
        };
        let ghost rem7 = decoder.remaining();
        let v7 = match H::from_kv_key(decoder) {
            Ok(v) => v,
            Err(inner) => {
                let e = wrap_component_err("8", inner);
                proof {
                    let b = old(decoder).remaining();
                    assert(rem1 == b.skip(A::parse_len(b)));
                    assert(rem2 == b.skip(A::parse_len(b)).skip(B::parse_len(b.skip(A::parse_len(b)))));
                    assert(rem3 == b.skip(A::parse_len(b)).skip(B::parse_len(b.skip(A::parse_len(b)))).skip(C::parse_len(b.skip(A::parse_len(b)).skip(B::parse_len(b.skip(A::parse_len(b)))))));
                    assert(rem4 == b.skip(A::parse_len(b)).skip(B::parse_len(b.skip(A::parse_len(b)))).skip(C::parse_len(b.skip(A::parse_len(b)).skip(B::parse_len(b.skip(A::parse_len(b)))))).skip(D::parse_len(b.skip(A::parse_len(b)).skip(B::parse_len(b.skip(A::parse_len(b)))).skip(C::parse_len(b.skip(A::parse_len(b)).skip(B::parse_len(b.skip(A::parse_len(b)))))))));
                    assert(rem5 == b.skip(A::parse_len(b)).skip(B::parse_len(b.skip(A::parse_len(b)))).skip(C::parse_len(b.skip(A::parse_len(b)).skip(B::parse_len(b.skip(A::parse_len(b)))))).skip(D::parse_len(b.skip(A::parse_len(b)).skip(B::parse_len(b.skip(A::parse_len(b)))).skip(C::parse_len(b.skip(A::parse_len(b)).skip(B::parse_len(b.skip(A::parse_len(b)))))))).skip(E::parse_len(b.skip(A::parse_len(b)).skip(B::parse_len(b.skip(A::parse_len(b)))).skip(C::parse_len(b.skip(A::parse_len(b)).skip(B::parse_len(b.skip(A::parse_len(b)))))).skip(D::parse_len(b.skip(A::parse_len(b)).skip(B::parse_len(b.skip(A::parse_len(b)))).skip(C::parse_len(b.skip(A::parse_len(b)).skip(B::parse_len(b.skip(A::parse_len(b)))))))))));
                    assert(rem6 == b.skip(A::parse_len(b)).skip(B::parse_len(b.skip(A::parse_len(b)))).skip(C::parse_len(b.skip(A::parse_len(b)).skip(B::parse_len(b.skip(A::parse_len(b)))))).skip(D::parse_len(b.skip(A::parse_len(b)).skip(B::parse_len(b.skip(A::parse_len(b)))).skip(C::parse_len(b.skip(A::parse_len(b)).skip(B::parse_len(b.skip(A::parse_len(b)))))))).skip(E::parse_len(b.skip(A::parse_len(b)).skip(B::parse_len(b.skip(A::parse_len(b)))).skip(C::parse_len(b.skip(A::parse_len(b)).skip(B::parse_len(b.skip(A::parse_len(b)))))).skip(D::parse_len(b.skip(A::parse_len(b)).skip(B::parse_len(b.skip(A::parse_len(b)))).skip(C::parse_len(b.skip(A::parse_len(b)).skip(B::parse_len(b.skip(A::parse_len(b)))))))))).skip(F::parse_len(b.skip(A::parse_len(b)).skip(B::parse_len(b.skip(A::parse_len(b)))).skip(C::parse_len(b.skip(A::parse_len(b)).skip(B::parse_len(b.skip(A::parse_len(b)))))).skip(D::parse_len(b.skip(A::parse_len(b)).skip(B::parse_len(b.skip(A::parse_len(b)))).skip(C::parse_len(b.skip(A::parse_len(b)).skip(B::parse_len(b.skip(A::parse_len(b)))))))).skip(E::parse_len(b.skip(A::parse_len(b)).skip(B::parse_len(b.skip(A::parse_len(b)))).skip(C::parse_len(b.skip(A::parse_len(b)).skip(B::parse_len(b.skip(A::parse_len(b)))))).skip(D::parse_len(b.skip(A::parse_len(b)).skip(B::parse_len(b.skip(A::parse_len(b)))).skip(C::parse_len(b.skip(A::parse_len(b)).skip(B::parse_len(b.skip(A::parse_len(b)))))))))))));
                    assert(rem7 == b.skip(A::parse_len(b)).skip(B::parse_len(b.skip(A::parse_len(b)))).skip(C::parse_len(b.skip(A::parse_len(b)).skip(B::parse_len(b.skip(A::parse_len(b)))))).skip(D::parse_len(b.skip(A::parse_len(b)).skip(B::parse_len(b.skip(A::parse_len(b)))).skip(C::parse_len(b.skip(A::parse_len(b)).skip(B::parse_len(b.skip(A::parse_len(b)))))))).skip(E::parse_len(b.skip(A::parse_len(b)).skip(B::parse_len(b.skip(A::parse_len(b)))).skip(C::parse_len(b.skip(A::parse_len(b)).skip(B::parse_len(b.skip(A::parse_len(b)))))).skip(D::parse_len(b.skip(A::parse_len(b)).skip(B::parse_len(b.skip(A::parse_len(b)))).skip(C::parse_len(b.skip(A::parse_len(b)).skip(B::parse_len(b.skip(A::parse_len(b)))))))))).skip(F::parse_len(b.skip(A::parse_len(b)).skip(B::parse_len(b.skip(A::parse_len(b)))).skip(C::parse_len(b.skip(A::parse_len(b)).skip(B::parse_len(b.skip(A::parse_len(b)))))).skip(D::parse_len(b.skip(A::parse_len(b)).skip(B::parse_len(b.skip(A::parse_len(b)))).skip(C::parse_len(b.skip(A::parse_len(b)).skip(B::parse_len(b.skip(A::parse_len(b)))))))).skip(E::parse_len(b.skip(A::parse_len(b)).skip(B::parse_len(b.skip(A::parse_len(b)))).skip(C::parse_len(b.skip(A::parse_len(b)).skip(B::parse_len(b.skip(A::parse_len(b)))))).skip(D::parse_len(b.skip(A::parse_len(b)).skip(B::parse_len(b.skip(A::parse_len(b)))).skip(C::parse_len(b.skip(A::parse_len(b)).skip(B::parse_len(b.skip(A::parse_len(b)))))))))))).skip(G::parse_len(b.skip(A::parse_len(b)).skip(B::parse_len(b.skip(A::parse_len(b)))).skip(C::parse_len(b.skip(A::parse_len(b)).skip(B::parse_len(b.skip(A::parse_len(b)))))).skip(D::parse_len(b.skip(A::parse_len(b)).skip(B::parse_len(b.skip(A::parse_len(b)))).skip(C::parse_len(b.skip(A::parse_len(b)).skip(B::parse_len(b.skip(A::parse_len(b)))))))).skip(E::parse_len(b.skip(A::parse_len(b)).skip(B::parse_len(b.skip(A::parse_len(b)))).skip(C::parse_len(b.skip(A::parse_len(b)).skip(B::parse_len(b.skip(A::parse_len(b)))))).skip(D::parse_len(b.skip(A::parse_len(b)).skip(B::parse_len(b.skip(A::parse_len(b)))).skip(C::parse_len(b.skip(A::parse_len(b)).skip(B::parse_len(b.skip(A::parse_len(b)))))))))).skip(F::parse_len(b.skip(A::parse_len(b)).skip(B::parse_len(b.skip(A::parse_len(b)))).skip(C::parse_len(b.skip(A::parse_len(b)).skip(B::parse_len(b.skip(A::parse_len(b)))))).skip(D::parse_len(b.skip(A::parse_len(b)).skip(B::parse_len(b.skip(A::parse_len(b)))).skip(C::parse_len(b.skip(A::parse_len(b)).skip(B::parse_len(b.skip(A::parse_len(b)))))))).skip(E::parse_len(b.skip(A::parse_len(b)).skip(B::parse_len(b.skip(A::parse_len(b)))).skip(C::parse_len(b.skip(A::parse_len(b)).skip(B::parse_len(b.skip(A::parse_len(b)))))).skip(D::parse_len(b.skip(A::parse_len(b)).skip(B::parse_len(b.skip(A::parse_len(b)))).skip(C::parse_len(b.skip(A::parse_len(b)).skip(B::parse_len(b.skip(A::parse_len(b)))))))))))))));
                    assert(H::fail_spec(b.skip(A::parse_len(b)).skip(B::parse_len(b.skip(A::parse_len(b)))).skip(C::parse_len(b.skip(A::parse_len(b)).skip(B::parse_len(b.skip(A::parse_len(b)))))).skip(D::parse_len(b.skip(A::parse_len(b)).skip(B::parse_len(b.skip(A::parse_len(b)))).skip(C::parse_len(b.skip(A::parse_len(b)).skip(B::parse_len(b.skip(A::parse_len(b)))))))).skip(E::parse_len(b.skip(A::parse_len(b)).skip(B::parse_len(b.skip(A::parse_len(b)))).skip(C::parse_len(b.skip(A::parse_len(b)).skip(B::parse_len(b.skip(A::parse_len(b)))))).skip(D::parse_len(b.skip(A::parse_len(b)).skip(B::parse_len(b.skip(A::parse_len(b)))).skip(C::parse_len(b.skip(A::parse_len(b)).skip(B::parse_len(b.skip(A::parse_len(b)))))))))).skip(F::parse_len(b.skip(A::parse_len(b)).skip(B::parse_len(b.skip(A::parse_len(b)))).skip(C::parse_len(b.skip(A::parse_len(b)).skip(B::parse_len(b.skip(A::parse_len(b)))))).skip(D::parse_len(b.skip(A::parse_len(b)).skip(B::parse_len(b.skip(A::parse_len(b)))).skip(C::parse_len(b.skip(A::parse_len(b)).skip(B::parse_len(b.skip(A::parse_len(b)))))))).skip(E::parse_len(b.skip(A::parse_len(b)).skip(B::parse_len(b.skip(A::parse_len(b)))).skip(C::parse_len(b.skip(A::parse_len(b)).skip(B::parse_len(b.skip(A::parse_len(b)))))).skip(D::parse_len(b.skip(A::parse_len(b)).skip(B::parse_len(b.skip(A::parse_len(b)))).skip(C::parse_len(b.skip(A::parse_len(b)).skip(B::parse_len(b.skip(A::parse_len(b)))))))))))).skip(G::parse_len(b.skip(A::parse_len(b)).skip(B::parse_len(b.skip(A::parse_len(b)))).skip(C::parse_len(b.skip(A::parse_len(b)).skip(B::parse_len(b.skip(A::parse_len(b)))))).skip(D::parse_len(b.skip(A::parse_len(b)).skip(B::parse_len(b.skip(A::parse_len(b)))).skip(C::parse_len(b.skip(A::parse_len(b)).skip(B::parse_len(b.skip(A::parse_len(b)))))))).skip(E::parse_len(b.skip(A::parse_len(b)).skip(B::parse_len(b.skip(A::parse_len(b)))).skip(C::parse_len(b.skip(A::parse_len(b)).skip(B::parse_len(b.skip(A::parse_len(b)))))).skip(D::parse_len(b.skip(A::parse_len(b)).skip(B::parse_len(b.skip(A::parse_len(b)))).skip(C::parse_len(b.skip(A::parse_len(b)).skip(B::parse_len(b.skip(A::parse_len(b)))))))))).skip(F::parse_len(b.skip(A::parse_len(b)).skip(B::parse_len(b.skip(A::parse_len(b)))).skip(C::parse_len(b.skip(A::parse_len(b)).skip(B::parse_len(b.skip(A::parse_len(b)))))).skip(D::parse_len(b.skip(A::parse_len(b)).skip(B::parse_len(b.skip(A::parse_len(b)))).skip(C::parse_len(b.skip(A::parse_len(b)).skip(B::parse_len(b.skip(A::parse_len(b)))))))).skip(E::parse_len(b.skip(A::parse_len(b)).skip(B::parse_len(b.skip(A::parse_len(b)))).skip(C::parse_len(b.skip(A::parse_len(b)).skip(B::parse_len(b.skip(A::parse_len(b)))))).skip(D::parse_len(b.skip(A::parse_len(b)).skip(B::parse_len(b.skip(A::parse_len(b)))).skip(C::parse_len(b.skip(A::parse_len(b)).skip(B::parse_len(b.skip(A::parse_len(b)))))))))))))), inner) && wrapped_err(8, inner, e));
                    assert(Self::fail_spec(b, e));
                }
                return Err(e);
            },
        };
        let ghost rem8 = decoder.remaining();
        let v8 = match I::from_kv_key(decoder) {
            Ok(v) => v,
            Err(inner) => {
                let e = wrap_component_err("9", inner);
                proof {
                    let b = old(decoder).remaining();
                    assert(rem1 == b.skip(A::parse_len(b)));
                    assert(rem2 == b.skip(A::parse_len(b)).skip(B::parse_len(b.skip(A::parse_len(b)))));
                    assert(rem3 == b.skip(A::parse_len(b)).skip(B::parse_len(b.skip(A::parse_len(b)))).skip(C::parse_len(b.skip(A::parse_len(b)).skip(B::parse_len(b.skip(A::parse_len(b)))))));
                    assert(rem4 == b.skip(A::parse_len(b)).skip(B::parse_len(b.skip(A::parse_len(b)))).skip(C::parse_len(b.skip(A::parse_len(b)).skip(B::parse_len(b.skip(A::parse_len(b)))))).skip(D::parse_len(b.skip(A::parse_len(b)).skip(B::parse_len(b.skip(A::parse_len(b)))).skip(C::parse_len(b.skip(A::parse_len(b)).skip(B::parse_len(b.skip(A::parse_len(b)))))))));
                    assert(rem5 == b.skip(A::parse_len(b)).skip(B::parse_len(b.skip(A::parse_len(b)))).skip(C::parse_len(b.skip(A::parse_len(b)).skip(B::parse_len(b.skip(A::parse_len(b)))))).skip(D::parse_len(b.skip(A::parse_len(b)).skip(B::parse_len(b.skip(A::parse_len(b)))).skip(C::parse_len(b.skip(A::parse_len(b)).skip(B::parse_len(b.skip(A::parse_len(b)))))))).skip(E::parse_len(b.skip(A::parse_len(b)).skip(B::parse_len(b.skip(A::parse_len(b)))).skip(C::parse_len(b.skip(A::parse_len(b)).skip(B::parse_len(b.skip(A::parse_len(b)))))).skip(D::parse_len(b.skip(A::parse_len(b)).skip(B::parse_len(b.skip(A::parse_len(b)))).skip(C::parse_len(b.skip(A::parse_len(b)).skip(B::parse_len(b.skip(A::parse_len(b)))))))))));
                    assert(rem6 == b.skip(A::parse_len(b)).skip(B::parse_len(b.skip(A::parse_len(b)))).skip(C::parse_len(b.skip(A::parse_len(b)).skip(B::parse_len(b.skip(A::parse_len(b)))))).skip(D::parse_len(b.skip(A::parse_len(b)).skip(B::parse_len(b.skip(A::parse_len(b)))).skip(C::parse_len(b.skip(A::parse_len(b)).skip(B::parse_len(b.skip(A::parse_len(b)))))))).skip(E::parse_len(b.skip(A::parse_len(b)).skip(B::parse_len(b.skip(A::parse_len(b)))).skip(C::parse_len(b.skip(A::parse_len(b)).skip(B::parse_len(b.skip(A::parse_len(b)))))).skip(D::parse_len(b.skip(A::parse_len(b)).skip(B::parse_len(b.skip(A::parse_len(b)))).skip(C::parse_len(b.skip(A::parse_len(b)).skip(B::parse_len(b.skip(A::parse_len(b)))))))))).skip(F::parse_len(b.skip(A::parse_len(b)).skip(B::parse_len(b.skip(A::parse_len(b)))).skip(C::parse_len(b.skip(A::parse_len(b)).skip(B::parse_len(b.skip(A::parse_len(b)))))).skip(D::parse_len(b.skip(A::parse_len(b)).skip(B::parse_len(b.skip(A::parse_len(b)))).skip(C::parse_len(b.skip(A::parse_len(b)).skip(B::parse_len(b.skip(A::parse_len(b)))))))).skip(E::parse_len(b.skip(A::parse_len(b)).skip(B::parse_len(b.skip(A::parse_len(b)))).skip(C::parse_len(b.skip(A::parse_len(b)).skip(B::parse_len(b.skip(A::parse_len(b)))))).skip(D::parse_len(b.skip(A::parse_len(b)).skip(B::parse_len(b.skip(A::parse_len(b)))).skip(C::parse_len(b.skip(A::parse_len(b)).skip(B::parse_len(b.skip(A::parse_len(b)))))))))))));
                    assert(rem7 == b.skip(A::parse_len(b)).skip(B::parse_len(b.skip(A::parse_len(b)))).skip(C::parse_len(b.skip(A::parse_len(b)).skip(B::parse_len(b.skip(A::parse_len(b)))))).skip(D::parse_len(b.skip(A::parse_len(b)).skip(B::parse_len(b.skip(A::parse_len(b)))).skip(C::parse_len(b.skip(A::parse_len(b)).skip(B::parse_len(b.skip(A::parse_len(b)))))))).skip(E::parse_len(b.skip(A::parse_len(b)).skip(B::parse_len(b.skip(A::parse_len(b)))).skip(C::parse_len(b.skip(A::parse_len(b)).skip(B::parse_len(b.skip(A::parse_len(b)))))).skip(D::parse_len(b.skip(A::parse_len(b)).skip(B::parse_len(b.skip(A::parse_len(b)))).skip(C::parse_len(b.skip(A::parse_len(b)).skip(B::parse_len(b.skip(A::parse_len(b)))))))))).skip(F::parse_len(b.skip(A::parse_len(b)).skip(B::parse_len(b.skip(A::parse_len(b)))).skip(C::parse_len(b.skip(A::parse_len(b)).skip(B::parse_len(b.skip(A::parse_len(b)))))).skip(D::parse_len(b.skip(A::parse_len(b)).skip(B::parse_len(b.skip(A::parse_len(b)))).skip(C::parse_len(b.skip(A::parse_len(b)).skip(B::parse_len(b.skip(A::parse_len(b)))))))).skip(E::parse_len(b.skip(A::parse_len(b)).skip(B::parse_len(b.skip(A::parse_len(b)))).skip(C::parse_len(b.skip(A::parse_len(b)).skip(B::parse_len(b.skip(A::parse_len(b)))))).skip(D::parse_len(b.skip(A::parse_len(b)).skip(B::parse_len(b.skip(A::parse_len(b)))).skip(C::parse_len(b.skip(A::parse_len(b)).skip(B::parse_len(b.skip(A::parse_len(b)))))))))))).skip(G::parse_len(b.skip(A::parse_len(b)).skip(B::parse_len(b.skip(A::parse_len(b)))).skip(C::parse_len(b.skip(A::parse_len(b)).skip(B::parse_len(b.skip(A::parse_len(b)))))).skip(D::parse_len(b.skip(A::parse_len(b)).skip(B::parse_len(b.skip(A::parse_len(b)))).skip(C::parse_len(b.skip(A::parse_len(b)).skip(B::parse_len(b.skip(A::parse_len(b)))))))).skip(E::parse_len(b.skip(A::parse_len(b)).skip(B::parse_len(b.skip(A::parse_len(b)))).skip(C::parse_len(b.skip(A::parse_len(b)).skip(B::parse_len(b.skip(A::parse_len(b)))))).skip(D::parse_len(b.skip(A::parse_len(b)).skip(B::parse_len(b.skip(A::parse_len(b)))).skip(C::parse_len(b.skip(A::parse_len(b)).skip(B::parse_len(b.skip(A::parse_len(b)))))))))).skip(F::parse_len(b.skip(A::parse_len(b)).skip(B::parse_len(b.skip(A::parse_len(b)))).skip(C::parse_len(b.skip(A::parse_len(b)).skip(B::parse_len(b.skip(A::parse_len(b)))))).skip(D::parse_len(b.skip(A::parse_len(b)).skip(B::parse_len(b.skip(A::parse_len(b)))).skip(C::parse_len(b.skip(A::parse_len(b)).skip(B::parse_len(b.skip(A::parse_len(b)))))))).skip(E::parse_len(b.skip(A::parse_len(b)).skip(B::parse_len(b.skip(A::parse_len(b)))).skip(C::parse_len(b.skip(A::parse_len(b)).skip(B::parse_len(b.skip(A::parse_len(b)))))).skip(D::parse_len(b.skip(A::parse_len(b)).skip(B::parse_len(b.skip(A::parse_len(b)))).skip(C::parse_len(b.skip(A::parse_len(b)).skip(B::parse_len(b.skip(A::parse_len(b)))))))))))))));
                    assert(rem8 == b.skip(A::parse_len(b)).skip(B::parse_len(b.skip(A::parse_len(b)))).skip(C::parse_len(b.skip(A::parse_len(b)).skip(B::parse_len(b.skip(A::parse_len(b)))))).skip(D::parse_len(b.skip(A::parse_len(b)).skip(B::parse_len(b.skip(A::parse_len(b)))).skip(C::parse_len(b.skip(A::parse_len(b)).skip(B::parse_len(b.skip(A::parse_len(b)))))))).skip(E::parse_len(b.skip(A::parse_len(b)).skip(B::parse_len(b.skip(A::parse_len(b)))).skip(C::parse_len(b.skip(A::parse_len(b)).skip(B::parse_len(b.skip(A::parse_len(b)))))).skip(D::parse_len(b.skip(A::parse_len(b)).skip(B::parse_len(b.skip(A::parse_len(b)))).skip(C::parse_len(b.skip(A::parse_len(b)).skip(B::parse_len(b.skip(A::parse_len(b)))))))))).skip(F::parse_len(b.skip(A::parse_len(b)).skip(B::parse_len(b.skip(A::parse_len(b)))).skip(C::parse_len(b.skip(A::parse_len(b)).skip(B::parse_len(b.skip(A::parse_len(b)))))).skip(D::parse_len(b.skip(A::parse_len(b)).skip(B::parse_len(b.skip(A::parse_len(b)))).skip(C::parse_len(b.skip(A::parse_len(b)).skip(B::parse_len(b.skip(A::parse_len(b)))))))).skip(E::parse_len(b.skip(A::parse_len(b)).skip(B::parse_len(b.skip(A::parse_len(b)))).skip(C::parse_len(b.skip(A::parse_len(b)).skip(B::parse_len(b.skip(A::parse_len(b)))))).skip(D::parse_len(b.skip(A::parse_len(b)).skip(B::parse_len(b.skip(A::parse_len(b)))).skip(C::parse_len(b.skip(A::parse_len(b)).skip(B::parse_len(b.skip(A::parse_len(b)))))))))))).skip(G::parse_len(b.skip(A::parse_len(b)).skip(B::parse_len(b.skip(A::parse_len(b)))).skip(C::parse_len(b.skip(A::parse_len(b)).skip(B::parse_len(b.skip(A::parse_len(b)))))).skip(D::parse_len(b.skip(A::parse_len(b)).skip(B::parse_len(b.skip(A::parse_len(b)))).skip(C::parse_len(b.skip(A::parse_len(b)).skip(B::parse_len(b.skip(A::parse_len(b)))))))).skip(E::parse_len(b.skip(A::parse_len(b)).skip(B::parse_len(b.skip(A::parse_len(b)))).skip(C::parse_len(b.skip(A::parse_len(b)).skip(B::parse_len(b.skip(A::parse_len(b)))))).skip(D::parse_len(b.skip(A::parse_len(b)).skip(B::parse_len(b.skip(A::parse_len(b)))).skip(C::parse_len(b.skip(A::parse_len(b)).skip(B::parse_len(b.skip(A::parse_len(b)))))))))).skip(F::parse_len(b.skip(A::parse_len(b)).skip(B::parse_len(b.skip(A::parse_len(b)))).skip(C::parse_len(b.skip(A::parse_len(b)).skip(B::parse_len(b.skip(A::parse_len(b)))))).skip(D::parse_len(b.skip(A::parse_len(b)).skip(B::parse_len(b.skip(A::parse_len(b)))).skip(C::parse_len(b.skip(A::parse_len(b)).skip(B::parse_len(b.skip(A::parse_len(b)))))))).skip(E::parse_len(b.skip(A::parse_len(b)).skip(B::parse_len(b.skip(A::parse_len(b)))).skip(C::parse_len(b.skip(A::parse_len(b)).skip(B::parse_len(b.skip(A::parse_len(b)))))).skip(D::parse_len(b.skip(A::parse_len(b)).skip(B::parse_len(b.skip(A::parse_len(b)))).skip(C::parse_len(b.skip(A::parse_len(b)).skip(B::parse_len(b.skip(A::parse_len(b)))))))))))))).skip(H::parse_len(b.skip(A::parse_len(b)).skip(B::parse_len(b.skip(A::parse_len(b)))).skip(C::parse_len(b.skip(A::parse_len(b)).skip(B::parse_len(b.skip(A::parse_len(b)))))).skip(D::parse_len(b.skip(A::parse_len(b)).skip(B::parse_len(b.skip(A::parse_len(b)))).skip(C::parse_len(b.skip(A::parse_len(b)).skip(B::parse_len(b.skip(A::parse_len(b)))))))).skip(E::parse_len(b.skip(A::parse_len(b)).skip(B::parse_len(b.skip(A::parse_len(b)))).skip(C::parse_len(b.skip(A::parse_len(b)).skip(B::parse_len(b.skip(A::parse_len(b)))))).skip(D::parse_len(b.skip(A::parse_len(b)).skip(B::parse_len(b.skip(A::parse_len(b)))).skip(C::parse_len(b.skip(A::parse_len(b)).skip(B::parse_len(b.skip(A::parse_len(b)))))))))).skip(F::parse_len(b.skip(A::parse_len(b)).skip(B::parse_len(b.skip(A::parse_len(b)))).skip(C::parse_len(b.skip(A::parse_len(b)).skip(B::parse_len(b.skip(A::parse_len(b)))))).skip(D::parse_len(b.skip(A::parse_len(b)).skip(B::parse_len(b.skip(A::parse_len(b)))).skip(C::parse_len(b.skip(A::parse_len(b)).skip(B::parse_len(b.skip(A::parse_len(b)))))))).skip(E::parse_len(b.skip(A::parse_len(b)).skip(B::parse_len(b.skip(A::parse_len(b)))).skip(C::parse_len(b.skip(A::parse_len(b)).skip(B::parse_len(b.skip(A::parse_len(b)))))).skip(D::parse_len(b.skip(A::parse_len(b)).skip(B::parse_len(b.skip(A::parse_len(b)))).skip(C::parse_len(b.skip(A::parse_len(b)).skip(B::parse_len(b.skip(A::parse_len(b)))))))))))).skip(G::parse_len(b.skip(A::parse_len(b)).skip(B::parse_len(b.skip(A::parse_len(b)))).skip(C::parse_len(b.skip(A::parse_len(b)).skip(B::parse_len(b.skip(A::parse_len(b)))))).skip(D::parse_len(b.skip(A::parse_len(b)).skip(B::parse_len(b.skip(A::parse_len(b)))).skip(C::parse_len(b.skip(A::parse_len(b)).skip(B::parse_len(b.skip(A::parse_len(b)))))))).skip(E::parse_len(b.skip(A::parse_len(b)).skip(B::parse_len(b.skip(A::parse_len(b)))).skip(C::parse_len(b.skip(A::parse_len(b)).skip(B::parse_len(b.skip(A::parse_len(b)))))).skip(D::parse_len(b.skip(A::parse_len(b)).skip(B::parse_len(b.skip(A::parse_len(b)))).skip(C::parse_len(b.skip(A::parse_len(b)).skip(B::parse_len(b.skip(A::parse_len(b)))))))))).skip(F::parse_len(b.skip(A::parse_len(b)).skip(B::parse_len(b.skip(A::parse_len(b)))).skip(C::parse_len(b.skip(A::parse_len(b)).skip(B::parse_len(b.skip(A::parse_len(b)))))).skip(D::parse_len(b.skip(A::parse_len(b)).skip(B::parse_len(b.skip(A::parse_len(b)))).skip(C::parse_len(b.skip(A::parse_len(b)).skip(B::parse_len(b.skip(A::parse_len(b)))))))).skip(E::parse_len(b.skip(A::parse_len(b)).skip(B::parse_len(b.skip(A::parse_len(b)))).skip(C::parse_len(b.skip(A::parse_len(b)).skip(B::parse_len(b.skip(A::parse_len(b)))))).skip(D::parse_len(b.skip(A::parse_len(b)).skip(B::parse_len(b.skip(A::parse_len(b)))).skip(C::parse_len(b.skip(A::parse_len(b)).skip(B::parse_len(b.skip(A::parse_len(b)))))))))))))))));
                    assert(I::fail_spec(b.skip(A::parse_len(b)).skip(B::parse_len(b.skip(A::parse_len(b)))).skip(C::parse_len(b.skip(A::parse_len(b)).skip(B::parse_len(b.skip(A::parse_len(b)))))).skip(D::parse_len(b.skip(A::parse_len(b)).skip(B::parse_len(b.skip(A::parse_len(b)))).skip(C::parse_len(b.skip(A::parse_len(b)).skip(B::parse_len(b.skip(A::parse_len(b)))))))).skip(E::parse_len(b.skip(A::parse_len(b)).skip(B::parse_len(b.skip(A::parse_len(b)))).skip(C::parse_len(b.skip(A::parse_len(b)).skip(B::parse_len(b.skip(A::parse_len(b)))))).skip(D::parse_len(b.skip(A::parse_len(b)).skip(B::parse_len(b.skip(A::parse_len(b)))).skip(C::parse_len(b.skip(A::parse_len(b)).skip(B::parse_len(b.skip(A::parse_len(b)))))))))).skip(F::parse_len(b.skip(A::parse_len(b)).skip(B::parse_len(b.skip(A::parse_len(b)))).skip(C::parse_len(b.skip(A::parse_len(b)).skip(B::parse_len(b.skip(A::parse_len(b)))))).skip(D::parse_len(b.skip(A::parse_len(b)).skip(B::parse_len(b.skip(A::parse_len(b)))).skip(C::parse_len(b.skip(A::parse_len(b)).skip(B::parse_len(b.skip(A::parse_len(b)))))))).skip(E::parse_len(b.skip(A::parse_len(b)).skip(B::parse_len(b.skip(A::parse_len(b)))).skip(C::parse_len(b.skip(A::parse_len(b)).skip(B::parse_len(b.skip(A::parse_len(b)))))).skip(D::parse_len(b.skip(A::parse_len(b)).skip(B::parse_len(b.skip(A::parse_len(b)))).skip(C::parse_len(b.skip(A::parse_len(b)).skip(B::parse_len(b.skip(A::parse_len(b)))))))))))).skip(G::parse_len(b.skip(A::parse_len(b)).skip(B::parse_len(b.skip(A::parse_len(b)))).skip(C::parse_len(b.skip(A::parse_len(b)).skip(B::parse_len(b.skip(A::parse_len(b)))))).skip(D::parse_len(b.skip(A::parse_len(b)).skip(B::parse_len(b.skip(A::parse_len(b)))).skip(C::parse_len(b.skip(A::parse_len(b)).skip(B::parse_len(b.skip(A::parse_len(b)))))))).skip(E::parse_len(b.skip(A::parse_len(b)).skip(B::parse_len(b.skip(A::parse_len(b)))).skip(C::parse_len(b.skip(A::parse_len(b)).skip(B::parse_len(b.skip(A::parse_len(b)))))).skip(D::parse_len(b.skip(A::parse_len(b)).skip(B::parse_len(b.skip(A::parse_len(b)))).skip(C::parse_len(b.skip(A::parse_len(b)).skip(B::parse_len(b.skip(A::parse_len(b)))))))))).skip(F::parse_len(b.skip(A::parse_len(b)).skip(B::parse_len(b.skip(A::parse_len(b)))).skip(C::parse_len(b.skip(A::parse_len(b)).skip(B::parse_len(b.skip(A::parse_len(b)))))).skip(D::parse_len(b.skip(A::parse_len(b)).skip(B::parse_len(b.skip(A::parse_len(b)))).skip(C::parse_len(b.skip(A::parse_len(b)).skip(B::parse_len(b.skip(A::parse_len(b)))))))).skip(E::parse_len(b.skip(A::parse_len(b)).skip(B::parse_len(b.skip(A::parse_len(b)))).skip(C::parse_len(b.skip(A::parse_len(b)).skip(B::parse_len(b.skip(A::parse_len(b)))))).skip(D::parse_len(b.skip(A::parse_len(b)).skip(B::parse_len(b.skip(A::parse_len(b)))).skip(C::parse_len(b.skip(A::parse_len(b)).skip(B::parse_len(b.skip(A::parse_len(b)))))))))))))).skip(H::parse_len(b.skip(A::parse_len(b)).skip(B::parse_len(b.skip(A::parse_len(b)))).skip(C::parse_len(b.skip(A::parse_len(b)).skip(B::parse_len(b.skip(A::parse_len(b)))))).skip(D::parse_len(b.skip(A::parse_len(b)).skip(B::parse_len(b.skip(A::parse_len(b)))).skip(C::parse_len(b.skip(A::parse_len(b)).skip(B::parse_len(b.skip(A::parse_len(b)))))))).skip(E::parse_len(b.skip(A::parse_len(b)).skip(B::parse_len(b.skip(A::parse_len(b)))).skip(C::parse_len(b.skip(A::parse_len(b)).skip(B::parse_len(b.skip(A::parse_len(b)))))).skip(D::parse_len(b.skip(A::parse_len(b)).skip(B::parse_len(b.skip(A::parse_len(b)))).skip(C::parse_len(b.skip(A::parse_len(b)).skip(B::parse_len(b.skip(A::parse_len(b)))))))))).skip(F::parse_len(b.skip(A::parse_len(b)).skip(B::parse_len(b.skip(A::parse_len(b)))).skip(C::parse_len(b.skip(A::parse_len(b)).skip(B::parse_len(b.skip(A::parse_len(b)))))).skip(D::parse_len(b.skip(A::parse_len(b)).skip(B::parse_len(b.skip(A::parse_len(b)))).skip(C::parse_len(b.skip(A::parse_len(b)).skip(B::parse_len(b.skip(A::parse_len(b)))))))).skip(E::parse_len(b.skip(A::parse_len(b)).skip(B::parse_len(b.skip(A::parse_len(b)))).skip(C::parse_len(b.skip(A::parse_len(b)).skip(B::parse_len(b.skip(A::parse_len(b)))))).skip(D::parse_len(b.skip(A::parse_len(b)).skip(B::parse_len(b.skip(A::parse_len(b)))).skip(C::parse_len(b.skip(A::parse_len(b)).skip(B::parse_len(b.skip(A::parse_len(b)))))))))))).skip(G::parse_len(b.skip(A::parse_len(b)).skip(B::parse_len(b.skip(A::parse_len(b)))).skip(C::parse_len(b.skip(A::parse_len(b)).skip(B::parse_len(b.skip(A::parse_len(b)))))).skip(D::parse_len(b.skip(A::parse_len(b)).skip(B::parse_len(b.skip(A::parse_len(b)))).skip(C::parse_len(b.skip(A::parse_len(b)).skip(B::parse_len(b.skip(A::parse_len(b)))))))).skip(E::parse_len(b.skip(A::parse_len(b)).skip(B::parse_len(b.skip(A::parse_len(b)))).skip(C::parse_len(b.skip(A::parse_len(b)).skip(B::parse_len(b.skip(A::parse_len(b)))))).skip(D::parse_len(b.skip(A::parse_len(b)).skip(B::parse_len(b.skip(A::parse_len(b)))).skip(C::parse_len(b.skip(A::parse_len(b)).skip(B::parse_len(b.skip(A::parse_len(b)))))))))).skip(F::parse_len(b.skip(A::parse_len(b)).skip(B::parse_len(b.skip(A::parse_len(b)))).skip(C::parse_len(b.skip(A::parse_len(b)).skip(B::parse_len(b.skip(A::parse_len(b)))))).skip(D::parse_len(b.skip(A::parse_len(b)).skip(B::parse_len(b.skip(A::parse_len(b)))).skip(C::parse_len(b.skip(A::parse_len(b)).skip(B::parse_len(b.skip(A::parse_len(b)))))))).skip(E::parse_len(b.skip(A::parse_len(b)).skip(B::parse_len(b.skip(A::parse_len(b)))).skip(C::parse_len(b.skip(A::parse_len(b)).skip(B::parse_len(b.skip(A::parse_len(b)))))).skip(D::parse_len(b.skip(A::parse_len(b)).skip(B::parse_len(b.skip(A::parse_len(b)))).skip(C::parse_len(b.skip(A::parse_len(b)).skip(B::parse_len(b.skip(A::parse_len(b)))))))))))))))), inner) && wrapped_err(9, inner, e));
                    assert(Self::fail_spec(b, e));
                }
                return Err(e);
            },
        };
        proof {
            let b = old(decoder).remaining();
            assert(decoder.remaining() =~= b.skip(Self::parse_len(b)));
        }
        Ok((v0, v1, v2, v3, v4, v5, v6, v7, v8))
    }
}

/// Reconstructs a typed value (or tuple of values) from a whole key,
/// reading its segments from the front. Bytes left over after the requested
/// positions are tolerated and ignored. A failure reports the kind the
/// error taxonomy distinguishes — end of data against invalid encoding —
/// and, for a tuple, names the failed position.
pub trait FromKey: Sized + DeepView + FromKvKey {
    fn from_key(key: &crate::kv_key::KvKey) -> (r: Result<Self, DecodeError>)
        ensures
            r is Ok <==> Self::can_parse(key@),
            r matches Ok(v) ==> v.deep_view() == Self::parse_dview(key@),
            r matches Err(e) ==> Self::fail_spec(key@, e),
    ;
}

impl<T: FromKvKey> FromKey for T {
    fn from_key(key: &crate::kv_key::KvKey) -> (r: Result<Self, DecodeError>) {
        let mut dec = KeyDecoder::new(key.0.as_slice());
        T::from_kv_key(&mut dec)
    }
}

} // verus!
