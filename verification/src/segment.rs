//! The typed key segments and their tagged binary encoding.
//!
//! A composite key is the concatenation of encoded segments. Each segment is
//! a one-byte type tag followed by the payload: strings carry an 8-byte
//! big-endian byte length and then their UTF-8 bytes, 64-bit integers carry
//! 8 big-endian bytes (two's complement for the signed kind), booleans carry
//! a single 0/1 byte.

use crate::bytes_order::{
    is_prefix, lcp, lemma_lcp_basic, lemma_lex_concat_decided, lemma_lex_concat_same,
    lemma_lex_lt_char, lex_lt,
};
use vstd::prelude::*;
use vstd::utf8::{decode_utf8, encode_utf8, valid_utf8};

verus! {

pub const TAG_STRING: u8 = 0x01;

pub const TAG_U64: u8 = 0x02;

pub const TAG_I64: u8 = 0x03;

pub const TAG_BOOL: u8 = 0x05;

/// A typed key segment, as a mathematical value. Strings are represented by
/// their character sequence.
pub enum Seg {
    U64(u64),
    I64(i64),
    Bool(bool),
    Str(Seq<char>),
}

/// The 8 big-endian bytes of a 64-bit value.
pub open spec fn be64(x: u64) -> Seq<u8> {
    seq![
        (x >> 56) as u8,
        (x >> 48) as u8,
        (x >> 40) as u8,
        (x >> 32) as u8,
        (x >> 24) as u8,
        (x >> 16) as u8,
        (x >> 8) as u8,
        x as u8,
    ]
}

/// The 64-bit value read from 8 big-endian bytes.
pub open spec fn from_be64(s: Seq<u8>) -> u64
    recommends
        s.len() == 8,
{
    (((s[0] as u64) << 56) | ((s[1] as u64) << 48) | ((s[2] as u64) << 40) | ((s[3] as u64) << 32)
        | ((s[4] as u64) << 24) | ((s[5] as u64) << 16) | ((s[6] as u64) << 8) | (s[7] as u64))
}

pub proof fn lemma_be64_roundtrip(x: u64)
    ensures
        be64(x).len() == 8,
        from_be64(be64(x)) == x,
{
    let s = be64(x);
    let b0 = (x >> 56) as u8;
    let b1 = (x >> 48) as u8;
    let b2 = (x >> 40) as u8;
    let b3 = (x >> 32) as u8;
    let b4 = (x >> 24) as u8;
    let b5 = (x >> 16) as u8;
    let b6 = (x >> 8) as u8;
    let b7 = x as u8;
    assert((((b0 as u64) << 56) | ((b1 as u64) << 48) | ((b2 as u64) << 40) | ((b3 as u64) << 32)
        | ((b4 as u64) << 24) | ((b5 as u64) << 16) | ((b6 as u64) << 8) | (b7 as u64)) == x)
        by (bit_vector)
        requires
            b0 == (x >> 56) as u8 && b1 == (x >> 48) as u8 && b2 == (x >> 40) as u8 && b3 == (x
                >> 32) as u8 && b4 == (x >> 24) as u8 && b5 == (x >> 16) as u8 && b6 == (x
                >> 8) as u8 && b7 == x as u8,
    ;
    assert(s[0] == b0 && s[1] == b1 && s[2] == b2 && s[3] == b3 && s[4] == b4 && s[5] == b5 && s[6]
        == b6 && s[7] == b7);
}

pub proof fn lemma_be64_injective(x: u64, y: u64)
    requires
        be64(x) == be64(y),
    ensures
        x == y,
{
    lemma_be64_roundtrip(x);
    lemma_be64_roundtrip(y);
}

/// Numeric order of 64-bit values coincides with the lexicographic order of
/// their big-endian byte encodings.
pub proof fn lemma_be64_order(x: u64, y: u64)
    ensures
        x < y <==> crate::bytes_order::lex_lt(be64(x), be64(y)),
{
    let a = be64(x);
    let b = be64(y);
    crate::bytes_order::lemma_lcp_basic(a, b);
    crate::bytes_order::lemma_lex_lt_char(a, b);
    let n = crate::bytes_order::lcp(a, b);
    if n == 8 {
        assert(a =~= b);
        lemma_be64_injective(x, y);
    } else {
        assert(a[n] != b[n]);
        if n == 0 {
            assert((x < y) == (((x >> 56) as u8) < ((y >> 56) as u8))) by (bit_vector)
                requires
                    (x >> 56) as u8 != (y >> 56) as u8,
            ;
        } else if n == 1 {
            assert((x < y) == (((x >> 48) as u8) < ((y >> 48) as u8))) by (bit_vector)
                requires
                    (x >> 56) as u8 == (y >> 56) as u8 && (x >> 48) as u8 != (y >> 48) as u8,
            ;
        } else if n == 2 {
            assert((x < y) == (((x >> 40) as u8) < ((y >> 40) as u8))) by (bit_vector)
                requires
                    (x >> 56) as u8 == (y >> 56) as u8 && (x >> 48) as u8 == (y >> 48) as u8 && (x
                        >> 40) as u8 != (y >> 40) as u8,
            ;
        } else if n == 3 {
            assert((x < y) == (((x >> 32) as u8) < ((y >> 32) as u8))) by (bit_vector)
                requires
                    (x >> 56) as u8 == (y >> 56) as u8 && (x >> 48) as u8 == (y >> 48) as u8 && (x
                        >> 40) as u8 == (y >> 40) as u8 && (x >> 32) as u8 != (y >> 32) as u8,
            ;
        } else if n == 4 {
            assert((x < y) == (((x >> 24) as u8) < ((y >> 24) as u8))) by (bit_vector)
                requires
                    (x >> 56) as u8 == (y >> 56) as u8 && (x >> 48) as u8 == (y >> 48) as u8 && (x
                        >> 40) as u8 == (y >> 40) as u8 && (x >> 32) as u8 == (y >> 32) as u8 && (x
                        >> 24) as u8 != (y >> 24) as u8,
            ;
        } else if n == 5 {
            assert((x < y) == (((x >> 16) as u8) < ((y >> 16) as u8))) by (bit_vector)
                requires
                    (x >> 56) as u8 == (y >> 56) as u8 && (x >> 48) as u8 == (y >> 48) as u8 && (x
                        >> 40) as u8 == (y >> 40) as u8 && (x >> 32) as u8 == (y >> 32) as u8 && (x
                        >> 24) as u8 == (y >> 24) as u8 && (x >> 16) as u8 != (y >> 16) as u8,
            ;
        } else if n == 6 {
            assert((x < y) == (((x >> 8) as u8) < ((y >> 8) as u8))) by (bit_vector)
                requires
                    (x >> 56) as u8 == (y >> 56) as u8 && (x >> 48) as u8 == (y >> 48) as u8 && (x
                        >> 40) as u8 == (y >> 40) as u8 && (x >> 32) as u8 == (y >> 32) as u8 && (x
                        >> 24) as u8 == (y >> 24) as u8 && (x >> 16) as u8 == (y >> 16) as u8 && (x
                        >> 8) as u8 != (y >> 8) as u8,
            ;
        } else {
            assert((x < y) == ((x as u8) < (y as u8))) by (bit_vector)
                requires
                    (x >> 56) as u8 == (y >> 56) as u8 && (x >> 48) as u8 == (y >> 48) as u8 && (x
                        >> 40) as u8 == (y >> 40) as u8 && (x >> 32) as u8 == (y >> 32) as u8 && (x
                        >> 24) as u8 == (y >> 24) as u8 && (x >> 16) as u8 == (y >> 16) as u8 && (x
                        >> 8) as u8 == (y >> 8) as u8 && x as u8 != y as u8,
            ;
        }
    }
}

/// The tagged encoding of one segment.
pub open spec fn spec_encode_seg(g: Seg) -> Seq<u8> {
    match g {
        Seg::U64(v) => seq![TAG_U64] + be64(v),
        Seg::I64(v) => seq![TAG_I64] + be64(v as u64),
        Seg::Bool(v) => seq![TAG_BOOL, if v { 1u8 } else { 0u8 }],
        Seg::Str(s) => seq![TAG_STRING] + be64(encode_utf8(s).len() as u64) + encode_utf8(s),
    }
}

/// The encoding of a whole composite key: segment encodings in order.
pub open spec fn spec_encode_segs(gs: Seq<Seg>) -> Seq<u8>
    decreases gs.len(),
{
    if gs.len() == 0 {
        Seq::empty()
    } else {
        spec_encode_seg(gs[0]) + spec_encode_segs(gs.skip(1))
    }
}

/// A buffer starts with a well-formed unsigned segment.
pub open spec fn can_parse_u64(b: Seq<u8>) -> bool {
    b.len() >= 9 && b[0] == TAG_U64
}

pub open spec fn parse_u64_val(b: Seq<u8>) -> u64 {
    from_be64(b.subrange(1, 9))
}

/// A buffer starts with a well-formed signed segment.
pub open spec fn can_parse_i64(b: Seq<u8>) -> bool {
    b.len() >= 9 && b[0] == TAG_I64
}

pub open spec fn parse_i64_val(b: Seq<u8>) -> i64 {
    from_be64(b.subrange(1, 9)) as i64
}

/// A buffer starts with a well-formed boolean segment: only 0 and 1 are
/// accepted as the payload byte.
pub open spec fn can_parse_bool(b: Seq<u8>) -> bool {
    b.len() >= 2 && b[0] == TAG_BOOL && (b[1] == 0u8 || b[1] == 1u8)
}

pub open spec fn parse_bool_val(b: Seq<u8>) -> bool {
    b[1] == 1u8
}

/// The byte length a string segment declares for its payload.
pub open spec fn str_payload_len(b: Seq<u8>) -> int {
    from_be64(b.subrange(1, 9)) as int
}

/// A buffer starts with a well-formed string segment: the declared payload
/// fits in the buffer and is valid UTF-8.
pub open spec fn can_parse_str(b: Seq<u8>) -> bool {
    b.len() >= 9 && b[0] == TAG_STRING && b.len() >= 9 + str_payload_len(b) && valid_utf8(
        b.subrange(9, 9 + str_payload_len(b)),
    )
}

pub open spec fn parse_str_val(b: Seq<u8>) -> Seq<char> {
    decode_utf8(b.subrange(9, 9 + str_payload_len(b)))
}

pub open spec fn str_seg_len(b: Seq<u8>) -> int {
    9 + str_payload_len(b)
}

/// Decoding an encoded unsigned segment yields the value back and consumes
/// exactly the segment.
pub proof fn lemma_parse_encode_u64(v: u64, rest: Seq<u8>)
    ensures
        can_parse_u64(spec_encode_seg(Seg::U64(v)) + rest),
        parse_u64_val(spec_encode_seg(Seg::U64(v)) + rest) == v,
        (spec_encode_seg(Seg::U64(v)) + rest).skip(9) == rest,
{
    let b = spec_encode_seg(Seg::U64(v)) + rest;
    lemma_be64_roundtrip(v);
    assert(b.subrange(1, 9) =~= be64(v));
    assert(b.skip(9) =~= rest);
}

/// Decoding an encoded signed segment yields the value back and consumes
/// exactly the segment.
pub proof fn lemma_parse_encode_i64(v: i64, rest: Seq<u8>)
    ensures
        can_parse_i64(spec_encode_seg(Seg::I64(v)) + rest),
        parse_i64_val(spec_encode_seg(Seg::I64(v)) + rest) == v,
        (spec_encode_seg(Seg::I64(v)) + rest).skip(9) == rest,
{
    let b = spec_encode_seg(Seg::I64(v)) + rest;
    lemma_be64_roundtrip(v as u64);
    assert(b.subrange(1, 9) =~= be64(v as u64));
    assert((v as u64) as i64 == v) by (bit_vector);
    assert(b.skip(9) =~= rest);
}

/// Decoding an encoded boolean segment yields the value back and consumes
/// exactly the segment.
pub proof fn lemma_parse_encode_bool(v: bool, rest: Seq<u8>)
    ensures
        can_parse_bool(spec_encode_seg(Seg::Bool(v)) + rest),
        parse_bool_val(spec_encode_seg(Seg::Bool(v)) + rest) == v,
        (spec_encode_seg(Seg::Bool(v)) + rest).skip(2) == rest,
{
    let b = spec_encode_seg(Seg::Bool(v)) + rest;
    assert(b.skip(2) =~= rest);
}

/// Decoding an encoded string segment yields the character sequence back and
/// consumes exactly the segment.
pub proof fn lemma_parse_encode_str(s: Seq<char>, rest: Seq<u8>)
    requires
        encode_utf8(s).len() <= u64::MAX,
    ensures
        can_parse_str(spec_encode_seg(Seg::Str(s)) + rest),
        parse_str_val(spec_encode_seg(Seg::Str(s)) + rest) == s,
        str_seg_len(spec_encode_seg(Seg::Str(s)) + rest) == spec_encode_seg(Seg::Str(s)).len(),
        (spec_encode_seg(Seg::Str(s)) + rest).skip(str_seg_len(spec_encode_seg(Seg::Str(s)) + rest))
            == rest,
{
    broadcast use vstd::utf8::encode_utf8_valid_utf8, vstd::utf8::encode_utf8_decode_utf8;

    let c = encode_utf8(s);
    let b = spec_encode_seg(Seg::Str(s)) + rest;
    lemma_be64_roundtrip(c.len() as u64);
    assert(b.subrange(1, 9) =~= be64(c.len() as u64));
    assert(str_payload_len(b) == c.len());
    assert(b.subrange(9, 9 + c.len() as int) =~= c);
    assert(b.skip(9 + c.len() as int) =~= rest);
}

/// Appends the 8 big-endian bytes of `x` to a buffer.
pub fn push_be64(out: &mut Vec<u8>, x: u64)
    ensures
        final(out)@ == old(out)@ + be64(x),
{
    out.push(#[verifier::truncate] ((x >> 56) as u8));
    out.push(#[verifier::truncate] ((x >> 48) as u8));
    out.push(#[verifier::truncate] ((x >> 40) as u8));
    out.push(#[verifier::truncate] ((x >> 32) as u8));
    out.push(#[verifier::truncate] ((x >> 24) as u8));
    out.push(#[verifier::truncate] ((x >> 16) as u8));
    out.push(#[verifier::truncate] ((x >> 8) as u8));
    out.push(#[verifier::truncate] (x as u8));
    proof {
        assert(out@ =~= old(out)@ + be64(x));
    }
}

/// Reads a 64-bit value from 8 big-endian bytes at `pos`.
pub fn read_be64(b: &[u8], pos: usize) -> (x: u64)
    requires
        pos + 8 <= b@.len(),
    ensures
        x == from_be64(b@.subrange(pos as int, pos as int + 8)),
{
    let x = ((b[pos] as u64) << 56) | ((b[pos + 1] as u64) << 48) | ((b[pos + 2] as u64) << 40) | ((
    b[pos + 3] as u64) << 32) | ((b[pos + 4] as u64) << 24) | ((b[pos + 5] as u64) << 16) | ((b[pos
        + 6] as u64) << 8) | (b[pos + 7] as u64);
    proof {
        let s = b@.subrange(pos as int, pos as int + 8);
        assert(s[0] == b@[pos as int] && s[1] == b@[pos as int + 1] && s[2] == b@[pos as int + 2]
            && s[3] == b@[pos as int + 3] && s[4] == b@[pos as int + 4] && s[5] == b@[pos as int
            + 5] && s[6] == b@[pos as int + 6] && s[7] == b@[pos as int + 7]);
    }
    x
}

/// Whether the front of `b` holds a well-formed segment of the same type as
/// `g`.
pub open spec fn can_parse_seg_of(b: Seq<u8>, g: Seg) -> bool {
    match g {
        Seg::U64(_) => can_parse_u64(b),
        Seg::I64(_) => can_parse_i64(b),
        Seg::Bool(_) => can_parse_bool(b),
        Seg::Str(_) => can_parse_str(b),
    }
}

/// The segment value read from the front of `b` at the type of `g`.
pub open spec fn parse_seg_of(b: Seq<u8>, g: Seg) -> Seg {
    match g {
        Seg::U64(_) => Seg::U64(parse_u64_val(b)),
        Seg::I64(_) => Seg::I64(parse_i64_val(b)),
        Seg::Bool(_) => Seg::Bool(parse_bool_val(b)),
        Seg::Str(_) => Seg::Str(parse_str_val(b)),
    }
}

/// The byte length of the segment at the front of `b`, read at the type of
/// `g`.
pub open spec fn seg_len_of(b: Seq<u8>, g: Seg) -> int {
    match g {
        Seg::U64(_) => 9,
        Seg::I64(_) => 9,
        Seg::Bool(_) => 2,
        Seg::Str(_) => str_seg_len(b),
    }
}

/// Whether segments of the types of `gs` can be read off the front of `b`,
/// one after the other.
pub open spec fn can_parse_segs_of(b: Seq<u8>, gs: Seq<Seg>) -> bool
    decreases gs.len(),
{
    if gs.len() == 0 {
        true
    } else {
        can_parse_seg_of(b, gs[0]) && can_parse_segs_of(b.skip(seg_len_of(b, gs[0])), gs.skip(1))
    }
}

/// The segment values read off the front of `b` at the types of `gs`.
pub open spec fn parse_segs_of(b: Seq<u8>, gs: Seq<Seg>) -> Seq<Seg>
    decreases gs.len(),
{
    if gs.len() == 0 {
        Seq::empty()
    } else {
        seq![parse_seg_of(b, gs[0])] + parse_segs_of(b.skip(seg_len_of(b, gs[0])), gs.skip(1))
    }
}

/// Tuple round-trip: decoding an encoded composite key at its own segment
/// types yields exactly the original segment values, whatever bytes follow
/// the key's encoding.
pub proof fn lemma_tuple_roundtrip(gs: Seq<Seg>, rest: Seq<u8>)
    requires
        forall|i: int|
            0 <= i < gs.len() ==> (#[trigger] gs[i] matches Seg::Str(s) ==> encode_utf8(s).len()
                <= u64::MAX),
    ensures
        can_parse_segs_of(spec_encode_segs(gs) + rest, gs),
        parse_segs_of(spec_encode_segs(gs) + rest, gs) == gs,
    decreases gs.len(),
{
    if gs.len() == 0 {
        assert(parse_segs_of(spec_encode_segs(gs) + rest, gs) =~= gs);
    } else {
        let g = gs[0];
        let tail_enc = spec_encode_segs(gs.skip(1)) + rest;
        let b = spec_encode_segs(gs) + rest;
        assert(b =~= spec_encode_seg(g) + tail_enc);
        match g {
            Seg::U64(v) => {
                lemma_parse_encode_u64(v, tail_enc);
                assert(b.skip(seg_len_of(b, g)) == tail_enc);
            },
            Seg::I64(v) => {
                lemma_parse_encode_i64(v, tail_enc);
                assert(b.skip(seg_len_of(b, g)) == tail_enc);
            },
            Seg::Bool(v) => {
                lemma_parse_encode_bool(v, tail_enc);
                assert(b.skip(seg_len_of(b, g)) == tail_enc);
            },
            Seg::Str(s) => {
                lemma_parse_encode_str(s, tail_enc);
                assert(b.skip(seg_len_of(b, g)) == tail_enc);
            },
        }
        assert(forall|i: int| 0 <= i < gs.len() - 1 ==> #[trigger] gs.skip(1)[i] == gs[i + 1]);
        lemma_tuple_roundtrip(gs.skip(1), rest);
        assert(parse_segs_of(b, gs) =~= gs) by {
            assert(parse_segs_of(b, gs) == seq![parse_seg_of(b, g)] + parse_segs_of(
                tail_enc,
                gs.skip(1),
            ));
        }
    }
}

/// The segment values as they order: unsigned and signed integers
/// numerically, `false` before `true`, strings by their UTF-8 bytes.
pub open spec fn seg_lt(x: Seg, y: Seg) -> bool {
    match (x, y) {
        (Seg::U64(a), Seg::U64(b)) => a < b,
        (Seg::I64(a), Seg::I64(b)) => a < b,
        (Seg::Bool(a), Seg::Bool(b)) => !a && b,
        (Seg::Str(a), Seg::Str(b)) => lex_lt(encode_utf8(a), encode_utf8(b)),
        _ => false,
    }
}

pub open spec fn same_seg_type(x: Seg, y: Seg) -> bool {
    match (x, y) {
        (Seg::U64(_), Seg::U64(_)) => true,
        (Seg::I64(_), Seg::I64(_)) => true,
        (Seg::Bool(_), Seg::Bool(_)) => true,
        (Seg::Str(_), Seg::Str(_)) => true,
        _ => false,
    }
}

/// The pairs of same-type segment values whose encoded byte order agrees
/// with their value order. Signed values of opposite sign fall outside (the
/// two's-complement bytes of a negative value compare above those of a
/// non-negative one), as do strings of different byte lengths (the length
/// field is compared before the content).
pub open spec fn seg_order_compat(x: Seg, y: Seg) -> bool {
    match (x, y) {
        (Seg::I64(a), Seg::I64(b)) => (a < 0) == (b < 0),
        (Seg::Str(a), Seg::Str(b)) => encode_utf8(a).len() == encode_utf8(b).len(),
        _ => same_seg_type(x, y),
    }
}

/// Order of two composite keys as tuples of segment values, position by
/// position.
pub open spec fn segs_lt(a: Seq<Seg>, b: Seq<Seg>) -> bool
    decreases a.len(),
{
    if a.len() == 0 || b.len() == 0 {
        false
    } else if a[0] != b[0] {
        seg_lt(a[0], b[0])
    } else {
        segs_lt(a.skip(1), b.skip(1))
    }
}

proof fn lemma_lex_lt_single(p: u8, q: u8)
    ensures
        lex_lt(seq![p], seq![q]) <==> p < q,
{
    assert(seq![p].skip(1) =~= Seq::<u8>::empty());
    assert(seq![q].skip(1) =~= Seq::<u8>::empty());
    assert(!lex_lt(Seq::<u8>::empty(), Seq::<u8>::empty()));
    assert(seq![p][0] == p);
    assert(seq![q][0] == q);
}

/// For one pair of distinct, same-type, order-compatible segment values:
/// neither encoding is a prefix of the other, and the encodings compare as
/// the values do.
pub proof fn lemma_seg_enc_order(x: Seg, y: Seg)
    requires
        same_seg_type(x, y),
        seg_order_compat(x, y),
        x != y,
    ensures
        !is_prefix(spec_encode_seg(x), spec_encode_seg(y)),
        !is_prefix(spec_encode_seg(y), spec_encode_seg(x)),
        seg_lt(x, y) <==> lex_lt(spec_encode_seg(x), spec_encode_seg(y)),
{
    let ex = spec_encode_seg(x);
    let ey = spec_encode_seg(y);
    match (x, y) {
        (Seg::U64(a), Seg::U64(b)) => {
            assert(ex =~= seq![TAG_U64] + be64(a));
            assert(ey =~= seq![TAG_U64] + be64(b));
            lemma_lex_concat_same(seq![TAG_U64], be64(a), be64(b));
            lemma_be64_order(a, b);
            lemma_be64_order(b, a);
            if ex == ey {
                assert(be64(a) =~= ey.subrange(1, 9));
                assert(be64(b) =~= ey.subrange(1, 9));
                lemma_be64_injective(a, b);
            }
            if is_prefix(ex, ey) {
                assert(ey.take(9) =~= ey);
            }
            if is_prefix(ey, ex) {
                assert(ex.take(9) =~= ex);
            }
        },
        (Seg::I64(a), Seg::I64(b)) => {
            assert(ex =~= seq![TAG_I64] + be64(a as u64));
            assert(ey =~= seq![TAG_I64] + be64(b as u64));
            lemma_lex_concat_same(seq![TAG_I64], be64(a as u64), be64(b as u64));
            lemma_be64_order(a as u64, b as u64);
            lemma_be64_order(b as u64, a as u64);
            assert((a < b) == ((a as u64) < (b as u64))) by (bit_vector)
                requires
                    (a < 0) == (b < 0),
            ;
            assert((a as u64 == b as u64) ==> a == b) by (bit_vector);
            if ex == ey {
                assert(be64(a as u64) =~= ey.subrange(1, 9));
                assert(be64(b as u64) =~= ey.subrange(1, 9));
                lemma_be64_injective(a as u64, b as u64);
            }
            if is_prefix(ex, ey) {
                assert(ey.take(9) =~= ey);
            }
            if is_prefix(ey, ex) {
                assert(ex.take(9) =~= ex);
            }
        },
        (Seg::Bool(a), Seg::Bool(b)) => {
            let pa: u8 = if a { 1u8 } else { 0u8 };
            let pb: u8 = if b { 1u8 } else { 0u8 };
            assert(ex =~= seq![TAG_BOOL] + seq![pa]);
            assert(ey =~= seq![TAG_BOOL] + seq![pb]);
            lemma_lex_concat_same(seq![TAG_BOOL], seq![pa], seq![pb]);
            lemma_lex_lt_single(pa, pb);
            if is_prefix(ex, ey) {
                assert(ey.take(2) =~= ey);
                assert(ex[1] == ey[1]);
            }
            if is_prefix(ey, ex) {
                assert(ex.take(2) =~= ex);
                assert(ex[1] == ey[1]);
            }
        },
        (Seg::Str(a), Seg::Str(b)) => {
            broadcast use vstd::utf8::encode_utf8_decode_utf8;

            let ca = encode_utf8(a);
            let cb = encode_utf8(b);
            let hdr = seq![TAG_STRING] + be64(ca.len() as u64);
            assert(ex =~= hdr + ca);
            assert(ey =~= hdr + cb);
            lemma_lex_concat_same(hdr, ca, cb);
            assert(ca != cb) by {
                if ca == cb {
                    assert(decode_utf8(ca) == decode_utf8(cb));
                }
            }
            if is_prefix(ex, ey) {
                assert(ey.take(ex.len() as int) =~= ey);
                assert(ca =~= ex.skip(9));
                assert(cb =~= ey.skip(9));
                assert(ca =~= cb);
            }
            if is_prefix(ey, ex) {
                assert(ex.take(ey.len() as int) =~= ex);
                assert(ca =~= ex.skip(9));
                assert(cb =~= ey.skip(9));
                assert(ca =~= cb);
            }
        },
        _ => {},
    }
}

/// Order preservation: for two composite keys with the same segment type at
/// every position, and order-compatible values at every position, the
/// byte-wise lexicographic order of the encoded keys is exactly the
/// position-wise order of the segment values.
pub proof fn lemma_order_preservation(a: Seq<Seg>, b: Seq<Seg>)
    requires
        a.len() == b.len(),
        forall|i: int| 0 <= i < a.len() ==> same_seg_type(#[trigger] a[i], b[i]),
        forall|i: int| 0 <= i < a.len() ==> seg_order_compat(#[trigger] a[i], b[i]),
    ensures
        segs_lt(a, b) <==> lex_lt(spec_encode_segs(a), spec_encode_segs(b)),
    decreases a.len(),
{
    if a.len() == 0 {
        assert(spec_encode_segs(a) =~= Seq::<u8>::empty());
        assert(spec_encode_segs(b) =~= Seq::<u8>::empty());
    } else {
        assert(forall|i: int| 0 <= i < a.len() - 1 ==> #[trigger] a.skip(1)[i] == a[i + 1]);
        assert(forall|i: int| 0 <= i < b.len() - 1 ==> #[trigger] b.skip(1)[i] == b[i + 1]);
        if a[0] == b[0] {
            lemma_order_preservation(a.skip(1), b.skip(1));
            lemma_lex_concat_same(
                spec_encode_seg(a[0]),
                spec_encode_segs(a.skip(1)),
                spec_encode_segs(b.skip(1)),
            );
        } else {
            lemma_seg_enc_order(a[0], b[0]);
            lemma_seg_enc_order(b[0], a[0]);
            lemma_lex_concat_decided(
                spec_encode_seg(a[0]),
                spec_encode_seg(b[0]),
                spec_encode_segs(a.skip(1)),
                spec_encode_segs(b.skip(1)),
            );
        }
    }
}

} // verus!
