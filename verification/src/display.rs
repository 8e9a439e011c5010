//! Human-readable rendering of keys, and the best-effort inverse.
//!
//! A key renders as its segments joined with `:`. String segments escape
//! literal colons as `\:`; unsigned integers render as bare digits, signed
//! ones as `<digits>i` when non-negative and `-<digits>` when negative,
//! booleans as `true`/`false`. Parsing the rendered form back is a
//! heuristic for debugging and export, not a canonical codec.

use crate::key_decoder::KeyDecoder;
use crate::kv_key::KvKey;
use crate::segment::{
    can_parse_bool, can_parse_i64, can_parse_str, can_parse_u64, parse_bool_val, parse_i64_val,
    parse_str_val, parse_u64_val, spec_encode_seg, spec_encode_segs, str_seg_len, Seg,
};
use vstd::prelude::*;

verus! {

/// Relies on std's str::chars: the characters of the string, in order.
#[verifier::external_body]
fn str_to_chars(s: &str) -> (v: Vec<char>)
    ensures
        v@ == s@,
{
    s.chars().collect()
}

/// Relies on std's String as FromIterator<char>: the characters,
/// concatenated in order.
#[verifier::external_body]
fn chars_to_string(v: &Vec<char>) -> (s: String)
    ensures
        s@ == v@,
{
    v.iter().collect()
}

/// The decimal digits of `n`, most significant first.
pub open spec fn dec_chars(n: u64) -> Seq<char>
    decreases n,
{
    if n < 10 {
        seq![((48 + n) as u8) as char]
    } else {
        dec_chars(n / 10).push(((48 + n % 10) as u8) as char)
    }
}

/// How a signed value renders: `<digits>i` when non-negative, `-<digits>`
/// when negative.
pub open spec fn i64_chars(n: i64) -> Seq<char> {
    if n >= 0 {
        dec_chars(n as u64).push('i')
    } else {
        seq!['-'] + dec_chars((-(n as int)) as u64)
    }
}

/// String content as it renders: a colon becomes `\:`; a backslash is kept
/// only where it already escapes a colon, and is dropped otherwise.
pub open spec fn escape_chars(s: Seq<char>) -> Seq<char>
    decreases s.len(),
{
    if s.len() == 0 {
        Seq::empty()
    } else if s[0] == '\\' {
        if s.len() > 1 && s[1] == ':' {
            seq!['\\'] + escape_chars(s.skip(1))
        } else {
            escape_chars(s.skip(1))
        }
    } else if s[0] == ':' {
        seq!['\\', ':'] + escape_chars(s.skip(1))
    } else {
        seq![s[0]] + escape_chars(s.skip(1))
    }
}

/// The rendering of a whole key: segments rendered in order, joined with
/// `:`. `None` when the bytes are not a well-formed key.
pub open spec fn display_chars(b: Seq<u8>) -> Option<Seq<char>>
    decreases b.len(),
{
    if b.len() == 0 {
        Some(Seq::empty())
    } else if can_parse_str(b) {
        match display_chars(b.skip(str_seg_len(b))) {
            Some(rest) => Some(
                escape_chars(parse_str_val(b)) + joiner(b.skip(str_seg_len(b)), rest),
            ),
            None => None,
        }
    } else if can_parse_u64(b) {
        match display_chars(b.skip(9)) {
            Some(rest) => Some(dec_chars(parse_u64_val(b)) + joiner(b.skip(9), rest)),
            None => None,
        }
    } else if can_parse_i64(b) {
        match display_chars(b.skip(9)) {
            Some(rest) => Some(i64_chars(parse_i64_val(b)) + joiner(b.skip(9), rest)),
            None => None,
        }
    } else if can_parse_bool(b) {
        match display_chars(b.skip(2)) {
            Some(rest) => Some(
                (if parse_bool_val(b) {
                    seq!['t', 'r', 'u', 'e']
                } else {
                    seq!['f', 'a', 'l', 's', 'e']
                }) + joiner(b.skip(2), rest),
            ),
            None => None,
        }
    } else {
        None
    }
}

/// What follows one rendered segment: nothing at the end of the key, else a
/// colon and the rendering of the rest.
pub open spec fn joiner(remaining: Seq<u8>, rest: Seq<char>) -> Seq<char> {
    if remaining.len() == 0 {
        Seq::empty()
    } else {
        seq![':'] + rest
    }
}

/// Appends the decimal rendering of `n`.
fn push_dec(out: &mut Vec<char>, n: u64)
    ensures
        final(out)@ == old(out)@ + dec_chars(n),
    decreases n,
{
    if n < 10 {
        out.push((48 + n as u8) as char);
        proof {
            assert(out@ =~= old(out)@ + dec_chars(n));
        }
    } else {
        push_dec(out, n / 10);
        out.push((48 + (n % 10) as u8) as char);
        proof {
            assert(out@ =~= old(out)@ + dec_chars(n));
        }
    }
}

/// Appends the escaped rendering of string content.
fn push_escaped(out: &mut Vec<char>, cs: &Vec<char>)
    ensures
        final(out)@ == old(out)@ + escape_chars(cs@),
{
    let n = cs.len();
    let mut i: usize = 0;
    proof {
        assert(cs@.skip(0) =~= cs@);
    }
    while i < n
        invariant
            0 <= i <= n,
            n == cs@.len(),
            old(out)@ + escape_chars(cs@) == out@ + escape_chars(cs@.skip(i as int)),
        decreases n - i,
    {
        let c = cs[i];
        proof {
            assert(cs@.skip(i as int)[0] == c);
            assert(cs@.skip(i as int).skip(1) =~= cs@.skip(i as int + 1));
            if i + 1 < n {
                assert(cs@.skip(i as int)[1] == cs@[i as int + 1]);
            }
        }
        if c == '\\' {
            if i + 1 < n && cs[i + 1] == ':' {
                out.push('\\');
            }
        } else if c == ':' {
            out.push('\\');
            out.push(':');
        } else {
            out.push(c);
        }
        proof {
            assert(old(out)@ + escape_chars(cs@) =~= out@ + escape_chars(cs@.skip(i as int + 1)));
        }
        i += 1;
    }
    proof {
        assert(escape_chars(cs@.skip(n as int)) =~= Seq::<char>::empty());
        assert(final(out)@ =~= old(out)@ + escape_chars(cs@));
    }
}

/// Renders the next segment of the cursor into `out`, or reports that the
/// front of the remaining bytes is not a well-formed segment.
#[verifier::rlimit(50)]
fn render_seg(dec: &mut KeyDecoder<'_>, out: &mut Vec<char>) -> (ok: bool)
    requires
        old(dec).wf(),
        old(dec).remaining().len() > 0,
    ensures
        final(dec).wf(),
        !ok ==> display_chars(old(dec).remaining()) is None,
        ok ==> final(dec).remaining().len() < old(dec).remaining().len() && final(out)@.len()
            >= old(out)@.len() && final(out)@.take(old(out)@.len() as int) == old(out)@ && (
        display_chars(old(dec).remaining()) is Some == display_chars(
            final(dec).remaining(),
        ) is Some) && (match display_chars(final(dec).remaining()) {
            Some(t2) => display_chars(old(dec).remaining()) == Some(
                final(out)@.skip(old(out)@.len() as int) + joiner(final(dec).remaining(), t2),
            ),
            None => true,
        }),
{
    let ghost pre = old(dec).remaining();
    let ghost out0 = old(out)@;
    let ghost seg_chars: Seq<char>;
    if let Some(s) = dec.next_str() {
        proof {
            seg_chars = escape_chars(parse_str_val(pre));
        }
        let cs = str_to_chars(s.as_str());
        push_escaped(out, &cs);
    } else if let Some(n) = dec.next_u64() {
        proof {
            seg_chars = dec_chars(parse_u64_val(pre));
        }
        push_dec(out, n);
    } else if let Some(n) = dec.next_i64() {
        proof {
            seg_chars = i64_chars(parse_i64_val(pre));
        }
        if n >= 0 {
            push_dec(out, n as u64);
            out.push('i');
        } else {
            out.push('-');
            let mag: u64 = if n == i64::MIN {
                9223372036854775808u64
            } else {
                (-n) as u64
            };
            proof {
                assert(mag == (-(n as int)) as u64);
            }
            push_dec(out, mag);
        }
    } else if let Some(b) = dec.next_bool() {
        proof {
            seg_chars = if parse_bool_val(pre) {
                seq!['t', 'r', 'u', 'e']
            } else {
                seq!['f', 'a', 'l', 's', 'e']
            };
        }
        if b {
            out.push('t');
            out.push('r');
            out.push('u');
            out.push('e');
        } else {
            out.push('f');
            out.push('a');
            out.push('l');
            out.push('s');
            out.push('e');
        }
    } else {
        proof {
            assert(!can_parse_str(pre) && !can_parse_u64(pre) && !can_parse_i64(pre)
                && !can_parse_bool(pre));
            assert(display_chars(pre) is None);
        }
        return false;
    }
    proof {
        assert(out@ =~= out0 + seg_chars);
        assert(out@.take(out0.len() as int) =~= out0);
        assert(out@.skip(out0.len() as int) =~= seg_chars);
        match display_chars(dec.remaining()) {
            Some(t2) => {
                assert(display_chars(pre) == Some(seg_chars + joiner(dec.remaining(), t2)));
            },
            None => {
                assert(display_chars(pre) is None);
            },
        }
    }
    true
}

/// The separator that stands between what is already rendered and the
/// rendering of the remaining bytes.
pub open spec fn sep(first: bool, remaining: Seq<u8>) -> Seq<char> {
    if first || remaining.len() == 0 {
        Seq::empty()
    } else {
        seq![':']
    }
}

/// Renders a key's bytes for human inspection: segments joined with `:`.
/// `None` exactly when the bytes are not a well-formed key.
pub fn to_display_string(rem: &[u8]) -> (r: Option<String>)
    ensures
        r is Some <==> display_chars(rem@) is Some,
        r matches Some(s) ==> display_chars(rem@) == Some(s@),
{
    let ghost full = rem@;
    let mut dec = KeyDecoder::new(rem);
    let mut out: Vec<char> = Vec::new();
    let mut first = true;
    while !dec.done()
        invariant
            full == rem@,
            dec.wf(),
            first ==> out@ == Seq::<char>::empty() && dec.remaining() == full,
            (display_chars(full) is Some) == (display_chars(dec.remaining()) is Some),
            display_chars(dec.remaining()) matches Some(t) ==> display_chars(full) == Some(
                out@ + sep(first, dec.remaining()) + t,
            ),
        decreases dec.remaining().len(),
    {
        let ghost pre = dec.remaining();
        let ghost out0 = out@;
        if !first {
            out.push(':');
        }
        let ghost mid = out@;
        let ok = render_seg(&mut dec, &mut out);
        if !ok {
            proof {
                assert(display_chars(full) is None);
            }
            return None;
        }
        proof {
            let post = dec.remaining();
            let sc = out@.skip(mid.len() as int);
            assert(out@.take(mid.len() as int) == mid);
            assert(out@ =~= mid + sc);
            assert(mid =~= out0 + sep(first, pre));
            match display_chars(post) {
                Some(t2) => {
                    assert(display_chars(pre) == Some(sc + joiner(post, t2)));
                    assert(out0 + sep(first, pre) + (sc + joiner(post, t2)) =~= out@ + sep(
                        false,
                        post,
                    ) + t2);
                },
                None => {},
            }
        }
        first = false;
    }
    proof {
        assert(display_chars(dec.remaining()) == Some(Seq::<char>::empty()));
        match display_chars(full) {
            Some(t) => {
                assert(t =~= out@ + sep(first, dec.remaining()) + Seq::<char>::empty());
                assert(t =~= out@);
            },
            None => {},
        }
    }
    Some(chars_to_string(&out))
}

/// A part is all decimal digits (and nonempty).
pub open spec fn is_digits(p: Seq<char>) -> bool {
    p.len() > 0 && forall|i: int| 0 <= i < p.len() ==> 48 <= #[trigger] p[i] as u32 <= 57
}

/// The number the digits denote, most significant first.
pub open spec fn digits_val(p: Seq<char>) -> int
    decreases p.len(),
{
    if p.len() == 0 {
        0
    } else {
        digits_val(p.drop_last()) * 10 + (p.last() as u32 - 48)
    }
}

proof fn lemma_digits_val_nonneg(p: Seq<char>)
    requires
        forall|i: int| 0 <= i < p.len() ==> 48 <= #[trigger] p[i] as u32 <= 57,
    ensures
        digits_val(p) >= 0,
    decreases p.len(),
{
    if p.len() > 0 {
        lemma_digits_val_nonneg(p.drop_last());
    }
}

/// A digit string's value only grows as digits are appended.
proof fn lemma_digits_val_prefix(p: Seq<char>, j: int)
    requires
        0 <= j <= p.len(),
        forall|i: int| 0 <= i < p.len() ==> 48 <= #[trigger] p[i] as u32 <= 57,
    ensures
        digits_val(p.take(j)) <= digits_val(p),
    decreases p.len() - j,
{
    if j == p.len() {
        assert(p.take(j) =~= p);
    } else {
        lemma_digits_val_prefix(p, j + 1);
        assert(p.take(j + 1).drop_last() =~= p.take(j));
        assert(p.take(j + 1).last() == p[j]);
        lemma_digits_val_nonneg(p.take(j));
    }
}

/// The typed segment a rendered part denotes: the boolean words, `-digits`
/// as a negative signed value, `digits` followed by `i` as a non-negative
/// signed value, bare digits as an unsigned value, anything else as a
/// string. A number that does not fit its type falls through to the string
/// case.
pub open spec fn seg_of_part(p: Seq<char>) -> Seg {
    if p == seq!['t', 'r', 'u', 'e'] {
        Seg::Bool(true)
    } else if p == seq!['f', 'a', 'l', 's', 'e'] {
        Seg::Bool(false)
    } else if p.len() >= 2 && p[0] == '-' && is_digits(p.skip(1)) && digits_val(p.skip(1))
        <= 0x8000000000000000 {
        Seg::I64((-digits_val(p.skip(1))) as i64)
    } else if p.len() >= 2 && p[p.len() - 1] == 'i' && is_digits(p.take(p.len() - 1))
        && digits_val(p.take(p.len() - 1)) <= i64::MAX as int {
        Seg::I64(digits_val(p.take(p.len() - 1)) as i64)
    } else if is_digits(p) && digits_val(p) <= u64::MAX as int {
        Seg::U64(digits_val(p) as u64)
    } else {
        Seg::Str(p)
    }
}

/// The rendered form split at unescaped colons, with `\:` read back as a
/// literal colon and a stray backslash dropped. There is always at least
/// one part; an empty string is one empty part.
pub open spec fn unescape_split(s: Seq<char>) -> Seq<Seq<char>>
    decreases s.len(),
{
    if s.len() == 0 {
        seq![Seq::<char>::empty()]
    } else if s[0] == '\\' && s.len() > 1 && s[1] == ':' {
        let r = unescape_split(s.skip(2));
        seq![seq![':'] + r[0]] + r.skip(1)
    } else if s[0] == '\\' {
        unescape_split(s.skip(1))
    } else if s[0] == ':' {
        seq![Seq::<char>::empty()] + unescape_split(s.skip(1))
    } else {
        let r = unescape_split(s.skip(1));
        seq![seq![s[0]] + r[0]] + r.skip(1)
    }
}

proof fn lemma_unescape_len(s: Seq<char>)
    ensures
        unescape_split(s).len() >= 1,
    decreases s.len(),
{
    if s.len() == 0 {
    } else if s[0] == '\\' && s.len() > 1 && s[1] == ':' {
        lemma_unescape_len(s.skip(2));
    } else if s[0] == '\\' {
        lemma_unescape_len(s.skip(1));
    } else if s[0] == ':' {
        lemma_unescape_len(s.skip(1));
    } else {
        lemma_unescape_len(s.skip(1));
    }
}

/// The segments the parts denote, in order.
pub open spec fn parts_segs(parts: Seq<Seq<char>>) -> Seq<Seg> {
    parts.map_values(|p: Seq<char>| seg_of_part(p))
}

/// Reads the decimal number in `cs[from..to]`: `None` when the range is
/// empty, holds a non-digit, or denotes a number above `u64::MAX`.
fn parse_digits(cs: &Vec<char>, from: usize, to: usize) -> (r: Option<u64>)
    requires
        from <= to <= cs@.len(),
    ensures
        r is Some <==> (is_digits(cs@.subrange(from as int, to as int)) && digits_val(
            cs@.subrange(from as int, to as int),
        ) <= u64::MAX as int),
        r matches Some(v) ==> v as int == digits_val(cs@.subrange(from as int, to as int)),
{
    let ghost whole = cs@.subrange(from as int, to as int);
    if from == to {
        return None;
    }
    let mut acc: u64 = 0;
    let mut i = from;
    while i < to
        invariant
            from <= i <= to <= cs@.len(),
            whole == cs@.subrange(from as int, to as int),
            forall|j: int| from <= j < i ==> 48 <= #[trigger] cs@[j] as u32 <= 57,
            acc as int == digits_val(cs@.subrange(from as int, i as int)),
        decreases to - i,
    {
        let c = cs[i];
        let cv = c as u32;
        if cv < 48 || cv > 57 {
            proof {
                assert(whole[i - from] == cs@[i as int]);
                assert(!is_digits(whole));
            }
            return None;
        }
        let d = (cv - 48) as u64;
        proof {
            assert(d as int == cs@[i as int] as u32 - 48);
        }
        if acc > (u64::MAX - d) / 10 {
            proof {
                assert(acc as int * 10 + d as int > u64::MAX as int) by (nonlinear_arith)
                    requires
                        acc as int > (u64::MAX as int - d as int) / 10,
                        0 <= d as int <= 9,
                ;
                assert(cs@.subrange(from as int, i as int + 1).drop_last() =~= cs@.subrange(
                    from as int,
                    i as int,
                ));
                assert(digits_val(cs@.subrange(from as int, i as int + 1)) > u64::MAX as int);
                if is_digits(whole) {
                    assert(forall|j: int|
                        0 <= j < whole.len() ==> 48 <= #[trigger] whole[j] as u32 <= 57);
                    assert(forall|j: int|
                        0 <= j < whole.len() ==> whole[j] == cs@[from + j]);
                    assert(whole.take(i - from + 1) =~= cs@.subrange(from as int, i as int + 1));
                    lemma_digits_val_prefix(whole, i - from + 1);
                }
            }
            return None;
        }
        acc = acc * 10 + d;
        proof {
            assert(cs@.subrange(from as int, i as int + 1).drop_last() =~= cs@.subrange(
                from as int,
                i as int,
            ));
            assert(cs@.subrange(from as int, i as int + 1).last() == cs@[i as int]);
        }
        i += 1;
    }
    proof {
        assert(whole =~= cs@.subrange(from as int, to as int));
        assert(forall|j: int| 0 <= j < whole.len() ==> whole[j] == cs@[from + j]);
        assert(is_digits(whole));
    }
    Some(acc)
}

/// Appends to the key the segment a rendered part denotes.
#[verifier::rlimit(60)]
fn push_part(key: &mut KvKey, part: &Vec<char>)
    ensures
        final(key)@ == old(key)@ + spec_encode_seg(seg_of_part(part@)),
{
    let n = part.len();
    if n == 4 && part[0] == 't' && part[1] == 'r' && part[2] == 'u' && part[3] == 'e' {
        proof {
            assert(part@ =~= seq!['t', 'r', 'u', 'e']);
        }
        key.push(&true);
        return;
    }
    proof {
        assert(part@ != seq!['t', 'r', 'u', 'e']) by {
            if part@ == seq!['t', 'r', 'u', 'e'] {
                assert(part@[0] == 't' && part@[1] == 'r' && part@[2] == 'u' && part@[3] == 'e');
            }
        }
    }
    if n == 5 && part[0] == 'f' && part[1] == 'a' && part[2] == 'l' && part[3] == 's' && part[4]
        == 'e' {
        proof {
            assert(part@ =~= seq!['f', 'a', 'l', 's', 'e']);
        }
        key.push(&false);
        return;
    }
    proof {
        assert(part@ != seq!['f', 'a', 'l', 's', 'e']) by {
            if part@ == seq!['f', 'a', 'l', 's', 'e'] {
                assert(part@[0] == 'f' && part@[1] == 'a' && part@[2] == 'l' && part@[3] == 's'
                    && part@[4] == 'e');
            }
        }
    }
    if n >= 2 && part[0] == '-' {
        let md = parse_digits(part, 1, n);
        proof {
            assert(part@.subrange(1, n as int) =~= part@.skip(1));
        }
        if let Some(m) = md {
            if m <= 0x8000000000000000u64 {
                let v: i64 = if m == 0x8000000000000000u64 {
                    i64::MIN
                } else {
                    -(m as i64)
                };
                proof {
                    assert(v as int == -(digits_val(part@.skip(1))));
                    assert(seg_of_part(part@) == Seg::I64(v));
                }
                key.push(&v);
                return;
            }
        }
    }
    proof {
        assert(!(part@.len() >= 2 && part@[0] == '-' && is_digits(part@.skip(1)) && digits_val(
            part@.skip(1),
        ) <= 0x8000000000000000));
    }
    if n >= 2 && part[n - 1] == 'i' {
        let md = parse_digits(part, 0, n - 1);
        proof {
            assert(part@.subrange(0, n - 1) =~= part@.take(n - 1));
        }
        if let Some(m) = md {
            if m <= 0x7fffffffffffffffu64 {
                let v: i64 = m as i64;
                proof {
                    assert(seg_of_part(part@) == Seg::I64(v));
                }
                key.push(&v);
                return;
            }
        }
    }
    proof {
        assert(!(part@.len() >= 2 && part@[part@.len() - 1] == 'i' && is_digits(
            part@.take(part@.len() - 1),
        ) && digits_val(part@.take(part@.len() - 1)) <= i64::MAX as int));
    }
    let md = parse_digits(part, 0, n);
    proof {
        assert(part@.subrange(0, n as int) =~= part@);
    }
    if let Some(m) = md {
        proof {
            assert(seg_of_part(part@) == Seg::U64(m));
        }
        key.push(&m);
        return;
    }
    let s = chars_to_string(part);
    proof {
        assert(seg_of_part(part@) == Seg::Str(part@));
    }
    key.push(&s);
}

/// The parts a list of buffers denotes, by their contents.
pub open spec fn vviews(ps: Seq<Vec<char>>) -> Seq<Seq<char>> {
    ps.map_values(|p: Vec<char>| p@)
}

/// Reads a rendered key back into a binary key, part by part. This is a
/// best-effort heuristic for debugging and export: every input produces
/// some key.
#[verifier::rlimit(60)]
pub fn parse_display_string_to_key(display: &str) -> (r: Option<KvKey>)
    ensures
        r is Some,
        r matches Some(k) ==> k@ == spec_encode_segs(parts_segs(unescape_split(display@))),
{
    let cs = str_to_chars(display);
    let ghost full = cs@;
    let n = cs.len();
    let mut parts: Vec<Vec<char>> = Vec::new();
    let mut cur: Vec<char> = Vec::new();
    let mut i: usize = 0;
    proof {
        lemma_unescape_len(full);
        assert(cs@.skip(0) =~= cs@);
        assert(vviews(parts@) =~~= Seq::<Seq<char>>::empty());
        assert(unescape_split(full) =~~= vviews(parts@) + seq![
            cur@ + unescape_split(full)[0],
        ] + unescape_split(full).skip(1));
    }
    while i < n
        invariant
            0 <= i <= n,
            n == cs@.len(),
            full == cs@,
            full == display@,
            unescape_split(full) == vviews(parts@) + seq![
                cur@ + unescape_split(cs@.skip(i as int))[0],
            ] + unescape_split(cs@.skip(i as int)).skip(1),
        decreases n - i,
    {
        let c = cs[i];
        proof {
            assert(cs@.skip(i as int)[0] == c);
            assert(cs@.skip(i as int).skip(1) =~= cs@.skip(i as int + 1));
            lemma_unescape_len(cs@.skip(i as int + 1));
            if i + 1 < n {
                assert(cs@.skip(i as int)[1] == cs@[i as int + 1]);
            }
        }
        let ghost u_here = unescape_split(cs@.skip(i as int));
        let ghost parts0 = parts@;
        let ghost cur0 = cur@;
        if c == '\\' {
            if i + 1 < n && cs[i + 1] == ':' {
                cur.push(':');
                proof {
                    assert(cs@.skip(i as int).skip(2) =~= cs@.skip(i as int + 2));
                    lemma_unescape_len(cs@.skip(i as int + 2));
                    let u_next = unescape_split(cs@.skip(i as int + 2));
                    assert(u_here == seq![seq![':'] + u_next[0]] + u_next.skip(1));
                    assert(unescape_split(full) =~~= vviews(parts@) + seq![
                        cur@ + u_next[0],
                    ] + u_next.skip(1));
                }
                i += 2;
            } else {
                proof {
                    assert(u_here == unescape_split(cs@.skip(i as int + 1)));
                }
                i += 1;
            }
        } else if c == ':' {
            parts.push(cur);
            cur = Vec::new();
            proof {
                let u_next = unescape_split(cs@.skip(i as int + 1));
                assert(u_here == seq![Seq::<char>::empty()] + u_next);
                assert(vviews(parts@) =~~= vviews(parts0).push(cur0));
                assert(u_next =~~= seq![u_next[0]] + u_next.skip(1));
                assert(unescape_split(full) =~~= vviews(parts@) + seq![
                    cur@ + u_next[0],
                ] + u_next.skip(1));
            }
            i += 1;
        } else {
            cur.push(c);
            proof {
                let u_next = unescape_split(cs@.skip(i as int + 1));
                assert(u_here == seq![seq![c] + u_next[0]] + u_next.skip(1));
                assert(unescape_split(full) =~~= vviews(parts@) + seq![
                    cur@ + u_next[0],
                ] + u_next.skip(1));
            }
            i += 1;
        }
    }
    let ghost parts0 = parts@;
    let ghost cur0 = cur@;
    parts.push(cur);
    proof {
        assert(cs@.skip(n as int) =~= Seq::<char>::empty());
        assert(unescape_split(cs@.skip(n as int)) == seq![Seq::<char>::empty()]);
        assert(vviews(parts@) =~~= vviews(parts0).push(cur0));
        assert(unescape_split(full) =~~= vviews(parts@));
    }
    let ghost pv = vviews(parts@);
    let mut key = KvKey::new();
    let m = parts.len();
    let mut j: usize = 0;
    while j < m
        invariant
            0 <= j <= m,
            m == parts@.len(),
            pv == vviews(parts@),
            key@ == spec_encode_segs(parts_segs(pv).take(j as int)),
        decreases m - j,
    {
        let ghost key0 = key@;
        push_part(&mut key, &parts[j]);
        proof {
            assert(parts_segs(pv)[j as int] == seg_of_part(parts@[j as int]@));
            assert(parts_segs(pv).take(j as int + 1) =~= parts_segs(pv).take(j as int).push(
                parts_segs(pv)[j as int],
            ));
            crate::kv_key::lemma_encode_segs_snoc(
                parts_segs(pv).take(j as int),
                parts_segs(pv)[j as int],
            );
        }
        j += 1;
    }
    proof {
        assert(parts_segs(pv).take(m as int) =~= parts_segs(pv));
        assert(pv == unescape_split(display@));
    }
    Some(key)
}

} // verus!
