//! The ordered binary key: an immutable byte sequence built from typed
//! segments, compared byte-wise.

use crate::bytes_order::{all_ff, is_prefix, spec_successor};
use crate::segment::{
    push_be64, spec_encode_seg, spec_encode_segs, Seg, TAG_BOOL, TAG_I64, TAG_STRING, TAG_U64,
};
use vstd::prelude::*;
use vstd::string::StrSliceExecFns;

verus! {

/// A composite binary key. Its bytes are the concatenation of encoded
/// segments; keys compare by their raw bytes.
#[derive(Debug)]
pub struct KvKey(pub Vec<u8>);

impl View for KvKey {
    type V = Seq<u8>;

    open spec fn view(&self) -> Seq<u8> {
        self.0@
    }
}

impl Clone for KvKey {
    fn clone(&self) -> (r: KvKey)
        ensures
            r@ == self@,
    {
        KvKey(self.0.clone())
    }
}

/// A value that can stand as one typed segment of a composite key.
pub trait KeySegment {
    /// The segment value this datum denotes.
    spec fn seg(&self) -> Seg;

    /// Appends the tagged encoding of this segment to a key buffer.
    fn encode_into(&self, out: &mut Vec<u8>)
        ensures
            final(out)@ == old(out)@ + spec_encode_seg(self.seg()),
    ;
}

impl KeySegment for u64 {
    open spec fn seg(&self) -> Seg {
        Seg::U64(*self)
    }

    fn encode_into(&self, out: &mut Vec<u8>) {
        out.push(TAG_U64);
        push_be64(out, *self);
        proof {
            assert(out@ =~= old(out)@ + spec_encode_seg(self.seg()));
        }
    }
}

impl KeySegment for i64 {
    open spec fn seg(&self) -> Seg {
        Seg::I64(*self)
    }

    fn encode_into(&self, out: &mut Vec<u8>) {
        out.push(TAG_I64);
        push_be64(out, #[verifier::truncate] (*self as u64));
        proof {
            assert(out@ =~= old(out)@ + spec_encode_seg(self.seg()));
        }
    }
}

impl KeySegment for bool {
    open spec fn seg(&self) -> Seg {
        Seg::Bool(*self)
    }

    fn encode_into(&self, out: &mut Vec<u8>) {
        out.push(TAG_BOOL);
        out.push(if *self { 1u8 } else { 0u8 });
        proof {
            assert(out@ =~= old(out)@ + spec_encode_seg(self.seg()));
        }
    }
}

impl KeySegment for String {
    open spec fn seg(&self) -> Seg {
        Seg::Str(self@)
    }

    fn encode_into(&self, out: &mut Vec<u8>) {
        let mut bytes = self.as_str().as_bytes_vec();
        let n = bytes.len();
        out.push(TAG_STRING);
        push_be64(out, n as u64);
        out.append(&mut bytes);
        proof {
            assert(out@ =~= old(out)@ + spec_encode_seg(self.seg()));
        }
    }
}

impl KeySegment for str {
    open spec fn seg(&self) -> Seg {
        Seg::Str(self@)
    }

    fn encode_into(&self, out: &mut Vec<u8>) {
        let mut bytes = self.as_bytes_vec();
        let n = bytes.len();
        out.push(TAG_STRING);
        push_be64(out, n as u64);
        out.append(&mut bytes);
        proof {
            assert(out@ =~= old(out)@ + spec_encode_seg(self.seg()));
        }
    }
}

impl KeySegment for &str {
    open spec fn seg(&self) -> Seg {
        Seg::Str((*self)@)
    }

    fn encode_into(&self, out: &mut Vec<u8>) {
        let mut bytes = self.as_bytes_vec();
        let n = bytes.len();
        out.push(TAG_STRING);
        push_be64(out, n as u64);
        out.append(&mut bytes);
        proof {
            assert(out@ =~= old(out)@ + spec_encode_seg(self.seg()));
        }
    }
}

// Narrower integers widen to the 64-bit encoding of their kind.
impl KeySegment for u8 {
    open spec fn seg(&self) -> Seg {
        Seg::U64(*self as u64)
    }

    fn encode_into(&self, out: &mut Vec<u8>) {
        let w: u64 = *self as u64;
        w.encode_into(out);
    }
}

impl KeySegment for u16 {
    open spec fn seg(&self) -> Seg {
        Seg::U64(*self as u64)
    }

    fn encode_into(&self, out: &mut Vec<u8>) {
        let w: u64 = *self as u64;
        w.encode_into(out);
    }
}

impl KeySegment for u32 {
    open spec fn seg(&self) -> Seg {
        Seg::U64(*self as u64)
    }

    fn encode_into(&self, out: &mut Vec<u8>) {
        let w: u64 = *self as u64;
        w.encode_into(out);
    }
}

impl KeySegment for i8 {
    open spec fn seg(&self) -> Seg {
        Seg::I64(*self as i64)
    }

    fn encode_into(&self, out: &mut Vec<u8>) {
        let w: i64 = *self as i64;
        w.encode_into(out);
    }
}

impl KeySegment for i16 {
    open spec fn seg(&self) -> Seg {
        Seg::I64(*self as i64)
    }

    fn encode_into(&self, out: &mut Vec<u8>) {
        let w: i64 = *self as i64;
        w.encode_into(out);
    }
}

impl KeySegment for i32 {
    open spec fn seg(&self) -> Seg {
        Seg::I64(*self as i64)
    }

    fn encode_into(&self, out: &mut Vec<u8>) {
        let w: i64 = *self as i64;
        w.encode_into(out);
    }
}

impl KvKey {
    /// An empty key, to be extended segment by segment.
    pub fn new() -> (k: KvKey)
        ensures
            k@ == Seq::<u8>::empty(),
    {
        KvKey(Vec::new())
    }

    /// Appends the encoding of one typed segment.
    pub fn push<S: KeySegment + ?Sized>(&mut self, part: &S)
        ensures
            final(self)@ == old(self)@ + spec_encode_seg(part.seg()),
    {
        part.encode_into(&mut self.0);
    }

    /// Whether this key's bytes begin with the bytes of `key`.
    pub fn starts_with(&self, key: &KvKey) -> (r: bool)
        ensures
            r == is_prefix(key@, self@),
    {
        if key.0.len() > self.0.len() {
            proof {
                assert(!is_prefix(key@, self@));
            }
            return false;
        }
        let n = key.0.len();
        let mut i: usize = 0;
        while i < n
            invariant
                0 <= i <= n,
                n == key@.len() <= self@.len(),
                forall|j: int| 0 <= j < i ==> key@[j] == self@[j],
            decreases n - i,
        {
            if self.0[i] != key.0[i] {
                proof {
                    assert(self@.take(n as int)[i as int] != key@[i as int]);
                }
                return false;
            }
            i += 1;
        }
        proof {
            assert(self@.take(n as int) =~= key@);
        }
        true
    }

    /// The smallest key strictly greater than every key that starts with
    /// this one: the last byte that is not 0xFF is incremented and the tail
    /// is dropped. A key of all-0xFF bytes (or an empty key) has no such
    /// bound, and `None` is returned.
    pub fn successor(&self) -> (r: Option<KvKey>)
        ensures
            r is None <==> all_ff(self@),
            r matches Some(s) ==> !all_ff(self@) && s@ == spec_successor(self@),
    {
        let mut bytes = self.0.clone();
        let mut i: usize = bytes.len();
        while i > 0
            invariant
                0 <= i <= bytes.len(),
                bytes@ == self@,
                forall|j: int| i <= j < bytes@.len() ==> bytes@[j] == 0xFFu8,
            decreases i,
        {
            if bytes[i - 1] != 0xFF {
                let b = bytes[i - 1];
                bytes.set(i - 1, b + 1);
                bytes.truncate(i);
                proof {
                    crate::bytes_order::lemma_successor_shape(self@);
                    lemma_last_non_ff_witness(self@, i as int - 1);
                    assert(bytes@ =~= self@.take(i as int - 1).push((self@[i as int - 1] + 1) as u8));
                }
                return Some(KvKey(bytes));
            }
            i -= 1;
        }
        None
    }
}

proof fn lemma_last_non_ff_witness(b: Seq<u8>, i: int)
    requires
        0 <= i < b.len(),
        b[i] != 0xFFu8,
        forall|j: int| i < j < b.len() ==> b[j] == 0xFFu8,
    ensures
        crate::bytes_order::last_non_ff(b) == i,
        !all_ff(b),
    decreases b.len(),
{
    if i == b.len() - 1 {
    } else {
        lemma_last_non_ff_witness(b.drop_last(), i);
    }
}

/// A value, or tuple of values, that denotes a whole composite key.
pub trait IntoKey {
    /// The bytes of the key this value denotes.
    spec fn key_bytes(&self) -> Seq<u8>;

    /// Builds the key.
    fn to_key(&self) -> (k: KvKey)
        ensures
            k@ == self.key_bytes(),
    ;
}

impl IntoKey for KvKey {
    open spec fn key_bytes(&self) -> Seq<u8> {
        self@
    }

    fn to_key(&self) -> (k: KvKey) {
        self.clone()
    }
}

/// Appending one segment to a key extends the encoding by that segment's
/// bytes.
pub proof fn lemma_encode_segs_snoc(gs: Seq<Seg>, g: Seg)
    ensures
        spec_encode_segs(gs.push(g)) == spec_encode_segs(gs) + spec_encode_seg(g),
    decreases gs.len(),
{
    if gs.len() == 0 {
        assert(gs.push(g)[0] == g);
        assert(gs.push(g).skip(1) =~= Seq::<Seg>::empty());
        assert(spec_encode_segs(Seq::<Seg>::empty()) =~= Seq::<u8>::empty());
        assert(spec_encode_segs(gs.push(g)) =~= spec_encode_seg(g));
        assert(spec_encode_segs(gs) + spec_encode_seg(g) =~= spec_encode_seg(g));
    } else {
        lemma_encode_segs_snoc(gs.skip(1), g);
        assert(gs.push(g).skip(1) =~= gs.skip(1).push(g));
        assert(gs.push(g)[0] == gs[0]);
        assert(spec_encode_seg(gs[0]) + (spec_encode_segs(gs.skip(1)) + spec_encode_seg(g)) =~= (
        spec_encode_seg(gs[0]) + spec_encode_segs(gs.skip(1))) + spec_encode_seg(g));
    }
}

proof fn lemma_single_seg(g: Seg, b: Seq<u8>)
    requires
        b == Seq::<u8>::empty() + spec_encode_seg(g),
    ensures
        b == spec_encode_segs(seq![g]),
{
    assert(seq![g].skip(1) =~= Seq::<Seg>::empty());
    assert(spec_encode_segs(seq![g].skip(1)) =~= Seq::<u8>::empty());
    assert(b =~= spec_encode_seg(g) + spec_encode_segs(seq![g].skip(1)));
}

impl IntoKey for u64 {
    open spec fn key_bytes(&self) -> Seq<u8> {
        spec_encode_segs(seq![self.seg()])
    }

    fn to_key(&self) -> (k: KvKey) {
        let mut key = KvKey::new();
        key.push(self);
        proof {
            lemma_single_seg(self.seg(), key@);
        }
        key
    }
}

impl IntoKey for i64 {
    open spec fn key_bytes(&self) -> Seq<u8> {
        spec_encode_segs(seq![self.seg()])
    }

    fn to_key(&self) -> (k: KvKey) {
        let mut key = KvKey::new();
        key.push(self);
        proof {
            lemma_single_seg(self.seg(), key@);
        }
        key
    }
}

impl IntoKey for bool {
    open spec fn key_bytes(&self) -> Seq<u8> {
        spec_encode_segs(seq![self.seg()])
    }

    fn to_key(&self) -> (k: KvKey) {
        let mut key = KvKey::new();
        key.push(self);
        proof {
            lemma_single_seg(self.seg(), key@);
        }
        key
    }
}

impl IntoKey for String {
    open spec fn key_bytes(&self) -> Seq<u8> {
        spec_encode_segs(seq![self.seg()])
    }

    fn to_key(&self) -> (k: KvKey) {
        let mut key = KvKey::new();
        key.push(self);
        proof {
            lemma_single_seg(self.seg(), key@);
        }
        key
    }
}

impl IntoKey for &str {
    open spec fn key_bytes(&self) -> Seq<u8> {
        spec_encode_segs(seq![self.seg()])
    }

    fn to_key(&self) -> (k: KvKey) {
        let mut key = KvKey::new();
        key.push(self);
        proof {
            lemma_single_seg(self.seg(), key@);
        }
        key
    }
}

impl<A: KeySegment> IntoKey for (A,) {
    open spec fn key_bytes(&self) -> Seq<u8> {
        spec_encode_segs(seq![self.0.seg()])
    }

    fn to_key(&self) -> (k: KvKey) {
        let mut key = KvKey::new();
        key.push(&self.0);
        proof {
            assert(seq![self.0.seg()] =~= Seq::<Seg>::empty().push(self.0.seg()));
            assert(spec_encode_segs(Seq::<Seg>::empty()) =~= Seq::<u8>::empty());
            lemma_encode_segs_snoc(Seq::<Seg>::empty(), self.0.seg());
            assert(key@ =~= spec_encode_segs(seq![self.0.seg()]));
        }
        key
    }
}

impl<A: KeySegment, B: KeySegment> IntoKey for (A, B) {
    open spec fn key_bytes(&self) -> Seq<u8> {
        spec_encode_segs(seq![self.0.seg(), self.1.seg()])
    }

    fn to_key(&self) -> (k: KvKey) {
        let mut key = KvKey::new();
        key.push(&self.0);
        key.push(&self.1);
        proof {
            assert(seq![self.0.seg(), self.1.seg()] =~= Seq::<Seg>::empty().push(self.0.seg()).push(self.1.seg()));
            assert(spec_encode_segs(Seq::<Seg>::empty()) =~= Seq::<u8>::empty());
            lemma_encode_segs_snoc(Seq::<Seg>::empty(), self.0.seg());
            lemma_encode_segs_snoc(Seq::<Seg>::empty().push(self.0.seg()), self.1.seg());
            assert(key@ =~= spec_encode_segs(seq![self.0.seg(), self.1.seg()]));
        }
        key
    }
}

impl<A: KeySegment, B: KeySegment, C: KeySegment> IntoKey for (A, B, C) {
    open spec fn key_bytes(&self) -> Seq<u8> {
        spec_encode_segs(seq![self.0.seg(), self.1.seg(), self.2.seg()])
    }

    fn to_key(&self) -> (k: KvKey) {
        let mut key = KvKey::new();
        key.push(&self.0);
        key.push(&self.1);
        key.push(&self.2);
        proof {
            assert(seq![self.0.seg(), self.1.seg(), self.2.seg()] =~= Seq::<Seg>::empty().push(self.0.seg()).push(self.1.seg()).push(self.2.seg()));
            assert(spec_encode_segs(Seq::<Seg>::empty()) =~= Seq::<u8>::empty());
            lemma_encode_segs_snoc(Seq::<Seg>::empty(), self.0.seg());
            lemma_encode_segs_snoc(Seq::<Seg>::empty().push(self.0.seg()), self.1.seg());
            lemma_encode_segs_snoc(Seq::<Seg>::empty().push(self.0.seg()).push(self.1.seg()), self.2.seg());
            assert(key@ =~= spec_encode_segs(seq![self.0.seg(), self.1.seg(), self.2.seg()]));
        }
        key
    }
}

impl<A: KeySegment, B: KeySegment, C: KeySegment, D: KeySegment> IntoKey for (A, B, C, D) {
    open spec fn key_bytes(&self) -> Seq<u8> {
        spec_encode_segs(seq![self.0.seg(), self.1.seg(), self.2.seg(), self.3.seg()])
    }

    fn to_key(&self) -> (k: KvKey) {
        let mut key = KvKey::new();
        key.push(&self.0);
        key.push(&self.1);
        key.push(&self.2);
        key.push(&self.3);
        proof {
            assert(seq![self.0.seg(), self.1.seg(), self.2.seg(), self.3.seg()] =~= Seq::<Seg>::empty().push(self.0.seg()).push(self.1.seg()).push(self.2.seg()).push(self.3.seg()));
            assert(spec_encode_segs(Seq::<Seg>::empty()) =~= Seq::<u8>::empty());
            lemma_encode_segs_snoc(Seq::<Seg>::empty(), self.0.seg());
            lemma_encode_segs_snoc(Seq::<Seg>::empty().push(self.0.seg()), self.1.seg());
            lemma_encode_segs_snoc(Seq::<Seg>::empty().push(self.0.seg()).push(self.1.seg()), self.2.seg());
            lemma_encode_segs_snoc(Seq::<Seg>::empty().push(self.0.seg()).push(self.1.seg()).push(self.2.seg()), self.3.seg());
            assert(key@ =~= spec_encode_segs(seq![self.0.seg(), self.1.seg(), self.2.seg(), self.3.seg()]));
        }
        key
    }
}

impl<A: KeySegment, B: KeySegment, C: KeySegment, D: KeySegment, E: KeySegment> IntoKey for (A, B, C, D, E) {
    open spec fn key_bytes(&self) -> Seq<u8> {
        spec_encode_segs(seq![self.0.seg(), self.1.seg(), self.2.seg(), self.3.seg(), self.4.seg()])
    }

    fn to_key(&self) -> (k: KvKey) {
        let mut key = KvKey::new();
        key.push(&self.0);
        key.push(&self.1);
        key.push(&self.2);
        key.push(&self.3);
        key.push(&self.4);
        proof {
            assert(seq![self.0.seg(), self.1.seg(), self.2.seg(), self.3.seg(), self.4.seg()] =~= Seq::<Seg>::empty().push(self.0.seg()).push(self.1.seg()).push(self.2.seg()).push(self.3.seg()).push(self.4.seg()));
            assert(spec_encode_segs(Seq::<Seg>::empty()) =~= Seq::<u8>::empty());
            lemma_encode_segs_snoc(Seq::<Seg>::empty(), self.0.seg());
            lemma_encode_segs_snoc(Seq::<Seg>::empty().push(self.0.seg()), self.1.seg());
            lemma_encode_segs_snoc(Seq::<Seg>::empty().push(self.0.seg()).push(self.1.seg()), self.2.seg());
            lemma_encode_segs_snoc(Seq::<Seg>::empty().push(self.0.seg()).push(self.1.seg()).push(self.2.seg()), self.3.seg());
            lemma_encode_segs_snoc(Seq::<Seg>::empty().push(self.0.seg()).push(self.1.seg()).push(self.2.seg()).push(self.3.seg()), self.4.seg());
            assert(key@ =~= spec_encode_segs(seq![self.0.seg(), self.1.seg(), self.2.seg(), self.3.seg(), self.4.seg()]));
        }
        key
    }
}

impl<A: KeySegment, B: KeySegment, C: KeySegment, D: KeySegment, E: KeySegment, F: KeySegment> IntoKey for (A, B, C, D, E, F) {
    open spec fn key_bytes(&self) -> Seq<u8> {
        spec_encode_segs(seq![self.0.seg(), self.1.seg(), self.2.seg(), self.3.seg(), self.4.seg(), self.5.seg()])
    }

    fn to_key(&self) -> (k: KvKey) {
        let mut key = KvKey::new();
        key.push(&self.0);
        key.push(&self.1);
        key.push(&self.2);
        key.push(&self.3);
        key.push(&self.4);
        key.push(&self.5);
        proof {
            assert(seq![self.0.seg(), self.1.seg(), self.2.seg(), self.3.seg(), self.4.seg(), self.5.seg()] =~= Seq::<Seg>::empty().push(self.0.seg()).push(self.1.seg()).push(self.2.seg()).push(self.3.seg()).push(self.4.seg()).push(self.5.seg()));
            assert(spec_encode_segs(Seq::<Seg>::empty()) =~= Seq::<u8>::empty());
            lemma_encode_segs_snoc(Seq::<Seg>::empty(), self.0.seg());
            lemma_encode_segs_snoc(Seq::<Seg>::empty().push(self.0.seg()), self.1.seg());
            lemma_encode_segs_snoc(Seq::<Seg>::empty().push(self.0.seg()).push(self.1.seg()), self.2.seg());
            lemma_encode_segs_snoc(Seq::<Seg>::empty().push(self.0.seg()).push(self.1.seg()).push(self.2.seg()), self.3.seg());
            lemma_encode_segs_snoc(Seq::<Seg>::empty().push(self.0.seg()).push(self.1.seg()).push(self.2.seg()).push(self.3.seg()), self.4.seg());
            lemma_encode_segs_snoc(Seq::<Seg>::empty().push(self.0.seg()).push(self.1.seg()).push(self.2.seg()).push(self.3.seg()).push(self.4.seg()), self.5.seg());
            assert(key@ =~= spec_encode_segs(seq![self.0.seg(), self.1.seg(), self.2.seg(), self.3.seg(), self.4.seg(), self.5.seg()]));
        }
        key
    }
}

impl<A: KeySegment, B: KeySegment, C: KeySegment, D: KeySegment, E: KeySegment, F: KeySegment, G: KeySegment> IntoKey for (A, B, C, D, E, F, G) {
    open spec fn key_bytes(&self) -> Seq<u8> {
        spec_encode_segs(seq![self.0.seg(), self.1.seg(), self.2.seg(), self.3.seg(), self.4.seg(), self.5.seg(), self.6.seg()])
    }

    fn to_key(&self) -> (k: KvKey) {
        let mut key = KvKey::new();
        key.push(&self.0);
        key.push(&self.1);
        key.push(&self.2);
        key.push(&self.3);
        key.push(&self.4);
        key.push(&self.5);
        key.push(&self.6);
        proof {
            assert(seq![self.0.seg(), self.1.seg(), self.2.seg(), self.3.seg(), self.4.seg(), self.5.seg(), self.6.seg()] =~= Seq::<Seg>::empty().push(self.0.seg()).push(self.1.seg()).push(self.2.seg()).push(self.3.seg()).push(self.4.seg()).push(self.5.seg()).push(self.6.seg()));
            assert(spec_encode_segs(Seq::<Seg>::empty()) =~= Seq::<u8>::empty());
            lemma_encode_segs_snoc(Seq::<Seg>::empty(), self.0.seg());
            lemma_encode_segs_snoc(Seq::<Seg>::empty().push(self.0.seg()), self.1.seg());
            lemma_encode_segs_snoc(Seq::<Seg>::empty().push(self.0.seg()).push(self.1.seg()), self.2.seg());
            lemma_encode_segs_snoc(Seq::<Seg>::empty().push(self.0.seg()).push(self.1.seg()).push(self.2.seg()), self.3.seg());
            lemma_encode_segs_snoc(Seq::<Seg>::empty().push(self.0.seg()).push(self.1.seg()).push(self.2.seg()).push(self.3.seg()), self.4.seg());
            lemma_encode_segs_snoc(Seq::<Seg>::empty().push(self.0.seg()).push(self.1.seg()).push(self.2.seg()).push(self.3.seg()).push(self.4.seg()), self.5.seg());
            lemma_encode_segs_snoc(Seq::<Seg>::empty().push(self.0.seg()).push(self.1.seg()).push(self.2.seg()).push(self.3.seg()).push(self.4.seg()).push(self.5.seg()), self.6.seg());
            assert(key@ =~= spec_encode_segs(seq![self.0.seg(), self.1.seg(), self.2.seg(), self.3.seg(), self.4.seg(), self.5.seg(), self.6.seg()]));
        }
        key
    }
}

impl<A: KeySegment, B: KeySegment, C: KeySegment, D: KeySegment, E: KeySegment, F: KeySegment, G: KeySegment, H: KeySegment> IntoKey for (A, B, C, D, E, F, G, H) {
    open spec fn key_bytes(&self) -> Seq<u8> {
        spec_encode_segs(seq![self.0.seg(), self.1.seg(), self.2.seg(), self.3.seg(), self.4.seg(), self.5.seg(), self.6.seg(), self.7.seg()])
    }

    fn to_key(&self) -> (k: KvKey) {
        let mut key = KvKey::new();
        key.push(&self.0);
        key.push(&self.1);
        key.push(&self.2);
        key.push(&self.3);
        key.push(&self.4);
        key.push(&self.5);
        key.push(&self.6);
        key.push(&self.7);
        proof {
            assert(seq![self.0.seg(), self.1.seg(), self.2.seg(), self.3.seg(), self.4.seg(), self.5.seg(), self.6.seg(), self.7.seg()] =~= Seq::<Seg>::empty().push(self.0.seg()).push(self.1.seg()).push(self.2.seg()).push(self.3.seg()).push(self.4.seg()).push(self.5.seg()).push(self.6.seg()).push(self.7.seg()));
            assert(spec_encode_segs(Seq::<Seg>::empty()) =~= Seq::<u8>::empty());
            lemma_encode_segs_snoc(Seq::<Seg>::empty(), self.0.seg());
            lemma_encode_segs_snoc(Seq::<Seg>::empty().push(self.0.seg()), self.1.seg());
            lemma_encode_segs_snoc(Seq::<Seg>::empty().push(self.0.seg()).push(self.1.seg()), self.2.seg());
            lemma_encode_segs_snoc(Seq::<Seg>::empty().push(self.0.seg()).push(self.1.seg()).push(self.2.seg()), self.3.seg());
            lemma_encode_segs_snoc(Seq::<Seg>::empty().push(self.0.seg()).push(self.1.seg()).push(self.2.seg()).push(self.3.seg()), self.4.seg());
            lemma_encode_segs_snoc(Seq::<Seg>::empty().push(self.0.seg()).push(self.1.seg()).push(self.2.seg()).push(self.3.seg()).push(self.4.seg()), self.5.seg());
            lemma_encode_segs_snoc(Seq::<Seg>::empty().push(self.0.seg()).push(self.1.seg()).push(self.2.seg()).push(self.3.seg()).push(self.4.seg()).push(self.5.seg()), self.6.seg());
            lemma_encode_segs_snoc(Seq::<Seg>::empty().push(self.0.seg()).push(self.1.seg()).push(self.2.seg()).push(self.3.seg()).push(self.4.seg()).push(self.5.seg()).push(self.6.seg()), self.7.seg());
            assert(key@ =~= spec_encode_segs(seq![self.0.seg(), self.1.seg(), self.2.seg(), self.3.seg(), self.4.seg(), self.5.seg(), self.6.seg(), self.7.seg()]));
        }
        key
    }
}

impl<A: KeySegment, B: KeySegment, C: KeySegment, D: KeySegment, E: KeySegment, F: KeySegment, G: KeySegment, H: KeySegment, I: KeySegment> IntoKey for (A, B, C, D, E, F, G, H, I) {
    open spec fn key_bytes(&self) -> Seq<u8> {
        spec_encode_segs(seq![self.0.seg(), self.1.seg(), self.2.seg(), self.3.seg(), self.4.seg(), self.5.seg(), self.6.seg(), self.7.seg(), self.8.seg()])
    }

    fn to_key(&self) -> (k: KvKey) {
        let mut key = KvKey::new();
        key.push(&self.0);
        key.push(&self.1);
        key.push(&self.2);
        key.push(&self.3);
        key.push(&self.4);
        key.push(&self.5);
        key.push(&self.6);
        key.push(&self.7);
        key.push(&self.8);
        proof {
            assert(seq![self.0.seg(), self.1.seg(), self.2.seg(), self.3.seg(), self.4.seg(), self.5.seg(), self.6.seg(), self.7.seg(), self.8.seg()] =~= Seq::<Seg>::empty().push(self.0.seg()).push(self.1.seg()).push(self.2.seg()).push(self.3.seg()).push(self.4.seg()).push(self.5.seg()).push(self.6.seg()).push(self.7.seg()).push(self.8.seg()));
            assert(spec_encode_segs(Seq::<Seg>::empty()) =~= Seq::<u8>::empty());
            lemma_encode_segs_snoc(Seq::<Seg>::empty(), self.0.seg());
            lemma_encode_segs_snoc(Seq::<Seg>::empty().push(self.0.seg()), self.1.seg());
            lemma_encode_segs_snoc(Seq::<Seg>::empty().push(self.0.seg()).push(self.1.seg()), self.2.seg());
            lemma_encode_segs_snoc(Seq::<Seg>::empty().push(self.0.seg()).push(self.1.seg()).push(self.2.seg()), self.3.seg());
            lemma_encode_segs_snoc(Seq::<Seg>::empty().push(self.0.seg()).push(self.1.seg()).push(self.2.seg()).push(self.3.seg()), self.4.seg());
            lemma_encode_segs_snoc(Seq::<Seg>::empty().push(self.0.seg()).push(self.1.seg()).push(self.2.seg()).push(self.3.seg()).push(self.4.seg()), self.5.seg());
            lemma_encode_segs_snoc(Seq::<Seg>::empty().push(self.0.seg()).push(self.1.seg()).push(self.2.seg()).push(self.3.seg()).push(self.4.seg()).push(self.5.seg()), self.6.seg());
            lemma_encode_segs_snoc(Seq::<Seg>::empty().push(self.0.seg()).push(self.1.seg()).push(self.2.seg()).push(self.3.seg()).push(self.4.seg()).push(self.5.seg()).push(self.6.seg()), self.7.seg());
            lemma_encode_segs_snoc(Seq::<Seg>::empty().push(self.0.seg()).push(self.1.seg()).push(self.2.seg()).push(self.3.seg()).push(self.4.seg()).push(self.5.seg()).push(self.6.seg()).push(self.7.seg()), self.8.seg());
            assert(key@ =~= spec_encode_segs(seq![self.0.seg(), self.1.seg(), self.2.seg(), self.3.seg(), self.4.seg(), self.5.seg(), self.6.seg(), self.7.seg(), self.8.seg()]));
        }
        key
    }
}

} // verus!
