//! Byte-wise lexicographic order on keys, and the successor operation that
//! turns a prefix into an exclusive upper bound.

use vstd::prelude::*;

verus! {

/// Strict lexicographic order on byte sequences: `a` comes before `b` when at
/// the first differing position `a` has the smaller byte, or `a` is a proper
/// prefix of `b`.
pub open spec fn lex_lt(a: Seq<u8>, b: Seq<u8>) -> bool
    decreases a.len(),
{
    if b.len() == 0 {
        false
    } else if a.len() == 0 {
        true
    } else if a[0] < b[0] {
        true
    } else if a[0] > b[0] {
        false
    } else {
        lex_lt(a.skip(1), b.skip(1))
    }
}

pub open spec fn lex_le(a: Seq<u8>, b: Seq<u8>) -> bool {
    lex_lt(a, b) || a == b
}

/// `p` is a prefix of `b`.
pub open spec fn is_prefix(p: Seq<u8>, b: Seq<u8>) -> bool {
    p.len() <= b.len() && b.take(p.len() as int) == p
}

/// Every byte of `b` is 0xFF (vacuously true of the empty sequence).
pub open spec fn all_ff(b: Seq<u8>) -> bool {
    forall|i: int| 0 <= i < b.len() ==> b[i] == 0xFFu8
}

/// The smallest byte sequence strictly greater than every sequence that
/// starts with `b`: the last byte that is not 0xFF is incremented and
/// everything after it is dropped. Meaningful only when some byte is not 0xFF.
pub open spec fn spec_successor(b: Seq<u8>) -> Seq<u8>
    recommends
        !all_ff(b),
    decreases b.len(),
{
    if b.len() == 0 {
        Seq::empty()
    } else if b.last() != 0xFFu8 {
        b.drop_last().push((b.last() + 1) as u8)
    } else {
        spec_successor(b.drop_last())
    }
}

/// Lexicographic order is irreflexive.
pub proof fn lemma_lex_lt_irreflexive(a: Seq<u8>)
    ensures
        !lex_lt(a, a),
    decreases a.len(),
{
    if a.len() > 0 {
        lemma_lex_lt_irreflexive(a.skip(1));
    }
}

/// Exactly one of `a < b`, `a == b`, `b < a` holds.
pub proof fn lemma_lex_trichotomy(a: Seq<u8>, b: Seq<u8>)
    ensures
        lex_lt(a, b) || a == b || lex_lt(b, a),
        lex_lt(a, b) ==> !lex_lt(b, a) && a != b,
        lex_lt(b, a) ==> !lex_lt(a, b) && a != b,
    decreases a.len(),
{
    lemma_lex_lt_irreflexive(a);
    lemma_lex_lt_irreflexive(b);
    if a.len() > 0 && b.len() > 0 && a[0] == b[0] {
        lemma_lex_trichotomy(a.skip(1), b.skip(1));
        if a.skip(1) == b.skip(1) {
            assert forall|i: int| 0 <= i < a.len() implies a[i] == b[i] by {
                if i > 0 {
                    assert(a[i] == a.skip(1)[i - 1]);
                    assert(b[i] == b.skip(1)[i - 1]);
                }
            }
            assert(a =~= b);
        }
    } else if a.len() == 0 && b.len() == 0 {
        assert(a =~= b);
    }
}

/// Lexicographic order is transitive.
pub proof fn lemma_lex_transitive(a: Seq<u8>, b: Seq<u8>, c: Seq<u8>)
    requires
        lex_lt(a, b),
        lex_lt(b, c),
    ensures
        lex_lt(a, c),
    decreases a.len(),
{
    if a.len() > 0 && b.len() > 0 && c.len() > 0 {
        if a[0] == b[0] && b[0] == c[0] {
            lemma_lex_transitive(a.skip(1), b.skip(1), c.skip(1));
        }
    }
}

/// Length of the longest common prefix of `a` and `b`.
pub open spec fn lcp(a: Seq<u8>, b: Seq<u8>) -> int
    decreases a.len(),
{
    if a.len() == 0 || b.len() == 0 {
        0
    } else if a[0] != b[0] {
        0
    } else {
        1 + lcp(a.skip(1), b.skip(1))
    }
}

pub proof fn lemma_lcp_basic(a: Seq<u8>, b: Seq<u8>)
    ensures
        0 <= lcp(a, b) <= a.len(),
        lcp(a, b) <= b.len(),
        a.take(lcp(a, b)) == b.take(lcp(a, b)),
        lcp(a, b) < a.len() && lcp(a, b) < b.len() ==> a[lcp(a, b)] != b[lcp(a, b)],
        forall|i: int| 0 <= i < lcp(a, b) ==> a[i] == b[i],
    decreases a.len(),
{
    if a.len() == 0 || b.len() == 0 || a[0] != b[0] {
        assert(a.take(0) =~= b.take(0));
    } else {
        lemma_lcp_basic(a.skip(1), b.skip(1));
        let n = lcp(a, b);
        assert forall|i: int| 0 <= i < n implies a[i] == b[i] by {
            if i > 0 {
                assert(a.skip(1)[i - 1] == b.skip(1)[i - 1]);
            }
        }
        assert(a.take(n) =~= b.take(n));
        if n < a.len() && n < b.len() {
            assert(a[n] == a.skip(1)[n - 1]);
            assert(b[n] == b.skip(1)[n - 1]);
        }
    }
}

/// If `a` and `b` agree up to `j` and differ at `j`, then `j` is exactly the
/// length of their common prefix.
pub proof fn lemma_lcp_from_diff(a: Seq<u8>, b: Seq<u8>, j: int)
    requires
        0 <= j <= a.len(),
        j <= b.len(),
        forall|i: int| 0 <= i < j ==> a[i] == b[i],
        j < a.len() && j < b.len() ==> a[j] != b[j],
    ensures
        lcp(a, b) >= j,
        j < a.len() && j < b.len() ==> lcp(a, b) == j,
    decreases j,
{
    if j > 0 {
        lemma_lcp_from_diff(a.skip(1), b.skip(1), j - 1);
    }
}

/// Pointwise characterization of the lexicographic order in terms of the
/// longest common prefix.
pub proof fn lemma_lex_lt_char(a: Seq<u8>, b: Seq<u8>)
    ensures
        lex_lt(a, b) <==> {
            let n = lcp(a, b);
            (n == a.len() && a.len() < b.len()) || (n < a.len() && n < b.len() && a[n] < b[n])
        },
    decreases a.len(),
{
    if b.len() == 0 || a.len() == 0 {
    } else if a[0] != b[0] {
    } else {
        lemma_lex_lt_char(a.skip(1), b.skip(1));
        lemma_lcp_basic(a.skip(1), b.skip(1));
        let n = lcp(a, b);
        assert(n == 1 + lcp(a.skip(1), b.skip(1)));
        if n < a.len() && n < b.len() {
            assert(a[n] == a.skip(1)[n - 1]);
            assert(b[n] == b.skip(1)[n - 1]);
        }
    }
}

/// A prefix is less than or equal to every sequence it prefixes.
pub proof fn lemma_prefix_le(p: Seq<u8>, x: Seq<u8>)
    requires
        is_prefix(p, x),
    ensures
        lex_le(p, x),
    decreases p.len(),
{
    if p.len() == 0 {
        if x.len() == 0 {
            assert(p =~= x);
        }
    } else {
        assert(p[0] == x.take(p.len() as int)[0]);
        assert(is_prefix(p.skip(1), x.skip(1))) by {
            assert forall|i: int| 0 <= i < p.len() - 1 implies x.skip(1).take(p.len() - 1)[i]
                == p.skip(1)[i] by {
                assert(x.skip(1).take(p.len() - 1)[i] == x.skip(1)[i]);
                assert(x.skip(1)[i] == x[i + 1]);
                assert(p.skip(1)[i] == p[i + 1]);
                assert(x[i + 1] == x.take(p.len() as int)[i + 1]);
            }
            assert(x.skip(1).take(p.len() - 1) =~= p.skip(1));
        }
        lemma_prefix_le(p.skip(1), x.skip(1));
        if p.skip(1) == x.skip(1) && p.len() == x.len() {
            assert(p =~= x);
        }
    }
}

/// Appending to both sides of a shared prefix compares the appended parts.
pub proof fn lemma_lex_concat_same(p: Seq<u8>, s1: Seq<u8>, s2: Seq<u8>)
    ensures
        lex_lt(p + s1, p + s2) <==> lex_lt(s1, s2),
    decreases p.len(),
{
    if p.len() == 0 {
        assert(p + s1 =~= s1);
        assert(p + s2 =~= s2);
    } else {
        lemma_lex_concat_same(p.skip(1), s1, s2);
        assert((p + s1).skip(1) =~= p.skip(1) + s1);
        assert((p + s2).skip(1) =~= p.skip(1) + s2);
        assert((p + s1)[0] == (p + s2)[0]);
    }
}

/// When neither head is a prefix of the other, the comparison of two
/// concatenations is decided entirely by the heads.
pub proof fn lemma_lex_concat_decided(p1: Seq<u8>, p2: Seq<u8>, s1: Seq<u8>, s2: Seq<u8>)
    requires
        !is_prefix(p1, p2),
        !is_prefix(p2, p1),
    ensures
        lex_lt(p1 + s1, p2 + s2) <==> lex_lt(p1, p2),
    decreases p1.len(),
{
    if p1.len() == 0 {
        assert(p1.len() <= p2.len() && p2.take(p1.len() as int) =~= p1);
    } else if p2.len() == 0 {
        assert(p2.len() <= p1.len() && p1.take(p2.len() as int) =~= p2);
    } else if p1[0] == p2[0] {
        assert(!is_prefix(p1.skip(1), p2.skip(1))) by {
            if is_prefix(p1.skip(1), p2.skip(1)) {
                assert forall|i: int| 0 <= i < p1.len() implies p2.take(p1.len() as int)[i]
                    == p1[i] by {
                    if i > 0 {
                        assert(p2.take(p1.len() as int)[i] == p2[i]);
                        assert(p2[i] == p2.skip(1)[i - 1]);
                        assert(p2.skip(1)[i - 1] == p2.skip(1).take(p1.len() - 1)[i - 1]);
                        assert(p1[i] == p1.skip(1)[i - 1]);
                    }
                }
                assert(p2.take(p1.len() as int) =~= p1);
            }
        }
        assert(!is_prefix(p2.skip(1), p1.skip(1))) by {
            if is_prefix(p2.skip(1), p1.skip(1)) {
                assert forall|i: int| 0 <= i < p2.len() implies p1.take(p2.len() as int)[i]
                    == p2[i] by {
                    if i > 0 {
                        assert(p1.take(p2.len() as int)[i] == p1[i]);
                        assert(p1[i] == p1.skip(1)[i - 1]);
                        assert(p1.skip(1)[i - 1] == p1.skip(1).take(p2.len() - 1)[i - 1]);
                        assert(p2[i] == p2.skip(1)[i - 1]);
                    }
                }
                assert(p1.take(p2.len() as int) =~= p2);
            }
        }
        lemma_lex_concat_decided(p1.skip(1), p2.skip(1), s1, s2);
        assert((p1 + s1).skip(1) =~= p1.skip(1) + s1);
        assert((p2 + s2).skip(1) =~= p2.skip(1) + s2);
        assert((p1 + s1)[0] == (p2 + s2)[0]);
    } else {
        assert((p1 + s1)[0] == p1[0]);
        assert((p2 + s2)[0] == p2[0]);
    }
}

/// Compares two byte strings lexicographically.
pub fn bytes_lt(a: &[u8], b: &[u8]) -> (r: bool)
    ensures
        r == lex_lt(a@, b@),
{
    let n = if a.len() < b.len() {
        a.len()
    } else {
        b.len()
    };
    let mut i: usize = 0;
    while i < n
        invariant
            0 <= i <= n,
            n == vstd::math::min(a@.len() as int, b@.len() as int),
            forall|j: int| 0 <= j < i ==> a@[j] == b@[j],
        decreases n - i,
    {
        if a[i] < b[i] {
            proof {
                lemma_lcp_from_diff(a@, b@, i as int);
                lemma_lex_lt_char(a@, b@);
            }
            return true;
        }
        if a[i] > b[i] {
            proof {
                lemma_lcp_from_diff(a@, b@, i as int);
                lemma_lex_lt_char(a@, b@);
            }
            return false;
        }
        i += 1;
    }
    proof {
        lemma_lcp_from_diff(a@, b@, n as int);
        lemma_lcp_basic(a@, b@);
        lemma_lex_lt_char(a@, b@);
    }
    a.len() < b.len()
}

/// `a` at or below `b` in the lexicographic order.
pub fn bytes_le(a: &[u8], b: &[u8]) -> (r: bool)
    ensures
        r == lex_le(a@, b@),
{
    let r = !bytes_lt(b, a);
    proof {
        lemma_lex_trichotomy(a@, b@);
    }
    r
}

/// Index of the last byte that is not 0xFF, or -1 if every byte is 0xFF.
pub open spec fn last_non_ff(b: Seq<u8>) -> int
    decreases b.len(),
{
    if b.len() == 0 {
        -1
    } else if b.last() != 0xFFu8 {
        b.len() - 1
    } else {
        last_non_ff(b.drop_last())
    }
}

/// Shape of the successor: the last non-0xFF byte is incremented and the
/// 0xFF run after it is dropped.
pub proof fn lemma_successor_shape(b: Seq<u8>)
    requires
        !all_ff(b),
    ensures
        0 <= last_non_ff(b) < b.len(),
        b[last_non_ff(b)] != 0xFFu8,
        forall|j: int| last_non_ff(b) < j < b.len() ==> b[j] == 0xFFu8,
        spec_successor(b) == b.take(last_non_ff(b)).push((b[last_non_ff(b)] + 1) as u8),
    decreases b.len(),
{
    let i = last_non_ff(b);
    if b.last() != 0xFFu8 {
        assert(b.drop_last() =~= b.take(b.len() - 1));
    } else {
        assert(!all_ff(b.drop_last())) by {
            let k = choose|k: int| 0 <= k < b.len() && b[k] != 0xFFu8;
            assert(b.drop_last()[k] != 0xFFu8);
        }
        lemma_successor_shape(b.drop_last());
        assert(b.drop_last().take(i) =~= b.take(i));
        assert(forall|j: int| i < j < b.len() - 1 ==> b[j] == b.drop_last()[j]);
    }
}

/// The successor is strictly greater than the key itself.
pub proof fn lemma_successor_gt(b: Seq<u8>)
    requires
        !all_ff(b),
    ensures
        lex_lt(b, spec_successor(b)),
{
    lemma_successor_shape(b);
    let i = last_non_ff(b);
    let s = spec_successor(b);
    assert(forall|j: int| 0 <= j < i ==> b[j] == s[j]);
    lemma_lcp_from_diff(b, s, i);
    lemma_lex_lt_char(b, s);
}

/// Every extension of `p` lies strictly below `p`'s successor.
pub proof fn lemma_successor_bounds_extensions(p: Seq<u8>, x: Seq<u8>)
    requires
        !all_ff(p),
        is_prefix(p, x),
    ensures
        lex_lt(x, spec_successor(p)),
{
    lemma_successor_shape(p);
    let i = last_non_ff(p);
    let s = spec_successor(p);
    assert(forall|j: int| 0 <= j <= i ==> x[j] == x.take(p.len() as int)[j]);
    assert(forall|j: int| 0 <= j < i ==> x[j] == s[j]);
    assert(x[i] == p[i]);
    lemma_lcp_from_diff(x, s, i);
    lemma_lex_lt_char(x, s);
}

/// In the half-open interval from `p` to `p`'s successor lie exactly the
/// sequences that start with `p`.
pub proof fn lemma_prefix_range(p: Seq<u8>, x: Seq<u8>)
    requires
        !all_ff(p),
    ensures
        (lex_le(p, x) && lex_lt(x, spec_successor(p))) <==> is_prefix(p, x),
{
    lemma_successor_shape(p);
    let i = last_non_ff(p);
    let s = spec_successor(p);
    if is_prefix(p, x) {
        lemma_prefix_le(p, x);
        lemma_successor_bounds_extensions(p, x);
    }
    if lex_le(p, x) && lex_lt(x, s) && !is_prefix(p, x) {
        // A contradiction is derived from the position where p and x first differ.
        lemma_lcp_basic(p, x);
        lemma_lex_lt_char(p, x);
        lemma_lex_lt_char(x, s);
        let n = lcp(p, x);
        if p == x {
            assert(x.take(p.len() as int) =~= p);
        } else if n == p.len() {
            assert(x.take(p.len() as int) =~= p);
        } else {
            // lex_lt(p, x) with a difference inside p: p[n] < x[n].
            assert(n < p.len() && n < x.len() && p[n] < x[n]);
            if n < i {
                assert(forall|j: int| 0 <= j < n ==> x[j] == s[j]);
                lemma_lcp_from_diff(x, s, n);
                assert(!lex_lt(x, s));
            } else if n == i {
                if x[i] == (p[i] + 1) as u8 {
                    assert(forall|j: int| 0 <= j < i + 1 ==> x[j] == s[j]);
                    lemma_lcp_from_diff(x, s, i + 1);
                    assert(!lex_lt(x, s));
                } else {
                    assert(x[i] > s[i]);
                    assert(forall|j: int| 0 <= j < i ==> x[j] == s[j]);
                    lemma_lcp_from_diff(x, s, i);
                    assert(!lex_lt(x, s));
                }
            } else {
                assert(p[n] == 0xFFu8);
                assert(x[n] > 0xFFu8);
            }
        }
    }
}

/// When every byte of `p` is 0xFF, the sequences at or above `p` are exactly
/// those that start with `p`: no upper bound is needed.
pub proof fn lemma_all_ff_range(p: Seq<u8>, x: Seq<u8>)
    requires
        all_ff(p),
    ensures
        lex_le(p, x) <==> is_prefix(p, x),
{
    if is_prefix(p, x) {
        lemma_prefix_le(p, x);
    }
    if lex_le(p, x) && !is_prefix(p, x) {
        lemma_lcp_basic(p, x);
        lemma_lex_lt_char(p, x);
        let n = lcp(p, x);
        if p == x {
            assert(x.take(p.len() as int) =~= p);
        } else if n == p.len() {
            assert(x.take(p.len() as int) =~= p);
        } else {
            assert(n < p.len() && n < x.len() && p[n] < x[n]);
            assert(p[n] == 0xFFu8);
        }
    }
}

} // verus!
