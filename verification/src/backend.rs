//! The pluggable storage backend: a narrow range-scan/write contract, and
//! the built-in in-memory implementation.

use crate::bytes_order::{bytes_le, bytes_lt, lemma_lex_lt_irreflexive, lex_le, lex_lt};
use crate::kv_error::{KvError, KvResult};
use crate::kv_key::KvKey;
use vstd::prelude::*;

verus! {

/// The key bytes of an optional bound.
pub open spec fn key_view_opt(o: Option<KvKey>) -> Option<Seq<u8>> {
    match o {
        Some(k) => Some(k@),
        None => None,
    }
}

/// Whether key bytes `k` lie in the half-open range `[start, end)`; a
/// missing bound is unbounded.
pub open spec fn within_bounds(k: Seq<u8>, start: Option<Seq<u8>>, end: Option<Seq<u8>>) -> bool {
    (match start {
        Some(s) => lex_le(s, k),
        None => true,
    }) && (match end {
        Some(e) => lex_lt(k, e),
        None => true,
    })
}

/// What a correct range scan returns: exactly the stored pairs whose key
/// lies within the bounds, in strictly ascending byte order.
pub open spec fn range_scan_post(
    m: Map<Seq<u8>, Seq<u8>>,
    start: Option<Seq<u8>>,
    end: Option<Seq<u8>>,
    out: Seq<(KvKey, Vec<u8>)>,
) -> bool {
    &&& forall|i: int| 0 <= i < out.len() ==> m.contains_pair(#[trigger] out[i].0@, out[i].1@)
    &&& forall|i: int| 0 <= i < out.len() ==> within_bounds(#[trigger] out[i].0@, start, end)
    &&& forall|i: int, j: int|
        0 <= i < j < out.len() ==> lex_lt(#[trigger] out[i].0@, #[trigger] out[j].0@)
    &&& forall|k: Seq<u8>|
        #[trigger] m.dom().contains(k) && within_bounds(k, start, end) ==> exists|i: int|
            0 <= i < out.len() && #[trigger] out[i].0@ == k
}

/// A key-value storage backend.
///
/// A backend stores encoded keys with opaque value bytes, ordered by the
/// keys' raw bytes. Each operation either takes full effect or reports a
/// typed error; `contents` is the abstract state the contracts speak of.
pub trait KvBackend {
    /// The stored entries, as a map from key bytes to value bytes. A
    /// verified implementation overrides this with its own model; an
    /// implementation written in ordinary Rust inherits the default, and
    /// nothing is proved about it.
    open spec fn contents(&self) -> Map<Seq<u8>, Seq<u8>> {
        Map::empty()
    }

    /// All stored pairs with key at or above `start` (when given) and
    /// strictly below `end` (when given), in ascending byte order. A
    /// failure of the backend's own is reported as `BackendError`.
    fn get_range(&self, start: Option<KvKey>, end: Option<KvKey>) -> (r: KvResult<
        Vec<(KvKey, Vec<u8>)>,
    >)
        ensures
            r matches Ok(out) ==> range_scan_post(
                self.contents(),
                key_view_opt(start),
                key_view_opt(end),
                out@,
            ),
            r matches Err(e) ==> e is BackendError,
    ;

    /// Stores `value` under `key`, overwriting, or deletes `key` when
    /// `value` is absent; atomically. A failure of the backend's own is
    /// reported as `BackendError`, and the contents are then unchanged.
    fn set(&mut self, key: KvKey, value: Option<Vec<u8>>) -> (r: KvResult<()>)
        ensures
            r is Ok ==> final(self).contents() == (match value {
                Some(v) => old(self).contents().insert(key@, v@),
                None => old(self).contents().remove(key@),
            }),
            r is Err ==> final(self).contents() == old(self).contents(),
            r matches Err(e) ==> e is BackendError,
    ;

    /// Empties the keyspace atomically. A failure of the backend's own is
    /// reported as `BackendError`, and the contents are then unchanged.
    fn clear(&mut self) -> (r: KvResult<()>)
        ensures
            r is Ok ==> final(self).contents() == Map::<Seq<u8>, Seq<u8>>::empty(),
            r is Err ==> final(self).contents() == old(self).contents(),
            r matches Err(e) ==> e is BackendError,
    ;
}

/// The entries' keys are strictly ascending (hence unique).
pub open spec fn entries_sorted(s: Seq<(KvKey, Vec<u8>)>) -> bool {
    forall|i: int, j: int| 0 <= i < j < s.len() ==> lex_lt(#[trigger] s[i].0@, #[trigger] s[j].0@)
}

/// The map an association list denotes.
pub open spec fn assoc_map(s: Seq<(KvKey, Vec<u8>)>) -> Map<Seq<u8>, Seq<u8>>
    decreases s.len(),
{
    if s.len() == 0 {
        Map::empty()
    } else {
        assoc_map(s.drop_last()).insert(s.last().0@, s.last().1@)
    }
}

/// For a sorted association list, membership in the denoted map is exactly
/// membership in the list.
pub proof fn lemma_assoc_map_props(s: Seq<(KvKey, Vec<u8>)>)
    requires
        entries_sorted(s),
    ensures
        forall|k: Seq<u8>| #[trigger]
            assoc_map(s).dom().contains(k) ==> exists|i: int|
                0 <= i < s.len() && #[trigger] s[i].0@ == k,
        forall|i: int|
            0 <= i < s.len() ==> assoc_map(s).contains_pair(#[trigger] s[i].0@, s[i].1@),
    decreases s.len(),
{
    if s.len() > 0 {
        let d = s.drop_last();
        assert(entries_sorted(d)) by {
            assert(forall|i: int| 0 <= i < d.len() ==> d[i] == s[i]);
        }
        lemma_assoc_map_props(d);
        assert forall|i: int|
            0 <= i < s.len() implies assoc_map(s).contains_pair(#[trigger] s[i].0@, s[i].1@) by {
            if i < s.len() - 1 {
                assert(d[i] == s[i]);
                assert(assoc_map(d).contains_pair(s[i].0@, s[i].1@));
                assert(lex_lt(s[i].0@, s.last().0@));
                if s[i].0@ == s.last().0@ {
                    lemma_lex_lt_irreflexive(s.last().0@);
                }
            }
        }
        assert forall|k: Seq<u8>| #[trigger]
            assoc_map(s).dom().contains(k) implies exists|i: int|
            0 <= i < s.len() && #[trigger] s[i].0@ == k by {
            if k == s.last().0@ {
                assert(s[s.len() - 1].0@ == k);
            } else {
                assert(assoc_map(d).dom().contains(k));
                let i = choose|i: int| 0 <= i < d.len() && #[trigger] d[i].0@ == k;
                assert(s[i].0@ == k);
            }
        }
    }
}

/// The in-memory backend: entries held sorted by key bytes. Always
/// succeeds; never reports an error.
pub struct MemoryBackend {
    entries: Vec<(KvKey, Vec<u8>)>,
}

impl MemoryBackend {
    #[verifier::type_invariant]
    spec fn wf(self) -> bool {
        entries_sorted(self.entries@)
    }

    /// An empty store.
    pub fn new() -> (r: MemoryBackend)
        ensures
            r.contents() == Map::<Seq<u8>, Seq<u8>>::empty(),
    {
        MemoryBackend { entries: Vec::new() }
    }
}

impl KvBackend for MemoryBackend {
    closed spec fn contents(&self) -> Map<Seq<u8>, Seq<u8>> {
        assoc_map(self.entries@)
    }

    #[verifier::rlimit(50)]
    #[verifier::loop_isolation(false)]
    fn get_range(&self, start: Option<KvKey>, end: Option<KvKey>) -> (r: KvResult<
        Vec<(KvKey, Vec<u8>)>,
    >)
        ensures
            r is Ok,
    {
        proof {
            use_type_invariant(self);
            lemma_assoc_map_props(self.entries@);
        }
        let ghost lo = key_view_opt(start);
        let ghost hi = key_view_opt(end);
        let ghost s = self.entries@;
        let ghost m = assoc_map(s);
        let mut out: Vec<(KvKey, Vec<u8>)> = Vec::new();
        let n = self.entries.len();
        let mut i: usize = 0;
        while i < n
            invariant
                0 <= i <= n,
                forall|a: int|
                    0 <= a < out@.len() ==> m.contains_pair(#[trigger] out@[a].0@, out@[a].1@),
                forall|a: int| 0 <= a < out@.len() ==> within_bounds(#[trigger] out@[a].0@, lo, hi),
                forall|a1: int, a2: int|
                    0 <= a1 < a2 < out@.len() ==> lex_lt(
                        #[trigger] out@[a1].0@,
                        #[trigger] out@[a2].0@,
                    ),
                forall|a: int, j: int|
                    0 <= a < out@.len() && i <= j < n ==> lex_lt(
                        #[trigger] out@[a].0@,
                        #[trigger] s[j].0@,
                    ),
                forall|b: int|
                    0 <= b < i && within_bounds(#[trigger] s[b].0@, lo, hi) ==> exists|a: int|
                        0 <= a < out@.len() && #[trigger] out@[a].0@ == s[b].0@,
            decreases n - i,
        {
            let e = &self.entries[i];
            let in_lo = match &start {
                Some(sk) => bytes_le(sk.0.as_slice(), e.0.0.as_slice()),
                None => true,
            };
            let in_hi = match &end {
                Some(ek) => bytes_lt(e.0.0.as_slice(), ek.0.as_slice()),
                None => true,
            };
            if in_lo && in_hi {
                let ghost old_out = out@;
                out.push((e.0.clone(), e.1.clone()));
                proof {
                    assert(out@[out@.len() - 1].0@ == s[i as int].0@);
                    assert(out@[out@.len() - 1].1@ =~= s[i as int].1@);
                    assert(forall|a: int|
                        0 <= a < old_out.len() ==> #[trigger] out@[a] == old_out[a]);
                    assert forall|b: int|
                        0 <= b < i + 1 && within_bounds(#[trigger] s[b].0@, lo, hi) implies exists|
                        a: int,
                    |
                        0 <= a < out@.len() && #[trigger] out@[a].0@ == s[b].0@ by {
                        if b == i {
                            assert(out@[out@.len() - 1].0@ == s[b].0@);
                        } else {
                            let a = choose|a: int|
                                0 <= a < old_out.len() && #[trigger] old_out[a].0@ == s[b].0@;
                            assert(out@[a].0@ == s[b].0@);
                        }
                    }
                }
            } else {
                proof {
                    assert(!within_bounds(s[i as int].0@, lo, hi));
                }
            }
            i += 1;
        }
        proof {
            assert forall|k: Seq<u8>| #[trigger]
                m.dom().contains(k) && within_bounds(k, lo, hi) implies exists|a: int|
                0 <= a < out@.len() && #[trigger] out@[a].0@ == k by {
                let b = choose|b: int| 0 <= b < s.len() && #[trigger] s[b].0@ == k;
                assert(within_bounds(s[b].0@, lo, hi));
            }
        }
        Ok(out)
    }

    fn set(&mut self, key: KvKey, value: Option<Vec<u8>>) -> (r: KvResult<()>)
        ensures
            r is Ok,
    {
        proof {
            use_type_invariant(&*self);
        }
        let ghost s0 = self.entries@;
        let n = self.entries.len();
        let mut idx: usize = 0;
        while idx < n && bytes_lt(self.entries[idx].0.0.as_slice(), key.0.as_slice())
            invariant
                0 <= idx <= n,
                n == s0.len(),
                s0 == self.entries@,
                entries_sorted(s0),
                forall|j: int| 0 <= j < idx ==> lex_lt(#[trigger] s0[j].0@, key@),
            decreases n - idx,
        {
            idx += 1;
        }
        let found = if idx < n {
            let eq = !bytes_lt(key.0.as_slice(), self.entries[idx].0.0.as_slice());
            proof {
                crate::bytes_order::lemma_lex_trichotomy(key@, s0[idx as int].0@);
            }
            eq
        } else {
            false
        };
        proof {
            if found {
                assert(s0[idx as int].0@ == key@);
            }
        }
        let mut entries: Vec<(KvKey, Vec<u8>)> = Vec::new();
        core::mem::swap(&mut entries, &mut self.entries);
        match value {
            Some(v) => {
                let ghost kv = key@;
                let ghost vv = v@;
                if found {
                    entries.set(idx, (key, v));
                    proof {
                        lemma_sorted_update_same_key(s0, entries@, idx as int, kv, vv);
                    }
                } else {
                    proof {
                        assert forall|j: int| idx <= j < s0.len() implies lex_lt(
                            kv,
                            #[trigger] s0[j].0@,
                        ) by {
                            if j > idx {
                                crate::bytes_order::lemma_lex_transitive(
                                    kv,
                                    s0[idx as int].0@,
                                    s0[j].0@,
                                );
                            }
                        }
                    }
                    entries.insert(idx, (key, v));
                    proof {
                        lemma_sorted_insert(s0, entries@, idx as int, kv, vv);
                    }
                }
            },
            None => {
                if found {
                    let ghost kv = key@;
                    entries.remove(idx);
                    proof {
                        lemma_sorted_remove(s0, entries@, idx as int, kv);
                    }
                } else {
                    proof {
                        lemma_assoc_map_props(s0);
                        if assoc_map(s0).dom().contains(key@) {
                            let b = choose|b: int| 0 <= b < s0.len() && #[trigger] s0[b].0@ == key@;
                            if b < idx {
                                lemma_lex_lt_irreflexive(key@);
                            } else if idx < n {
                                crate::bytes_order::lemma_lex_trichotomy(key@, s0[idx as int].0@);
                                if b > idx {
                                    lemma_lex_lt_irreflexive(s0[idx as int].0@);
                                    crate::bytes_order::lemma_lex_transitive(
                                        s0[idx as int].0@,
                                        key@,
                                        s0[idx as int].0@,
                                    );
                                }
                            }
                        }
                        assert(assoc_map(s0).remove(key@) =~= assoc_map(s0));
                    }
                }
            },
        }
        self.entries = entries;
        Ok(())
    }

    fn clear(&mut self) -> (r: KvResult<()>)
        ensures
            r is Ok,
    {
        self.entries = Vec::new();
        Ok(())
    }
}

/// Replacing the value at an existing key leaves the list sorted and
/// overwrites that key in the denoted map.
proof fn lemma_sorted_update_same_key(
    s0: Seq<(KvKey, Vec<u8>)>,
    s1: Seq<(KvKey, Vec<u8>)>,
    idx: int,
    k: Seq<u8>,
    v: Seq<u8>,
)
    requires
        entries_sorted(s0),
        0 <= idx < s0.len(),
        s0[idx].0@ == k,
        s1.len() == s0.len(),
        s1[idx].0@ == k,
        s1[idx].1@ == v,
        forall|j: int| 0 <= j < s0.len() && j != idx ==> s1[j] == s0[j],
    ensures
        entries_sorted(s1),
        assoc_map(s1) == assoc_map(s0).insert(k, v),
{
    assert(entries_sorted(s1)) by {
        assert forall|i: int, j: int| 0 <= i < j < s1.len() implies lex_lt(
            #[trigger] s1[i].0@,
            #[trigger] s1[j].0@,
        ) by {
            assert(s1[i].0@ == s0[i].0@ && s1[j].0@ == s0[j].0@);
        }
    }
    lemma_assoc_map_props(s0);
    let target = assoc_map(s0).insert(k, v);
    assert forall|i: int|
        0 <= i < s1.len() implies target.contains_pair(#[trigger] s1[i].0@, s1[i].1@) by {
        if i != idx {
            assert(assoc_map(s0).contains_pair(s0[i].0@, s0[i].1@));
            if s0[i].0@ == k {
                lemma_lex_lt_irreflexive(k);
                if i < idx {
                    assert(lex_lt(s0[i].0@, s0[idx].0@));
                } else {
                    assert(lex_lt(s0[idx].0@, s0[i].0@));
                }
            }
        }
    }
    assert forall|kk: Seq<u8>| #[trigger]
        target.dom().contains(kk) implies exists|i: int|
        0 <= i < s1.len() && #[trigger] s1[i].0@ == kk by {
        if kk == k {
            assert(s1[idx].0@ == kk);
        } else {
            let i = choose|i: int| 0 <= i < s0.len() && #[trigger] s0[i].0@ == kk;
            assert(s1[i].0@ == kk);
        }
    }
    lemma_sorted_maps_agree(s0, s1, target);
}

/// Inserting a new key at its sorted position keeps the list sorted and
/// adds the pair to the denoted map.
proof fn lemma_sorted_insert(
    s0: Seq<(KvKey, Vec<u8>)>,
    s1: Seq<(KvKey, Vec<u8>)>,
    idx: int,
    k: Seq<u8>,
    v: Seq<u8>,
)
    requires
        entries_sorted(s0),
        0 <= idx <= s0.len(),
        forall|j: int| 0 <= j < idx ==> lex_lt(#[trigger] s0[j].0@, k),
        forall|j: int| idx <= j < s0.len() ==> lex_lt(k, #[trigger] s0[j].0@),
        s1 == s0.insert(idx, (s1[idx].0, s1[idx].1)),
        s1[idx].0@ == k,
        s1[idx].1@ == v,
    ensures
        entries_sorted(s1),
        assoc_map(s1) == assoc_map(s0).insert(k, v),
{
    assert(s1.len() == s0.len() + 1);
    assert(forall|j: int| 0 <= j < idx ==> #[trigger] s1[j] == s0[j]);
    assert(forall|j: int| idx < j < s1.len() ==> #[trigger] s1[j] == s0[j - 1]);
    assert(entries_sorted(s1)) by {
        assert forall|i: int, j: int| 0 <= i < j < s1.len() implies lex_lt(
            #[trigger] s1[i].0@,
            #[trigger] s1[j].0@,
        ) by {
            if i == idx {
                assert(s1[j] == s0[j - 1]);
            } else if j == idx {
                assert(s1[i] == s0[i]);
            } else if i < idx && j > idx {
                assert(s1[i] == s0[i] && s1[j] == s0[j - 1]);
                if idx <= j - 1 {
                    crate::bytes_order::lemma_lex_transitive(s0[i].0@, k, s0[j - 1].0@);
                }
            }
        }
    }
    lemma_assoc_map_props(s0);
    let target = assoc_map(s0).insert(k, v);
    assert forall|i: int|
        0 <= i < s1.len() implies target.contains_pair(#[trigger] s1[i].0@, s1[i].1@) by {
        if i < idx {
            assert(s1[i] == s0[i]);
            assert(assoc_map(s0).contains_pair(s0[i].0@, s0[i].1@));
            if s0[i].0@ == k {
                lemma_lex_lt_irreflexive(k);
            }
        } else if i > idx {
            assert(s1[i] == s0[i - 1]);
            assert(assoc_map(s0).contains_pair(s0[i - 1].0@, s0[i - 1].1@));
            if s0[i - 1].0@ == k {
                lemma_lex_lt_irreflexive(k);
            }
        }
    }
    assert forall|kk: Seq<u8>| #[trigger]
        target.dom().contains(kk) implies exists|i: int|
        0 <= i < s1.len() && #[trigger] s1[i].0@ == kk by {
        if kk == k {
            assert(s1[idx].0@ == kk);
        } else {
            let i = choose|i: int| 0 <= i < s0.len() && #[trigger] s0[i].0@ == kk;
            if i < idx {
                assert(s1[i].0@ == kk);
            } else {
                assert(s1[i + 1].0@ == kk);
            }
        }
    }
    lemma_sorted_maps_agree(s0, s1, target);
}

/// Removing the entry of a key keeps the list sorted and removes the key
/// from the denoted map.
proof fn lemma_sorted_remove(s0: Seq<(KvKey, Vec<u8>)>, s1: Seq<(KvKey, Vec<u8>)>, idx: int, k: Seq<u8>)
    requires
        entries_sorted(s0),
        0 <= idx < s0.len(),
        s0[idx].0@ == k,
        s1 == s0.remove(idx),
    ensures
        entries_sorted(s1),
        assoc_map(s1) == assoc_map(s0).remove(k),
{
    assert(forall|j: int| 0 <= j < idx ==> #[trigger] s1[j] == s0[j]);
    assert(forall|j: int| idx <= j < s1.len() ==> #[trigger] s1[j] == s0[j + 1]);
    assert(entries_sorted(s1)) by {
        assert forall|i: int, j: int| 0 <= i < j < s1.len() implies lex_lt(
            #[trigger] s1[i].0@,
            #[trigger] s1[j].0@,
        ) by {
            if i < idx && j >= idx {
                assert(s1[i] == s0[i] && s1[j] == s0[j + 1]);
            }
        }
    }
    lemma_assoc_map_props(s0);
    let target = assoc_map(s0).remove(k);
    assert forall|i: int|
        0 <= i < s1.len() implies target.contains_pair(#[trigger] s1[i].0@, s1[i].1@) by {
        lemma_lex_lt_irreflexive(k);
        if i < idx {
            assert(s1[i] == s0[i]);
            assert(assoc_map(s0).contains_pair(s0[i].0@, s0[i].1@));
            assert(lex_lt(s0[i].0@, s0[idx].0@));
        } else {
            assert(s1[i] == s0[i + 1]);
            assert(assoc_map(s0).contains_pair(s0[i + 1].0@, s0[i + 1].1@));
            assert(lex_lt(s0[idx].0@, s0[i + 1].0@));
        }
    }
    assert forall|kk: Seq<u8>| #[trigger]
        target.dom().contains(kk) implies exists|i: int|
        0 <= i < s1.len() && #[trigger] s1[i].0@ == kk by {
        let i = choose|i: int| 0 <= i < s0.len() && #[trigger] s0[i].0@ == kk;
        if i < idx {
            assert(s1[i].0@ == kk);
        } else if i > idx {
            assert(s1[i - 1].0@ == kk);
        }
    }
    lemma_sorted_maps_agree(s0, s1, target);
}

/// Two sorted lists whose denoted maps should be equal to a target map:
/// derived by comparing memberships. The target is the map denoted by `s1`,
/// stated as an explicit equality.
proof fn lemma_sorted_maps_agree(
    s0: Seq<(KvKey, Vec<u8>)>,
    s1: Seq<(KvKey, Vec<u8>)>,
    target: Map<Seq<u8>, Seq<u8>>,
)
    requires
        entries_sorted(s1),
        forall|i: int| 0 <= i < s1.len() ==> target.contains_pair(#[trigger] s1[i].0@, s1[i].1@),
        forall|k: Seq<u8>| #[trigger]
            target.dom().contains(k) ==> exists|i: int| 0 <= i < s1.len() && #[trigger] s1[i].0@ == k,
    ensures
        assoc_map(s1) == target,
{
    lemma_assoc_map_props(s1);
    assert forall|k: Seq<u8>| #[trigger]
        assoc_map(s1).dom().contains(k) implies target.dom().contains(k) by {
        let i = choose|i: int| 0 <= i < s1.len() && #[trigger] s1[i].0@ == k;
        assert(target.contains_pair(s1[i].0@, s1[i].1@));
    }
    assert forall|k: Seq<u8>| #[trigger]
        target.dom().contains(k) implies assoc_map(s1).dom().contains(k) && assoc_map(s1)[k]
        == target[k] by {
        let i = choose|i: int| 0 <= i < s1.len() && #[trigger] s1[i].0@ == k;
        assert(assoc_map(s1).contains_pair(s1[i].0@, s1[i].1@));
        assert(target.contains_pair(s1[i].0@, s1[i].1@));
    }
    assert(assoc_map(s1) =~= target);
}

} // verus!
