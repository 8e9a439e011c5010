//! The key-value store: get/set/delete and queries over a pluggable
//! backend. Values are opaque payload bytes; an external serializer turns
//! them into structured values outside this crate.

use crate::backend::{range_scan_post, KvBackend};
use crate::bytes_order::{all_ff, is_prefix, lemma_all_ff_range, lemma_prefix_range, lex_le};
use crate::kv_error::KvResult;
use crate::kv_key::{IntoKey, KvKey};
use crate::list_builder::KvListBuilder;
use vstd::prelude::*;

verus! {

/// The stored entries whose key starts with `p`.
pub open spec fn prefixed_keys(m: Map<Seq<u8>, Seq<u8>>, p: Seq<u8>) -> Set<Seq<u8>> {
    m.dom().filter(|k: Seq<u8>| is_prefix(p, k))
}

/// The key-value store over a backend.
pub struct Kv<B: KvBackend> {
    pub backend: B,
}

impl<B: KvBackend> Kv<B> {
    /// A store over the given backend.
    pub fn new(backend: B) -> (r: Kv<B>)
        ensures
            r.backend == backend,
    {
        Kv { backend }
    }

    /// The value stored for the given key: the backend is asked for the
    /// one-key range from the key to its successor, and the first entry of
    /// the answer is returned. `Ok(None)` when no stored key starts with
    /// the requested one.
    pub fn get<K: IntoKey + ?Sized>(&self, key: &K) -> (r: KvResult<Option<Vec<u8>>>)
        ensures
            r matches Ok(Some(v)) ==> exists|k: Seq<u8>|
                #[trigger] prefixed_keys(self.backend.contents(), key.key_bytes()).contains(k)
                    && v@ == self.backend.contents()[k] && (forall|k2: Seq<u8>|
                    prefixed_keys(self.backend.contents(), key.key_bytes()).contains(k2)
                        ==> lex_le(k, k2)),
            r matches Ok(None) ==> prefixed_keys(self.backend.contents(), key.key_bytes())
                =~= Set::<Seq<u8>>::empty(),
            r matches Err(e) ==> e is BackendError,
    {
        let kb = key.to_key();
        let upper = kb.successor();
        let ghost m = self.backend.contents();
        let ghost p = key.key_bytes();
        match self.backend.get_range(Some(kb), upper) {
            Ok(mut pairs) => {
                proof {
                    assert forall|k: Seq<u8>| #[trigger]
                        m.dom().contains(k) && is_prefix(p, k) implies exists|i: int|
                        0 <= i < pairs@.len() && #[trigger] pairs@[i].0@ == k by {
                        if all_ff(p) {
                            lemma_all_ff_range(p, k);
                        } else {
                            lemma_prefix_range(p, k);
                        }
                    }
                    assert forall|i: int|
                        0 <= i < pairs@.len() implies is_prefix(p, #[trigger] pairs@[i].0@) by {
                        if all_ff(p) {
                            lemma_all_ff_range(p, pairs@[i].0@);
                        } else {
                            lemma_prefix_range(p, pairs@[i].0@);
                        }
                    }
                }
                if pairs.is_empty() {
                    proof {
                        assert forall|k: Seq<u8>|
                            !(#[trigger] prefixed_keys(m, p).contains(k)) by {
                            if m.dom().contains(k) && is_prefix(p, k) {
                                assert(exists|i: int|
                                    0 <= i < pairs@.len() && #[trigger] pairs@[i].0@ == k);
                            }
                        }
                        assert(prefixed_keys(m, p) =~= Set::<Seq<u8>>::empty());
                    }
                    Ok(None)
                } else {
                    let ghost pairs0 = pairs@;
                    let (k0, v0) = pairs.remove(0);
                    proof {
                        assert(prefixed_keys(m, p).contains(k0@));
                        assert forall|k2: Seq<u8>|
                            prefixed_keys(m, p).contains(k2) implies lex_le(k0@, k2) by {
                            let i = choose|i: int|
                                0 <= i < pairs0.len() && #[trigger] pairs0[i].0@ == k2;
                            if i > 0 {
                                assert(crate::bytes_order::lex_lt(pairs0[0].0@, pairs0[i].0@));
                            }
                        }
                    }
                    Ok(Some(v0))
                }
            },
            Err(e) => Err(e),
        }
    }

    /// Stores the value under the key, overwriting any previous value.
    pub fn set<K: IntoKey + ?Sized>(&mut self, key: &K, value: Vec<u8>) -> (r: KvResult<()>)
        ensures
            r is Ok ==> final(self).backend.contents() == old(self).backend.contents().insert(
                key.key_bytes(),
                value@,
            ),
            r is Err ==> final(self).backend.contents() == old(self).backend.contents(),
            r matches Err(e) ==> e is BackendError,
    {
        self.set_optional(key, Some(value))
    }

    pub(crate) fn set_optional<K: IntoKey + ?Sized>(
        &mut self,
        key: &K,
        value: Option<Vec<u8>>,
    ) -> (r: KvResult<()>)
        ensures
            r is Ok ==> final(self).backend.contents() == (match value {
                Some(v) => old(self).backend.contents().insert(key.key_bytes(), v@),
                None => old(self).backend.contents().remove(key.key_bytes()),
            }),
            r is Err ==> final(self).backend.contents() == old(self).backend.contents(),
            r matches Err(e) ==> e is BackendError,
    {
        let kb = key.to_key();
        self.backend.set(kb, value)
    }

    /// Removes the entry stored under the key. The previous value (found as
    /// `get` finds it: the value of the least stored key extending the
    /// request) is returned together with the key; `Ok(None)` and no change
    /// when there was none. On a backend failure nothing has changed.
    pub fn delete<K: IntoKey + ?Sized>(&mut self, key: &K) -> (r: KvResult<
        Option<(KvKey, Vec<u8>)>,
    >)
        ensures
            r matches Ok(None) ==> prefixed_keys(old(self).backend.contents(), key.key_bytes())
                =~= Set::<Seq<u8>>::empty() && final(self).backend.contents()
                == old(self).backend.contents(),
            r matches Ok(Some(pair)) ==> pair.0@ == key.key_bytes()
                && final(self).backend.contents()
                == old(self).backend.contents().remove(key.key_bytes()) && (
            exists|k: Seq<u8>|
                #[trigger] prefixed_keys(old(self).backend.contents(), key.key_bytes()).contains(k)
                    && pair.1@ == old(self).backend.contents()[k] && (forall|k2: Seq<u8>|
                    prefixed_keys(old(self).backend.contents(), key.key_bytes()).contains(k2)
                        ==> lex_le(k, k2))),
            r is Err ==> final(self).backend.contents() == old(self).backend.contents(),
            r matches Err(e) ==> e is BackendError,
    {
        let made = key.to_key();
        match self.get(key) {
            Ok(Some(val)) => {
                match self.set_optional(key, None) {
                    Ok(_) => Ok(Some((made, val))),
                    Err(e) => Err(e),
                }
            },
            Ok(None) => Ok(None),
            Err(e) => Err(e),
        }
    }

    /// All entries in the keyspace, in ascending key order. Only a failure
    /// of the backend's own can come back.
    pub fn entries(&self) -> (r: KvResult<Vec<(KvKey, Vec<u8>)>>)
        ensures
            r matches Ok(out) ==> range_scan_post(self.backend.contents(), None, None, out@),
            r matches Err(e) ==> e is BackendError,
    {
        KvListBuilder { backend: &self.backend, start: None, end: None, prefix: None }.entries()
    }

    /// A query builder for scanning part of the keyspace.
    pub fn list(&self) -> (r: KvListBuilder<'_, B>)
        ensures
            r.backend == self.backend,
            r.prefix is None,
            r.start is None,
            r.end is None,
    {
        KvListBuilder::new(&self.backend)
    }
}

} // verus!
