//! The range-scan engine: resolves a prefix/start/end selector into one
//! half-open byte range and issues a single ordered scan against the
//! backend.

use crate::backend::{range_scan_post, within_bounds, KvBackend};
use crate::bytes_order::{
    all_ff, is_prefix, lemma_all_ff_range, lemma_prefix_range, spec_successor,
};
use crate::kv_error::{KvError, KvResult};
use crate::kv_key::{IntoKey, KvKey};
use vstd::prelude::*;

verus! {

/// The canonical `[start, end)` request a selector resolves to. `None` on a
/// side means unbounded. Exact rules:
/// - only a prefix: the range is `[prefix, successor(prefix))`, unbounded
///   above when the prefix has no successor;
/// - a start bound wins over a prefix as the lower bound, and the prefix's
///   implicit upper bound is then dropped;
/// - a prefix with an end bound scans `[prefix, end)`;
/// - with no filters the whole keyspace is scanned.
/// The combination of all three filters is rejected before this resolution.
pub open spec fn resolved_range(
    prefix: Option<Seq<u8>>,
    start: Option<Seq<u8>>,
    end: Option<Seq<u8>>,
) -> (Option<Seq<u8>>, Option<Seq<u8>>) {
    match (prefix, start, end) {
        (Some(p), None, None) => (
            Some(p),
            if all_ff(p) {
                None
            } else {
                Some(spec_successor(p))
            },
        ),
        (None, Some(s), None) => (Some(s), None),
        (None, None, Some(e)) => (None, Some(e)),
        (Some(_), Some(s), None) => (Some(s), None),
        (Some(p), None, Some(e)) => (Some(p), Some(e)),
        (None, Some(s), Some(e)) => (Some(s), Some(e)),
        (None, None, None) => (None, None),
        (Some(_), Some(_), Some(_)) => (None, None),
    }
}

/// A query over a key-value backend, built from at most a prefix, a start
/// (inclusive) and an end (exclusive) key.
pub struct KvListBuilder<'a, B: KvBackend> {
    pub backend: &'a B,
    pub prefix: Option<KvKey>,
    pub start: Option<KvKey>,
    pub end: Option<KvKey>,
}

/// The key bytes of an optional filter.
pub open spec fn filter_view(o: Option<KvKey>) -> Option<Seq<u8>> {
    match o {
        Some(k) => Some(k@),
        None => None,
    }
}

impl<'a, B: KvBackend> KvListBuilder<'a, B> {
    /// A query with no filters: it scans the whole keyspace.
    pub fn new(backend: &'a B) -> (r: KvListBuilder<'a, B>)
        ensures
            r.backend == backend,
            r.prefix is None,
            r.start is None,
            r.end is None,
    {
        KvListBuilder { backend, prefix: None, start: None, end: None }
    }

    /// Restricts results to keys that extend the given key.
    pub fn prefix<K: IntoKey + ?Sized>(self, prefix: &K) -> (r: KvListBuilder<'a, B>)
        ensures
            r.backend == self.backend,
            r.prefix matches Some(p) && p@ == prefix.key_bytes(),
            r.start == self.start,
            r.end == self.end,
    {
        KvListBuilder { prefix: Some(prefix.to_key()), ..self }
    }

    /// Starts listing at this key (inclusive).
    pub fn start<K: IntoKey + ?Sized>(self, start: &K) -> (r: KvListBuilder<'a, B>)
        ensures
            r.backend == self.backend,
            r.start matches Some(s) && s@ == start.key_bytes(),
            r.prefix == self.prefix,
            r.end == self.end,
    {
        KvListBuilder { start: Some(start.to_key()), ..self }
    }

    /// Ends listing at this key (exclusive).
    pub fn end<K: IntoKey + ?Sized>(self, end: &K) -> (r: KvListBuilder<'a, B>)
        ensures
            r.backend == self.backend,
            r.end matches Some(e) && e@ == end.key_bytes(),
            r.prefix == self.prefix,
            r.start == self.start,
    {
        KvListBuilder { end: Some(end.to_key()), ..self }
    }

    /// Runs the query: resolves the filters to one byte range, requests it
    /// from the backend once, and returns the stored pairs in ascending key
    /// order. `InvalidSelector` is returned exactly when prefix, start and
    /// end are all set at once; any other failure is the backend's own,
    /// passed through as `BackendError`.
    pub fn entries(&self) -> (r: KvResult<Vec<(KvKey, Vec<u8>)>>)
        ensures
            self.prefix is Some && self.start is Some && self.end is Some <==> r == Err::<
                Vec<(KvKey, Vec<u8>)>,
                KvError,
            >(KvError::InvalidSelector),
            !(self.prefix is Some && self.start is Some && self.end is Some) ==> (r matches Err(e)
                ==> e is BackendError),
            r matches Ok(out) ==> range_scan_post(
                self.backend.contents(),
                resolved_range(
                    filter_view(self.prefix),
                    filter_view(self.start),
                    filter_view(self.end),
                ).0,
                resolved_range(
                    filter_view(self.prefix),
                    filter_view(self.start),
                    filter_view(self.end),
                ).1,
                out@,
            ),
    {
        if self.prefix.is_some() && self.start.is_some() && self.end.is_some() {
            return Err(KvError::InvalidSelector);
        }
        let (range_start, range_end): (Option<KvKey>, Option<KvKey>) = match (
            &self.prefix,
            &self.start,
            &self.end,
        ) {
            (Some(prefix), None, None) => {
                let end = prefix.successor();
                (Some(prefix.clone()), end)
            },
            (None, Some(start), None) => (Some(start.clone()), None),
            (None, None, Some(end)) => (None, Some(end.clone())),
            (Some(_prefix), Some(start), None) => (Some(start.clone()), None),
            (Some(prefix), None, Some(end)) => (Some(prefix.clone()), Some(end.clone())),
            (None, Some(start), Some(end)) => (Some(start.clone()), Some(end.clone())),
            (None, None, None) => (None, None),
            (Some(_), Some(_), Some(_)) => (None, None),
        };
        self.backend.get_range(range_start, range_end)
    }
}

/// A scan on a prefix alone returns exactly the stored entries whose key
/// starts with that prefix.
pub proof fn lemma_prefix_scan_exact(
    m: Map<Seq<u8>, Seq<u8>>,
    p: Seq<u8>,
    out: Seq<(KvKey, Vec<u8>)>,
)
    requires
        range_scan_post(m, resolved_range(Some(p), None, None).0, resolved_range(Some(p), None, None).1, out),
    ensures
        forall|i: int| 0 <= i < out.len() ==> is_prefix(p, #[trigger] out[i].0@),
        forall|k: Seq<u8>|
            #[trigger] m.dom().contains(k) && is_prefix(p, k) ==> exists|i: int|
                0 <= i < out.len() && #[trigger] out[i].0@ == k,
{
    assert forall|i: int| 0 <= i < out.len() implies is_prefix(p, #[trigger] out[i].0@) by {
        if all_ff(p) {
            lemma_all_ff_range(p, out[i].0@);
        } else {
            lemma_prefix_range(p, out[i].0@);
        }
    }
    assert forall|k: Seq<u8>|
        #[trigger] m.dom().contains(k) && is_prefix(p, k) implies exists|i: int|
        0 <= i < out.len() && #[trigger] out[i].0@ == k by {
        if all_ff(p) {
            lemma_all_ff_range(p, k);
        } else {
            lemma_prefix_range(p, k);
        }
        assert(within_bounds(k, resolved_range(Some(p), None, None).0, resolved_range(Some(p), None, None).1));
    }
}

} // verus!
