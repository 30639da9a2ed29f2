//! A memo of routing paths between token pairs, with hit and miss counters.
use vstd::prelude::*;

use crate::common::{Table, TableKey};

verus! {

/// The (from, to) token pair a path is cached for.
#[derive(Clone, Copy, Debug, PartialEq, Eq, Structural)]
pub struct PathKey {
    pub from_token: u64,
    pub to_token: u64,
}

impl TableKey for PathKey {
    fn same(&self, other: &Self) -> (r: bool) {
        *self == *other
    }
}

/// Returns an element-by-element copy of `v`.
pub fn copy_path(v: &Vec<u64>) -> (r: Vec<u64>)
    ensures
        r@ == v@,
{
    let mut r: Vec<u64> = Vec::new();
    let n = v.len();
    let mut i: usize = 0;
    while i < n
        invariant
            n == v@.len(),
            i <= n,
            r@ == v@.subrange(0, i as int),
        decreases n - i,
    {
        r.push(v[i]);
        i = i + 1;
        assert(r@ =~= v@.subrange(0, i as int));
    }
    assert(v@.subrange(0, n as int) =~= v@);
    r
}

/// A cache of token paths keyed by token pair.
pub struct PathCache {
    entries: Table<PathKey, Vec<u64>>,
    hits: u64,
    misses: u64,
}

impl PathCache {
    /// The cached paths, by token pair.
    pub closed spec fn paths(&self) -> Map<PathKey, Seq<u64>> {
        self.entries@.map_values(|p: Vec<u64>| p@)
    }

    /// The number of lookups that found a path.
    pub closed spec fn spec_hits(&self) -> u64 {
        self.hits
    }

    /// The number of lookups that found nothing.
    pub closed spec fn spec_misses(&self) -> u64 {
        self.misses
    }

    /// The cache's internal invariant.
    pub closed spec fn wf(&self) -> bool {
        self.entries.wf()
    }

    /// The cache as its paths and its two counters.
    pub open spec fn model(&self) -> CacheModel {
        CacheModel { paths: self.paths(), hits: self.spec_hits() as int, misses: self.spec_misses() as int }
    }

    /// An empty cache with both counters at zero.
    pub fn new() -> (c: Self)
        ensures
            c.wf(),
            c.paths() == Map::<PathKey, Seq<u64>>::empty(),
            c.spec_hits() == 0,
            c.spec_misses() == 0,
            c.model() == cache_run(Seq::empty()),
    {
        let c = PathCache { entries: Table::new(), hits: 0, misses: 0 };
        assert(c.paths() =~= Map::<PathKey, Seq<u64>>::empty());
        assert(c.model() == cache_run(Seq::empty()));
        c
    }

    /// Looks up the path for `key`, counting a hit or a miss.
    pub fn get(&mut self, key: &PathKey) -> (r: Option<Vec<u64>>)
        requires
            old(self).wf(),
            old(self).spec_hits() < u64::MAX,
            old(self).spec_misses() < u64::MAX,
        ensures
            final(self).wf(),
            final(self).paths() == old(self).paths(),
            match r {
                Some(p) => old(self).paths().contains_key(*key) && p@ == old(self).paths()[*key]
                    && final(self).spec_hits() == old(self).spec_hits() + 1
                    && final(self).spec_misses() == old(self).spec_misses(),
                None => !old(self).paths().contains_key(*key) && final(self).spec_hits()
                    == old(self).spec_hits() && final(self).spec_misses() == old(self).spec_misses() + 1,
            },
            final(self).model() == cache_step(old(self).model(), CacheOp::Lookup(*key)),
    {
        match self.entries.get(key) {
            Some(p) => {
                let copy = copy_path(p);
                self.hits = self.hits + 1;
                Some(copy)
            },
            None => {
                self.misses = self.misses + 1;
                None
            },
        }
    }

    /// Caches `path` for `key`, replacing any earlier path for that key.
    pub fn insert(&mut self, key: PathKey, path: Vec<u64>)
        requires
            old(self).wf(),
        ensures
            final(self).wf(),
            final(self).paths() == old(self).paths().insert(key, path@),
            final(self).spec_hits() == old(self).spec_hits(),
            final(self).spec_misses() == old(self).spec_misses(),
            final(self).model() == cache_step(old(self).model(), CacheOp::Store(key, path@)),
            final(self).paths().dom().len() == old(self).paths().dom().len() + if old(self).paths().contains_key(
                key,
            ) {
                0int
            } else {
                1int
            },
    {
        let ghost p = path@;
        proof {
            old(self).entries.lemma_finite();
            assert(old(self).paths().dom() =~= old(self).entries@.dom());
        }
        self.entries.insert(key, path);
        assert(self.paths() =~= old(self).paths().insert(key, p));
        assert(self.paths().dom() =~= old(self).paths().dom().insert(key));
    }

    /// The number of lookups that found a path.
    pub fn hits(&self) -> (r: u64)
        ensures
            r == self.spec_hits(),
    {
        self.hits
    }

    /// The number of lookups that found nothing.
    pub fn misses(&self) -> (r: u64)
        ensures
            r == self.spec_misses(),
    {
        self.misses
    }
}

/// An operation on a path cache: a lookup of a key, or storing a path under a key.
pub enum CacheOp {
    Lookup(PathKey),
    Store(PathKey, Seq<u64>),
}

/// What a path cache holds: its paths and how many lookups hit and missed.
pub struct CacheModel {
    pub paths: Map<PathKey, Seq<u64>>,
    pub hits: int,
    pub misses: int,
}

/// The cache after one operation: a lookup counts a hit when its key is cached and a
/// miss otherwise; a store replaces the key's path.
pub open spec fn cache_step(m: CacheModel, op: CacheOp) -> CacheModel {
    match op {
        CacheOp::Lookup(k) => if m.paths.contains_key(k) {
            CacheModel { hits: m.hits + 1, ..m }
        } else {
            CacheModel { misses: m.misses + 1, ..m }
        },
        CacheOp::Store(k, p) => CacheModel { paths: m.paths.insert(k, p), ..m },
    }
}

/// A new cache after the operations `ops`, in order.
pub open spec fn cache_run(ops: Seq<CacheOp>) -> CacheModel
    decreases ops.len(),
{
    if ops.len() == 0 {
        CacheModel { paths: Map::empty(), hits: 0, misses: 0 }
    } else {
        cache_step(cache_run(ops.drop_last()), ops.last())
    }
}

/// The path most recently stored under `k` in `ops`, if any.
pub open spec fn last_store(ops: Seq<CacheOp>, k: PathKey) -> Option<Seq<u64>>
    decreases ops.len(),
{
    if ops.len() == 0 {
        None
    } else {
        match ops.last() {
            CacheOp::Store(kk, p) => if kk == k {
                Some(p)
            } else {
                last_store(ops.drop_last(), k)
            },
            CacheOp::Lookup(_) => last_store(ops.drop_last(), k),
        }
    }
}

/// How many lookups in `ops` come after a store under the same key (`found`), or
/// after none (`!found`).
pub open spec fn lookups(ops: Seq<CacheOp>, found: bool) -> int
    decreases ops.len(),
{
    if ops.len() == 0 {
        0
    } else {
        lookups(ops.drop_last(), found) + match ops.last() {
            CacheOp::Lookup(k) => if (last_store(ops.drop_last(), k) is Some) == found {
                1int
            } else {
                0int
            },
            CacheOp::Store(_, _) => 0int,
        }
    }
}

/// After any sequence of lookups and stores on a new cache, a key holds the path most
/// recently stored under it (and is absent if none was stored); the hit counter is the
/// number of lookups of a key stored earlier, and the miss counter the number of the
/// others.
pub proof fn lemma_cache_history(ops: Seq<CacheOp>)
    ensures
        forall|k: PathKey| #[trigger]
            cache_run(ops).paths.contains_key(k) == (last_store(ops, k) is Some),
        forall|k: PathKey| #[trigger]
            cache_run(ops).paths.contains_key(k) ==> cache_run(ops).paths[k] == last_store(ops, k)->0,
        cache_run(ops).hits == lookups(ops, true),
        cache_run(ops).misses == lookups(ops, false),
    decreases ops.len(),
{
    if ops.len() > 0 {
        lemma_cache_history(ops.drop_last());
    }
}

/// A cached path is what a later lookup of its key returns: the state after
/// `insert(key, path)` maps `key` to `path`, and no other key changes.
pub proof fn lemma_insert_then_lookup(
    before: Map<PathKey, Seq<u64>>,
    after: Map<PathKey, Seq<u64>>,
    key: PathKey,
    path: Seq<u64>,
    other: PathKey,
)
    requires
        after == before.insert(key, path),
    ensures
        after.contains_key(key),
        after[key] == path,
        other != key ==> (after.contains_key(other) == before.contains_key(other)),
        other != key && before.contains_key(other) ==> after[other] == before[other],
{
}

} // verus!
