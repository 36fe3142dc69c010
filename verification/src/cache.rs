//! The read-through cache for immutable data: a bounded
//! least-recently-used map from a network name to the datum stored
//! under it.
//!
//! The store itself is `lru_cache::LruCache`.  Its contents are modelled
//! by `lru_model`, the entries ordered from least- to most-recently
//! used, and its bound by `lru_capacity`; the wrappers state over those
//! names what the crate's source shows of `new`, `get_mut` and
//! `insert`.  `ImmutCache` keeps the invariants the client needs: keys
//! unique, size bounded, every entry immutable data under its own name.

use core::hash::{BuildHasher, Hash};
use vstd::prelude::*;

use crate::data::{Data, DataV};
use crate::types::XorName;

verus! {

#[verifier::external_type_specification]
#[verifier::external_body]
#[verifier::reject_recursive_types(K)]
#[verifier::reject_recursive_types(V)]
#[verifier::reject_recursive_types(S)]
pub struct ExLruCache<K: Eq + Hash, V, S: BuildHasher>(lru_cache::LruCache<K, V, S>);

/// What the cache holds: its entries from least- to most-recently used,
/// each a name and the datum stored under it.
pub uninterp spec fn lru_model(c: lru_cache::LruCache<XorName, Data>) -> Seq<(Seq<u8>, DataV)>;

/// The bound the cache was made with.
pub uninterp spec fn lru_capacity(c: lru_cache::LruCache<XorName, Data>) -> usize;

/// Whether some entry carries the key.
pub open spec fn lru_has_key(m: Seq<(Seq<u8>, DataV)>, k: Seq<u8>) -> bool {
    exists|i: int| 0 <= i < m.len() && m[i].0 == k
}

/// The position of the entry carrying the key.
pub open spec fn lru_index_of(m: Seq<(Seq<u8>, DataV)>, k: Seq<u8>) -> int {
    choose|i: int| 0 <= i < m.len() && m[i].0 == k
}

/// Entry keys are pairwise distinct.
pub open spec fn lru_keys_unique(m: Seq<(Seq<u8>, DataV)>) -> bool {
    forall|i: int, j: int| 0 <= i < j < m.len() ==> m[i].0 != m[j].0
}

/// Relies on lru_cache::LruCache::new: a fresh cache is empty and holds
/// at most `capacity` entries.
#[verifier::external_body]
fn lru_new(capacity: usize) -> (r: lru_cache::LruCache<XorName, Data>)
    ensures
        lru_model(r) == Seq::<(Seq<u8>, DataV)>::empty(),
        lru_capacity(r) == capacity,
{
    lru_cache::LruCache::new(capacity)
}

/// Relies on lru_cache::LruCache::get_mut, backed by the linked map's
/// get_refresh: a hit returns the stored value and moves its entry to
/// the most-recent end; a miss changes nothing.
#[verifier::external_body]
fn lru_get(c: &mut lru_cache::LruCache<XorName, Data>, k: &XorName) -> (r: Option<Data>)
    requires
        lru_keys_unique(lru_model(*old(c))),
    ensures
        lru_capacity(*final(c)) == lru_capacity(*old(c)),
        ({
            let m = lru_model(*old(c));
            if lru_has_key(m, k@) {
                let i = lru_index_of(m, k@);
                &&& r matches Some(d) && d@ == m[i].1
                &&& lru_model(*final(c)) == m.remove(i).push(m[i])
            } else {
                &&& r is None
                &&& lru_model(*final(c)) == m
            }
        }),
{
    c.get_mut(k).map(|d| d.clone())
}

/// Relies on lru_cache::LruCache::insert: an existing key is updated
/// and refreshed, a new key is appended most-recent, and when the cache
/// then exceeds its bound the least-recently-used entry is evicted.
#[verifier::external_body]
fn lru_insert(c: &mut lru_cache::LruCache<XorName, Data>, k: XorName, v: Data) -> (r: Option<
    Data,
>)
    requires
        lru_keys_unique(lru_model(*old(c))),
    ensures
        lru_capacity(*final(c)) == lru_capacity(*old(c)),
        ({
            let m = lru_model(*old(c));
            let m2 = if lru_has_key(m, k@) {
                m.remove(lru_index_of(m, k@)).push((k@, v@))
            } else {
                m.push((k@, v@))
            };
            let m3 = if m2.len() > lru_capacity(*old(c)) {
                m2.drop_first()
            } else {
                m2
            };
            &&& lru_model(*final(c)) == m3
            &&& if lru_has_key(m, k@) {
                r matches Some(d) && d@ == m[lru_index_of(m, k@)].1
            } else {
                r is None
            }
        }),
{
    c.insert(k, v)
}

/// Removing an entry and appending one with the same key keeps the keys
/// unique.
proof fn lemma_refresh_keeps_unique(m: Seq<(Seq<u8>, DataV)>, i: int, e: (Seq<u8>, DataV))
    requires
        lru_keys_unique(m),
        0 <= i < m.len(),
        e.0 == m[i].0,
    ensures
        lru_keys_unique(m.remove(i).push(e)),
        !lru_has_key(m.remove(i), e.0),
{
    let m1 = m.remove(i);
    assert forall|j: int| 0 <= j < m1.len() implies m1[j].0 != e.0 by {
        if j < i {
            assert(m1[j] == m[j]);
        } else {
            assert(m1[j] == m[j + 1]);
        }
    }
    assert forall|p: int, q: int| 0 <= p < q < m1.push(e).len() implies m1.push(e)[p].0
        != m1.push(e)[q].0 by {
        if q < m1.len() {
            let mp = if p < i {
                p
            } else {
                p + 1
            };
            let mq = if q < i {
                q
            } else {
                q + 1
            };
            assert(m1[p] == m[mp]);
            assert(m1[q] == m[mq]);
        } else {
            assert(m1.push(e)[q] == e);
        }
    }
}

/// Appending an entry with a fresh key keeps the keys unique.
proof fn lemma_push_fresh_keeps_unique(m: Seq<(Seq<u8>, DataV)>, e: (Seq<u8>, DataV))
    requires
        lru_keys_unique(m),
        !lru_has_key(m, e.0),
    ensures
        lru_keys_unique(m.push(e)),
{
    assert forall|p: int, q: int| 0 <= p < q < m.push(e).len() implies m.push(e)[p].0 != m.push(
        e,
    )[q].0 by {
        if q < m.len() {
        } else {
            assert(m.push(e)[q] == e);
            assert(m.push(e)[p] == m[p]);
        }
    }
}

/// Dropping the least-recent entry keeps the keys unique.
proof fn lemma_drop_first_keeps_unique(m: Seq<(Seq<u8>, DataV)>)
    requires
        lru_keys_unique(m),
        m.len() >= 1,
    ensures
        lru_keys_unique(m.drop_first()),
{
    let m1 = m.drop_first();
    assert forall|p: int, q: int| 0 <= p < q < m1.len() implies m1[p].0 != m1[q].0 by {
        assert(m1[p] == m[p + 1]);
        assert(m1[q] == m[q + 1]);
    }
}

/// Law: inserting a fresh entry into a full cache evicts exactly the
/// least-recently-used entry — the key at the front of the order is
/// gone, the new key is present, and the size stays at the bound.
pub proof fn lemma_cache_eviction(m: Seq<(Seq<u8>, DataV)>, cap: usize, e: (Seq<u8>, DataV))
    requires
        lru_keys_unique(m),
        m.len() == cap,
        cap >= 1,
        !lru_has_key(m, e.0),
    ensures
        ({
            let m2 = m.push(e).drop_first();
            &&& m2.len() == cap
            &&& !lru_has_key(m2, m[0].0)
            &&& lru_has_key(m2, e.0)
        }),
{
    let m2 = m.push(e).drop_first();
    assert(m2[cap - 1] == m.push(e)[cap as int]);
    assert(m2[cap - 1] == e);
    assert(lru_has_key(m2, e.0));
    assert(m[0].0 != e.0) by {
        if m[0].0 == e.0 {
            assert(lru_has_key(m, e.0));
        }
    }
    assert forall|i: int| 0 <= i < m2.len() implies m2[i].0 != m[0].0 by {
        assert(m2[i] == m.push(e)[i + 1]);
        if i + 1 < m.len() {
            assert(m.push(e)[i + 1] == m[i + 1]);
        } else {
            assert(m.push(e)[i + 1] == e);
        }
    }
}

/// Read-through cache for immutable data.
pub struct ImmutCache {
    inner: lru_cache::LruCache<XorName, Data>,
}

impl ImmutCache {
    /// The entries, from least- to most-recently used.
    pub closed spec fn model(self) -> Seq<(Seq<u8>, DataV)> {
        lru_model(self.inner)
    }

    /// The bound the cache was made with.
    pub closed spec fn capacity(self) -> usize {
        lru_capacity(self.inner)
    }

    /// Unique keys, bounded size, and every entry holds immutable data
    /// stored under its own name.
    pub open spec fn wf(self) -> bool {
        &&& lru_keys_unique(self.model())
        &&& self.model().len() <= self.capacity()
        &&& forall|i: int|
            0 <= i < self.model().len() ==> (#[trigger] self.model()[i].1) is Immutable
                && self.model()[i].1.name() == self.model()[i].0
    }

    pub open spec fn has(self, k: Seq<u8>) -> bool {
        lru_has_key(self.model(), k)
    }

    pub open spec fn value_of(self, k: Seq<u8>) -> DataV {
        self.model()[lru_index_of(self.model(), k)].1
    }

    pub fn new(capacity: usize) -> (r: ImmutCache)
        ensures
            r.wf(),
            r.model() == Seq::<(Seq<u8>, DataV)>::empty(),
            r.capacity() == capacity,
    {
        ImmutCache { inner: lru_new(capacity) }
    }

    /// Looks a name up; a hit hands the datum back and refreshes its
    /// recency, a miss changes nothing.
    pub fn get(&mut self, name: &XorName) -> (r: Option<Data>)
        requires
            old(self).wf(),
        ensures
            final(self).wf(),
            final(self).capacity() == old(self).capacity(),
            ({
                let m = old(self).model();
                if old(self).has(name@) {
                    let i = lru_index_of(m, name@);
                    &&& r matches Some(d) && d@ == m[i].1
                    &&& final(self).model() == m.remove(i).push(m[i])
                } else {
                    &&& r is None
                    &&& final(self).model() == m
                }
            }),
    {
        let r = lru_get(&mut self.inner, name);
        proof {
            let m = old(self).model();
            if lru_has_key(m, name@) {
                let i = lru_index_of(m, name@);
                lemma_refresh_keeps_unique(m, i, m[i]);
                assert forall|j: int| 0 <= j < self.model().len() implies (
                #[trigger] self.model()[j].1) is Immutable && self.model()[j].1.name()
                    == self.model()[j].0 by {
                    let m1 = m.remove(i);
                    if j < m1.len() {
                        if j < i {
                            assert(m1[j] == m[j]);
                        } else {
                            assert(m1[j] == m[j + 1]);
                        }
                    } else {
                        assert(self.model()[j] == m[i]);
                    }
                }
            }
        }
        r
    }

    /// Stores immutable data under its own name; when the cache is full
    /// the least-recently-used entry makes room.
    pub fn insert(&mut self, data: Data)
        requires
            old(self).wf(),
            old(self).capacity() >= 1,
            data@ is Immutable,
        ensures
            final(self).wf(),
            final(self).capacity() == old(self).capacity(),
            ({
                let m = old(self).model();
                let k = data@.name();
                let m2 = if lru_has_key(m, k) {
                    m.remove(lru_index_of(m, k)).push((k, data@))
                } else {
                    m.push((k, data@))
                };
                final(self).model() == (if m2.len() > old(self).capacity() {
                    m2.drop_first()
                } else {
                    m2
                })
            }),
    {
        let name = data.name().clone();
        let ghost m = old(self).model();
        let ghost k = name@;
        let ghost cap = old(self).capacity();
        let _ = lru_insert(&mut self.inner, name, data);
        proof {
            let m2 = if lru_has_key(m, k) {
                m.remove(lru_index_of(m, k)).push((k, data@))
            } else {
                m.push((k, data@))
            };
            if lru_has_key(m, k) {
                lemma_refresh_keeps_unique(m, lru_index_of(m, k), (k, data@));
                assert(m2.len() == m.len());
            } else {
                lemma_push_fresh_keeps_unique(m, (k, data@));
            }
            assert forall|j: int| 0 <= j < m2.len() implies (#[trigger] m2[j].1) is Immutable
                && m2[j].1.name() == m2[j].0 by {
                if lru_has_key(m, k) {
                    let i = lru_index_of(m, k);
                    let m1 = m.remove(i);
                    if j < m1.len() {
                        if j < i {
                            assert(m1[j] == m[j]);
                        } else {
                            assert(m1[j] == m[j + 1]);
                        }
                    } else {
                        assert(m2[j] == (k, data@));
                    }
                } else {
                    if j == m.len() {
                        assert(m2[j] == (k, data@));
                    }
                }
            }
            if m2.len() > cap {
                lemma_drop_first_keeps_unique(m2);
                assert forall|j: int| 0 <= j < m2.drop_first().len() implies (
                #[trigger] m2.drop_first()[j].1) is Immutable && m2.drop_first()[j].1.name()
                    == m2.drop_first()[j].0 by {
                    assert(m2.drop_first()[j] == m2[j + 1]);
                }
            }
        }
    }
}

} // verus!
