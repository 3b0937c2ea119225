//! The cache laws: freshness, expiry and eviction, stated over the cache
//! model and proved once for every state the invariant admits.

use vstd::prelude::*;

use crate::cache::EntryModel;
use crate::cache::contains_alias;
use crate::cache::alias_index;
use crate::cache::entries_wf;
use crate::cache::entry_fresh;
use crate::cache::lemma_insert_wf;
use crate::cache::spec_get;
use crate::cache::spec_insert;
use crate::model::CollectionModel;
use crate::store::spec_outcome;
use crate::store::spec_load;
use crate::model::MetaModel;

verus! {

/// The entry just inserted is the youngest, and the only one carrying its
/// alias.
proof fn lemma_inserted_is_last(
    es: Seq<EntryModel>,
    alias: Seq<char>,
    value: CollectionModel,
    t: u64,
    capacity: nat,
)
    requires
        entries_wf(es, capacity),
        capacity >= 1,
    ensures
        contains_alias(spec_insert(es, alias, value, t, capacity), alias),
        alias_index(spec_insert(es, alias, value, t, capacity), alias) == spec_insert(
            es,
            alias,
            value,
            t,
            capacity,
        ).len() - 1,
        spec_insert(es, alias, value, t, capacity).last() == (EntryModel {
            alias,
            value,
            inserted_at: t,
        }),
{
    lemma_insert_wf(es, alias, value, t, capacity);
    let out = spec_insert(es, alias, value, t, capacity);
    assert(out.last() == (EntryModel { alias, value, inserted_at: t }));
    assert(out[out.len() - 1].alias == alias);
    assert(contains_alias(out, alias));
    let k = alias_index(out, alias);
    assert(0 <= k < out.len() && out[k].alias == alias);
    if k != out.len() - 1 {
        assert(out[k].alias != out[out.len() - 1].alias);
        assert(false);
    }
}

/// Idempotence within the window: once a load has populated the cache at
/// instant `t`, a read at any instant still inside the time-to-live returns
/// exactly the loaded document.
pub proof fn lemma_fresh_hit_after_insert(
    es: Seq<EntryModel>,
    alias: Seq<char>,
    value: CollectionModel,
    t: u64,
    now: u64,
    capacity: nat,
    ttl: u64,
)
    requires
        entries_wf(es, capacity),
        capacity >= 1,
        now < t + ttl,
    ensures
        spec_get(spec_insert(es, alias, value, t, capacity), alias, ttl, now) == Some(value),
{
    lemma_inserted_is_last(es, alias, value, t, capacity);
}

/// Idempotence of the whole read: after one successful load, a second read
/// within the window observes the same document whatever the metadata index
/// and the storage would answer now — no outcome of theirs is consulted.
pub proof fn lemma_second_read_is_cached(
    es: Seq<EntryModel>,
    alias: Seq<char>,
    value: CollectionModel,
    t: u64,
    now: u64,
    capacity: nat,
    ttl: u64,
    meta: Option<MetaModel>,
    blob: Option<Seq<u8>>,
)
    requires
        entries_wf(es, capacity),
        capacity >= 1,
        now < t + ttl,
    ensures
        spec_outcome(spec_insert(es, alias, value, t, capacity), ttl, alias, now, meta, blob)
            == Ok::<CollectionModel, crate::errors::ContentError>(value),
{
    lemma_fresh_hit_after_insert(es, alias, value, t, now, capacity, ttl);
}

/// Immutability: two reads that both hit, at any two instants, observe the
/// same document — an entry is only ever inserted or evicted, never changed.
pub proof fn lemma_shared_snapshot(
    es: Seq<EntryModel>,
    alias: Seq<char>,
    ttl: u64,
    t1: u64,
    t2: u64,
)
    requires
        spec_get(es, alias, ttl, t1) is Some,
        spec_get(es, alias, ttl, t2) is Some,
    ensures
        spec_get(es, alias, ttl, t1) == spec_get(es, alias, ttl, t2),
{
}

/// Expiry: once the time-to-live has passed since insertion, the read is a
/// miss, forcing a fresh load from storage.
pub proof fn lemma_ttl_expiry(
    es: Seq<EntryModel>,
    alias: Seq<char>,
    value: CollectionModel,
    t: u64,
    now: u64,
    capacity: nat,
    ttl: u64,
)
    requires
        entries_wf(es, capacity),
        capacity >= 1,
        now >= t + ttl,
    ensures
        spec_get(spec_insert(es, alias, value, t, capacity), alias, ttl, now) is None,
{
    lemma_inserted_is_last(es, alias, value, t, capacity);
    let out = spec_insert(es, alias, value, t, capacity);
    assert(!entry_fresh(out[alias_index(out, alias)], ttl, now));
}

/// Capacity eviction: a new alias arriving at a full cache evicts the oldest
/// entry, and a subsequent read of the evicted alias misses.
pub proof fn lemma_capacity_eviction(
    es: Seq<EntryModel>,
    alias: Seq<char>,
    value: CollectionModel,
    t: u64,
    now: u64,
    capacity: nat,
    ttl: u64,
)
    requires
        entries_wf(es, capacity),
        capacity >= 1,
        es.len() == capacity,
        !contains_alias(es, alias),
    ensures
        !contains_alias(spec_insert(es, alias, value, t, capacity), es[0].alias),
        spec_get(spec_insert(es, alias, value, t, capacity), es[0].alias, ttl, now) is None,
{
    let out = spec_insert(es, alias, value, t, capacity);
    let evicted = es[0].alias;
    assert(es[0].alias != alias);
    let trimmed = es.remove(0);
    assert forall|i: int| 0 <= i < out.len() implies out[i].alias != evicted by {
        if i < out.len() - 1 {
            assert(out[i] == trimmed[i]);
            assert(trimmed[i] == es[i + 1]);
        } else {
            assert(out[i].alias == alias);
        }
    }
    if contains_alias(out, evicted) {
        let k = alias_index(out, evicted);
        assert(0 <= k < out.len() && out[k].alias == evicted);
        assert(false);
    }
}

/// A failure never populates: when the cache misses and the load fails, the
/// read surfaces exactly that failure.
pub proof fn lemma_failure_is_surfaced(
    es: Seq<EntryModel>,
    alias: Seq<char>,
    ttl: u64,
    now: u64,
    meta: Option<MetaModel>,
    blob: Option<Seq<u8>>,
)
    requires
        spec_get(es, alias, ttl, now) is None,
        spec_load(meta, blob) is Err,
    ensures
        spec_outcome(es, ttl, alias, now, meta, blob) == spec_load(meta, blob),
{
}

} // verus!
