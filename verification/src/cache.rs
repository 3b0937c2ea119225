//! The document cache: a capacity- and time-bounded mapping from alias to an
//! immutable decoded collection. Entries are only ever inserted or evicted,
//! never mutated in place; time is a logical instant supplied by the caller.
//!
//! Eviction is least-recently-created: when a new alias arrives at a full
//! cache, the oldest entry leaves. An entry is fresh while the current instant
//! lies strictly before its insertion instant plus the time-to-live; a read of
//! a stale entry behaves as a miss, forcing a reload from storage.

use vstd::prelude::*;

use crate::model::CollectionModel;
use crate::model::ContentCollection;

verus! {

/// The mathematical value of one cache entry.
#[verifier::ext_equal]
pub struct EntryModel {
    pub alias: Seq<char>,
    pub value: CollectionModel,
    pub inserted_at: u64,
}

/// One cache slot: the alias, the shared immutable document, and the logical
/// instant of insertion.
pub struct CacheEntry {
    pub alias: String,
    pub value: ContentCollection,
    pub inserted_at: u64,
}

impl View for CacheEntry {
    type V = EntryModel;

    open spec fn view(&self) -> EntryModel {
        EntryModel { alias: self.alias@, value: self.value@, inserted_at: self.inserted_at }
    }
}

/// No two live entries share an alias, and the entry count never exceeds the
/// configured capacity.
pub open spec fn entries_wf(es: Seq<EntryModel>, capacity: nat) -> bool {
    &&& es.len() <= capacity
    &&& forall|i: int, j: int|
        0 <= i < es.len() && 0 <= j < es.len() && i != j ==> es[i].alias != es[j].alias
}

/// An entry is fresh at `now` while `now` lies strictly before the insertion
/// instant plus the time-to-live.
pub open spec fn entry_fresh(e: EntryModel, ttl: u64, now: u64) -> bool {
    now < e.inserted_at + ttl
}

/// Whether some entry carries this alias.
pub open spec fn contains_alias(es: Seq<EntryModel>, alias: Seq<char>) -> bool {
    exists|i: int| 0 <= i < es.len() && es[i].alias == alias
}

/// The position of the entry carrying this alias (meaningful only when
/// `contains_alias` holds; unique under `entries_wf`).
pub open spec fn alias_index(es: Seq<EntryModel>, alias: Seq<char>) -> int {
    choose|i: int| 0 <= i < es.len() && es[i].alias == alias
}

/// What a read returns: the stored document if the alias is present and its
/// entry is fresh, nothing otherwise.
pub open spec fn spec_get(es: Seq<EntryModel>, alias: Seq<char>, ttl: u64, now: u64) -> Option<
    CollectionModel,
> {
    if contains_alias(es, alias) && entry_fresh(es[alias_index(es, alias)], ttl, now) {
        Some(es[alias_index(es, alias)].value)
    } else {
        None
    }
}

/// What an insert leaves behind: any previous entry for the alias is removed,
/// the oldest entry leaves if the cache is still full, and the new entry is
/// appended as the youngest.
pub open spec fn spec_insert(
    es: Seq<EntryModel>,
    alias: Seq<char>,
    value: CollectionModel,
    now: u64,
    capacity: nat,
) -> Seq<EntryModel> {
    let base = if contains_alias(es, alias) {
        es.remove(alias_index(es, alias))
    } else {
        es
    };
    let trimmed = if base.len() >= capacity {
        base.remove(0)
    } else {
        base
    };
    trimmed.push(EntryModel { alias, value, inserted_at: now })
}

/// The capacity- and time-bounded alias-to-document map. The single shared
/// mutable state of the content layer.
pub struct DocumentCache {
    entries: Vec<CacheEntry>,
    capacity: usize,
    ttl: u64,
}

impl View for DocumentCache {
    type V = Seq<EntryModel>;

    closed spec fn view(&self) -> Seq<EntryModel> {
        self.entries@.map_values(|e: CacheEntry| e@)
    }
}

impl DocumentCache {
    pub closed spec fn spec_capacity(&self) -> nat {
        self.capacity as nat
    }

    pub closed spec fn spec_ttl(&self) -> u64 {
        self.ttl
    }

    pub closed spec fn wf(&self) -> bool {
        self.capacity >= 1 && entries_wf(self@, self.spec_capacity())
    }

    /// An empty cache bounded by `capacity` entries and a time-to-live of
    /// `ttl` logical units.
    pub fn new(capacity: usize, ttl: u64) -> (r: Self)
        requires
            capacity >= 1,
        ensures
            r.wf(),
            r@ == Seq::<EntryModel>::empty(),
            r.spec_capacity() == capacity,
            r.spec_ttl() == ttl,
    {
        let r = DocumentCache { entries: Vec::new(), capacity, ttl };
        proof {
            assert(r@ =~= Seq::<EntryModel>::empty());
        }
        r
    }

    pub fn capacity(&self) -> (r: usize)
        ensures
            r == self.spec_capacity(),
    {
        self.capacity
    }

    pub fn ttl(&self) -> (r: u64)
        ensures
            r == self.spec_ttl(),
    {
        self.ttl
    }

    pub fn len(&self) -> (r: usize)
        ensures
            r == self@.len(),
    {
        self.entries.len()
    }

    /// The position of the alias among the live entries, if any.
    fn find_index(&self, alias: &str) -> (r: Option<usize>)
        ensures
            match r {
                Some(i) => i < self@.len() && self@[i as int].alias == alias@,
                None => !contains_alias(self@, alias@),
            },
    {
        let key: String = alias.to_owned();
        let mut i: usize = 0;
        while i < self.entries.len()
            invariant
                i <= self@.len(),
                key@ == alias@,
                self@.len() == self.entries@.len(),
                forall|j: int| 0 <= j < i ==> self@[j].alias != alias@,
            decreases self@.len() - i,
        {
            if self.entries[i].alias == key {
                return Some(i);
            }
            i += 1;
        }
        None
    }

    /// A read at logical instant `now`: the shared document if the alias has a
    /// fresh entry, a miss otherwise. Never mutates the cache.
    pub fn get(&self, alias: &str, now: u64) -> (r: Option<&ContentCollection>)
        requires
            self.wf(),
        ensures
            match r {
                Some(c) => spec_get(self@, alias@, self.spec_ttl(), now) == Some(c@),
                None => spec_get(self@, alias@, self.spec_ttl(), now) is None,
            },
    {
        match self.find_index(alias) {
            Some(i) => {
                proof {
                    assert(contains_alias(self@, alias@));
                    let k = alias_index(self@, alias@);
                    assert(0 <= k < self@.len() && self@[k].alias == alias@);
                    assert(k == i);
                }
                let e = &self.entries[i];
                if e.inserted_at > u64::MAX - self.ttl {
                    // The expiry instant exceeds the machine range, so the
                    // entry outlives every representable instant.
                    Some(&e.value)
                } else if now < e.inserted_at + self.ttl {
                    Some(&e.value)
                } else {
                    None
                }
            },
            None => None,
        }
    }

    /// An insert at logical instant `now`: replaces any previous entry for the
    /// alias, evicts the oldest entry if the cache would otherwise overflow,
    /// and records the new entry as the youngest.
    pub fn insert(&mut self, alias: &str, value: ContentCollection, now: u64)
        requires
            old(self).wf(),
        ensures
            final(self).wf(),
            final(self)@ == spec_insert(
                old(self)@,
                alias@,
                value@,
                now,
                old(self).spec_capacity(),
            ),
            final(self).spec_capacity() == old(self).spec_capacity(),
            final(self).spec_ttl() == old(self).spec_ttl(),
    {
        let ghost es0 = self@;
        match self.find_index(alias) {
            Some(i) => {
                proof {
                    assert(contains_alias(es0, alias@));
                    let k = alias_index(es0, alias@);
                    assert(0 <= k < es0.len() && es0[k].alias == alias@);
                    assert(k == i);
                }
                self.entries.remove(i);
                proof {
                    assert(self@ =~= es0.remove(i as int));
                }
            },
            None => {},
        }
        let ghost base = self@;
        if self.entries.len() >= self.capacity {
            self.entries.remove(0);
            proof {
                assert(self@ =~= base.remove(0));
            }
        }
        let ghost trimmed = self@;
        let entry = CacheEntry { alias: alias.to_owned(), value, inserted_at: now };
        self.entries.push(entry);
        proof {
            assert(self@ =~= trimmed.push(
                EntryModel { alias: alias@, value: value@, inserted_at: now },
            ));
            assert(self@ =~= spec_insert(es0, alias@, value@, now, self.spec_capacity()));
            lemma_insert_wf(es0, alias@, value@, now, self.spec_capacity());
        }
    }
}

/// Inserting preserves well-formedness: the alias stays unique and the entry
/// count stays within capacity.
pub proof fn lemma_insert_wf(
    es: Seq<EntryModel>,
    alias: Seq<char>,
    value: CollectionModel,
    now: u64,
    capacity: nat,
)
    requires
        entries_wf(es, capacity),
        capacity >= 1,
    ensures
        entries_wf(spec_insert(es, alias, value, now, capacity), capacity),
{
    let base = if contains_alias(es, alias) {
        es.remove(alias_index(es, alias))
    } else {
        es
    };
    if contains_alias(es, alias) {
        let k = alias_index(es, alias);
        assert(0 <= k < es.len() && es[k].alias == alias);
        assert forall|j: int| 0 <= j < base.len() implies base[j].alias != alias by {
            if j < k {
                assert(base[j] == es[j]);
            } else {
                assert(base[j] == es[j + 1]);
            }
        }
    } else {
        assert(forall|j: int| 0 <= j < base.len() ==> base[j].alias != alias);
    }
    let trimmed = if base.len() >= capacity {
        base.remove(0)
    } else {
        base
    };
    assert(forall|j: int| 0 <= j < trimmed.len() ==> trimmed[j].alias != alias);
    let out = trimmed.push(EntryModel { alias, value, inserted_at: now });
    assert(out.len() <= capacity);
    assert forall|i: int, j: int|
        0 <= i < out.len() && 0 <= j < out.len() && i != j implies out[i].alias != out[j].alias by {
        if i < out.len() - 1 && j < out.len() - 1 {
        } else if i == out.len() - 1 {
            assert(out[j].alias != alias);
        } else {
            assert(out[i].alias != alias);
        }
    }
}

} // verus!
