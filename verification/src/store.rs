//! The content store: the orchestrator that composes cache, metadata
//! resolution, blob loading and decoding into collection and item reads.
//!
//! Resolution and loading are I/O performed by the surrounding service; the
//! store receives their answers as plain values and makes every decision
//! here: a missing metadata row, a dangling file, a corrupt frame and a
//! malformed document each surface as their own error kind, and a failed load
//! never leaves a cache entry behind.

use vstd::prelude::*;

use crate::cache::DocumentCache;
use crate::cache::EntryModel;
use crate::cache::spec_get;
use crate::cache::spec_insert;
use crate::decode::decode;
use crate::decode::spec_decode;
use crate::errors::ContentError;
use crate::model::CollectionMetadata;
use crate::model::CollectionModel;
use crate::model::ContentCollection;
use crate::model::ContentItem;
use crate::model::ItemModel;
use crate::model::MetaModel;

verus! {

/// The model of the resolver's answer.
pub open spec fn meta_model(meta: Option<CollectionMetadata>) -> Option<MetaModel> {
    match meta {
        Some(m) => Some(m@),
        None => None,
    }
}

/// The model of the loader's answer.
pub open spec fn blob_model(blob: Option<Vec<u8>>) -> Option<Seq<u8>> {
    match blob {
        Some(b) => Some(b@),
        None => None,
    }
}

/// What completing a cache miss yields: no metadata row is a
/// `MetadataNotFound`, a dangling row whose file is absent is a
/// `BlobNotFound`, and otherwise the blob decodes or fails on its own terms.
pub open spec fn spec_load(meta: Option<MetaModel>, blob: Option<Seq<u8>>) -> Result<
    CollectionModel,
    ContentError,
> {
    match meta {
        None => Err(ContentError::MetadataNotFound),
        Some(_) => match blob {
            None => Err(ContentError::BlobNotFound),
            Some(b) => spec_decode(b),
        },
    }
}

/// The outcome of a collection read at `now`: the fresh cached document when
/// one exists, the completed load otherwise.
pub open spec fn spec_outcome(
    es: Seq<EntryModel>,
    ttl: u64,
    alias: Seq<char>,
    now: u64,
    meta: Option<MetaModel>,
    blob: Option<Seq<u8>>,
) -> Result<CollectionModel, ContentError> {
    match spec_get(es, alias, ttl, now) {
        Some(c) => Ok(c),
        None => spec_load(meta, blob),
    }
}

/// The first item carrying `id`, if any.
pub open spec fn spec_find_item(items: Seq<ItemModel>, id: Seq<char>) -> Option<ItemModel>
    decreases items.len(),
{
    if items.len() == 0 {
        None
    } else if items[0].id == id {
        Some(items[0])
    } else {
        spec_find_item(items.drop_first(), id)
    }
}

/// The outcome of an item read: the collection read's failure, the first item
/// carrying the id, or `ItemNotFound`.
pub open spec fn spec_item_outcome(
    es: Seq<EntryModel>,
    ttl: u64,
    alias: Seq<char>,
    item_id: Seq<char>,
    now: u64,
    meta: Option<MetaModel>,
    blob: Option<Seq<u8>>,
) -> Result<ItemModel, ContentError> {
    match spec_outcome(es, ttl, alias, now, meta, blob) {
        Err(e) => Err(e),
        Ok(c) => match spec_find_item(c.items, item_id) {
            Some(it) => Ok(it),
            None => Err(ContentError::ItemNotFound),
        },
    }
}

/// If no item of a prefix carries the id, the search outcome is decided by
/// the rest.
proof fn lemma_find_item_skip(items: Seq<ItemModel>, id: Seq<char>, i: int)
    requires
        0 <= i <= items.len(),
        forall|j: int| 0 <= j < i ==> items[j].id != id,
    ensures
        spec_find_item(items, id) == spec_find_item(items.skip(i), id),
    decreases i,
{
    if i > 0 {
        assert(items.len() > 0);
        assert(items[0].id != id);
        lemma_find_item_skip(items.drop_first(), id, i - 1);
        assert(items.drop_first().skip(i - 1) =~= items.skip(i));
    } else {
        assert(items.skip(0) =~= items);
    }
}

/// The content store: the document cache is its single piece of state.
pub struct ContentStore {
    cache: DocumentCache,
}

impl ContentStore {
    pub closed spec fn wf(&self) -> bool {
        self.cache.wf()
    }

    /// The live cache entries, oldest first.
    pub closed spec fn entries(&self) -> Seq<EntryModel> {
        self.cache@
    }

    pub closed spec fn spec_capacity(&self) -> nat {
        self.cache.spec_capacity()
    }

    pub closed spec fn spec_ttl(&self) -> u64 {
        self.cache.spec_ttl()
    }

    /// A store over an empty cache bounded by `capacity` entries and a
    /// time-to-live of `ttl` logical units.
    pub fn new(capacity: usize, ttl: u64) -> (r: Self)
        requires
            capacity >= 1,
        ensures
            r.wf(),
            r.entries() == Seq::<EntryModel>::empty(),
            r.spec_capacity() == capacity,
            r.spec_ttl() == ttl,
    {
        ContentStore { cache: DocumentCache::new(capacity, ttl) }
    }

    /// The cache probe alone: the service asks this first and performs the
    /// resolve-and-load I/O only on a miss. Never mutates the store.
    pub fn probe(&self, alias: &str, now: u64) -> (r: Option<ContentCollection>)
        requires
            self.wf(),
        ensures
            match r {
                Some(c) => spec_get(self.entries(), alias@, self.spec_ttl(), now) == Some(c@),
                None => spec_get(self.entries(), alias@, self.spec_ttl(), now) is None,
            },
    {
        match self.cache.get(alias, now) {
            Some(c) => Some(c.clone()),
            None => None,
        }
    }

    /// A collection read at `now`. `meta` and `blob` are the answers the
    /// service obtained from the metadata index and from storage; on a fresh
    /// cache hit they are ignored and the shared document is returned as is.
    /// Exactly `spec_outcome` decides the result; the cache gains an entry on
    /// a successful load and is left untouched by every failure.
    pub fn get_collection(
        &mut self,
        alias: &str,
        now: u64,
        meta: Option<CollectionMetadata>,
        blob: Option<Vec<u8>>,
    ) -> (r: Result<ContentCollection, ContentError>)
        requires
            old(self).wf(),
        ensures
            final(self).wf(),
            final(self).spec_capacity() == old(self).spec_capacity(),
            final(self).spec_ttl() == old(self).spec_ttl(),
            match r {
                Ok(c) => spec_outcome(
                    old(self).entries(),
                    old(self).spec_ttl(),
                    alias@,
                    now,
                    meta_model(meta),
                    blob_model(blob),
                ) == Ok::<CollectionModel, ContentError>(c@),
                Err(e) => spec_outcome(
                    old(self).entries(),
                    old(self).spec_ttl(),
                    alias@,
                    now,
                    meta_model(meta),
                    blob_model(blob),
                ) == Err::<CollectionModel, ContentError>(e),
            },
            r is Err ==> final(self).entries() == old(self).entries(),
            spec_get(old(self).entries(), alias@, old(self).spec_ttl(), now) is Some
                ==> final(self).entries() == old(self).entries(),
            (r is Ok && spec_get(old(self).entries(), alias@, old(self).spec_ttl(), now) is None)
                ==> final(self).entries() == spec_insert(
                old(self).entries(),
                alias@,
                r->Ok_0@,
                now,
                old(self).spec_capacity(),
            ),
    {
        match self.cache.get(alias, now) {
            Some(c) => { return Ok(c.clone()) },
            None => {},
        }
        let meta_row = match meta {
            Some(m) => m,
            None => { return Err(ContentError::MetadataNotFound) },
        };
        let blob_bytes = match blob {
            Some(b) => b,
            None => { return Err(ContentError::BlobNotFound) },
        };
        let collection = match decode(blob_bytes.as_slice()) {
            Ok(c) => c,
            Err(e) => { return Err(e) },
        };
        self.cache.insert(alias, collection.clone(), now);
        Ok(collection)
    }

    /// An item read: the collection read first, then a linear search by item
    /// id. Exactly `spec_item_outcome` decides the result; the cache moves as
    /// under `get_collection`.
    pub fn get_item(
        &mut self,
        alias: &str,
        item_id: &str,
        now: u64,
        meta: Option<CollectionMetadata>,
        blob: Option<Vec<u8>>,
    ) -> (r: Result<ContentItem, ContentError>)
        requires
            old(self).wf(),
        ensures
            final(self).wf(),
            final(self).spec_capacity() == old(self).spec_capacity(),
            final(self).spec_ttl() == old(self).spec_ttl(),
            match r {
                Ok(it) => spec_item_outcome(
                    old(self).entries(),
                    old(self).spec_ttl(),
                    alias@,
                    item_id@,
                    now,
                    meta_model(meta),
                    blob_model(blob),
                ) == Ok::<ItemModel, ContentError>(it@),
                Err(e) => spec_item_outcome(
                    old(self).entries(),
                    old(self).spec_ttl(),
                    alias@,
                    item_id@,
                    now,
                    meta_model(meta),
                    blob_model(blob),
                ) == Err::<ItemModel, ContentError>(e),
            },
            spec_get(old(self).entries(), alias@, old(self).spec_ttl(), now) is Some
                ==> final(self).entries() == old(self).entries(),
            spec_outcome(
                old(self).entries(),
                old(self).spec_ttl(),
                alias@,
                now,
                meta_model(meta),
                blob_model(blob),
            ) is Err ==> final(self).entries() == old(self).entries(),
            (spec_outcome(
                old(self).entries(),
                old(self).spec_ttl(),
                alias@,
                now,
                meta_model(meta),
                blob_model(blob),
            ) is Ok && spec_get(old(self).entries(), alias@, old(self).spec_ttl(), now) is None)
                ==> final(self).entries() == spec_insert(
                old(self).entries(),
                alias@,
                spec_outcome(
                    old(self).entries(),
                    old(self).spec_ttl(),
                    alias@,
                    now,
                    meta_model(meta),
                    blob_model(blob),
                )->Ok_0,
                now,
                old(self).spec_capacity(),
            ),
    {
        let collection = match self.get_collection(alias, now, meta, blob) {
            Ok(c) => c,
            Err(e) => { return Err(e) },
        };
        match find_item(&collection, item_id) {
            Some(it) => Ok(it),
            None => Err(ContentError::ItemNotFound),
        }
    }
}

/// The first item of the collection carrying `item_id`, cloned, if any.
pub fn find_item(collection: &ContentCollection, item_id: &str) -> (r: Option<ContentItem>)
    ensures
        match r {
            Some(it) => spec_find_item(collection@.items, item_id@) == Some(it@),
            None => spec_find_item(collection@.items, item_id@) is None,
        },
{
    let key: String = item_id.to_owned();
    let ghost items = collection@.items;
    let mut i: usize = 0;
    while i < collection.items.len()
        invariant
            i <= items.len(),
            key@ == item_id@,
            items == collection@.items,
            items.len() == collection.items@.len(),
            forall|j: int| 0 <= j < i ==> items[j].id != item_id@,
        decreases items.len() - i,
    {
        if collection.items[i].id == key {
            proof {
                lemma_find_item_skip(items, item_id@, i as int);
                assert(items.skip(i as int)[0] == items[i as int]);
                assert(items.skip(i as int).len() > 0);
            }
            return Some(collection.items[i].clone());
        }
        i += 1;
    }
    proof {
        lemma_find_item_skip(items, item_id@, items.len() as int);
        assert(items.skip(items.len() as int).len() == 0);
    }
    None
}

} // verus!
