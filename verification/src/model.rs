//! The data model of the content layer: items, collections, and the metadata
//! rows of the index, each with a mathematical view used by every contract.

use vstd::prelude::*;

verus! {

/// The mathematical value of a `ContentItem`.
#[verifier::ext_equal]
pub struct ItemModel {
    pub id: Seq<char>,
    pub title: Seq<char>,
    pub body: Seq<char>,
}

/// The mathematical value of a `ContentCollection`.
#[verifier::ext_equal]
pub struct CollectionModel {
    pub id: Seq<char>,
    pub name: Seq<char>,
    pub items: Seq<ItemModel>,
}

/// The mathematical value of a `CollectionMetadata` row.
#[verifier::ext_equal]
pub struct MetaModel {
    pub id: int,
    pub alias: Seq<char>,
    pub name: Seq<char>,
    pub file_path: Seq<char>,
    pub language: Option<Seq<char>>,
}

/// One entry of a collection: identified by `id`, immutable once decoded.
pub struct ContentItem {
    pub id: String,
    pub title: String,
    pub body: String,
}

/// A decoded document: an ordered sequence of items owned by the collection.
pub struct ContentCollection {
    pub id: String,
    pub name: String,
    pub items: Vec<ContentItem>,
}

/// A row of the metadata index: the external-facing `alias` resolves to the
/// storage location `file_path` and the descriptive fields.
pub struct CollectionMetadata {
    pub id: i64,
    pub alias: String,
    pub name: String,
    pub file_path: String,
    pub language: Option<String>,
}

impl View for ContentItem {
    type V = ItemModel;

    open spec fn view(&self) -> ItemModel {
        ItemModel { id: self.id@, title: self.title@, body: self.body@ }
    }
}

impl View for ContentCollection {
    type V = CollectionModel;

    open spec fn view(&self) -> CollectionModel {
        CollectionModel {
            id: self.id@,
            name: self.name@,
            items: self.items@.map_values(|it: ContentItem| it@),
        }
    }
}

impl View for CollectionMetadata {
    type V = MetaModel;

    open spec fn view(&self) -> MetaModel {
        MetaModel {
            id: self.id as int,
            alias: self.alias@,
            name: self.name@,
            file_path: self.file_path@,
            language: match self.language {
                Some(ref s) => Some(s@),
                None => None,
            },
        }
    }
}

impl Clone for ContentItem {
    fn clone(&self) -> (r: Self)
        ensures
            r@ == self@,
    {
        ContentItem { id: self.id.clone(), title: self.title.clone(), body: self.body.clone() }
    }
}

impl Clone for ContentCollection {
    fn clone(&self) -> (r: Self)
        ensures
            r@ == self@,
    {
        let mut items: Vec<ContentItem> = Vec::new();
        let mut i: usize = 0;
        while i < self.items.len()
            invariant
                i <= self.items@.len(),
                items@.len() == i,
                forall|j: int| 0 <= j < i ==> items@[j]@ == self.items@[j]@,
            decreases self.items@.len() - i,
        {
            items.push(self.items[i].clone());
            i += 1;
        }
        let r = ContentCollection { id: self.id.clone(), name: self.name.clone(), items };
        proof {
            assert(r@.items =~= self@.items);
        }
        r
    }
}

impl Clone for CollectionMetadata {
    fn clone(&self) -> (r: Self)
        ensures
            r@ == self@,
    {
        CollectionMetadata {
            id: self.id,
            alias: self.alias.clone(),
            name: self.name.clone(),
            file_path: self.file_path.clone(),
            language: match &self.language {
                Some(s) => Some(s.clone()),
                None => None,
            },
        }
    }
}

} // verus!
