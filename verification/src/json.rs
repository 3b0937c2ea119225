//! The decoded-document grammar. A blob decompresses to bytes that must form
//! a JSON document of a fixed shape: an object with string members `id` and
//! `name` and an array member `items`, each element an object with string
//! members `id`, `title` and `body`. The traversal below is verified against
//! that grammar, stated over a mathematical JSON value.

use vstd::prelude::*;

use crate::model::ContentCollection;
use crate::model::ContentItem;
use crate::model::CollectionModel;
use crate::model::ItemModel;

verus! {

/// A mathematical JSON value. Numbers carry no payload here: the collection
/// grammar never reads one.
pub enum Jv {
    Null,
    Bool(bool),
    Num,
    Str(Seq<char>),
    Arr(Seq<Jv>),
    Obj(Map<Seq<char>, Jv>),
}

#[verifier::external_type_specification]
#[verifier::external_body]
pub struct ExValue(serde_json::Value);

/// The mathematical value that a parsed document holds.
pub uninterp spec fn val_model(v: serde_json::Value) -> Jv;

/// The mathematical values of a parsed element vector.
pub open spec fn models_of(vs: Seq<serde_json::Value>) -> Seq<Jv> {
    vs.map_values(|x: serde_json::Value| val_model(x))
}

/// What parsing a byte sequence as JSON yields, if anything: a function of
/// the bytes alone.
pub uninterp spec fn json_of(b: Seq<u8>) -> Option<Jv>;

/// Relies on serde_json::from_slice for `serde_json::Value`: parsing succeeds
/// or fails by the bytes alone, and yields the document they spell.
#[verifier::external_body]
pub(crate) fn parse_value(b: &[u8]) -> (r: Option<serde_json::Value>)
    ensures
        r is Some <==> json_of(b@) is Some,
        r matches Some(v) ==> json_of(b@) == Some(val_model(v)),
{
    serde_json::from_slice::<serde_json::Value>(b).ok()
}

/// Relies on serde_json's Value::get with a string index: the member of an
/// object under that key, and nothing on any other value.
#[verifier::external_body]
fn value_member<'a>(v: &'a serde_json::Value, key: &str) -> (r: Option<&'a serde_json::Value>)
    ensures
        r is Some <==> (val_model(*v) matches Jv::Obj(m) && m.contains_key(key@)),
        r matches Some(x) ==> (val_model(*v) matches Jv::Obj(m) && val_model(*x) == m[key@]),
{
    v.get(key)
}

/// Relies on serde_json's Value::as_str: the payload exactly when the value
/// is a JSON string.
#[verifier::external_body]
fn value_as_str<'a>(v: &'a serde_json::Value) -> (r: Option<&'a str>)
    ensures
        r is Some <==> val_model(*v) is Str,
        r matches Some(s) ==> val_model(*v) == Jv::Str(s@),
{
    v.as_str()
}

/// Relies on serde_json's Value::as_array: the elements exactly when the
/// value is a JSON array.
#[verifier::external_body]
fn value_as_array<'a>(v: &'a serde_json::Value) -> (r: Option<&'a Vec<serde_json::Value>>)
    ensures
        r is Some <==> val_model(*v) is Arr,
        r matches Some(a) ==> val_model(*v) == Jv::Arr(models_of(a@)),
{
    v.as_array()
}

/// The string member of an object under `key`, if the value is an object and
/// holds one.
pub open spec fn str_member(j: Jv, key: Seq<char>) -> Option<Seq<char>> {
    match j {
        Jv::Obj(m) => if m.contains_key(key) && m[key] is Str {
            Some(m[key]->Str_0)
        } else {
            None
        },
        _ => None,
    }
}

/// The item that a JSON value spells, if it fits the item grammar.
pub open spec fn item_of_json(j: Jv) -> Option<ItemModel> {
    if str_member(j, "id"@) is Some && str_member(j, "title"@) is Some && str_member(
        j,
        "body"@,
    ) is Some {
        Some(
            ItemModel {
                id: str_member(j, "id"@).unwrap(),
                title: str_member(j, "title"@).unwrap(),
                body: str_member(j, "body"@).unwrap(),
            },
        )
    } else {
        None
    }
}

/// The item sequence that a JSON array spells, if every element fits the item
/// grammar.
pub open spec fn items_of_json(s: Seq<Jv>) -> Option<Seq<ItemModel>> {
    if forall|i: int| 0 <= i < s.len() ==> item_of_json(s[i]) is Some {
        Some(Seq::new(s.len(), |i: int| item_of_json(s[i]).unwrap()))
    } else {
        None
    }
}

/// The collection that a JSON value spells, if it fits the collection
/// grammar.
pub open spec fn collection_of_json(j: Jv) -> Option<CollectionModel> {
    if str_member(j, "id"@) is Some && str_member(j, "name"@) is Some && (j matches Jv::Obj(m)
        && m.contains_key("items"@) && m["items"@] is Arr && items_of_json(
        m["items"@]->Arr_0,
    ) is Some) {
        Some(
            CollectionModel {
                id: str_member(j, "id"@).unwrap(),
                name: str_member(j, "name"@).unwrap(),
                items: items_of_json(j->Obj_0["items"@]->Arr_0).unwrap(),
            },
        )
    } else {
        None
    }
}

/// The string member of a parsed object under `key`, exactly as the grammar
/// reads it.
fn member_str<'a>(v: &'a serde_json::Value, key: &str) -> (r: Option<&'a str>)
    ensures
        r is Some <==> str_member(val_model(*v), key@) is Some,
        r matches Some(s) ==> str_member(val_model(*v), key@) == Some(s@),
{
    match value_member(v, key) {
        Some(x) => value_as_str(x),
        None => None,
    }
}

/// The item a parsed value spells, exactly when it fits the item grammar.
pub fn item_from_value(v: &serde_json::Value) -> (r: Option<ContentItem>)
    ensures
        r is Some <==> item_of_json(val_model(*v)) is Some,
        r matches Some(it) ==> item_of_json(val_model(*v)) == Some(it@),
{
    let id = match member_str(v, "id") {
        Some(s) => s,
        None => { return None },
    };
    let title = match member_str(v, "title") {
        Some(s) => s,
        None => { return None },
    };
    let body = match member_str(v, "body") {
        Some(s) => s,
        None => { return None },
    };
    Some(ContentItem { id: id.to_owned(), title: title.to_owned(), body: body.to_owned() })
}

/// The collection a parsed value spells, exactly when it fits the collection
/// grammar.
#[verifier::loop_isolation(false)]
pub fn collection_from_value(v: &serde_json::Value) -> (r: Option<ContentCollection>)
    ensures
        r is Some <==> collection_of_json(val_model(*v)) is Some,
        r matches Some(c) ==> collection_of_json(val_model(*v)) == Some(c@),
{
    let id = match member_str(v, "id") {
        Some(s) => s,
        None => { return None },
    };
    let name = match member_str(v, "name") {
        Some(s) => s,
        None => { return None },
    };
    let arr = match value_member(v, "items") {
        Some(x) => match value_as_array(x) {
            Some(a) => a,
            None => { return None },
        },
        None => { return None },
    };
    let ghost js = models_of(arr@);
    let mut items: Vec<ContentItem> = Vec::new();
    let mut i: usize = 0;
    while i < arr.len()
        invariant
            i <= arr@.len(),
            items@.len() == i,
            js == models_of(arr@),
            js.len() == arr@.len(),
            forall|j: int| 0 <= j < i ==> item_of_json(js[j]) == Some(items@[j]@),
        decreases arr@.len() - i,
    {
        let it = match item_from_value(&arr[i]) {
            Some(it) => it,
            None => {
                proof {
                    assert(item_of_json(js[i as int]) is None);
                    assert(items_of_json(js) is None);
                }
                return None
            },
        };
        items.push(it);
        i += 1;
    }
    let c = ContentCollection { id: id.to_owned(), name: name.to_owned(), items };
    proof {
        assert(forall|j: int| 0 <= j < js.len() ==> item_of_json(js[j]) is Some);
        assert(items_of_json(js).unwrap() =~= c@.items);
    }
    Some(c)
}

} // verus!
