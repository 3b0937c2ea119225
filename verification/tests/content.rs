use std::io::Write;

use tulpar_api::config::Config;
use tulpar_api::decode::decode;
use tulpar_api::errors::ContentError;
use tulpar_api::model::CollectionMetadata;
use tulpar_api::store::ContentStore;
use tulpar_api::store::find_item;

fn compress(data: &[u8]) -> Vec<u8> {
    let mut encoder = lz4_flex::frame::FrameEncoder::new(Vec::new());
    encoder.write_all(data).expect("compress");
    encoder.finish().expect("finish")
}

fn rubaiyat_blob() -> Vec<u8> {
    let doc = "{\"id\":\"rubaiyat\",\"name\":\"Rubaiyat of Omar Khayyam\",\"items\":[{\"id\":\"1\",\"title\":\"Quatrain I\",\"body\":\"Awake! for Morning in the Bowl of Night...\"},{\"id\":\"2\",\"title\":\"Quatrain II\",\"body\":\"Dreaming when Dawn's Left Hand was in the Sky...\"}]}";
    compress(doc.as_bytes())
}

fn meta(alias: &str) -> CollectionMetadata {
    CollectionMetadata {
        id: 1,
        alias: alias.to_string(),
        name: "Rubaiyat of Omar Khayyam".to_string(),
        file_path: format!("collections/{}.json.lz4", alias),
        language: Some("en".to_string()),
    }
}

#[test]
fn decode_round_trip() {
    let collection = decode(&rubaiyat_blob()).expect("decode");
    assert_eq!(collection.id, "rubaiyat");
    assert_eq!(collection.name, "Rubaiyat of Omar Khayyam");
    assert_eq!(collection.items.len(), 2);
    assert_eq!(collection.items[0].id, "1");
    assert_eq!(collection.items[0].title, "Quatrain I");
    assert_eq!(collection.items[1].body, "Dreaming when Dawn's Left Hand was in the Sky...");
}

#[test]
fn decode_rejects_garbage_frame() {
    let r = decode(b"this is not a compressed frame");
    assert_eq!(r.err(), Some(ContentError::DecompressionFailure));
}

#[test]
fn decode_rejects_invalid_document() {
    let r = decode(&compress(b"[1, 2, 3]"));
    assert_eq!(r.err(), Some(ContentError::ParseFailure));
    let r = decode(&compress(b"{\"id\":\"x\",\"name\":\"y\",\"items\":[{\"id\":\"1\"}]}"));
    assert_eq!(r.err(), Some(ContentError::ParseFailure));
    let r = decode(&compress(b"not json at all"));
    assert_eq!(r.err(), Some(ContentError::ParseFailure));
}

#[test]
fn get_item_rubaiyat() {
    let mut store = ContentStore::new(100, 3600);
    let item = store
        .get_item("rubaiyat", "2", 0, Some(meta("rubaiyat")), Some(rubaiyat_blob()))
        .expect("item 2");
    assert_eq!(item.title, "Quatrain II");
    let miss = store.get_item("rubaiyat", "99", 0, None, None);
    assert_eq!(miss.err(), Some(ContentError::ItemNotFound));
}

#[test]
fn ghost_alias_is_metadata_not_found() {
    let mut store = ContentStore::new(100, 3600);
    let r = store.get_collection("ghost", 0, None, None);
    assert_eq!(r.err(), Some(ContentError::MetadataNotFound));
}

#[test]
fn dangling_metadata_is_blob_not_found_and_not_cached() {
    let mut store = ContentStore::new(100, 3600);
    let r = store.get_collection("dangling", 0, Some(meta("dangling")), None);
    assert_eq!(r.err(), Some(ContentError::BlobNotFound));
    assert!(store.probe("dangling", 0).is_none());
}

#[test]
fn parse_failure_then_recovery_after_fix() {
    let mut store = ContentStore::new(100, 60);
    let broken = compress(b"{\"id\":\"x\"}");
    let r = store.get_collection("rubaiyat", 0, Some(meta("rubaiyat")), Some(broken));
    assert_eq!(r.err(), Some(ContentError::ParseFailure));
    assert!(store.probe("rubaiyat", 0).is_none());
    let r = store.get_collection("rubaiyat", 61, Some(meta("rubaiyat")), Some(rubaiyat_blob()));
    assert_eq!(r.expect("fixed blob").name, "Rubaiyat of Omar Khayyam");
}

#[test]
fn second_read_within_ttl_is_served_from_cache() {
    let mut store = ContentStore::new(100, 3600);
    let first = store
        .get_collection("rubaiyat", 0, Some(meta("rubaiyat")), Some(rubaiyat_blob()))
        .expect("load");
    // No metadata and no blob are supplied: only the cache can answer.
    let second = store.get_collection("rubaiyat", 3599, None, None).expect("cached");
    assert_eq!(first.id, second.id);
    assert_eq!(first.name, second.name);
    assert_eq!(first.items.len(), second.items.len());
    for (a, b) in first.items.iter().zip(second.items.iter()) {
        assert_eq!(a.id, b.id);
        assert_eq!(a.title, b.title);
        assert_eq!(a.body, b.body);
    }
}

#[test]
fn ttl_expiry_forces_reload() {
    let mut store = ContentStore::new(100, 10);
    store
        .get_collection("rubaiyat", 0, Some(meta("rubaiyat")), Some(rubaiyat_blob()))
        .expect("load");
    assert!(store.probe("rubaiyat", 9).is_some());
    assert!(store.probe("rubaiyat", 10).is_none());
    // The service sees the miss and loads again; the refreshed bytes win.
    let refreshed = compress(b"{\"id\":\"rubaiyat\",\"name\":\"Second Edition\",\"items\":[]}");
    let r = store
        .get_collection("rubaiyat", 10, Some(meta("rubaiyat")), Some(refreshed))
        .expect("reload");
    assert_eq!(r.name, "Second Edition");
}

#[test]
fn capacity_eviction_drops_oldest() {
    let mut store = ContentStore::new(2, 3600);
    for (alias, t) in [("a", 0u64), ("b", 1), ("c", 2)] {
        let blob = compress(
            format!("{{\"id\":\"{}\",\"name\":\"n\",\"items\":[]}}", alias).as_bytes(),
        );
        store.get_collection(alias, t, Some(meta(alias)), Some(blob)).expect("load");
    }
    assert!(store.probe("a", 3).is_none());
    assert!(store.probe("b", 3).is_some());
    assert!(store.probe("c", 3).is_some());
}

#[test]
fn reinserting_same_alias_overwrites() {
    let mut store = ContentStore::new(2, 5);
    let v1 = compress(b"{\"id\":\"a\",\"name\":\"one\",\"items\":[]}");
    store.get_collection("a", 0, Some(meta("a")), Some(v1)).expect("load v1");
    // Past the TTL the entry is stale; the rewrite replaces it in place.
    let v2 = compress(b"{\"id\":\"a\",\"name\":\"two\",\"items\":[]}");
    store.get_collection("a", 5, Some(meta("a")), Some(v2)).expect("load v2");
    assert_eq!(store.probe("a", 6).expect("fresh").name, "two");
}

#[test]
fn find_item_returns_first_match() {
    let doc = "{\"id\":\"c\",\"name\":\"n\",\"items\":[{\"id\":\"dup\",\"title\":\"first\",\"body\":\"x\"},{\"id\":\"dup\",\"title\":\"second\",\"body\":\"y\"}]}";
    let collection = decode(&compress(doc.as_bytes())).expect("decode");
    let hit = find_item(&collection, "dup").expect("dup");
    assert_eq!(hit.title, "first");
    assert!(find_item(&collection, "absent").is_none());
}

#[test]
fn error_kinds_present_as_designed() {
    let not_found = [
        ContentError::MetadataNotFound,
        ContentError::BlobNotFound,
        ContentError::ItemNotFound,
    ];
    for e in not_found {
        assert!(e.is_not_found());
        assert_eq!(e.status_code(), 404);
        assert_eq!(e.public_code(), "NOT_FOUND");
    }
    let internal = [
        (ContentError::DecompressionFailure, "DECOMPRESSION_ERROR"),
        (ContentError::ParseFailure, "SERIALIZATION_ERROR"),
        (ContentError::ExecutionFailure, "INTERNAL_ERROR"),
    ];
    for (e, code) in internal {
        assert!(!e.is_not_found());
        assert_eq!(e.status_code(), 500);
        assert_eq!(e.public_code(), code);
    }
}

#[test]
fn socket_addr_formats_host_and_port() {
    let config = Config {
        database_url: "sqlite:data.db?mode=rwc".to_string(),
        storage_path: "storage".to_string(),
        host: "0.0.0.0".to_string(),
        port: 3000,
    };
    assert_eq!(config.socket_addr(), "0.0.0.0:3000");
    let edge = Config {
        database_url: String::new(),
        storage_path: String::new(),
        host: "localhost".to_string(),
        port: 0,
    };
    assert_eq!(edge.socket_addr(), "localhost:0");
    let max = Config {
        database_url: String::new(),
        storage_path: String::new(),
        host: "h".to_string(),
        port: 65535,
    };
    assert_eq!(max.socket_addr(), "h:65535");
}

fn bare_collection(id: &str, name: &str) -> tulpar_api::model::ContentCollection {
    tulpar_api::model::ContentCollection {
        id: id.to_string(),
        name: name.to_string(),
        items: vec![],
    }
}

#[test]
fn cache_overwrites_bounds_and_expires() {
    let mut cache = tulpar_api::cache::DocumentCache::new(2, 10);
    assert_eq!(cache.len(), 0);
    assert_eq!(cache.capacity(), 2);
    assert_eq!(cache.ttl(), 10);
    cache.insert("a", bare_collection("a", "first"), 0);
    cache.insert("a", bare_collection("a", "second"), 1);
    assert_eq!(cache.len(), 1);
    assert_eq!(cache.get("a", 5).expect("fresh").name, "second");
    cache.insert("b", bare_collection("b", "b"), 2);
    cache.insert("c", bare_collection("c", "c"), 3);
    assert_eq!(cache.len(), 2);
    assert!(cache.get("a", 4).is_none());
    assert!(cache.get("b", 4).is_some());
    assert!(cache.get("b", 12).is_none());
    assert!(cache.get("c", 12).is_some());
}
