use mega_auth::store::{MemoryStore, StoreOp, StoredValue};

fn key(s: &str) -> String {
    s.to_string()
}

#[test]
fn put_then_get_until_expiry() {
    let mut store = MemoryStore::new();
    store.put(key("k"), StoredValue::Pointer(key("v")), 10, 100);
    assert_eq!(store.get(&key("k"), 100), Some(StoredValue::Pointer(key("v"))));
    assert_eq!(store.get(&key("k"), 110), Some(StoredValue::Pointer(key("v"))));
    assert_eq!(store.get(&key("k"), 111), None);
    assert_eq!(store.get(&key("other"), 100), None);
}

#[test]
fn later_put_overwrites() {
    let mut store = MemoryStore::new();
    store.put(key("k"), StoredValue::Pointer(key("a")), 10, 0);
    store.put(key("k"), StoredValue::Pointer(key("b")), 5, 0);
    assert_eq!(store.get(&key("k"), 3), Some(StoredValue::Pointer(key("b"))));
    assert_eq!(store.get(&key("k"), 7), None);
}

#[test]
fn delete_removes_only_its_key() {
    let mut store = MemoryStore::new();
    store.put(key("a"), StoredValue::Pointer(key("1")), 10, 0);
    store.put(key("b"), StoredValue::Pointer(key("2")), 10, 0);
    store.delete(key("a"));
    assert_eq!(store.get(&key("a"), 1), None);
    assert_eq!(store.get(&key("b"), 1), Some(StoredValue::Pointer(key("2"))));
}

#[test]
fn huge_ttl_saturates() {
    let mut store = MemoryStore::new();
    store.put(key("k"), StoredValue::Pointer(key("v")), u64::MAX, 5);
    assert_eq!(store.get(&key("k"), u64::MAX), Some(StoredValue::Pointer(key("v"))));
}

#[test]
fn apply_all_runs_in_order() {
    let mut store = MemoryStore::new();
    store.apply_all(
        vec![
            StoreOp::Put { key: key("k"), value: StoredValue::Pointer(key("x")), ttl: 10 },
            StoreOp::Delete { key: key("k") },
            StoreOp::Put { key: key("j"), value: StoredValue::Pointer(key("y")), ttl: 10 },
        ],
        0,
    );
    assert_eq!(store.get(&key("k"), 1), None);
    assert_eq!(store.get(&key("j"), 1), Some(StoredValue::Pointer(key("y"))));
}

#[test]
fn take_returns_and_removes() {
    let mut store = MemoryStore::new();
    store.put(key("k"), StoredValue::Pointer(key("v")), 10, 0);
    assert_eq!(store.take(&key("k"), 1), Some(StoredValue::Pointer(key("v"))));
    assert_eq!(store.take(&key("k"), 1), None);
    assert_eq!(store.get(&key("k"), 1), None);
}
