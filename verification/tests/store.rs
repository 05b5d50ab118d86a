use axum_extractor_config::extensions::Extensions;

#[test]
fn empty_store_has_nothing() {
    let store: Extensions<u64> = Extensions::new();
    assert!(store.get(0).is_none());
    assert!(!store.contains_key(17));
}

#[test]
fn insert_then_get() {
    let mut store: Extensions<u64> = Extensions::new();
    assert!(store.insert(3, 30));
    assert!(store.insert(4, 40));
    assert_eq!(store.get(3), Some(&30));
    assert_eq!(store.get(4), Some(&40));
    assert!(store.get(5).is_none());
    assert!(store.contains_key(3));
    assert!(!store.contains_key(5));
}

#[test]
fn duplicate_insert_is_refused() {
    let mut store: Extensions<u64> = Extensions::new();
    assert!(store.insert(3, 30));
    assert!(!store.insert(3, 99));
    assert_eq!(store.get(3), Some(&30));
}
