use response_cache::store::CacheStore;

#[test]
fn empty_store_misses() {
    let store = CacheStore::new();
    assert!(store.get(&String::from("/foo.json")).is_none());
    assert!(store.get(&String::from("")).is_none());
}

#[test]
fn set_then_get_returns_payload() {
    let mut store = CacheStore::new();
    let confirmed = store.set(String::from("/a"), vec![1u8, 2, 3]);
    assert_eq!(confirmed, vec![1u8, 2, 3]);
    assert_eq!(store.get(&String::from("/a")), Some(vec![1u8, 2, 3]));
}

#[test]
fn lookup_is_idempotent() {
    let mut store = CacheStore::new();
    store.set(String::from("/k"), vec![9u8, 8, 7]);
    let first = store.get(&String::from("/k"));
    let second = store.get(&String::from("/k"));
    let third = store.get(&String::from("/k"));
    assert_eq!(first, Some(vec![9u8, 8, 7]));
    assert_eq!(first, second);
    assert_eq!(second, third);
}

#[test]
fn set_overwrites_prior_value() {
    let mut store = CacheStore::new();
    store.set(String::from("/k"), vec![1u8]);
    store.set(String::from("/k"), vec![2u8, 2]);
    assert_eq!(store.get(&String::from("/k")), Some(vec![2u8, 2]));
}

#[test]
fn keys_are_case_sensitive_and_unnormalized() {
    let mut store = CacheStore::new();
    store.set(String::from("/Path"), vec![1u8]);
    assert!(store.get(&String::from("/path")).is_none());
    assert!(store.get(&String::from("/Path/")).is_none());
    assert_eq!(store.get(&String::from("/Path")), Some(vec![1u8]));
}

#[test]
fn distinct_keys_are_independent() {
    let mut store = CacheStore::new();
    store.set(String::from("/a"), vec![1u8]);
    store.set(String::from("/b"), vec![2u8]);
    assert_eq!(store.get(&String::from("/a")), Some(vec![1u8]));
    assert_eq!(store.get(&String::from("/b")), Some(vec![2u8]));
}
