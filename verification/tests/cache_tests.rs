use response_cache::cache::{run_cached, Completion, DownstreamOutcome};
use response_cache::derive_key;
use response_cache::exec::CacheError;
use response_cache::store::CacheStore;

fn served(completion: &Completion<String>) -> Vec<u8> {
    match &completion.result {
        Ok(bytes) => bytes.clone(),
        Err(_) => panic!("expected a served body"),
    }
}

#[test]
fn derive_key_returns_target_verbatim() {
    assert_eq!(derive_key(String::from("/foo.json?q=1")), "/foo.json?q=1");
    assert_eq!(derive_key(String::from("")), "");
}

#[test]
fn scenario_miss_then_hit() {
    // Empty store, target `/foo.json`: a miss; downstream returns status 200
    // with body `{"a":1}`.
    let mut store = CacheStore::new();
    let key = derive_key(String::from("/foo.json"));
    let body: Vec<u8> = b"{\"a\":1}".to_vec();
    let first = run_cached::<u32, String>(
        &mut store,
        key.clone(),
        1u32,
        DownstreamOutcome::Body(body.clone()),
    );
    assert!(first.forwarded);
    assert_eq!(served(&first), body);
    // The store now maps `/foo.json` to `{"a":1}`.
    assert_eq!(store.get(&key), Some(body.clone()));
    // A second request for `/foo.json` is a hit: same body, downstream not
    // invoked again.
    let second = run_cached::<u32, String>(
        &mut store,
        key.clone(),
        2u32,
        DownstreamOutcome::Body(b"should not be consulted".to_vec()),
    );
    assert!(!second.forwarded);
    assert_eq!(served(&second), body);
}

#[test]
fn scenario_downstream_failure() {
    // Empty store, target `/err`: downstream fails; the store stays empty
    // and the caller sees the downstream's error verbatim.
    let mut store = CacheStore::new();
    let key = derive_key(String::from("/err"));
    let outcome = run_cached::<u32, String>(
        &mut store,
        key.clone(),
        1u32,
        DownstreamOutcome::Failed(String::from("boom")),
    );
    assert!(outcome.forwarded);
    match outcome.result {
        Err(CacheError::Downstream(err)) => assert_eq!(err, "boom"),
        _ => panic!("expected the downstream error"),
    }
    assert!(store.get(&key).is_none());
}

#[test]
fn unreadable_body_writes_nothing() {
    let mut store = CacheStore::new();
    let key = String::from("/stream");
    let outcome = run_cached::<u32, String>(
        &mut store,
        key.clone(),
        1u32,
        DownstreamOutcome::BodyUnreadable,
    );
    assert!(outcome.forwarded);
    assert!(matches!(outcome.result, Err(CacheError::BodyRead)));
    assert!(store.get(&key).is_none());
}

#[test]
fn per_key_isolation_either_order() {
    let k1 = String::from("/one");
    let k2 = String::from("/two");
    let b1: Vec<u8> = vec![1u8, 1];
    let b2: Vec<u8> = vec![2u8, 2];

    let mut store = CacheStore::new();
    run_cached::<u32, String>(&mut store, k1.clone(), 1u32, DownstreamOutcome::Body(b1.clone()));
    run_cached::<u32, String>(&mut store, k2.clone(), 2u32, DownstreamOutcome::Body(b2.clone()));
    assert_eq!(store.get(&k1), Some(b1.clone()));
    assert_eq!(store.get(&k2), Some(b2.clone()));

    let mut other = CacheStore::new();
    run_cached::<u32, String>(&mut other, k2.clone(), 1u32, DownstreamOutcome::Body(b2.clone()));
    run_cached::<u32, String>(&mut other, k1.clone(), 2u32, DownstreamOutcome::Body(b1.clone()));
    assert_eq!(other.get(&k1), Some(b1));
    assert_eq!(other.get(&k2), Some(b2));
}

#[test]
fn failure_does_not_disturb_other_keys() {
    let mut store = CacheStore::new();
    let kept = String::from("/kept");
    store.set(kept.clone(), vec![5u8]);
    run_cached::<u32, String>(
        &mut store,
        String::from("/err"),
        1u32,
        DownstreamOutcome::Failed(String::from("down")),
    );
    assert_eq!(store.get(&kept), Some(vec![5u8]));
    assert!(store.get(&String::from("/err")).is_none());
}
