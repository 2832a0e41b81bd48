use dht_actor::cache::SignatureCache;

#[test]
fn first_insert_reports_absent_then_present() {
    let mut cache = SignatureCache::new(16, 1000);
    assert!(!cache.insert(vec![1, 2, 3], 0));
    assert!(cache.insert(vec![1, 2, 3], 0));
}

#[test]
fn distinct_fingerprints_do_not_interfere() {
    let mut cache = SignatureCache::new(16, 1000);
    assert!(!cache.insert(vec![1, 2, 3], 0));
    assert!(!cache.insert(Vec::new(), 0));
    assert!(!cache.insert(vec![1, 2], 0));
    assert!(cache.insert(vec![1, 2, 3], 0));
    assert!(cache.insert(Vec::new(), 0));
}

#[test]
fn entries_expire_after_their_ttl() {
    let mut cache = SignatureCache::new(16, 5);
    assert!(!cache.insert(vec![8], 100));
    assert!(cache.insert(vec![8], 104));
    assert!(!cache.insert(vec![8], 109));
}

#[test]
fn expiry_is_exact_at_the_deadline() {
    let mut cache = SignatureCache::new(16, 5);
    assert!(!cache.insert(vec![8], 100));
    assert!(!cache.insert(vec![8], 105));
}

#[test]
fn capacity_is_a_hard_ceiling() {
    let mut cache = SignatureCache::new(2, 1000);
    assert!(!cache.insert(vec![1], 0));
    assert!(!cache.insert(vec![2], 0));
    assert!(!cache.insert(vec![3], 0));
    assert!(cache.len() <= 2);
    assert!(!cache.insert(vec![1], 1));
    assert!(cache.len() <= 2);
}

#[test]
fn eviction_admits_the_new_fingerprint() {
    let mut cache = SignatureCache::new(2, 1000);
    assert!(!cache.insert(vec![1], 0));
    assert!(!cache.insert(vec![2], 0));
    assert!(!cache.insert(vec![3], 0));
    assert!(cache.insert(vec![3], 0));
}

#[test]
fn zero_capacity_stores_nothing() {
    let mut cache = SignatureCache::new(0, 1000);
    assert!(!cache.insert(vec![1], 0));
    assert!(!cache.insert(vec![1], 0));
    assert_eq!(cache.len(), 0);
}

#[test]
fn expired_slots_are_purged_on_insert() {
    let mut cache = SignatureCache::new(16, 5);
    assert!(!cache.insert(vec![1], 0));
    assert!(!cache.insert(vec![2], 0));
    assert!(!cache.insert(vec![3], 100));
    assert_eq!(cache.len(), 1);
}
