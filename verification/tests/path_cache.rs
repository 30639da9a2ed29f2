use lib::path_cache::{PathCache, PathKey};

#[test]
fn miss_then_hit() {
    let mut c = PathCache::new();
    let k = PathKey { from_token: 1, to_token: 5 };
    assert!(c.get(&k).is_none());
    c.insert(k.clone(), vec![1, 2, 3, 4, 5]);
    assert_eq!(c.get(&k), Some(vec![1, 2, 3, 4, 5]));
    assert_eq!(c.hits(), 1);
    assert_eq!(c.misses(), 1);
}

#[test]
fn insert_overwrites_existing_key() {
    let mut c = PathCache::new();
    let k = PathKey { from_token: 1, to_token: 3 };
    c.insert(k.clone(), vec![1, 2, 3]);
    c.insert(k.clone(), vec![1, 3]);
    assert_eq!(c.get(&k), Some(vec![1, 3]));
}

#[test]
fn distinct_keys_keep_their_own_paths() {
    let mut c = PathCache::new();
    let a = PathKey { from_token: 1, to_token: 2 };
    let b = PathKey { from_token: 2, to_token: 1 };
    c.insert(a, vec![1, 2]);
    c.insert(b, vec![2, 7, 1]);
    assert_eq!(c.get(&a), Some(vec![1, 2]));
    assert_eq!(c.get(&b), Some(vec![2, 7, 1]));
    assert_eq!(c.get(&PathKey { from_token: 9, to_token: 9 }), None);
    assert_eq!(c.hits(), 2);
    assert_eq!(c.misses(), 1);
}

#[test]
fn counters_follow_the_history_of_stores() {
    let mut c = PathCache::new();
    let a = PathKey { from_token: 1, to_token: 2 };
    let b = PathKey { from_token: 2, to_token: 3 };
    assert!(c.get(&a).is_none());
    c.insert(a.clone(), vec![1, 2]);
    assert!(c.get(&b).is_none());
    c.insert(b.clone(), vec![2, 3]);
    c.insert(a.clone(), vec![1, 9, 2]);
    assert_eq!(c.get(&a), Some(vec![1, 9, 2]));
    assert_eq!(c.get(&b), Some(vec![2, 3]));
    assert_eq!(c.hits(), 2);
    assert_eq!(c.misses(), 2);
}
