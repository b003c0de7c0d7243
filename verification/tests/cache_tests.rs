use og_image::cache::TitleCache;

#[test]
fn empty_cache_misses() {
    let cache = TitleCache::new();
    assert_eq!(cache.get(&String::from("Hello")), None);
    assert!(!cache.contains(&String::from("Hello")));
    assert_eq!(cache.get(&String::new()), None);
}

#[test]
fn stored_bytes_come_back() {
    let mut cache = TitleCache::new();
    cache.put(String::from("Hello"), vec![1, 2, 3]);
    assert_eq!(cache.get(&String::from("Hello")), Some(vec![1, 2, 3]));
    assert!(cache.contains(&String::from("Hello")));
}

#[test]
fn keys_are_exact_strings() {
    let mut cache = TitleCache::new();
    cache.put(String::from("Hello"), vec![1]);
    assert_eq!(cache.get(&String::from("hello")), None);
    assert_eq!(cache.get(&String::from("Hello ")), None);
    assert_eq!(cache.get(&String::from("")), None);
}

#[test]
fn store_overwrites_the_prior_entry() {
    let mut cache = TitleCache::new();
    cache.put(String::from("Hello"), vec![1, 2, 3]);
    cache.put(String::from("Hello"), vec![9]);
    assert_eq!(cache.get(&String::from("Hello")), Some(vec![9]));
}

#[test]
fn storing_twice_is_idempotent() {
    let mut cache = TitleCache::new();
    cache.put(String::from("Hello"), vec![4, 5]);
    cache.put(String::from("Hello"), vec![4, 5]);
    assert_eq!(cache.get(&String::from("Hello")), Some(vec![4, 5]));
}

#[test]
fn different_titles_do_not_interfere() {
    let mut cache = TitleCache::new();
    cache.put(String::from("a"), vec![1]);
    cache.put(String::from("b"), vec![2]);
    cache.put(String::from(""), vec![3]);
    cache.put(String::from("a"), vec![4]);
    assert_eq!(cache.get(&String::from("a")), Some(vec![4]));
    assert_eq!(cache.get(&String::from("b")), Some(vec![2]));
    assert_eq!(cache.get(&String::from("")), Some(vec![3]));
    assert_eq!(cache.get(&String::from("c")), None);
}

#[test]
fn unicode_titles_are_keys_too() {
    let mut cache = TitleCache::new();
    cache.put(String::from("\u{3053}\u{3093}\u{306b}\u{3061}\u{306f}"), vec![7]);
    assert_eq!(cache.get(&String::from("\u{3053}\u{3093}\u{306b}\u{3061}\u{306f}")), Some(vec![7]));
    assert_eq!(cache.get(&String::from("\u{3053}\u{3093}\u{306b}\u{3061}\u{308f}")), None);
}
