use aquila::store::{copy_bytes, Entry, FlowCache};

fn s(text: &str) -> String {
    text.to_string()
}

#[test]
fn new_store_is_empty() {
    let cache = FlowCache::new();
    assert_eq!(cache.len(), 0);
    assert!(cache.is_empty());
    assert!(cache.keys().is_empty());
    assert_eq!(cache.get(&s("a")), None);
    assert!(!cache.contains_key(&s("a")));
}

#[test]
fn put_then_get() {
    let mut cache = FlowCache::new();
    cache.put(s("a.b"), vec![1, 2, 3]);
    assert_eq!(cache.len(), 1);
    assert!(!cache.is_empty());
    assert!(cache.contains_key(&s("a.b")));
    assert_eq!(cache.get(&s("a.b")), Some(&vec![1, 2, 3]));
    assert_eq!(cache.get(&s("a")), None);
    assert_eq!(cache.get(&s("a.b.c")), None);
}

#[test]
fn put_overwrites_in_place() {
    let mut cache = FlowCache::new();
    cache.put(s("a"), vec![1]);
    cache.put(s("b"), vec![2]);
    cache.put(s("c"), vec![3]);
    cache.put(s("a"), vec![9, 9]);
    assert_eq!(cache.len(), 3);
    assert_eq!(cache.keys(), vec![s("a"), s("b"), s("c")]);
    assert_eq!(cache.get(&s("a")), Some(&vec![9, 9]));
    assert_eq!(cache.get(&s("b")), Some(&vec![2]));
    assert_eq!(cache.entry_at(0), Some(&Entry { key: s("a"), value: vec![9, 9] }));
    assert_eq!(cache.entry_at(2), Some(&Entry { key: s("c"), value: vec![3] }));
    assert_eq!(cache.entry_at(3), None);
}

#[test]
fn delete_takes_out_one_key() {
    let mut cache = FlowCache::new();
    cache.put(s("a"), vec![1]);
    cache.put(s("b"), vec![2]);
    cache.put(s("c"), vec![3]);
    assert!(cache.delete(&s("b")));
    assert_eq!(cache.len(), 2);
    assert_eq!(cache.keys(), vec![s("a"), s("c")]);
    assert_eq!(cache.get(&s("b")), None);
    assert_eq!(cache.get(&s("a")), Some(&vec![1]));
    assert_eq!(cache.get(&s("c")), Some(&vec![3]));
    assert!(!cache.delete(&s("b")));
    assert!(!cache.delete(&s("zzz")));
    assert_eq!(cache.len(), 2);
}

#[test]
fn delete_by_flow_id_takes_out_every_variant_of_the_flow() {
    let mut cache = FlowCache::new();
    cache.put(s("t1.slugA.1.5"), vec![1]);
    cache.put(s("t1.slugA.1.6"), vec![2]);
    cache.put(s("t2.slugB.1.5"), vec![3]);
    cache.put(s("t1.slugA.5.55"), vec![4]);
    cache.put(s("5"), vec![5]);
    cache.put(s("5.t1.slugA.1"), vec![6]);
    let removed = cache.delete_by_flow_id(5);
    assert_eq!(removed, 2);
    assert_eq!(
        cache.keys(),
        vec![s("t1.slugA.1.6"), s("t1.slugA.5.55"), s("5"), s("5.t1.slugA.1")]
    );
    assert_eq!(cache.get(&s("t1.slugA.1.5")), None);
    assert_eq!(cache.get(&s("t2.slugB.1.5")), None);
    assert_eq!(cache.get(&s("t1.slugA.1.6")), Some(&vec![2]));
    assert_eq!(cache.get(&s("t1.slugA.5.55")), Some(&vec![4]));
    assert_eq!(cache.get(&s("5")), Some(&vec![5]));
    assert_eq!(cache.delete_by_flow_id(5), 0);
    assert_eq!(cache.delete_by_flow_id(1), 1);
    assert_eq!(cache.len(), 3);
}

#[test]
fn get_by_flow_id_gives_the_first_variant_in_listing_order() {
    let mut cache = FlowCache::new();
    cache.put(s("t1.slugA.1.6"), vec![6]);
    cache.put(s("t2.slugB.1.5"), vec![1]);
    cache.put(s("t1.slugA.1.5"), vec![2]);
    assert_eq!(cache.get_by_flow_id(5), Some(&vec![1]));
    assert_eq!(cache.get_by_flow_id(6), Some(&vec![6]));
    assert_eq!(cache.get_by_flow_id(7), None);
    assert_eq!(cache.get_by_flow_id(1), None);
}

#[test]
fn clear_takes_out_everything() {
    let mut cache = FlowCache::new();
    cache.put(s("a"), vec![1]);
    cache.put(s("b"), vec![2]);
    cache.clear();
    assert!(cache.is_empty());
    assert_eq!(cache.get(&s("a")), None);
    cache.put(s("b"), vec![7]);
    assert_eq!(cache.keys(), vec![s("b")]);
}

#[test]
fn copy_bytes_copies() {
    assert_eq!(copy_bytes(&vec![]), Vec::<u8>::new());
    assert_eq!(copy_bytes(&vec![0, 255, 7]), vec![0, 255, 7]);
}
