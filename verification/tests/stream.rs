use aquila::stream::StreamManager;

#[test]
fn new_registry_is_empty() {
    let manager: StreamManager<u32> = StreamManager::new();
    assert_eq!(manager.count(), 0);
    assert!(!manager.has_stream("a"));
    assert_eq!(manager.get_stream("a"), None);
    let other: StreamManager<u32> = StreamManager::default();
    assert_eq!(other.count(), 0);
}

#[test]
fn stored_stream_is_found() {
    let mut manager = StreamManager::new();
    manager.store_stream("a".to_string(), 1u32);
    manager.store_stream("b".to_string(), 2u32);
    assert_eq!(manager.count(), 2);
    assert!(manager.has_stream("a"));
    assert!(manager.has_stream("b"));
    assert!(!manager.has_stream("c"));
    assert_eq!(manager.get_stream("a"), Some(&1));
    assert_eq!(manager.get_stream("b"), Some(&2));
    assert_eq!(manager.get_stream(""), None);
}

#[test]
fn storing_under_the_same_id_replaces_the_sender() {
    let mut manager = StreamManager::new();
    manager.store_stream("a".to_string(), "first".to_string());
    manager.store_stream("a".to_string(), "second".to_string());
    assert_eq!(manager.count(), 1);
    assert_eq!(manager.get_stream("a"), Some(&"second".to_string()));
}

#[test]
fn removed_stream_is_gone() {
    let mut manager = StreamManager::new();
    manager.store_stream("a".to_string(), 1u32);
    manager.store_stream("b".to_string(), 2u32);
    manager.store_stream("c".to_string(), 3u32);
    assert!(manager.remove_stream("b"));
    assert!(!manager.remove_stream("b"));
    assert!(!manager.remove_stream("zzz"));
    assert_eq!(manager.count(), 2);
    assert!(!manager.has_stream("b"));
    assert_eq!(manager.get_stream("a"), Some(&1));
    assert_eq!(manager.get_stream("c"), Some(&3));
    assert!(manager.remove_stream("a"));
    assert!(manager.remove_stream("c"));
    assert_eq!(manager.count(), 0);
}
