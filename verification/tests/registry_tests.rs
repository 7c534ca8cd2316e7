use audio_bridge::buffer::PollingBuffer;
use audio_bridge::registry::{ListenerRegistry, RegistryError};

#[test]
fn new_registry_is_empty_and_unbound() {
    let registry = ListenerRegistry::new();
    assert_eq!(registry.len(), 0);
    assert_eq!(registry.bound_to(), None);
    assert_eq!(registry.poll("polling"), None);
}

#[test]
fn second_insert_under_a_name_is_a_duplicate() {
    let mut registry = ListenerRegistry::new();
    assert_eq!(registry.insert("x".to_string(), PollingBuffer::new(4)), Ok(()));
    assert_eq!(
        registry.insert("x".to_string(), PollingBuffer::new(2)),
        Err(RegistryError::DuplicateName)
    );
    assert_eq!(registry.len(), 1);
    assert_eq!(registry.poll("x"), Some(vec![0u32; 4]));
}

#[test]
fn second_remove_of_a_name_is_not_found() {
    let mut registry = ListenerRegistry::new();
    assert_eq!(registry.insert("x".to_string(), PollingBuffer::new(4)), Ok(()));
    assert_eq!(registry.remove("x"), Ok(()));
    assert_eq!(registry.remove("x"), Err(RegistryError::NotFound));
    assert_eq!(registry.len(), 0);
}

#[test]
fn remove_of_unknown_name_changes_nothing() {
    let mut registry = ListenerRegistry::new();
    assert_eq!(registry.insert("a".to_string(), PollingBuffer::new(1)), Ok(()));
    assert_eq!(registry.remove("b"), Err(RegistryError::NotFound));
    assert_eq!(registry.len(), 1);
    assert_eq!(registry.find(&"a".to_string()), Some(0));
}

#[test]
fn removed_name_can_be_registered_again() {
    let mut registry = ListenerRegistry::new();
    assert_eq!(registry.insert("x".to_string(), PollingBuffer::new(4)), Ok(()));
    assert_eq!(registry.remove("x"), Ok(()));
    assert_eq!(registry.insert("x".to_string(), PollingBuffer::new(2)), Ok(()));
    assert_eq!(registry.poll("x"), Some(vec![0u32; 2]));
}

#[test]
fn removal_keeps_the_order_of_the_others() {
    let mut registry = ListenerRegistry::new();
    for name in ["a", "b", "c"] {
        assert_eq!(registry.insert(name.to_string(), PollingBuffer::new(1)), Ok(()));
    }
    assert_eq!(registry.remove("b"), Ok(()));
    assert_eq!(registry.find(&"a".to_string()), Some(0));
    assert_eq!(registry.find(&"c".to_string()), Some(1));
    assert_eq!(registry.find(&"b".to_string()), None);
}

#[test]
fn deliver_feeds_every_listener_of_the_source() {
    let mut registry = ListenerRegistry::new();
    assert_eq!(registry.insert("wide".to_string(), PollingBuffer::new(4)), Ok(()));
    assert_eq!(registry.insert("narrow".to_string(), PollingBuffer::new(2)), Ok(()));
    registry.rebind(7);
    assert_eq!(registry.bound_to(), Some(7));
    assert!(registry.deliver(7, &[1, 2, 3]));
    assert_eq!(registry.poll("wide"), Some(vec![1, 2, 3, 0]));
    assert_eq!(registry.poll("narrow"), Some(vec![1, 2]));
}

#[test]
fn deliver_from_another_stream_is_dropped() {
    let mut registry = ListenerRegistry::new();
    assert_eq!(registry.insert("x".to_string(), PollingBuffer::new(2)), Ok(()));
    assert!(!registry.deliver(7, &[1, 2]));
    registry.rebind(7);
    assert!(registry.deliver(7, &[1, 2]));
    assert!(!registry.deliver(8, &[3, 4]));
    assert_eq!(registry.poll("x"), Some(vec![1, 2]));
    registry.unbind();
    assert_eq!(registry.bound_to(), None);
    assert!(!registry.deliver(7, &[5, 6]));
    assert_eq!(registry.poll("x"), Some(vec![1, 2]));
}
