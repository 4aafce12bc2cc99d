use camera_led::lifecycle::{LifecycleManager, ListenerKind};

#[test]
fn new_manager_is_empty() {
    let m = LifecycleManager::new();
    assert_eq!(m.len(), 0);
    assert!(!m.contains(5));
}

#[test]
fn insert_then_remove_leaves_no_residue() {
    let mut m = LifecycleManager::new();
    assert!(m.insert(5, vec![ListenerKind::StateChange, ListenerKind::Removal]));
    assert!(m.contains(5));
    assert_eq!(m.len(), 1);
    m.remove(5);
    assert!(!m.contains(5));
    assert_eq!(m.len(), 0);
}

#[test]
fn remove_of_unknown_identity_is_noop() {
    let mut m = LifecycleManager::new();
    assert!(m.insert(5, vec![ListenerKind::StateChange]));
    m.remove(9);
    assert!(m.contains(5));
    assert_eq!(m.len(), 1);
}

#[test]
fn double_insert_is_rejected() {
    let mut m = LifecycleManager::new();
    assert!(m.insert(5, vec![ListenerKind::StateChange]));
    assert!(!m.insert(5, vec![ListenerKind::Removal]));
    assert_eq!(m.len(), 1);
}

#[test]
fn insert_accepted_again_after_remove() {
    let mut m = LifecycleManager::new();
    assert!(m.insert(5, vec![ListenerKind::StateChange]));
    m.remove(5);
    assert!(m.insert(5, vec![ListenerKind::Removal]));
    assert!(m.contains(5));
}

#[test]
fn independent_identities_do_not_interfere() {
    let mut m = LifecycleManager::new();
    assert!(m.insert(5, vec![ListenerKind::StateChange, ListenerKind::Removal]));
    assert!(m.insert(7, vec![ListenerKind::StateChange, ListenerKind::Removal]));
    assert_eq!(m.len(), 2);
    m.remove(5);
    assert!(!m.contains(5));
    assert!(m.contains(7));
    assert_eq!(m.len(), 1);
}
