use realtime_hub::registry::ConnectionState;

#[test]
fn lookup_in_empty_registry_finds_nothing() {
    let registry = ConnectionState::new();
    assert_eq!(registry.lookup("alice"), None);
}

#[test]
fn register_then_lookup_finds_the_connection() {
    let mut registry = ConnectionState::new();
    registry.register("alice", 7);
    assert_eq!(registry.lookup("alice"), Some(7));
    assert_eq!(registry.lookup("bob"), None);
}

#[test]
fn register_overwrites_an_earlier_entry() {
    let mut registry = ConnectionState::new();
    registry.register("alice", 1);
    registry.register("alice", 2);
    assert_eq!(registry.lookup("alice"), Some(2));
}

#[test]
fn register_keeps_other_entries() {
    let mut registry = ConnectionState::new();
    registry.register("alice", 1);
    registry.register("bob", 2);
    assert_eq!(registry.lookup("alice"), Some(1));
    assert_eq!(registry.lookup("bob"), Some(2));
}

#[test]
fn unregister_removes_the_own_entry() {
    let mut registry = ConnectionState::new();
    registry.register("alice", 1);
    registry.register("bob", 2);
    assert!(registry.unregister("alice", 1));
    assert_eq!(registry.lookup("alice"), None);
    assert_eq!(registry.lookup("bob"), Some(2));
}

#[test]
fn unregister_is_a_no_op_when_absent() {
    let mut registry = ConnectionState::new();
    assert!(!registry.unregister("alice", 1));
    registry.register("alice", 1);
    assert!(registry.unregister("alice", 1));
    assert!(!registry.unregister("alice", 1));
    assert_eq!(registry.lookup("alice"), None);
}

#[test]
fn unregister_leaves_the_entry_of_a_later_session() {
    let mut registry = ConnectionState::new();
    registry.register("alice", 1);
    registry.register("alice", 2);
    assert!(!registry.unregister("alice", 1));
    assert_eq!(registry.lookup("alice"), Some(2));
}

#[test]
fn identities_are_told_apart_by_their_whole_text() {
    let mut registry = ConnectionState::new();
    registry.register("alice", 1);
    assert_eq!(registry.lookup("alic"), None);
    assert_eq!(registry.lookup("alice "), None);
    assert_eq!(registry.lookup(""), None);
    registry.register("", 9);
    assert_eq!(registry.lookup(""), Some(9));
}
