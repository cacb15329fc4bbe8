use ubus_runtime::registry::ContextRegistry;

#[test]
fn empty_registry_resolves_nothing() {
    let reg = ContextRegistry::new();
    assert_eq!(reg.lookup(0), None);
    assert_eq!(reg.lookup(17), None);
}

#[test]
fn insert_then_lookup() {
    let mut reg = ContextRegistry::new();
    assert!(reg.insert(10, 100));
    assert!(reg.insert(11, 101));
    assert_eq!(reg.lookup(10), Some(100));
    assert_eq!(reg.lookup(11), Some(101));
    assert_eq!(reg.lookup(12), None);
}

#[test]
fn colliding_insert_fails_loudly_and_keeps_the_owner() {
    // At most one instance per handle: a second insert for the same handle
    // is refused instead of silently overwriting the previous owner.
    let mut reg = ContextRegistry::new();
    assert!(reg.insert(10, 100));
    assert!(!reg.insert(10, 999));
    assert_eq!(reg.lookup(10), Some(100));
}

#[test]
fn remove_clears_only_its_handle() {
    let mut reg = ContextRegistry::new();
    assert!(reg.insert(10, 100));
    assert!(reg.insert(11, 101));
    assert!(reg.remove(10));
    assert_eq!(reg.lookup(10), None);
    assert_eq!(reg.lookup(11), Some(101));
    // removing an absent handle reports so and changes nothing
    assert!(!reg.remove(10));
    assert_eq!(reg.lookup(11), Some(101));
    // the handle may be re-registered afterwards
    assert!(reg.insert(10, 200));
    assert_eq!(reg.lookup(10), Some(200));
}
