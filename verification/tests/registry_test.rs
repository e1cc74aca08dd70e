use surrealdb_live_message::agent::Registry;

#[test]
fn ensure_agent_registers_identity() {
    let mut r = Registry::new();
    assert_eq!(r.len(), 0);
    let a = r.ensure_agent(&String::from("alice"), 7);
    assert_eq!(a.identity, "alice");
    assert_eq!(a.created, 7);
    assert_eq!(r.len(), 1);
    assert!(r.contains(&String::from("alice")));
    assert!(!r.contains(&String::from("bob")));
}

#[test]
fn ensure_agent_twice_keeps_one_entry() {
    let mut r = Registry::new();
    let first = r.ensure_agent(&String::from("alice"), 1);
    let second = r.ensure_agent(&String::from("alice"), 99);
    assert_eq!(r.len(), 1);
    assert_eq!(first.identity, "alice");
    assert_eq!(second.identity, "alice");
    // The stored record keeps the first creation time.
    let stored = r.get(r.find(&String::from("alice")).unwrap());
    assert_eq!(stored.created, 1);
}

#[test]
fn registry_is_append_only_across_names() {
    let mut r = Registry::new();
    r.ensure_agent(&String::from("alice"), 1);
    r.ensure_agent(&String::from("bob"), 2);
    r.ensure_agent(&String::from("alice"), 3);
    r.ensure_agent(&String::from("bob"), 4);
    assert_eq!(r.len(), 2);
    assert_eq!(r.find(&String::from("alice")), Some(0));
    assert_eq!(r.find(&String::from("bob")), Some(1));
    assert_eq!(r.find(&String::from("carol")), None);
}
