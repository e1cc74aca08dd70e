use surrealdb_live_message::message::{Action, Message, Payload, TextPayload};
use surrealdb_live_message::store::Store;

fn text(from: &str, to: &str, content: &str, created: u64) -> Message {
    Message {
        from: String::from(from),
        to: String::from(to),
        payload: Payload::Text(TextPayload { content: String::from(content) }),
        created,
    }
}

fn content_of(m: &Message) -> &str {
    match &m.payload {
        Payload::Text(t) => t.content.as_str(),
        _ => panic!("expected a text payload"),
    }
}

#[test]
fn upsert_agent_is_idempotent() {
    let mut s = Store::new();
    assert!(!s.has_agent(&String::from("alice")));
    s.upsert_agent(&String::from("alice"), 1);
    assert!(s.has_agent(&String::from("alice")));
    s.upsert_agent(&String::from("alice"), 2);
    s.upsert_agent(&String::from("bob"), 3);
    assert!(s.has_agent(&String::from("alice")));
    assert!(s.has_agent(&String::from("bob")));
}

#[test]
fn relate_yields_create_event() {
    let mut s = Store::new();
    let ev = s.relate(text("alice", "bob", "Hello from Alice!", 5));
    assert_eq!(ev.action, Action::Create);
    assert_eq!(ev.data.from, "alice");
    assert_eq!(ev.data.to, "bob");
    assert_eq!(content_of(&ev.data), "Hello from Alice!");
    assert_eq!(ev.data.created, 5);
}

#[test]
fn select_to_returns_messages_in_creation_order() {
    let mut s = Store::new();
    s.relate(text("alice", "bob", "first", 1));
    s.relate(text("carol", "bob", "second", 2));
    s.relate(text("bob", "alice", "other mailbox", 3));
    let bob = s.select_to(&String::from("bob"));
    assert_eq!(bob.len(), 2);
    assert_eq!(content_of(&bob[0]), "first");
    assert_eq!(content_of(&bob[1]), "second");
    let alice = s.select_to(&String::from("alice"));
    assert_eq!(alice.len(), 1);
    assert_eq!(content_of(&alice[0]), "other mailbox");
}

#[test]
fn delete_to_empties_one_mailbox_and_reports_delete_events() {
    let mut s = Store::new();
    s.relate(text("alice", "bob", "a", 1));
    s.relate(text("bob", "alice", "b", 2));
    s.relate(text("carol", "bob", "c", 3));
    let evs = s.delete_to(&String::from("bob"));
    assert_eq!(evs.len(), 2);
    assert_eq!(evs[0].action, Action::Delete);
    assert_eq!(content_of(&evs[0].data), "a");
    assert_eq!(evs[1].action, Action::Delete);
    assert_eq!(content_of(&evs[1].data), "c");
    assert_eq!(s.select_to(&String::from("bob")).len(), 0);
    // The other mailbox is untouched.
    let alice = s.select_to(&String::from("alice"));
    assert_eq!(alice.len(), 1);
    assert_eq!(content_of(&alice[0]), "b");
}
