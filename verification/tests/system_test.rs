use surrealdb_live_message::agents::GroupState;
use surrealdb_live_message::listener::ListenerState;
use surrealdb_live_message::message::{Action, ChangeEvent, Message, Payload, TextPayload};
use surrealdb_live_message::supervisor::SupervisorState;
use surrealdb_live_message::top::{classify_shutdown, ShutdownReport, System};

fn text_payload(content: &str) -> Payload {
    Payload::Text(TextPayload { content: String::from(content) })
}

fn content_of(m: &Message) -> &str {
    match &m.payload {
        Payload::Text(t) => t.content.as_str(),
        _ => panic!("expected a text payload"),
    }
}

fn started_system() -> System {
    let mut sys = System::new(vec![String::from("alice"), String::from("bob")]);
    sys.connect_store();
    sys.mark_store_ready();
    sys.tick();
    sys.start_agents();
    sys
}

#[test]
fn two_agent_round_trip() {
    let mut sys = started_system();
    assert_eq!(sys.registry.len(), 2);
    assert!(sys.store.has_agent(&String::from("alice")));
    assert!(sys.store.has_agent(&String::from("bob")));

    let to_bob = sys.send(
        &String::from("alice"),
        &String::from("bob"),
        text_payload("Hello from Alice!"),
    );
    let to_alice = sys.send(
        &String::from("bob"),
        &String::from("alice"),
        text_payload("Hello from Bob!"),
    );
    assert!(sys.deliver(1, to_bob));
    assert!(sys.deliver(0, to_alice));

    let alice_messages = sys.store.select_to(&String::from("alice"));
    assert_eq!(alice_messages.len(), 1);
    assert_eq!(content_of(&alice_messages[0]), "Hello from Bob!");
    let bob_messages = sys.store.select_to(&String::from("bob"));
    assert_eq!(bob_messages.len(), 1);
    assert_eq!(content_of(&bob_messages[0]), "Hello from Alice!");

    assert_eq!(sys.nodes[0].listener.dispatched.len(), 1);
    assert_eq!(content_of(&sys.nodes[0].listener.dispatched[0]), "Hello from Bob!");
    assert_eq!(sys.nodes[1].listener.dispatched.len(), 1);
    assert_eq!(content_of(&sys.nodes[1].listener.dispatched[0]), "Hello from Alice!");
}

#[test]
fn unready_store_starts_zero_agents() {
    let mut sys = System::new(vec![String::from("alice"), String::from("bob")]);
    // The signal never turns true within the bounded wait.
    sys.tick();
    sys.ready_timeout();
    assert_eq!(sys.group.state, GroupState::Failed);
    assert_eq!(sys.group.children.len(), 0);
    assert_eq!(sys.nodes.len(), 0);
    assert_eq!(sys.registry.len(), 0);
    assert!(!sys.store.has_agent(&String::from("alice")));
    assert!(!sys.store.has_agent(&String::from("bob")));
}

#[test]
fn shutdown_completes_bottom_up() {
    let mut sys = started_system();
    let ev = sys.send(
        &String::from("alice"),
        &String::from("bob"),
        text_payload("Hello from Alice!"),
    );
    sys.deliver(1, ev);
    sys.tick();
    sys.shutdown();

    assert_eq!(sys.group.state, GroupState::Stopped);
    let group_stop = sys.group.stopped_at.unwrap();
    for node in &sys.nodes {
        assert_eq!(node.sup.state, SupervisorState::Stopped);
        assert_eq!(node.listener.state, ListenerState::Stopped);
        let listener_stop = node.listener.stopped_at.unwrap();
        let sup_stop = node.sup.stopped_at.unwrap();
        assert!(listener_stop <= sup_stop);
        assert!(sup_stop <= group_stop);
    }
    // Teardown drained every mailbox, and no completed dispatch was lost.
    assert_eq!(sys.store.select_to(&String::from("alice")).len(), 0);
    assert_eq!(sys.store.select_to(&String::from("bob")).len(), 0);
    assert_eq!(sys.nodes[1].listener.dispatched.len(), 1);
    assert_eq!(content_of(&sys.nodes[1].listener.dispatched[0]), "Hello from Alice!");
}

#[test]
fn messages_are_dispatched_in_send_order() {
    let mut sys = started_system();
    let m1 = sys.send(&String::from("alice"), &String::from("bob"), text_payload("M1"));
    sys.tick();
    let m2 = sys.send(&String::from("carol"), &String::from("bob"), text_payload("M2"));
    sys.deliver(1, m1);
    sys.deliver(1, m2);
    let log = &sys.nodes[1].listener.dispatched;
    assert_eq!(log.len(), 2);
    assert_eq!(content_of(&log[0]), "M1");
    assert_eq!(content_of(&log[1]), "M2");
}

#[test]
fn teardown_delete_echo_is_discarded() {
    let mut sys = started_system();
    let ev = sys.send(
        &String::from("alice"),
        &String::from("bob"),
        text_payload("kept"),
    );
    sys.deliver(1, ev);
    // A delete echo — as a listener's own teardown produces — is skipped.
    let echo = ChangeEvent {
        action: Action::Delete,
        data: Message {
            from: String::from("alice"),
            to: String::from("bob"),
            payload: text_payload("stale"),
            created: 0,
        },
    };
    assert!(!sys.deliver(1, echo));
    assert_eq!(sys.nodes[1].listener.dispatched.len(), 1);
    assert_eq!(content_of(&sys.nodes[1].listener.dispatched[0]), "kept");
}

#[test]
fn idempotent_agent_creation_in_the_tree() {
    let mut sys = started_system();
    // A second create-or-upsert for an already started name changes nothing.
    let before = sys.registry.len();
    sys.registry.ensure_agent(&String::from("alice"), 42);
    sys.store.upsert_agent(&String::from("alice"), 42);
    assert_eq!(sys.registry.len(), before);
    let alice_records = sys.registry.find(&String::from("alice"));
    assert_eq!(alice_records, Some(0));
}

#[test]
fn shutdown_verdicts() {
    assert_eq!(classify_shutdown(true), ShutdownReport::Clean);
    assert_eq!(classify_shutdown(false), ShutdownReport::ShutdownTimeout);
}
