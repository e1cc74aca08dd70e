use surrealdb_live_message::listener::{
    Listener, ListenerAction, ListenerEvent, ListenerState,
};
use surrealdb_live_message::message::{Action, ChangeEvent, Message, Payload, TextPayload};

fn event(action: Action, content: &str) -> ChangeEvent {
    ChangeEvent {
        action,
        data: Message {
            from: String::from("alice"),
            to: String::from("bob"),
            payload: Payload::Text(TextPayload { content: String::from(content) }),
            created: 1,
        },
    }
}

fn content_of(m: &Message) -> &str {
    match &m.payload {
        Payload::Text(t) => t.content.as_str(),
        _ => panic!("expected a text payload"),
    }
}

fn active_listener() -> Listener {
    let mut l = Listener::new(String::from("bob"));
    let a = l.step(ListenerEvent::Subscribed, 0);
    assert!(matches!(a, ListenerAction::AwaitNext));
    assert_eq!(l.state, ListenerState::Active);
    l
}

#[test]
fn delete_events_are_never_dispatched() {
    let mut l = active_listener();
    let a = l.step(ListenerEvent::Feed(event(Action::Delete, "stale")), 1);
    assert!(matches!(a, ListenerAction::AwaitNext));
    assert_eq!(l.dispatched.len(), 0);
    let a = l.step(ListenerEvent::Feed(event(Action::Create, "real")), 2);
    assert!(matches!(a, ListenerAction::Dispatch(_)));
    let a = l.step(ListenerEvent::Feed(event(Action::Delete, "echo")), 3);
    assert!(matches!(a, ListenerAction::AwaitNext));
    assert_eq!(l.dispatched.len(), 1);
    assert_eq!(content_of(&l.dispatched[0]), "real");
}

#[test]
fn events_are_dispatched_in_feed_order() {
    let mut l = active_listener();
    let feed = vec![
        event(Action::Create, "M1"),
        event(Action::Delete, "noise"),
        event(Action::Update, "M2"),
    ];
    let count = l.consume_feed(&feed, 1);
    assert_eq!(count, 2);
    assert_eq!(l.dispatched.len(), 2);
    assert_eq!(content_of(&l.dispatched[0]), "M1");
    assert_eq!(content_of(&l.dispatched[1]), "M2");
}

#[test]
fn cancellation_lets_current_dispatch_complete() {
    let mut l = active_listener();
    // The dispatch of one event completes as one atomic step ...
    let a = l.step(ListenerEvent::Feed(event(Action::Create, "in flight")), 1);
    assert!(matches!(a, ListenerAction::Dispatch(_)));
    // ... before cancellation moves the listener to draining, losing nothing.
    let a = l.step(ListenerEvent::Cancel, 1);
    assert!(matches!(a, ListenerAction::TearDown));
    assert_eq!(l.state, ListenerState::Draining);
    assert_eq!(l.dispatched.len(), 1);
    assert_eq!(content_of(&l.dispatched[0]), "in flight");
    // Feed items arriving while draining are not consumed.
    let a = l.step(ListenerEvent::Feed(event(Action::Create, "late")), 2);
    assert!(matches!(a, ListenerAction::Ignore));
    assert_eq!(l.dispatched.len(), 1);
    let a = l.step(ListenerEvent::TeardownDone, 3);
    assert!(matches!(a, ListenerAction::ReportStopped));
    assert_eq!(l.state, ListenerState::Stopped);
    assert_eq!(l.stopped_at, Some(3));
}

#[test]
fn subscribe_failure_is_fatal_for_the_listener() {
    let mut l = Listener::new(String::from("bob"));
    let a = l.step(ListenerEvent::SubscribeFailed, 4);
    assert!(matches!(a, ListenerAction::ReportFatal));
    assert_eq!(l.state, ListenerState::Stopped);
    assert_eq!(l.stopped_at, Some(4));
    assert!(l.failed);
}

#[test]
fn transient_feed_errors_do_not_stop_the_loop() {
    let mut l = active_listener();
    let a = l.step(ListenerEvent::FeedError, 1);
    assert!(matches!(a, ListenerAction::AwaitNext));
    assert_eq!(l.state, ListenerState::Active);
    let a = l.step(ListenerEvent::Feed(event(Action::Create, "after hiccup")), 2);
    assert!(matches!(a, ListenerAction::Dispatch(_)));
    assert_eq!(l.dispatched.len(), 1);
}
