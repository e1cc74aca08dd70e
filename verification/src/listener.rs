//! The per-agent feed listener: a state machine over the events its live
//! subscription and its cancellation signal can deliver.
//!
//! States: `Starting` until the subscription is confirmed, `Active` while
//! consuming the feed, `Draining` after cancellation while teardown runs,
//! `Stopped` once teardown is done. Each change event is handled in one
//! atomic step, in feed order; events whose action is `Delete` are discarded
//! without dispatch.

use vstd::prelude::*;

use crate::message::{Action, ChangeEvent, Message};

verus! {

/// The listener's lifecycle state.
#[derive(Clone, Copy, Debug, PartialEq, Eq, Structural)]
pub enum ListenerState {
    Starting,
    Active,
    Draining,
    Stopped,
}

/// What the environment can hand the listener: the outcome of its subscribe
/// call, the next feed item (an event, or a transient feed error), the
/// cancellation signal, or completion of its own teardown.
pub enum ListenerEvent {
    Subscribed,
    SubscribeFailed,
    Feed(ChangeEvent),
    FeedError,
    Cancel,
    TeardownDone,
}

/// What the listener asks its environment to do next.
pub enum ListenerAction {
    /// Wait for the next feed item or the cancellation signal.
    AwaitNext,
    /// Hand this message to the observation handler.
    Dispatch(Message),
    /// Release the subscription and delete the ephemeral mailbox record.
    TearDown,
    /// Tell the parent that the subscribe call failed; fatal for this agent.
    ReportFatal,
    /// Tell the parent that the listener has fully stopped.
    ReportStopped,
    /// Nothing to do for this event in this state.
    Ignore,
}

/// The messages of the non-delete events of `evs`, in feed order. This is
/// what a listener dispatches when it consumes `evs` while active.
pub open spec fn dispatched_of(evs: Seq<ChangeEvent>) -> Seq<Message>
    decreases evs.len(),
{
    if evs.len() == 0 {
        Seq::empty()
    } else if evs.last().action is Delete {
        dispatched_of(evs.drop_last())
    } else {
        dispatched_of(evs.drop_last()).push(evs.last().data)
    }
}

pub proof fn lemma_dispatched_of_snoc(evs: Seq<ChangeEvent>, e: ChangeEvent)
    ensures
        dispatched_of(evs.push(e)) == if e.action is Delete {
            dispatched_of(evs)
        } else {
            dispatched_of(evs).push(e.data)
        },
{
    assert(evs.push(e).drop_last() =~= evs);
    assert(evs.push(e).last() == e);
}

/// Dispatch distributes over concatenation of feed segments.
pub proof fn lemma_dispatched_of_concat(a: Seq<ChangeEvent>, b: Seq<ChangeEvent>)
    ensures
        dispatched_of(a + b) == dispatched_of(a) + dispatched_of(b),
    decreases b.len(),
{
    if b.len() == 0 {
        assert(a + b =~= a);
        assert(dispatched_of(b) =~= Seq::<Message>::empty());
        assert(dispatched_of(a) + dispatched_of(b) =~= dispatched_of(a));
    } else {
        lemma_dispatched_of_concat(a, b.drop_last());
        assert((a + b).drop_last() =~= a + b.drop_last());
        assert((a + b).last() == b.last());
        if b.last().action is Delete {
            assert(dispatched_of(b) == dispatched_of(b.drop_last()));
        } else {
            assert(dispatched_of(b) == dispatched_of(b.drop_last()).push(b.last().data));
            assert(dispatched_of(a) + dispatched_of(b.drop_last()).push(b.last().data) =~= (
            dispatched_of(a) + dispatched_of(b.drop_last())).push(b.last().data));
        }
    }
}

/// Ordering of dispatch follows ordering of delivery: if the feed delivers
/// `e1` somewhere before `e2` and neither is a delete, then `e1`'s message
/// stands before `e2`'s message in the dispatched sequence, with exactly the
/// dispatches of the surrounding segments between and around them.
pub proof fn lemma_dispatch_order(
    pre: Seq<ChangeEvent>,
    mid: Seq<ChangeEvent>,
    post: Seq<ChangeEvent>,
    e1: ChangeEvent,
    e2: ChangeEvent,
)
    requires
        !(e1.action is Delete),
        !(e2.action is Delete),
    ensures
        dispatched_of(pre + seq![e1] + mid + seq![e2] + post) == dispatched_of(pre) + seq![
            e1.data,
        ] + dispatched_of(mid) + seq![e2.data] + dispatched_of(post),
{
    lemma_dispatched_of_concat(pre + seq![e1] + mid + seq![e2], post);
    lemma_dispatched_of_concat(pre + seq![e1] + mid, seq![e2]);
    lemma_dispatched_of_concat(pre + seq![e1], mid);
    lemma_dispatched_of_concat(pre, seq![e1]);
    assert(dispatched_of(seq![e1]) =~= seq![e1.data]) by {
        assert(seq![e1].drop_last() =~= Seq::<ChangeEvent>::empty());
        assert(dispatched_of(Seq::<ChangeEvent>::empty()) == Seq::<Message>::empty());
        assert(seq![e1].last() == e1);
    }
    assert(dispatched_of(seq![e2]) =~= seq![e2.data]) by {
        assert(seq![e2].drop_last() =~= Seq::<ChangeEvent>::empty());
        assert(dispatched_of(Seq::<ChangeEvent>::empty()) == Seq::<Message>::empty());
        assert(seq![e2].last() == e2);
    }
}

/// The per-agent feed listener.
pub struct Listener {
    /// The identity whose mailbox this listener consumes.
    pub name: String,
    pub state: ListenerState,
    /// Every message handed to the observation handler, in dispatch order.
    pub dispatched: Vec<Message>,
    /// The time at which the listener reached `Stopped`, once it has.
    pub stopped_at: Option<u64>,
    /// Whether the listener stopped because its subscribe call failed.
    pub failed: bool,
}

impl Listener {
    /// A listener is stopped exactly when its stop time is recorded, and
    /// nothing is dispatched before the subscription is confirmed.
    pub open spec fn wf(&self) -> bool {
        &&& (self.state is Stopped <==> self.stopped_at is Some)
        &&& (self.state is Starting ==> self.dispatched@.len() == 0)
        &&& (self.failed ==> self.state is Stopped && self.dispatched@.len() == 0)
    }

    /// All recorded times lie at or before `now`.
    pub open spec fn time_le(&self, now: u64) -> bool {
        self.stopped_at matches Some(t) ==> t <= now
    }

    pub fn new(name: String) -> (l: Listener)
        ensures
            l.name == name,
            l.state is Starting,
            l.dispatched@ == Seq::<Message>::empty(),
            l.stopped_at is None,
            !l.failed,
            l.wf(),
    {
        Listener {
            name,
            state: ListenerState::Starting,
            dispatched: Vec::new(),
            stopped_at: None,
            failed: false,
        }
    }

    /// One atomic step of the listener's loop. `now` is the current reading
    /// of the process clock; the listener never runs backwards in time.
    ///
    /// Delete events are never dispatched: for every change event whose
    /// action is `Delete`, the observation handler is not invoked and the
    /// dispatch log is unchanged. Cancellation never discards a completed
    /// dispatch: the log only ever grows.
    pub fn step(&mut self, ev: ListenerEvent, now: u64) -> (a: ListenerAction)
        requires
            old(self).wf(),
            !(old(self).state is Stopped),
            old(self).time_le(now),
        ensures
            final(self).wf(),
            final(self).time_le(now),
            final(self).name == old(self).name,
            // The dispatch log only grows, and all earlier entries stay put.
            final(self).dispatched@.len() >= old(self).dispatched@.len(),
            final(self).dispatched@.take(old(self).dispatched@.len() as int) == old(
                self,
            ).dispatched@,
            // Subscription confirmed: start consuming the feed.
            old(self).state is Starting && ev is Subscribed ==> final(self).state is Active
                && a is AwaitNext && final(self).dispatched@ == old(self).dispatched@
                && !final(self).failed,
            // Subscribe failure is fatal for this listener.
            old(self).state is Starting && ev is SubscribeFailed ==> final(self).state is Stopped
                && final(self).stopped_at == Some(now) && final(self).failed && a is ReportFatal,
            // Cancellation: enter draining and run teardown; nothing is lost.
            !(old(self).state is Draining) && ev is Cancel ==> final(self).state is Draining
                && a is TearDown && final(self).dispatched@ == old(self).dispatched@
                && final(self).failed == old(self).failed,
            // A non-delete event in the active state is dispatched, appended
            // to the log in feed order.
            old(self).state is Active && ev is Feed && !((ev->Feed_0).action is Delete)
                ==> final(self).state is Active && final(self).dispatched@ == old(
                self,
            ).dispatched@.push((ev->Feed_0).data) && a is Dispatch && a->Dispatch_0 == (
            ev->Feed_0).data,
            // A delete event is discarded without dispatch.
            old(self).state is Active && ev is Feed && (ev->Feed_0).action is Delete
                ==> final(self).state is Active && final(self).dispatched@ == old(
                self,
            ).dispatched@ && a is AwaitNext,
            // A transient feed error is logged and the loop continues.
            old(self).state is Active && ev is FeedError ==> final(self).state is Active
                && final(self).dispatched@ == old(self).dispatched@ && a is AwaitNext,
            // Teardown completion ends the drain; the stop time is recorded.
            old(self).state is Draining && ev is TeardownDone ==> final(self).state is Stopped
                && final(self).stopped_at == Some(now) && final(self).dispatched@ == old(
                self,
            ).dispatched@ && a is ReportStopped && final(self).failed == old(self).failed,
            // While draining, feed items are no longer consumed.
            old(self).state is Draining && ev is Feed ==> *final(self) == *old(self)
                && a is Ignore,
            // Any other event is out of place in its state and is ignored.
            a is Ignore ==> *final(self) == *old(self),
            old(self).state is Starting && (ev is Feed || ev is FeedError || ev is TeardownDone)
                ==> a is Ignore,
            old(self).state is Active && (ev is Subscribed || ev is SubscribeFailed
                || ev is TeardownDone) ==> a is Ignore,
            old(self).state is Draining && (ev is Subscribed || ev is SubscribeFailed
                || ev is FeedError || ev is Cancel) ==> a is Ignore,
    {
        match (self.state, ev) {
            (ListenerState::Starting, ListenerEvent::Subscribed) => {
                self.state = ListenerState::Active;
                ListenerAction::AwaitNext
            },
            (ListenerState::Starting, ListenerEvent::SubscribeFailed) => {
                self.state = ListenerState::Stopped;
                self.stopped_at = Some(now);
                self.failed = true;
                ListenerAction::ReportFatal
            },
            (ListenerState::Starting, ListenerEvent::Cancel) => {
                self.state = ListenerState::Draining;
                ListenerAction::TearDown
            },
            (ListenerState::Active, ListenerEvent::Feed(e)) => {
                match e.action {
                    Action::Delete => ListenerAction::AwaitNext,
                    _ => {
                        let m = e.data;
                        let out = m.clone();
                        self.dispatched.push(m);
                        proof {
                            assert(self.dispatched@.take(old(self).dispatched@.len() as int)
                                =~= old(self).dispatched@);
                        }
                        ListenerAction::Dispatch(out)
                    },
                }
            },
            (ListenerState::Active, ListenerEvent::FeedError) => ListenerAction::AwaitNext,
            (ListenerState::Active, ListenerEvent::Cancel) => {
                self.state = ListenerState::Draining;
                ListenerAction::TearDown
            },
            (ListenerState::Draining, ListenerEvent::TeardownDone) => {
                self.state = ListenerState::Stopped;
                self.stopped_at = Some(now);
                ListenerAction::ReportStopped
            },
            _ => ListenerAction::Ignore,
        }
    }

    /// Consume a whole segment of the feed while active. The dispatch log is
    /// extended by exactly the non-delete messages of the segment, in feed
    /// order, with no reordering and no overlap.
    pub fn consume_feed(&mut self, evs: &Vec<ChangeEvent>, now: u64) -> (count: usize)
        requires
            old(self).wf(),
            old(self).state is Active,
            old(self).time_le(now),
        ensures
            final(self).wf(),
            final(self).state is Active,
            final(self).time_le(now),
            final(self).name == old(self).name,
            final(self).failed == old(self).failed,
            final(self).dispatched@ == old(self).dispatched@ + dispatched_of(evs@),
            count == dispatched_of(evs@).len(),
    {
        let mut count: usize = 0;
        let n = evs.len();
        proof {
            assert(old(self).dispatched@ + dispatched_of(evs@.take(0)) =~= old(
                self,
            ).dispatched@);
        }
        for i in 0..n
            invariant
                n == evs@.len(),
                self.wf(),
                self.state is Active,
                self.time_le(now),
                self.name == old(self).name,
                self.failed == old(self).failed,
                self.dispatched@ == old(self).dispatched@ + dispatched_of(evs@.take(i as int)),
                count == dispatched_of(evs@.take(i as int)).len(),
                count <= i,
        {
            proof {
                assert(evs@.take(i + 1) =~= evs@.take(i as int).push(evs@[i as int]));
                lemma_dispatched_of_snoc(evs@.take(i as int), evs@[i as int]);
            }
            let ev = evs[i].clone();
            let a = self.step(ListenerEvent::Feed(ev), now);
            match a {
                ListenerAction::Dispatch(_) => {
                    count = count + 1;
                },
                _ => {},
            }
        }
        proof {
            assert(evs@.take(n as int) =~= evs@);
        }
        count
    }
}

} // verus!
