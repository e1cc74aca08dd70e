//! The root of the supervision tree: the store connection manager and the
//! agent group supervisor run as siblings, ordered by the readiness signal
//! rather than by start order. `System` holds the whole tree together with
//! the store and the registry, and its step methods carry the protocol's
//! invariants: queries only after readiness, dispatch in feed order, and
//! shutdown that completes bottom-up — a parent never reports stopped while
//! one of its children is still active.

use vstd::prelude::*;

use crate::agent::{contains_identity, Registry};
use crate::agents::{GroupEvent, GroupSupervisor};
use crate::listener::{Listener, ListenerAction, ListenerEvent};
use crate::message::{ChangeEvent, Message, Payload};
use crate::sdb::SurrealDBWrapper;
use crate::store::{lemma_delete_other_mailbox, sent_to, Store};
use crate::supervisor::{AgentSubsystem, SupervisorEvent};

verus! {

/// One started agent: its supervisor and, as the supervisor's child, its
/// feed listener.
pub struct AgentNode {
    pub sup: AgentSubsystem,
    pub listener: Listener,
}

impl AgentNode {
    /// The coupling between a supervisor and its child listener: they serve
    /// the same agent, the listener's lifecycle follows the supervisor's,
    /// and the stop the supervisor joined is the stop the listener recorded.
    pub open spec fn wf(&self) -> bool {
        &&& self.sup.wf()
        &&& self.listener.wf()
        &&& self.listener.name@ == self.sup.name@
        &&& (self.sup.state is Init ==> self.listener.state is Starting)
        &&& (self.sup.state is Running ==> self.listener.state is Active)
        &&& (self.sup.state is Cancelling ==> self.listener.state is Draining
            || self.listener.state is Stopped)
        &&& (self.sup.state is Grace || self.sup.state is Stopped
            ==> self.listener.state is Stopped && self.listener.stopped_at
                == self.sup.child_stopped_at)
    }

    /// All recorded times lie at or before `now`.
    pub open spec fn time_le(&self, now: u64) -> bool {
        self.sup.time_le(now) && self.listener.time_le(now)
    }
}

/// Shutdown ordering through one branch of the tree: once the supervisor
/// has stopped, its listener stopped first, at a time at or before the
/// supervisor's own.
pub proof fn lemma_node_stops_bottom_up(n: AgentNode)
    requires
        n.wf(),
        n.sup.state is Stopped,
    ensures
        n.listener.stopped_at is Some,
        n.sup.stopped_at is Some,
        n.listener.stopped_at->0 <= n.sup.stopped_at->0,
{
}

/// How the root classifies the end of a run: a clean shutdown, with every
/// child joined inside the shutdown budget, or a forced one that is
/// reported, never silently swallowed.
#[derive(Clone, Copy, Debug, PartialEq, Eq, Structural)]
pub enum ShutdownReport {
    Clean,
    ShutdownTimeout,
}

/// The root's verdict on a shutdown: clean exactly when every started child
/// confirmed its stop within the budget.
pub fn classify_shutdown(children_confirmed: bool) -> (r: ShutdownReport)
    ensures
        children_confirmed <==> r is Clean,
{
    if children_confirmed {
        ShutdownReport::Clean
    } else {
        ShutdownReport::ShutdownTimeout
    }
}

/// The whole process: the clock, the connection manager with its readiness
/// signal, the group supervisor, the per-agent branches, the store and the
/// registry.
pub struct System {
    pub clock: u64,
    pub sdb: SurrealDBWrapper,
    pub group: GroupSupervisor,
    pub nodes: Vec<AgentNode>,
    pub store: Store,
    pub registry: Registry,
}

impl System {
    /// The tree-wide invariant: every component is well formed, the group's
    /// readiness observation is truthful, every started branch serves the
    /// name the group started it for, the group's join records mirror the
    /// supervisors' stop records, and no recorded time lies in the future.
    pub open spec fn wf(&self) -> bool {
        &&& self.sdb.wf()
        &&& self.group.wf()
        &&& self.registry.wf()
        &&& self.store.wf()
        &&& (self.group.ready_observed ==> self.sdb.ready)
        &&& self.nodes@.len() == self.group.children@.len()
        &&& (forall|k: int| 0 <= k < self.nodes@.len() ==> (#[trigger] self.nodes@[k]).wf())
        &&& (forall|k: int|
            0 <= k < self.nodes@.len() ==> (#[trigger] self.nodes@[k]).sup.name@
                == self.group.names@[k]@)
        &&& (forall|k: int|
            0 <= k < self.nodes@.len() ==> (#[trigger] self.nodes@[k]).sup.stopped_at
                == self.group.children@[k].stopped_at)
        &&& self.group.time_le(self.clock)
        &&& (forall|k: int|
            0 <= k < self.nodes@.len() ==> (#[trigger] self.nodes@[k]).time_le(self.clock))
    }

    pub fn new(names: Vec<String>) -> (s: System)
        ensures
            s.wf(),
            s.clock == 0,
            s.group.names == names,
            s.group.state is WaitingReady,
            !s.group.ready_observed,
            !s.sdb.connected,
            !s.sdb.ready,
            s.nodes@.len() == 0,
            s.registry@.len() == 0,
            s.store.spec_agents().len() == 0,
            s.store.spec_messages().len() == 0,
    {
        System {
            clock: 0,
            sdb: SurrealDBWrapper::new(),
            group: GroupSupervisor::new(names),
            nodes: Vec::new(),
            store: Store::new(),
            registry: Registry::new(),
        }
    }

    /// Advance the process clock by one step.
    pub fn tick(&mut self)
        requires
            old(self).wf(),
            old(self).clock < u64::MAX,
        ensures
            final(self).wf(),
            final(self).clock == old(self).clock + 1,
            final(self).sdb == old(self).sdb,
            final(self).group == old(self).group,
            final(self).nodes == old(self).nodes,
            final(self).store == old(self).store,
            final(self).registry == old(self).registry,
    {
        self.clock = self.clock + 1;
    }

    /// Establish the single shared store connection.
    pub fn connect_store(&mut self)
        requires
            old(self).wf(),
        ensures
            final(self).wf(),
            final(self).sdb.connected,
            final(self).sdb.ready == old(self).sdb.ready,
            final(self).clock == old(self).clock,
            final(self).group == old(self).group,
            final(self).nodes == old(self).nodes,
            final(self).store == old(self).store,
            final(self).registry == old(self).registry,
    {
        self.sdb.mark_connected();
    }

    /// Raise the readiness signal, once the connection stands (and, for a
    /// locally managed store, its health probe has passed).
    pub fn mark_store_ready(&mut self)
        requires
            old(self).wf(),
            old(self).sdb.connected,
        ensures
            final(self).wf(),
            final(self).sdb.ready,
            final(self).sdb.connected,
            final(self).clock == old(self).clock,
            final(self).group == old(self).group,
            final(self).nodes == old(self).nodes,
            final(self).store == old(self).store,
            final(self).registry == old(self).registry,
    {
        self.sdb.set_ready();
    }

    /// The group supervisor observes the readiness signal and starts one
    /// agent per configured name, in order: the agent's record is
    /// created-or-upserted in the store, it is appended to the registry,
    /// its supervisor starts, and its listener subscribes to the agent's
    /// feed. No store query is issued before this observation.
    pub fn start_agents(&mut self)
        requires
            old(self).wf(),
            old(self).group.state is WaitingReady,
            old(self).sdb.ready,
        ensures
            final(self).wf(),
            final(self).group.state is Running,
            final(self).group.ready_observed,
            final(self).group.names == old(self).group.names,
            final(self).nodes@.len() == old(self).group.names@.len(),
            forall|k: int|
                0 <= k < final(self).nodes@.len() ==> (#[trigger] final(self).nodes@[k])
                    .sup.state is Running && final(self).nodes@[k].listener.state is Active
                    && final(self).nodes@[k].listener.dispatched@.len() == 0,
            forall|k: int|
                0 <= k < final(self).group.names@.len() ==> contains_identity(
                    final(self).registry@,
                    (#[trigger] final(self).group.names@[k])@,
                ),
            forall|k: int|
                0 <= k < final(self).group.names@.len() ==> contains_identity(
                    final(self).store.spec_agents(),
                    (#[trigger] final(self).group.names@[k])@,
                ),
            final(self).store.spec_messages() == old(self).store.spec_messages(),
            final(self).clock == old(self).clock,
            final(self).sdb == old(self).sdb,
    {
        let _a = self.group.step(GroupEvent::ReadyObserved, self.clock);
        let n = self.group.names.len();
        let ghost names = self.group.names@;
        let ghost gsnap = self.group;
        for i in 0..n
            invariant
                self.group == gsnap,
                self.group.wf(),
                self.group.state is Running,
                self.group.ready_observed,
                self.group.names@ == names,
                self.group.names == old(self).group.names,
                n == names.len(),
                self.group.children@.len() == n,
                forall|k: int|
                    0 <= k < n ==> (#[trigger] self.group.children@[k]).stopped_at is None,
                self.nodes@.len() == i,
                forall|k: int| 0 <= k < i ==> (#[trigger] self.nodes@[k]).wf(),
                forall|k: int|
                    0 <= k < i ==> (#[trigger] self.nodes@[k]).sup.state is Running
                        && self.nodes@[k].listener.state is Active
                        && self.nodes@[k].listener.dispatched@.len() == 0
                        && self.nodes@[k].sup.stopped_at is None
                        && self.nodes@[k].listener.stopped_at is None
                        && self.nodes@[k].sup.child_stopped_at is None,
                forall|k: int|
                    0 <= k < i ==> (#[trigger] self.nodes@[k]).sup.name@ == names[k]@,
                self.registry.wf(),
                forall|k: int|
                    0 <= k < i ==> contains_identity(self.registry@, (#[trigger] names[k])@),
                self.store.wf(),
                forall|k: int|
                    0 <= k < i ==> contains_identity(
                        self.store.spec_agents(),
                        (#[trigger] names[k])@,
                    ),
                self.store.spec_messages() == old(self).store.spec_messages(),
                self.clock == old(self).clock,
                self.sdb == old(self).sdb,
                self.sdb.wf(),
                self.sdb.ready,
        {
            let name = self.group.names[i].clone();
            let ghost pre_registry = self.registry@;
            let ghost pre_agents = self.store.spec_agents();
            let _agent = self.registry.ensure_agent(&name, self.clock);
            let _record = self.store.upsert_agent(&name, self.clock);
            proof {
                assert forall|k: int| 0 <= k < i implies contains_identity(
                    self.registry@,
                    (#[trigger] names[k])@,
                ) by {
                    crate::agent::lemma_ensure_step_preserves(
                        pre_registry,
                        self.registry@,
                        name@,
                        self.clock,
                        names[k]@,
                    );
                }
                assert forall|k: int| 0 <= k < i implies contains_identity(
                    self.store.spec_agents(),
                    (#[trigger] names[k])@,
                ) by {
                    crate::agent::lemma_ensure_step_preserves(
                        pre_agents,
                        self.store.spec_agents(),
                        name@,
                        self.clock,
                        names[k]@,
                    );
                }
            }
            let mut sup = AgentSubsystem::new(name.clone());
            let _start = sup.step(SupervisorEvent::Started, self.clock);
            let mut listener = Listener::new(name);
            let _sub = listener.step(ListenerEvent::Subscribed, self.clock);
            self.nodes.push(AgentNode { sup, listener });
        }
    }

    /// The bounded wait for readiness ran out: the group fails without
    /// starting a single agent, and nothing was written to the store.
    pub fn ready_timeout(&mut self)
        requires
            old(self).wf(),
            old(self).group.state is WaitingReady,
        ensures
            final(self).wf(),
            final(self).group.state is Failed,
            final(self).group.children@.len() == 0,
            !final(self).group.ready_observed,
            final(self).nodes@.len() == 0,
            final(self).registry@ == old(self).registry@,
            final(self).store == old(self).store,
            final(self).clock == old(self).clock,
            final(self).sdb == old(self).sdb,
    {
        let _a = self.group.step(GroupEvent::ReadyTimeout, self.clock);
    }

    /// Relay one message: write the relation record addressed to `to`. The
    /// returned event is what the recipient's live feed delivers for the
    /// write. Issued only by started agents, hence only after readiness.
    pub fn send(&mut self, from: &String, to: &String, payload: Payload) -> (ev: ChangeEvent)
        requires
            old(self).wf(),
            old(self).group.ready_observed,
        ensures
            final(self).wf(),
            ev.action is Create,
            ev.data.from@ == from@,
            ev.data.to@ == to@,
            ev.data.payload == payload,
            ev.data.created == old(self).clock,
            final(self).store.spec_messages() == old(self).store.spec_messages().push(ev.data),
            final(self).store.spec_agents() == old(self).store.spec_agents(),
            final(self).clock == old(self).clock,
            final(self).sdb == old(self).sdb,
            final(self).group == old(self).group,
            final(self).nodes == old(self).nodes,
            final(self).registry == old(self).registry,
    {
        let m = Message {
            from: from.clone(),
            to: to.clone(),
            payload,
            created: self.clock,
        };
        self.store.relate(m)
    }

    /// Deliver one feed event to the listener of branch `i`. A non-delete
    /// event is dispatched, in feed order; a delete event — such as the echo
    /// of a teardown's own mailbox delete — is discarded.
    pub fn deliver(&mut self, i: usize, ev: ChangeEvent) -> (dispatched: bool)
        requires
            old(self).wf(),
            i < old(self).nodes@.len(),
            old(self).nodes@[i as int].listener.state is Active,
        ensures
            final(self).wf(),
            final(self).nodes@.len() == old(self).nodes@.len(),
            forall|k: int|
                0 <= k < old(self).nodes@.len() && k != i ==> final(self).nodes@[k] == old(
                    self,
                ).nodes@[k],
            final(self).nodes@[i as int].sup == old(self).nodes@[i as int].sup,
            final(self).nodes@[i as int].listener.state is Active,
            !(ev.action is Delete) ==> dispatched && final(self).nodes@[i as int]
                .listener.dispatched@ == old(self).nodes@[i as int].listener.dispatched@.push(
                ev.data,
            ),
            ev.action is Delete ==> !dispatched && final(self).nodes@[i as int]
                .listener.dispatched@ == old(self).nodes@[i as int].listener.dispatched@,
            final(self).store == old(self).store,
            final(self).registry == old(self).registry,
            final(self).group == old(self).group,
            final(self).sdb == old(self).sdb,
            final(self).clock == old(self).clock,
    {
        let a = self.nodes[i].listener.step(ListenerEvent::Feed(ev), self.clock);
        match a {
            ListenerAction::Dispatch(_) => true,
            _ => false,
        }
    }

    /// Propagate shutdown through the whole tree: top-down in initiation,
    /// bottom-up in completion. Every listener drains, tears down by
    /// deleting its mailbox, and stops; its supervisor joins it, waits the
    /// grace interval, and stops; the group joins every supervisor and only
    /// then stops itself. Afterwards every mailbox is empty and every
    /// child's stop lies at or before its parent's.
    pub fn shutdown(&mut self)
        requires
            old(self).wf(),
            old(self).group.state is Running,
            old(self).group.names@.len() > 0,
            forall|k: int|
                0 <= k < old(self).nodes@.len() ==> (#[trigger] old(
                    self,
                ).nodes@[k]).sup.state is Running,
        ensures
            final(self).wf(),
            final(self).group.state is Stopped,
            final(self).group.stopped_at is Some,
            final(self).nodes@.len() == old(self).nodes@.len(),
            forall|k: int|
                0 <= k < final(self).nodes@.len() ==> (#[trigger] final(self).nodes@[k])
                    .sup.state is Stopped && final(self).nodes@[k].listener.state is Stopped,
            // Bottom-up completion: listener at or before supervisor, and
            // supervisor at or before the group.
            forall|k: int|
                0 <= k < final(self).nodes@.len() ==> (#[trigger] final(self).nodes@[k])
                    .listener.stopped_at->0 <= final(self).nodes@[k].sup.stopped_at->0
                    && final(self).nodes@[k].sup.stopped_at->0 <= final(self).group.stopped_at->0,
            // Dispatch logs survive shutdown: no completed dispatch is lost.
            forall|k: int|
                0 <= k < final(self).nodes@.len() ==> (#[trigger] final(self).nodes@[k])
                    .listener.dispatched@ == old(self).nodes@[k].listener.dispatched@,
            // Teardown drained every mailbox.
            forall|k: int|
                0 <= k < final(self).group.names@.len() ==> sent_to(
                    final(self).store.spec_messages(),
                    (#[trigger] final(self).group.names@[k])@,
                ).len() == 0,
            final(self).registry@ == old(self).registry@,
            final(self).clock == old(self).clock,
            final(self).sdb == old(self).sdb,
    {
        let now = self.clock;
        let ghost names = self.group.names@;
        let _a = self.group.step(GroupEvent::ShutdownRequest, now);
        let n = self.nodes.len();
        proof {
            assert forall|k: int| 0 <= k < n implies (#[trigger] self.group.children@[k])
                .stopped_at is None by {
                assert(old(self).nodes@[k].sup.state is Running);
                assert(old(self).nodes@[k].wf());
                assert(old(self).group.children@[k].stopped_at == old(
                    self,
                ).nodes@[k].sup.stopped_at);
            }
        }
        for i in 0..n
            invariant
                n == self.nodes@.len(),
                n == old(self).nodes@.len(),
                n == self.group.children@.len(),
                n == names.len(),
                n > 0,
                self.group.names@ == names,
                self.group.names == old(self).group.names,
                self.group.wf(),
                self.group.ready_observed,
                i < n ==> self.group.state is Cancelling,
                i == n ==> self.group.state is Grace,
                self.group.stopped_at is None,
                forall|k: int|
                    0 <= k < i ==> (#[trigger] self.group.children@[k]).stopped_at == Some(now),
                forall|k: int|
                    i <= k < n ==> (#[trigger] self.group.children@[k]).stopped_at is None,
                forall|k: int| 0 <= k < i ==> (#[trigger] self.nodes@[k]).wf(),
                forall|k: int|
                    0 <= k < i ==> (#[trigger] self.nodes@[k]).sup.state is Stopped
                        && self.nodes@[k].sup.stopped_at == Some(now)
                        && self.nodes@[k].listener.state is Stopped
                        && self.nodes@[k].listener.stopped_at == Some(now),
                forall|k: int|
                    i <= k < n ==> (#[trigger] self.nodes@[k]) == old(self).nodes@[k],
                forall|k: int| i <= k < n ==> (#[trigger] self.nodes@[k]).wf(),
                forall|k: int|
                    i <= k < n ==> (#[trigger] self.nodes@[k]).sup.state is Running
                        && self.nodes@[k].listener.state is Active,
                forall|k: int|
                    0 <= k < n ==> (#[trigger] self.nodes@[k]).sup.name@ == names[k]@,
                forall|k: int|
                    0 <= k < n ==> (#[trigger] self.nodes@[k]).listener.dispatched@ == old(
                        self,
                    ).nodes@[k].listener.dispatched@,
                forall|k: int|
                    0 <= k < n ==> (#[trigger] self.nodes@[k]).time_le(now),
                forall|k: int|
                    0 <= k < i ==> sent_to(
                        self.store.spec_messages(),
                        (#[trigger] names[k])@,
                    ).len() == 0,
                self.store.wf(),
                self.store.spec_agents() == old(self).store.spec_agents(),
                self.registry@ == old(self).registry@,
                self.registry.wf(),
                self.clock == now,
                now == old(self).clock,
                self.sdb == old(self).sdb,
                self.sdb.wf(),
                self.group.ready_observed ==> self.sdb.ready,
        {
            let _c = self.nodes[i].sup.step(SupervisorEvent::ShutdownRequest, now);
            let _t = self.nodes[i].listener.step(ListenerEvent::Cancel, now);
            let name = self.nodes[i].listener.name.clone();
            let ghost pre_messages = self.store.spec_messages();
            let _evs = self.store.delete_to(&name);
            proof {
                assert forall|k: int| 0 <= k < i implies sent_to(
                    self.store.spec_messages(),
                    (#[trigger] names[k])@,
                ).len() == 0 by {
                    lemma_delete_other_mailbox(pre_messages, names[k]@, name@);
                }
                lemma_delete_other_mailbox(pre_messages, name@, name@);
            }
            let _d = self.nodes[i].listener.step(ListenerEvent::TeardownDone, now);
            let _j = self.nodes[i].sup.step(SupervisorEvent::ChildStopped(now), now);
            let _g = self.nodes[i].sup.step(SupervisorEvent::GraceElapsed, now);
            let ghost pre_children = self.group.children@;
            let _r = self.group.step(GroupEvent::ChildStopped(i, now), now);
            proof {
                if i + 1 < n {
                    assert(self.group.children@[i + 1].stopped_at is None);
                    assert(!self.group.all_children_stopped());
                } else {
                    assert forall|k: int| 0 <= k < n implies (#[trigger] self.group.children@[k])
                        .stopped_at is Some by {
                        assert(k <= i);
                        if k < i {
                            assert(pre_children[k].stopped_at == Some(now));
                        }
                    }
                    assert(self.group.all_children_stopped());
                }
            }
        }
        let _s = self.group.step(GroupEvent::GraceElapsed, now);
    }
}

/// Shutdown ordering through the whole tree, as one statement: in a well
/// formed system whose group has stopped, every branch stopped bottom-up —
/// the listener's stop at or before its supervisor's, and the supervisor's
/// at or before the group's.
pub proof fn lemma_tree_stops_bottom_up(s: System)
    requires
        s.wf(),
        s.group.state is Stopped,
    ensures
        forall|k: int|
            0 <= k < s.nodes@.len() ==> (#[trigger] s.nodes@[k]).listener.stopped_at is Some
                && s.nodes@[k].sup.stopped_at is Some
                && s.nodes@[k].listener.stopped_at->0 <= s.nodes@[k].sup.stopped_at->0
                && s.nodes@[k].sup.stopped_at->0 <= s.group.stopped_at->0,
{
    assert forall|k: int| 0 <= k < s.nodes@.len() implies (#[trigger] s.nodes@[k])
        .listener.stopped_at is Some && s.nodes@[k].sup.stopped_at is Some && s.nodes@[k]
        .listener.stopped_at->0 <= s.nodes@[k].sup.stopped_at->0 && s.nodes@[k].sup.stopped_at->0
        <= s.group.stopped_at->0 by {
        assert(s.group.children@[k].stopped_at is Some && s.group.children@[k].stopped_at->0
            <= s.group.stopped_at->0);
        assert(s.nodes@[k].sup.stopped_at == s.group.children@[k].stopped_at);
        assert(s.nodes@[k].sup.state is Stopped);
        lemma_node_stops_bottom_up(s.nodes@[k]);
    }
}

} // verus!
