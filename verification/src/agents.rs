//! The agent group supervisor: waits (bounded) for the store readiness
//! signal, then starts one per-agent supervisor per configured name, tracks
//! the children, and on shutdown joins every child before reporting its own
//! completion.
//!
//! Readiness gating: the group never issues a store query — and in
//! particular never starts an agent, whose first act is a create-or-upsert
//! query — before it has observed the readiness signal as true. If the
//! signal does not arrive within the configured timeout, the group fails
//! without starting any agent.

use vstd::prelude::*;

verus! {

/// A handle to one started per-agent supervisor.
pub struct ChildHandle {
    /// The agent name the child supervises.
    pub name: String,
    /// When the child reported stopped, once it has.
    pub stopped_at: Option<u64>,
}

/// The group supervisor's lifecycle state.
#[derive(Clone, Copy, Debug, PartialEq, Eq, Structural)]
pub enum GroupState {
    /// Waiting, bounded by a timeout, for the store readiness signal.
    WaitingReady,
    /// All children started; waiting for a shutdown request.
    Running,
    /// Shutdown requested; cancellation signalled; joining children.
    Cancelling,
    /// All children confirmed stopped; grace interval running.
    Grace,
    /// Terminal: completion reported.
    Stopped,
    /// Terminal: the readiness signal did not arrive in time; no agent was
    /// started.
    Failed,
}

/// What the environment can hand the group supervisor.
pub enum GroupEvent {
    /// The readiness signal has been observed as true.
    ReadyObserved,
    /// The bounded wait for readiness ran out.
    ReadyTimeout,
    /// The parent requests shutdown.
    ShutdownRequest,
    /// The child with the given index reported stopped at the given time.
    ChildStopped(usize, u64),
    /// The grace interval has elapsed.
    GraceElapsed,
}

/// What the group supervisor asks its environment to do next.
pub enum GroupAction {
    /// Keep waiting for readiness or the timeout.
    AwaitReady,
    /// Start one per-agent supervisor per configured name, in order. Only
    /// this action leads to store queries being issued.
    StartAgents,
    /// Signal cancellation to every child and join them.
    CancelChildren,
    /// Keep joining the remaining children.
    AwaitChildren,
    /// Sleep for the grace interval.
    Sleep,
    /// Tell the parent that the group has fully stopped.
    ReportStopped,
    /// Tell the parent that readiness timed out; fatal for the group.
    ReportTimeout,
    /// Nothing to do for this event in this state.
    Ignore,
}

/// The agent group supervisor.
pub struct GroupSupervisor {
    /// The configured agent names, in start order.
    pub names: Vec<String>,
    pub state: GroupState,
    /// Whether the readiness signal has been observed as true. Level
    /// triggered: once observed, it never reverts.
    pub ready_observed: bool,
    /// One handle per started child, in start order.
    pub children: Vec<ChildHandle>,
    /// When the group reported stopped, once it has.
    pub stopped_at: Option<u64>,
}

impl GroupSupervisor {
    /// Every recorded child stop time lies at or before `t`.
    pub open spec fn children_stopped_by(&self, t: u64) -> bool {
        forall|k: int|
            0 <= k < self.children@.len() ==> (#[trigger] self.children@[k]).stopped_at is Some
                && self.children@[k].stopped_at->0 <= t
    }

    /// All children have reported stopped.
    pub open spec fn all_children_stopped(&self) -> bool {
        forall|k: int|
            0 <= k < self.children@.len() ==> (#[trigger] self.children@[k]).stopped_at is Some
    }

    /// The group's invariant.
    ///
    /// Readiness gating: children exist only once readiness was observed,
    /// so no store query is ever issued against an unready store. A failed
    /// group started zero agents. Shutdown completion is bottom-up: the
    /// group records its stop only at or after every child's.
    pub open spec fn wf(&self) -> bool {
        &&& (self.children@.len() > 0 ==> self.ready_observed)
        &&& (self.state is WaitingReady ==> self.children@.len() == 0 && !self.ready_observed)
        &&& (self.state is Failed ==> self.children@.len() == 0)
        &&& (self.state is Running || self.state is Cancelling || self.state is Grace
            || self.state is Stopped ==> self.ready_observed && self.children@.len()
            == self.names@.len())
        &&& (self.state is Grace || self.state is Stopped ==> self.all_children_stopped())
        &&& (self.state is Stopped <==> self.stopped_at is Some)
        &&& (self.state is Stopped ==> self.children_stopped_by(self.stopped_at->0))
        &&& (forall|k: int|
            0 <= k < self.children@.len() ==> (#[trigger] self.children@[k]).name@
                == self.names@[k]@)
    }

    /// All recorded times lie at or before `now`.
    pub open spec fn time_le(&self, now: u64) -> bool {
        &&& (self.stopped_at matches Some(t) ==> t <= now)
        &&& (forall|k: int|
            0 <= k < self.children@.len() ==> ((#[trigger] self.children@[k]).stopped_at
                matches Some(s) ==> s <= now))
    }

    pub fn new(names: Vec<String>) -> (g: GroupSupervisor)
        ensures
            g.names == names,
            g.state is WaitingReady,
            !g.ready_observed,
            g.children@.len() == 0,
            g.stopped_at is None,
            g.wf(),
    {
        GroupSupervisor {
            names,
            state: GroupState::WaitingReady,
            ready_observed: false,
            children: Vec::new(),
            stopped_at: None,
        }
    }

    /// One step of the group supervisor. `now` is the current reading of
    /// the process clock, which never runs backwards.
    pub fn step(&mut self, ev: GroupEvent, now: u64) -> (a: GroupAction)
        requires
            old(self).wf(),
            !(old(self).state is Stopped),
            !(old(self).state is Failed),
            old(self).time_le(now),
            // The clock is monotone: a child's reported stop lies in the past.
            ev matches GroupEvent::ChildStopped(i, t) ==> t <= now,
            // A join report names a started child.
            ev matches GroupEvent::ChildStopped(i, t) ==> i < old(self).children@.len(),
        ensures
            final(self).wf(),
            final(self).time_le(now),
            final(self).names == old(self).names,
            // The readiness observation is level triggered: it never
            // reverts.
            old(self).ready_observed ==> final(self).ready_observed,
            // Agents are started only under an observed readiness signal.
            a is StartAgents ==> final(self).ready_observed,
            // Readiness observed: start every configured agent, in order.
            old(self).state is WaitingReady && ev is ReadyObserved
                ==> final(self).state is Running && final(self).ready_observed
                && final(self).children@.len() == old(self).names@.len() && (forall|k: int|
                0 <= k < final(self).children@.len() ==> (#[trigger] final(self).children@[k])
                    .stopped_at is None) && a is StartAgents,
            // Readiness timeout: fail without starting any agent.
            old(self).state is WaitingReady && ev is ReadyTimeout ==> final(self).state is Failed
                && final(self).children@.len() == 0 && !final(self).ready_observed
                && a is ReportTimeout,
            // Shutdown is propagated to all children first.
            old(self).state is Running && ev is ShutdownRequest
                ==> final(self).state is Cancelling && final(self).children == old(self).children
                && a is CancelChildren,
            // Each join is recorded; the last one ends the cancelling phase.
            old(self).state is Cancelling && ev is ChildStopped ==> final(self).children@ == old(
                self,
            ).children@.update(
                ev->ChildStopped_0 as int,
                ChildHandle {
                    name: old(self).children@[ev->ChildStopped_0 as int].name,
                    stopped_at: Some(ev->ChildStopped_1),
                },
            ) && (final(self).all_children_stopped() ==> final(self).state is Grace
                && a is Sleep) && (!final(self).all_children_stopped()
                ==> final(self).state is Cancelling && a is AwaitChildren),
            // Only after the grace interval does the group itself stop, at a
            // time no earlier than every child's stop.
            old(self).state is Grace && ev is GraceElapsed ==> final(self).state is Stopped
                && final(self).stopped_at == Some(now)
                && final(self).children == old(self).children && a is ReportStopped,
            // Waiting is otherwise uneventful.
            old(self).state is WaitingReady && !(ev is ReadyObserved) && !(ev is ReadyTimeout)
                ==> *final(self) == *old(self) && a is AwaitReady,
            // Any other event is out of place in its state and is ignored.
            a is Ignore ==> *final(self) == *old(self),
            old(self).state is Running && !(ev is ShutdownRequest) ==> a is Ignore,
            old(self).state is Cancelling && !(ev is ChildStopped) ==> a is Ignore,
            old(self).state is Grace && !(ev is GraceElapsed) ==> a is Ignore,
    {
        match (self.state, ev) {
            (GroupState::WaitingReady, GroupEvent::ReadyObserved) => {
                self.ready_observed = true;
                self.state = GroupState::Running;
                let n = self.names.len();
                let mut children: Vec<ChildHandle> = Vec::new();
                for i in 0..n
                    invariant
                        n == self.names@.len(),
                        children@.len() == i,
                        forall|k: int|
                            0 <= k < i ==> (#[trigger] children@[k]).name@ == self.names@[k]@
                                && children@[k].stopped_at is None,
                {
                    children.push(
                        ChildHandle { name: self.names[i].clone(), stopped_at: None },
                    );
                }
                self.children = children;
                GroupAction::StartAgents
            },
            (GroupState::WaitingReady, GroupEvent::ReadyTimeout) => {
                self.state = GroupState::Failed;
                GroupAction::ReportTimeout
            },
            (GroupState::WaitingReady, _) => GroupAction::AwaitReady,
            (GroupState::Running, GroupEvent::ShutdownRequest) => {
                self.state = GroupState::Cancelling;
                GroupAction::CancelChildren
            },
            (GroupState::Cancelling, GroupEvent::ChildStopped(i, t)) => {
                self.children[i].stopped_at = Some(t);
                if self.joined_count() == self.children.len() {
                    self.state = GroupState::Grace;
                    GroupAction::Sleep
                } else {
                    GroupAction::AwaitChildren
                }
            },
            (GroupState::Grace, GroupEvent::GraceElapsed) => {
                self.state = GroupState::Stopped;
                self.stopped_at = Some(now);
                GroupAction::ReportStopped
            },
            _ => GroupAction::Ignore,
        }
    }

    /// How many children have reported stopped.
    pub fn joined_count(&self) -> (n: usize)
        ensures
            n <= self.children@.len(),
            n == self.children@.len() <==> self.all_children_stopped(),
    {
        let mut n: usize = 0;
        let len = self.children.len();
        for i in 0..len
            invariant
                len == self.children@.len(),
                n <= i,
                n == i <==> (forall|k: int|
                    0 <= k < i ==> (#[trigger] self.children@[k]).stopped_at is Some),
        {
            match self.children[i].stopped_at {
                Some(_) => {
                    if n == i {
                        n = n + 1;
                    }
                },
                None => {},
            }
        }
        n
    }
}

/// Readiness gating as a standalone statement: in any reachable group state,
/// if any agent has been started — and hence any store query issued on the
/// agents' behalf — the readiness signal was observed as true first.
pub proof fn lemma_readiness_gates_queries(g: GroupSupervisor)
    requires
        g.wf(),
        g.children@.len() > 0,
    ensures
        g.ready_observed,
{
}

/// Shutdown ordering for the group and its children: once the group has
/// stopped, every started child stopped too, at a time at or before the
/// group's own stop time.
pub proof fn lemma_children_stop_first(g: GroupSupervisor)
    requires
        g.wf(),
        g.state is Stopped,
    ensures
        g.stopped_at is Some,
        forall|k: int|
            0 <= k < g.children@.len() ==> (#[trigger] g.children@[k]).stopped_at is Some
                && g.children@[k].stopped_at->0 <= g.stopped_at->0,
{
}

} // verus!
