//! The per-agent supervisor: creates the agent record, starts the feed
//! listener as a supervised child, waits for a shutdown request, and on
//! shutdown cancels the child, joins it, waits a short grace interval, and
//! only then reports its own completion. A supervisor never reports stopped
//! while its child is still active.

use vstd::prelude::*;

verus! {

/// The supervisor's lifecycle state.
#[derive(Clone, Copy, Debug, PartialEq, Eq, Structural)]
pub enum SupervisorState {
    /// Created, child not yet started.
    Init,
    /// Child listener running; waiting for a shutdown request.
    Running,
    /// Shutdown requested; cancellation signalled to the child.
    Cancelling,
    /// Child confirmed stopped; grace interval running.
    Grace,
    /// Terminal: completion reported.
    Stopped,
}

/// What the environment can hand the supervisor.
pub enum SupervisorEvent {
    /// The subsystem has been started by its parent.
    Started,
    /// The parent requests shutdown.
    ShutdownRequest,
    /// The child listener reported stopped at the given time.
    ChildStopped(u64),
    /// The grace interval has elapsed.
    GraceElapsed,
}

/// What the supervisor asks its environment to do next.
pub enum SupervisorAction {
    /// Create-or-upsert the agent record, append it to the registry, and
    /// start the feed listener as a supervised child.
    StartChild,
    /// Signal cancellation to the child listener.
    CancelChild,
    /// Sleep for the grace interval.
    Sleep,
    /// Tell the parent that this supervisor has fully stopped.
    ReportStopped,
    /// Nothing to do for this event in this state.
    Ignore,
}

/// The per-agent supervisor. In the running tree this is the subsystem that
/// owns one agent and its listener.
pub struct AgentSubsystem {
    /// The identity of the agent this subsystem supervises.
    pub name: String,
    pub state: SupervisorState,
    /// When the child listener reported stopped, once it has.
    pub child_stopped_at: Option<u64>,
    /// When this supervisor reported stopped, once it has.
    pub stopped_at: Option<u64>,
}

impl AgentSubsystem {
    /// Shutdown completion is bottom-up: the supervisor records its own stop
    /// time only after its child's, and the child's stop time never exceeds
    /// its own.
    pub open spec fn wf(&self) -> bool {
        &&& (self.state is Grace || self.state is Stopped <==> self.child_stopped_at is Some)
        &&& (self.state is Stopped <==> self.stopped_at is Some)
        &&& (self.state is Stopped ==> self.child_stopped_at->0 <= self.stopped_at->0)
    }

    /// All recorded times lie at or before `now`.
    pub open spec fn time_le(&self, now: u64) -> bool {
        &&& (self.child_stopped_at matches Some(t) ==> t <= now)
        &&& (self.stopped_at matches Some(t) ==> t <= now)
    }

    pub fn new(name: String) -> (s: AgentSubsystem)
        ensures
            s.name == name,
            s.state is Init,
            s.child_stopped_at is None,
            s.stopped_at is None,
            s.wf(),
    {
        AgentSubsystem {
            name,
            state: SupervisorState::Init,
            child_stopped_at: None,
            stopped_at: None,
        }
    }

    /// One step of the supervisor. `now` is the current reading of the
    /// process clock, which never runs backwards.
    pub fn step(&mut self, ev: SupervisorEvent, now: u64) -> (a: SupervisorAction)
        requires
            old(self).wf(),
            !(old(self).state is Stopped),
            old(self).time_le(now),
            // The clock is monotone: a child's reported stop lies in the past.
            ev matches SupervisorEvent::ChildStopped(t) ==> t <= now,
        ensures
            final(self).wf(),
            final(self).time_le(now),
            final(self).name == old(self).name,
            // Start: create the agent and start the listener.
            old(self).state is Init && ev is Started ==> final(self).state is Running
                && a is StartChild,
            // Shutdown is propagated to the child first.
            old(self).state is Running && ev is ShutdownRequest
                ==> final(self).state is Cancelling && a is CancelChild,
            // The child's stop is recorded; then the grace interval runs.
            old(self).state is Cancelling && ev is ChildStopped ==> final(self).state is Grace
                && final(self).child_stopped_at == Some(ev->ChildStopped_0) && a is Sleep,
            // Only after the grace interval does the supervisor itself stop,
            // at a time no earlier than its child's stop.
            old(self).state is Grace && ev is GraceElapsed ==> final(self).state is Stopped
                && final(self).stopped_at == Some(now)
                && final(self).child_stopped_at == old(self).child_stopped_at
                && a is ReportStopped,
            // Any other event is out of place in its state and is ignored.
            a is Ignore ==> *final(self) == *old(self),
            old(self).state is Init && !(ev is Started) ==> a is Ignore,
            old(self).state is Running && !(ev is ShutdownRequest) ==> a is Ignore,
            old(self).state is Cancelling && !(ev is ChildStopped) ==> a is Ignore,
            old(self).state is Grace && !(ev is GraceElapsed) ==> a is Ignore,
    {
        match (self.state, ev) {
            (SupervisorState::Init, SupervisorEvent::Started) => {
                self.state = SupervisorState::Running;
                SupervisorAction::StartChild
            },
            (SupervisorState::Running, SupervisorEvent::ShutdownRequest) => {
                self.state = SupervisorState::Cancelling;
                SupervisorAction::CancelChild
            },
            (SupervisorState::Cancelling, SupervisorEvent::ChildStopped(t)) => {
                self.state = SupervisorState::Grace;
                self.child_stopped_at = Some(t);
                SupervisorAction::Sleep
            },
            (SupervisorState::Grace, SupervisorEvent::GraceElapsed) => {
                self.state = SupervisorState::Stopped;
                self.stopped_at = Some(now);
                SupervisorAction::ReportStopped
            },
            _ => SupervisorAction::Ignore,
        }
    }
}

/// Shutdown ordering for one parent/child pair: once the supervisor has
/// stopped, its child stopped too, and the child's stop time is at or before
/// the supervisor's.
pub proof fn lemma_child_stops_first(s: AgentSubsystem)
    requires
        s.wf(),
        s.state is Stopped,
    ensures
        s.child_stopped_at is Some,
        s.stopped_at is Some,
        s.child_stopped_at->0 <= s.stopped_at->0,
{
}

} // verus!
