//! The store connection manager: it owns the single shared connection for
//! the process lifetime and the level-triggered readiness signal that
//! downstream components await before issuing queries.

use vstd::prelude::*;

use crate::settings::Settings;

verus! {

/// The connection manager's observable state: whether the one shared
/// connection stands, and whether the readiness signal has been raised.
pub struct SurrealDBWrapper {
    pub connected: bool,
    pub ready: bool,
}

impl SurrealDBWrapper {
    /// Readiness is signalled only once the connection stands.
    pub open spec fn wf(&self) -> bool {
        self.ready ==> self.connected
    }

    pub fn new() -> (w: SurrealDBWrapper)
        ensures
            !w.connected,
            !w.ready,
            w.wf(),
    {
        SurrealDBWrapper { connected: false, ready: false }
    }

    /// The lazy, memoized connect decision: an attempt is made only while no
    /// connection exists, so concurrent callers all end up sharing the one
    /// connection once the first attempt completes.
    pub fn needs_connect(&self) -> (b: bool)
        ensures
            b == !self.connected,
    {
        !self.connected
    }

    /// Record that the single shared connection has been established.
    pub fn mark_connected(&mut self)
        requires
            old(self).wf(),
        ensures
            final(self).connected,
            final(self).ready == old(self).ready,
            final(self).wf(),
    {
        self.connected = true;
    }

    /// Raise the readiness signal. Called once, after the connection stands
    /// and — for a locally managed store — after the health probe passed.
    /// Level triggered: once true it stays true for the process lifetime.
    pub fn set_ready(&mut self)
        requires
            old(self).wf(),
            old(self).connected,
        ensures
            final(self).ready,
            final(self).connected,
            final(self).wf(),
    {
        self.ready = true;
    }

    /// Observe the readiness signal. Any number of waiters may poll; a late
    /// subscriber sees the current value immediately, not only future
    /// transitions.
    pub fn is_ready(&self) -> (b: bool)
        ensures
            b == self.ready,
    {
        self.ready
    }
}

/// The outcome of one round of the bounded wait for readiness.
#[derive(Clone, Copy, Debug, PartialEq, Eq, Structural)]
pub enum ReadyWait {
    /// The signal is true: dependent components may proceed.
    Proceed,
    /// Not ready yet and time remains: poll again.
    KeepWaiting,
    /// The wait ran out without the signal turning true: fatal for the
    /// waiter, which must not start against an unready store.
    TimedOut,
}

/// The decision of one round of the bounded readiness wait: proceed exactly
/// when the signal is true; time out exactly when it is not and the waited
/// time has reached the bound.
pub fn readiness_decision(ready: bool, waited: u64, timeout: u64) -> (d: ReadyWait)
    ensures
        ready ==> d is Proceed,
        !ready && waited < timeout ==> d is KeepWaiting,
        !ready && waited >= timeout ==> d is TimedOut,
{
    if ready {
        ReadyWait::Proceed
    } else if waited < timeout {
        ReadyWait::KeepWaiting
    } else {
        ReadyWait::TimedOut
    }
}

/// Whether a locally managed store instance must be started and probed
/// before the connection is established.
pub fn use_local_container(s: &Settings) -> (b: bool)
    ensures
        b == (s.environment@ != "production"@),
{
    !s.is_production()
}

} // verus!
