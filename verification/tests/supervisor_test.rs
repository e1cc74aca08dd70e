use surrealdb_live_message::agents::{GroupAction, GroupEvent, GroupState, GroupSupervisor};
use surrealdb_live_message::sdb::{readiness_decision, ReadyWait, SurrealDBWrapper};
use surrealdb_live_message::sdb_server::{HealthProbe, ProbeDecision, ProbeResult};
use surrealdb_live_message::supervisor::{
    AgentSubsystem, SupervisorAction, SupervisorEvent, SupervisorState,
};

#[test]
fn supervisor_stops_only_after_its_child() {
    let mut s = AgentSubsystem::new(String::from("alice"));
    assert!(matches!(s.step(SupervisorEvent::Started, 0), SupervisorAction::StartChild));
    assert_eq!(s.state, SupervisorState::Running);
    assert!(matches!(
        s.step(SupervisorEvent::ShutdownRequest, 5),
        SupervisorAction::CancelChild
    ));
    assert!(matches!(s.step(SupervisorEvent::ChildStopped(6), 6), SupervisorAction::Sleep));
    assert!(matches!(
        s.step(SupervisorEvent::GraceElapsed, 8),
        SupervisorAction::ReportStopped
    ));
    assert_eq!(s.state, SupervisorState::Stopped);
    assert_eq!(s.child_stopped_at, Some(6));
    assert_eq!(s.stopped_at, Some(8));
    assert!(s.child_stopped_at.unwrap() <= s.stopped_at.unwrap());
}

#[test]
fn group_starts_agents_only_after_readiness() {
    let names = vec![String::from("alice"), String::from("bob")];
    let mut g = GroupSupervisor::new(names);
    assert_eq!(g.state, GroupState::WaitingReady);
    assert!(!g.ready_observed);
    assert_eq!(g.children.len(), 0);
    let a = g.step(GroupEvent::ReadyObserved, 1);
    assert!(matches!(a, GroupAction::StartAgents));
    assert!(g.ready_observed);
    assert_eq!(g.state, GroupState::Running);
    assert_eq!(g.children.len(), 2);
    assert_eq!(g.children[0].name, "alice");
    assert_eq!(g.children[1].name, "bob");
}

#[test]
fn group_times_out_with_zero_agents_started() {
    let names = vec![String::from("alice"), String::from("bob")];
    let mut g = GroupSupervisor::new(names);
    let a = g.step(GroupEvent::ReadyTimeout, 30);
    assert!(matches!(a, GroupAction::ReportTimeout));
    assert_eq!(g.state, GroupState::Failed);
    assert!(!g.ready_observed);
    assert_eq!(g.children.len(), 0);
}

#[test]
fn group_joins_every_child_before_stopping() {
    let names = vec![String::from("alice"), String::from("bob")];
    let mut g = GroupSupervisor::new(names);
    g.step(GroupEvent::ReadyObserved, 1);
    assert!(matches!(g.step(GroupEvent::ShutdownRequest, 2), GroupAction::CancelChildren));
    assert_eq!(g.state, GroupState::Cancelling);
    assert!(matches!(g.step(GroupEvent::ChildStopped(0, 3), 3), GroupAction::AwaitChildren));
    assert_eq!(g.state, GroupState::Cancelling);
    assert!(matches!(g.step(GroupEvent::ChildStopped(1, 4), 4), GroupAction::Sleep));
    assert_eq!(g.state, GroupState::Grace);
    assert!(matches!(g.step(GroupEvent::GraceElapsed, 6), GroupAction::ReportStopped));
    assert_eq!(g.state, GroupState::Stopped);
    assert_eq!(g.stopped_at, Some(6));
    assert_eq!(g.children[0].stopped_at, Some(3));
    assert_eq!(g.children[1].stopped_at, Some(4));
    assert!(g.children.iter().all(|c| c.stopped_at.unwrap() <= g.stopped_at.unwrap()));
}

#[test]
fn readiness_signal_is_level_triggered() {
    let mut w = SurrealDBWrapper::new();
    assert!(w.needs_connect());
    assert!(!w.is_ready());
    w.mark_connected();
    assert!(!w.needs_connect());
    assert!(!w.is_ready());
    w.set_ready();
    assert!(w.is_ready());
    // A late observer still sees the value; further transitions keep it.
    w.mark_connected();
    assert!(w.is_ready());
    w.set_ready();
    assert!(w.is_ready());
}

#[test]
fn readiness_wait_decisions() {
    assert_eq!(readiness_decision(true, 0, 30), ReadyWait::Proceed);
    assert_eq!(readiness_decision(true, 31, 30), ReadyWait::Proceed);
    assert_eq!(readiness_decision(false, 29, 30), ReadyWait::KeepWaiting);
    assert_eq!(readiness_decision(false, 30, 30), ReadyWait::TimedOut);
    assert_eq!(readiness_decision(false, 31, 30), ReadyWait::TimedOut);
}

#[test]
fn health_probe_reports_ready_on_first_success() {
    let mut p = HealthProbe::new(25);
    assert_eq!(p.step(ProbeResult::Failure), ProbeDecision::RetryAfterDelay);
    assert_eq!(p.step(ProbeResult::Failure), ProbeDecision::RetryAfterDelay);
    assert_eq!(p.step(ProbeResult::Success), ProbeDecision::Ready);
    assert!(p.succeeded);
    assert_eq!(p.attempts_left, 23);
}

#[test]
fn health_probe_gives_up_when_the_budget_is_spent() {
    let mut p = HealthProbe::new(3);
    assert_eq!(p.step(ProbeResult::Failure), ProbeDecision::RetryAfterDelay);
    assert_eq!(p.step(ProbeResult::Failure), ProbeDecision::RetryAfterDelay);
    assert_eq!(p.step(ProbeResult::Failure), ProbeDecision::GiveUp);
    assert!(!p.succeeded);
    assert_eq!(p.attempts_left, 0);
}
