use teaops_agentd::supervisor::{Action, Event, Phase, Supervisor};

#[test]
fn second_supervisor_exits() {
    let (mut s, first) = Supervisor::new(3, 2);
    assert_eq!(first, Action::TryLock);
    assert_eq!(s.step(Event::LockBusy), Action::Exit { failed: false });
    assert_eq!(s.phase, Phase::Done);
    assert_eq!(s.step(Event::LockAcquired), Action::Ignore);
}

#[test]
fn lock_error_fails() {
    let (mut s, _) = Supervisor::new(3, 2);
    assert_eq!(s.step(Event::LockFailed), Action::Exit { failed: true });
}

#[test]
fn fresh_start_spawns_agent() {
    let (mut s, _) = Supervisor::new(3, 2);
    assert_eq!(s.step(Event::LockAcquired), Action::Prepare { heartbeat_interval_secs: 3 });
    assert_eq!(s.step(Event::Prepared), Action::CheckAgent);
    assert_eq!(s.step(Event::AgentAbsent), Action::EnsureBinary);
    assert_eq!(s.step(Event::BinaryReady), Action::SpawnAgent);
    assert_eq!(s.step(Event::SpawnSucceeded), Action::WatchChild);
    assert_eq!(s.phase, Phase::Running);
}

#[test]
fn live_agent_adopted_then_replaced() {
    let (mut s, _) = Supervisor::new(0, 2);
    assert_eq!(s.step(Event::LockAcquired), Action::Prepare { heartbeat_interval_secs: 1 });
    s.step(Event::Prepared);
    assert_eq!(s.step(Event::AgentAlive), Action::WatchAdopted { poll_interval_secs: 1 });
    assert_eq!(s.step(Event::AdoptedAgentGone), Action::EnsureBinary);
}

#[test]
fn shutdown_while_adopting_exits() {
    let (mut s, _) = Supervisor::new(3, 2);
    s.step(Event::LockAcquired);
    s.step(Event::Prepared);
    s.step(Event::AgentAlive);
    assert_eq!(s.step(Event::ShutdownSignal), Action::Exit { failed: false });
}

#[test]
fn child_exit_respawns_after_backoff() {
    let (mut s, _) = Supervisor::new(3, 0);
    s.step(Event::LockAcquired);
    s.step(Event::Prepared);
    s.step(Event::AgentAbsent);
    s.step(Event::BinaryReady);
    s.step(Event::SpawnSucceeded);
    // the plain backoff, which may be zero, after an exit
    assert_eq!(s.step(Event::ChildExited), Action::Sleep { secs: 0 });
    assert_eq!(s.step(Event::BackoffElapsed), Action::EnsureBinary);
    assert_eq!(s.step(Event::BinaryReady), Action::SpawnAgent);
}

#[test]
fn failures_back_off_at_least_a_second() {
    let (mut s, _) = Supervisor::new(3, 0);
    s.step(Event::LockAcquired);
    s.step(Event::Prepared);
    s.step(Event::AgentAbsent);
    assert_eq!(s.step(Event::BinaryUnavailable), Action::Sleep { secs: 1 });
    assert_eq!(s.step(Event::BackoffElapsed), Action::EnsureBinary);
    s.step(Event::BinaryReady);
    assert_eq!(s.step(Event::SpawnFailed), Action::Sleep { secs: 1 });
    let (mut t, _) = Supervisor::new(3, 7);
    t.step(Event::LockAcquired);
    t.step(Event::Prepared);
    t.step(Event::AgentAbsent);
    assert_eq!(t.step(Event::BinaryUnavailable), Action::Sleep { secs: 7 });
}

#[test]
fn shutdown_stops_owned_child() {
    let (mut s, _) = Supervisor::new(3, 2);
    s.step(Event::LockAcquired);
    s.step(Event::Prepared);
    s.step(Event::AgentAbsent);
    s.step(Event::BinaryReady);
    s.step(Event::SpawnSucceeded);
    assert_eq!(s.step(Event::ShutdownSignal), Action::StopChild);
    assert_eq!(s.step(Event::ChildStopped), Action::Exit { failed: false });
    assert_eq!(s.phase, Phase::Done);
}

#[test]
fn prepare_failure_exits_with_error() {
    let (mut s, _) = Supervisor::new(3, 2);
    s.step(Event::LockAcquired);
    assert_eq!(s.step(Event::PrepareFailed), Action::Exit { failed: true });
}

#[test]
fn unexpected_events_ignored() {
    let (mut s, _) = Supervisor::new(3, 2);
    assert_eq!(s.step(Event::ShutdownSignal), Action::Ignore);
    assert_eq!(s.phase, Phase::Locking);
}
