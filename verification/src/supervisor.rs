//! The supervisor's decisions, as a machine from phase and event to the next
//! phase and action. The caller performs each action (locking, spawning,
//! sleeping, waiting for signals) and reports what came of it.
//!
//! Safe supervision: a per-role lock keeps a second supervisor from running;
//! at startup a live agent is adopted (monitored only) instead of spawning a
//! second one; once the supervisor owns the agent, its exit always leads to a
//! respawn after the restart backoff, never to another adoption check.
use vstd::prelude::*;

verus! {

/// Where the supervisor stands.
#[derive(Debug, Clone, Copy, PartialEq, Eq)]
pub enum Phase {
    /// Trying to take the supervisor's single-instance lock.
    Locking,
    /// Lock held: writing the pid and heartbeat files, starting the heartbeat
    /// task and the shutdown-signal listener.
    Preparing,
    /// Looking for an agent that is already running.
    CheckingAgent,
    /// Monitoring an adopted agent until it dies.
    Adopting,
    /// No managed agent: making sure the agent binary exists.
    EnsuringBinary,
    /// Launching the agent.
    Spawning,
    /// The managed agent runs; waiting for it to exit or for a shutdown signal.
    Running,
    /// Waiting before the next launch attempt.
    BackingOff,
    /// Shutting down: stopping the managed agent.
    Stopping,
    /// Finished.
    Done,
}

/// What the caller reports back after doing the last action.
#[derive(Debug, Clone, Copy, PartialEq, Eq)]
pub enum Event {
    /// The lock was taken.
    LockAcquired,
    /// Another supervisor holds the lock.
    LockBusy,
    /// The lock file could not be opened.
    LockFailed,
    /// Pid and heartbeat written, heartbeat task and signal listener running.
    Prepared,
    /// Writing the files or installing the signal handlers failed.
    PrepareFailed,
    /// An agent is alive (its pid runs or its heartbeat is fresh).
    AgentAlive,
    /// No live agent was found.
    AgentAbsent,
    /// The adopted agent is no longer alive.
    AdoptedAgentGone,
    /// The agent binary is in place.
    BinaryReady,
    /// The agent binary could not be acquired.
    BinaryUnavailable,
    /// The agent process started.
    SpawnSucceeded,
    /// The agent process could not be started.
    SpawnFailed,
    /// The managed agent exited (or waiting on it failed).
    ChildExited,
    /// SIGTERM or SIGINT arrived.
    ShutdownSignal,
    /// The backoff sleep is over.
    BackoffElapsed,
    /// The managed agent was killed and reaped.
    ChildStopped,
}

/// What the caller does next.
#[derive(Debug, Clone, Copy, PartialEq, Eq)]
pub enum Action {
    /// Take the supervisor's lock without blocking.
    TryLock,
    /// Write pid and heartbeat files, start rewriting the heartbeat every
    /// `heartbeat_interval_secs` seconds, and start listening for signals.
    Prepare { heartbeat_interval_secs: u64 },
    /// Check whether an agent is already alive.
    CheckAgent,
    /// Every `poll_interval_secs` seconds check whether the adopted agent is
    /// still alive, while listening for a shutdown signal.
    WatchAdopted { poll_interval_secs: u64 },
    /// Make sure the agent binary exists, fetching it if missing.
    EnsureBinary,
    /// Start the agent as a child process.
    SpawnAgent,
    /// Wait for the child to exit or for a shutdown signal.
    WatchChild,
    /// Sleep `secs` seconds.
    Sleep { secs: u64 },
    /// Kill the child and wait for it.
    StopChild,
    /// End the supervisor, with an error or not.
    Exit { failed: bool },
    /// The event does not belong to this phase; nothing changes.
    Ignore,
}

/// The intervals that the decisions use.
#[derive(Debug, Clone, Copy, PartialEq, Eq)]
pub struct Timing {
    /// How often the agent is checked (seconds).
    pub supervise_interval_secs: u64,
    /// Delay between agent restarts (seconds).
    pub restart_backoff_secs: u64,
}

pub open spec fn at_least_one(x: u64) -> u64 {
    if x >= 1 {
        x
    } else {
        1
    }
}

/// The decision table.
pub open spec fn transition(t: Timing, p: Phase, e: Event) -> (Phase, Action) {
    match (p, e) {
        (Phase::Locking, Event::LockAcquired) => (
            Phase::Preparing,
            Action::Prepare { heartbeat_interval_secs: at_least_one(t.supervise_interval_secs) },
        ),
        (Phase::Locking, Event::LockBusy) => (Phase::Done, Action::Exit { failed: false }),
        (Phase::Locking, Event::LockFailed) => (Phase::Done, Action::Exit { failed: true }),
        (Phase::Preparing, Event::Prepared) => (Phase::CheckingAgent, Action::CheckAgent),
        (Phase::Preparing, Event::PrepareFailed) => (Phase::Done, Action::Exit { failed: true }),
        (Phase::CheckingAgent, Event::AgentAlive) => (
            Phase::Adopting,
            Action::WatchAdopted { poll_interval_secs: at_least_one(t.supervise_interval_secs) },
        ),
        (Phase::CheckingAgent, Event::AgentAbsent) => (Phase::EnsuringBinary, Action::EnsureBinary),
        (Phase::Adopting, Event::AdoptedAgentGone) => (Phase::EnsuringBinary, Action::EnsureBinary),
        (Phase::Adopting, Event::ShutdownSignal) => (Phase::Done, Action::Exit { failed: false }),
        (Phase::EnsuringBinary, Event::BinaryReady) => (Phase::Spawning, Action::SpawnAgent),
        (Phase::EnsuringBinary, Event::BinaryUnavailable) => (
            Phase::BackingOff,
            Action::Sleep { secs: at_least_one(t.restart_backoff_secs) },
        ),
        (Phase::Spawning, Event::SpawnSucceeded) => (Phase::Running, Action::WatchChild),
        (Phase::Spawning, Event::SpawnFailed) => (
            Phase::BackingOff,
            Action::Sleep { secs: at_least_one(t.restart_backoff_secs) },
        ),
        (Phase::Running, Event::ChildExited) => (
            Phase::BackingOff,
            Action::Sleep { secs: t.restart_backoff_secs },
        ),
        (Phase::Running, Event::ShutdownSignal) => (Phase::Stopping, Action::StopChild),
        (Phase::BackingOff, Event::BackoffElapsed) => (Phase::EnsuringBinary, Action::EnsureBinary),
        (Phase::Stopping, Event::ChildStopped) => (Phase::Done, Action::Exit { failed: false }),
        _ => (p, Action::Ignore),
    }
}

/// The supervisor owns a running agent process.
pub open spec fn owns_child(p: Phase) -> bool {
    p == Phase::Running || p == Phase::Stopping
}

/// The startup checks (lock, files, adoption) are behind the supervisor.
pub open spec fn past_startup(p: Phase) -> bool {
    match p {
        Phase::EnsuringBinary | Phase::Spawning | Phase::Running | Phase::BackingOff
        | Phase::Stopping | Phase::Done => true,
        _ => false,
    }
}

/// The supervisor: its timing and where it stands.
pub struct Supervisor {
    pub timing: Timing,
    pub phase: Phase,
}

fn at_least_one_secs(x: u64) -> (r: u64)
    ensures
        r == at_least_one(x),
{
    if x >= 1 {
        x
    } else {
        1
    }
}

impl Supervisor {
    /// A supervisor with the given intervals, and its first action: taking the lock.
    pub fn new(supervise_interval_secs: u64, restart_backoff_secs: u64) -> (r: (Supervisor, Action))
        ensures
            r.0.timing == (Timing { supervise_interval_secs, restart_backoff_secs }),
            r.0.phase == Phase::Locking,
            r.1 == Action::TryLock,
    {
        (
            Supervisor {
                timing: Timing { supervise_interval_secs, restart_backoff_secs },
                phase: Phase::Locking,
            },
            Action::TryLock,
        )
    }

    /// Takes what came of the last action and gives the next action.
    pub fn step(&mut self, event: Event) -> (act: Action)
        ensures
            final(self).timing == old(self).timing,
            (final(self).phase, act) == transition(old(self).timing, old(self).phase, event),
    {
        let backoff = self.timing.restart_backoff_secs;
        let interval = self.timing.supervise_interval_secs;
        let (next, act) = match (self.phase, event) {
            (Phase::Locking, Event::LockAcquired) => (
                Phase::Preparing,
                Action::Prepare { heartbeat_interval_secs: at_least_one_secs(interval) },
            ),
            (Phase::Locking, Event::LockBusy) => (Phase::Done, Action::Exit { failed: false }),
            (Phase::Locking, Event::LockFailed) => (Phase::Done, Action::Exit { failed: true }),
            (Phase::Preparing, Event::Prepared) => (Phase::CheckingAgent, Action::CheckAgent),
            (Phase::Preparing, Event::PrepareFailed) => (Phase::Done, Action::Exit { failed: true }),
            (Phase::CheckingAgent, Event::AgentAlive) => (
                Phase::Adopting,
                Action::WatchAdopted { poll_interval_secs: at_least_one_secs(interval) },
            ),
            (Phase::CheckingAgent, Event::AgentAbsent) => (Phase::EnsuringBinary, Action::EnsureBinary),
            (Phase::Adopting, Event::AdoptedAgentGone) => (Phase::EnsuringBinary, Action::EnsureBinary),
            (Phase::Adopting, Event::ShutdownSignal) => (Phase::Done, Action::Exit { failed: false }),
            (Phase::EnsuringBinary, Event::BinaryReady) => (Phase::Spawning, Action::SpawnAgent),
            (Phase::EnsuringBinary, Event::BinaryUnavailable) => (
                Phase::BackingOff,
                Action::Sleep { secs: at_least_one_secs(backoff) },
            ),
            (Phase::Spawning, Event::SpawnSucceeded) => (Phase::Running, Action::WatchChild),
            (Phase::Spawning, Event::SpawnFailed) => (
                Phase::BackingOff,
                Action::Sleep { secs: at_least_one_secs(backoff) },
            ),
            (Phase::Running, Event::ChildExited) => (Phase::BackingOff, Action::Sleep { secs: backoff }),
            (Phase::Running, Event::ShutdownSignal) => (Phase::Stopping, Action::StopChild),
            (Phase::BackingOff, Event::BackoffElapsed) => (Phase::EnsuringBinary, Action::EnsureBinary),
            (Phase::Stopping, Event::ChildStopped) => (Phase::Done, Action::Exit { failed: false }),
            (p, _) => (p, Action::Ignore),
        };
        self.phase = next;
        act
    }
}

/// The events that can come of performing an action: the outcomes the
/// caller reports back.
pub open spec fn produces(a: Action, e: Event) -> bool {
    match a {
        Action::TryLock => e == Event::LockAcquired || e == Event::LockBusy || e == Event::LockFailed,
        Action::Prepare { .. } => e == Event::Prepared || e == Event::PrepareFailed,
        Action::CheckAgent => e == Event::AgentAlive || e == Event::AgentAbsent,
        Action::WatchAdopted { .. } => e == Event::AdoptedAgentGone || e == Event::ShutdownSignal,
        Action::EnsureBinary => e == Event::BinaryReady || e == Event::BinaryUnavailable,
        Action::SpawnAgent => e == Event::SpawnSucceeded || e == Event::SpawnFailed,
        Action::WatchChild => e == Event::ChildExited || e == Event::ShutdownSignal,
        Action::Sleep { .. } => e == Event::BackoffElapsed,
        Action::StopChild => e == Event::ChildStopped,
        Action::Exit { .. } => false,
        Action::Ignore => false,
    }
}

/// Every outcome of the first action is taken up: no event that taking the
/// lock can give is ignored.
pub proof fn lemma_first_outcomes_handled(t: Timing, e: Event)
    requires
        produces(Action::TryLock, e),
    ensures
        transition(t, Phase::Locking, e).1 != Action::Ignore,
{
}

/// Every outcome of an ordered action is taken up: whatever the caller
/// reports of the action a step gives, the next step does not ignore it.
/// So the supervisor never stalls on a result it asked for.
pub proof fn lemma_outcomes_handled(t: Timing, p: Phase, e: Event, e2: Event)
    requires
        produces(transition(t, p, e).1, e2),
    ensures
        transition(t, transition(t, p, e).0, e2).1 != Action::Ignore,
{
}

/// A binary that cannot be acquired, and an agent that cannot be started,
/// are retried: the supervisor sleeps the restart backoff (at least one
/// second) and then makes sure of the binary again.
pub proof fn lemma_failure_retried(t: Timing)
    ensures
        transition(t, Phase::EnsuringBinary, Event::BinaryUnavailable) == (
            Phase::BackingOff,
            Action::Sleep {
                secs: if t.restart_backoff_secs >= 1 {
                    t.restart_backoff_secs
                } else {
                    1
                },
            },
        ),
        transition(t, Phase::Spawning, Event::SpawnFailed) == (
            Phase::BackingOff,
            Action::Sleep {
                secs: if t.restart_backoff_secs >= 1 {
                    t.restart_backoff_secs
                } else {
                    1
                },
            },
        ),
        transition(t, Phase::BackingOff, Event::BackoffElapsed) == (
            Phase::EnsuringBinary,
            Action::EnsureBinary,
        ),
{
}

/// The phase in which the supervisor waits for the outcome of an action.
pub open spec fn awaiting(a: Action) -> Phase {
    match a {
        Action::TryLock => Phase::Locking,
        Action::Prepare { .. } => Phase::Preparing,
        Action::CheckAgent => Phase::CheckingAgent,
        Action::WatchAdopted { .. } => Phase::Adopting,
        Action::EnsureBinary => Phase::EnsuringBinary,
        Action::SpawnAgent => Phase::Spawning,
        Action::WatchChild => Phase::Running,
        Action::Sleep { .. } => Phase::BackingOff,
        Action::StopChild => Phase::Stopping,
        Action::Exit { .. } => Phase::Done,
        Action::Ignore => Phase::Done,
    }
}

/// Each ordered action leaves the supervisor in the phase that waits for its
/// outcome; an ignored event changes nothing.
pub proof fn lemma_phase_follows_action(t: Timing, p: Phase, e: Event)
    ensures
        transition(t, p, e).1 != Action::Ignore ==> transition(t, p, e).0 == awaiting(
            transition(t, p, e).1,
        ),
        transition(t, p, e).1 == Action::Ignore ==> transition(t, p, e).0 == p,
{
}

/// Startup: with the lock taken the supervisor writes its files and starts
/// its heartbeat at the supervise interval (at least a second), then looks
/// for a live agent and, finding none, makes sure of the binary and spawns;
/// a held lock ends it quietly, a failed lock or preparation with an error.
pub proof fn lemma_startup(t: Timing)
    ensures
        transition(t, Phase::Locking, Event::LockAcquired) == (
            Phase::Preparing,
            Action::Prepare {
                heartbeat_interval_secs: if t.supervise_interval_secs >= 1 {
                    t.supervise_interval_secs
                } else {
                    1
                },
            },
        ),
        transition(t, Phase::Locking, Event::LockBusy) == (Phase::Done, Action::Exit { failed: false }),
        transition(t, Phase::Locking, Event::LockFailed) == (Phase::Done, Action::Exit { failed: true }),
        transition(t, Phase::Preparing, Event::Prepared) == (Phase::CheckingAgent, Action::CheckAgent),
        transition(t, Phase::Preparing, Event::PrepareFailed) == (
            Phase::Done,
            Action::Exit { failed: true },
        ),
        transition(t, Phase::CheckingAgent, Event::AgentAbsent) == (
            Phase::EnsuringBinary,
            Action::EnsureBinary,
        ),
        transition(t, Phase::Adopting, Event::AdoptedAgentGone) == (
            Phase::EnsuringBinary,
            Action::EnsureBinary,
        ),
        transition(t, Phase::Spawning, Event::SpawnSucceeded) == (Phase::Running, Action::WatchChild),
{
}

/// Single instance: nothing but an acquired lock lets the supervisor go on
/// from `Locking`; otherwise it exits or stays.
pub proof fn lemma_work_needs_lock(t: Timing, e: Event)
    ensures
        transition(t, Phase::Locking, e).0 == Phase::Preparing <==> e == Event::LockAcquired,
        transition(t, Phase::Locking, e).0 != Phase::Preparing ==> (transition(t, Phase::Locking, e).0
            == Phase::Done || transition(t, Phase::Locking, e).0 == Phase::Locking),
{
}

/// Adoption happens only at startup: once the startup checks are behind the
/// supervisor they stay behind it, and adoption is not among the phases after
/// them.
pub proof fn lemma_adoption_only_at_startup(t: Timing, p: Phase, e: Event)
    ensures
        past_startup(p) ==> past_startup(transition(t, p, e).0),
        !past_startup(Phase::Adopting),
        transition(t, p, e).0 == Phase::Adopting ==> p == Phase::CheckingAgent || p == Phase::Adopting,
{
}

/// A live agent found at startup is adopted, not joined by a second one:
/// the supervisor only watches it, and while adopting it never spawns.
pub proof fn lemma_live_agent_adopted(t: Timing, e: Event)
    ensures
        transition(t, Phase::CheckingAgent, Event::AgentAlive) == (
            Phase::Adopting,
            Action::WatchAdopted { poll_interval_secs: at_least_one(t.supervise_interval_secs) },
        ),
        transition(t, Phase::Adopting, e).1 != Action::SpawnAgent,
        transition(t, Phase::Adopting, e).0 == Phase::EnsuringBinary ==> e == Event::AdoptedAgentGone,
{
}

/// At most one managed agent: a spawn is ordered only when the supervisor owns
/// none, and it comes to own one only by a successful spawn.
pub proof fn lemma_single_child(t: Timing, p: Phase, e: Event)
    ensures
        transition(t, p, e).1 == Action::SpawnAgent ==> !owns_child(p),
        owns_child(transition(t, p, e).0) && !owns_child(p) ==> p == Phase::Spawning && e
            == Event::SpawnSucceeded,
{
}

/// When the owned agent exits, it is respawned: after sleeping the restart
/// backoff the supervisor makes sure the binary exists and spawns again,
/// without checking for an agent to adopt.
pub proof fn lemma_exit_respawns(t: Timing)
    ensures
        transition(t, Phase::Running, Event::ChildExited) == (
            Phase::BackingOff,
            Action::Sleep { secs: t.restart_backoff_secs },
        ),
        transition(t, Phase::BackingOff, Event::BackoffElapsed) == (
            Phase::EnsuringBinary,
            Action::EnsureBinary,
        ),
        transition(t, Phase::EnsuringBinary, Event::BinaryReady) == (
            Phase::Spawning,
            Action::SpawnAgent,
        ),
{
}

/// A failure to acquire the binary or to spawn is retried after a pause of
/// at least one second and at least the restart backoff.
pub proof fn lemma_failures_back_off(t: Timing, p: Phase, e: Event)
    requires
        e == Event::BinaryUnavailable || e == Event::SpawnFailed,
        transition(t, p, e).1 != Action::Ignore,
    ensures
        transition(t, p, e).0 == Phase::BackingOff,
        transition(t, p, e).1 matches Action::Sleep { secs } && secs >= 1 && secs
            >= t.restart_backoff_secs,
{
}

/// The heartbeat and the adopted agent are checked at least once a second
/// apart, at the supervise interval when it is positive.
pub proof fn lemma_intervals_positive(t: Timing, p: Phase, e: Event)
    ensures
        transition(t, p, e).1 matches Action::Prepare { heartbeat_interval_secs } ==> heartbeat_interval_secs
            >= 1 && (t.supervise_interval_secs >= 1 ==> heartbeat_interval_secs
            == t.supervise_interval_secs),
        transition(t, p, e).1 matches Action::WatchAdopted { poll_interval_secs } ==> poll_interval_secs
            >= 1 && (t.supervise_interval_secs >= 1 ==> poll_interval_secs
            == t.supervise_interval_secs),
{
}

/// A shutdown signal ends supervision: an adopted agent is left running and
/// the supervisor exits; an owned agent is stopped first, then it exits.
pub proof fn lemma_shutdown(t: Timing)
    ensures
        transition(t, Phase::Adopting, Event::ShutdownSignal) == (
            Phase::Done,
            Action::Exit { failed: false },
        ),
        transition(t, Phase::Running, Event::ShutdownSignal) == (Phase::Stopping, Action::StopChild),
        transition(t, Phase::Stopping, Event::ChildStopped) == (
            Phase::Done,
            Action::Exit { failed: false },
        ),
{
}

/// Once done, the supervisor stays done and does nothing more.
pub proof fn lemma_done_absorbing(t: Timing, e: Event)
    ensures
        transition(t, Phase::Done, e) == (Phase::Done, Action::Ignore),
{
}

/// Every exit is final: an `Exit` action always comes with `Done`.
pub proof fn lemma_exit_is_final(t: Timing, p: Phase, e: Event)
    ensures
        transition(t, p, e).1 is Exit ==> transition(t, p, e).0 == Phase::Done,
{
}

} // verus!
