//! The handover state machine.
//!
//! The supervisor owns at most two worker processes: the active one and,
//! transiently during a handover, the incoming replacement. It walks through
//! `Starting -> Running -> Restarting -> AwaitingOldExit -> Terminated`,
//! driven by events the surrounding program observes while performing the
//! action each state asks for. The machine itself never blocks and never
//! touches the operating system: it only decides.

use vstd::prelude::*;

verus! {

/// Milliseconds between two polls of the active worker while `Running`:
/// long enough not to busy-spin, short enough to bound restart latency.
pub const POLL_INTERVAL_MS: u64 = 1000;

/// Where the supervisor stands in the handover protocol. The states that
/// take part in a handover carry the process identifiers they own.
#[derive(PartialEq, Eq, Structural, Clone, Copy, Debug)]
pub enum State {
    /// Announce readiness, then spawn the initial worker.
    Starting,
    /// One worker `active`; poll its liveness and the restart flag.
    Running { active: u32 },
    /// A trigger arrived: spawn a replacement for `old`.
    Restarting { old: u32 },
    /// Replacement spawned: drain `old` and wait for it to exit; `incoming`
    /// is presumed running.
    AwaitingOldExit { old: u32, incoming: u32 },
    /// The sole worker exited on its own with `status`: shut down with it.
    Terminated { status: i32 },
    /// The initial worker could not be spawned: fatal, shut down non-zero.
    StartupFailed,
}

/// What the driver observed while carrying out the pending action.
#[derive(Clone, Copy, Debug)]
pub enum Event {
    /// A spawn attempt produced a live process with identifier `pid`.
    SpawnOk { pid: u32 },
    /// The operating system refused to create the process.
    SpawnFailed,
    /// One poll round: the active worker's exit status if it has terminated,
    /// and whether the restart flag had been set since the last consume.
    Polled { exited: Option<i32>, trigger: bool },
    /// The old worker's exit was observed after the drain instruction.
    OldExited { status: i32 },
}

/// The one action the driver must perform in a given state.
#[derive(PartialEq, Eq, Structural, Clone, Copy, Debug)]
pub enum Action {
    /// Announce readiness once, then spawn the initial worker.
    /// Answered by `SpawnOk` or `SpawnFailed`.
    AnnounceAndSpawn,
    /// Spawn a replacement worker. Answered by `SpawnOk` or `SpawnFailed`.
    /// On failure the attempt is abandoned: consume the restart flag once
    /// and discard the value, so triggers that arrived during the attempt
    /// do not immediately queue another.
    SpawnReplacement,
    /// Probe `active` without blocking, consume the restart flag, and sleep
    /// one poll interval if neither fired. Answered by `Polled`.
    Poll { active: u32 },
    /// Deliver the drain instruction to `old` (delivery failure means it has
    /// already exited: proceed), then block until its exit is observed.
    /// Answered by `OldExited`. Once the exit is observed, consume the
    /// restart flag once and discard the value: triggers that arrived while
    /// the handover was in flight coalesce into it and queue no second one.
    DrainOldAndWait { old: u32 },
    /// Exit the supervisor process with `code`.
    Exit { code: i32 },
}

/// Whether `e` is an answer the pending action of `s` can produce.
pub open spec fn event_fits(s: State, e: Event) -> bool {
    match s {
        State::Starting => e is SpawnOk || e is SpawnFailed,
        State::Running { .. } => e is Polled,
        State::Restarting { .. } => e is SpawnOk || e is SpawnFailed,
        State::AwaitingOldExit { .. } => e is OldExited,
        State::Terminated { .. } => false,
        State::StartupFailed => false,
    }
}

/// The transition function. An event that does not answer the state's
/// pending action leaves the state unchanged.
pub open spec fn spec_step(s: State, e: Event) -> State {
    if !event_fits(s, e) {
        s
    } else {
        match s {
            State::Starting => match e {
                Event::SpawnOk { pid } => State::Running { active: pid },
                _ => State::StartupFailed,
            },
            State::Running { active } => match e {
                Event::Polled { exited: Some(status), .. } => State::Terminated { status },
                Event::Polled { exited: None, trigger: true } => State::Restarting { old: active },
                _ => s,
            },
            State::Restarting { old } => match e {
                Event::SpawnOk { pid } => State::AwaitingOldExit { old, incoming: pid },
                _ => State::Running { active: old },
            },
            State::AwaitingOldExit { incoming, .. } => match e {
                Event::OldExited { .. } => State::Running { active: incoming },
                _ => s,
            },
            _ => s,
        }
    }
}

/// The action pending in state `s`.
pub open spec fn spec_action(s: State) -> Action {
    match s {
        State::Starting => Action::AnnounceAndSpawn,
        State::Running { active } => Action::Poll { active },
        State::Restarting { .. } => Action::SpawnReplacement,
        State::AwaitingOldExit { old, .. } => Action::DrainOldAndWait { old },
        State::Terminated { status } => Action::Exit { code: status },
        State::StartupFailed => Action::Exit { code: 1 },
    }
}

/// The state the supervisor begins in.
pub fn initial_state() -> (r: State)
    ensures
        r == State::Starting,
{
    State::Starting
}

/// Advance the machine by one observed event.
pub fn step(s: State, e: Event) -> (r: State)
    ensures
        r == spec_step(s, e),
{
    match s {
        State::Starting => match e {
            Event::SpawnOk { pid } => State::Running { active: pid },
            Event::SpawnFailed => State::StartupFailed,
            _ => s,
        },
        State::Running { active } => match e {
            Event::Polled { exited: Some(status), trigger: _ } => State::Terminated { status },
            Event::Polled { exited: None, trigger: true } => State::Restarting { old: active },
            _ => s,
        },
        State::Restarting { old } => match e {
            Event::SpawnOk { pid } => State::AwaitingOldExit { old, incoming: pid },
            Event::SpawnFailed => State::Running { active: old },
            _ => s,
        },
        State::AwaitingOldExit { old: _, incoming } => match e {
            Event::OldExited { status: _ } => State::Running { active: incoming },
            _ => s,
        },
        State::Terminated { .. } => s,
        State::StartupFailed => s,
    }
}

/// The action the driver must perform next.
pub fn next_action(s: &State) -> (r: Action)
    ensures
        r == spec_action(*s),
{
    match s {
        State::Starting => Action::AnnounceAndSpawn,
        State::Running { active } => Action::Poll { active: *active },
        State::Restarting { .. } => Action::SpawnReplacement,
        State::AwaitingOldExit { old, .. } => Action::DrainOldAndWait { old: *old },
        State::Terminated { status } => Action::Exit { code: *status },
        State::StartupFailed => Action::Exit { code: 1 },
    }
}

/// How many live worker processes the supervisor owns in state `s`.
pub open spec fn owned_live_workers(s: State) -> nat {
    match s {
        State::Starting => 0,
        State::Running { .. } => 1,
        State::Restarting { .. } => 1,
        State::AwaitingOldExit { .. } => 2,
        State::Terminated { .. } => 0,
        State::StartupFailed => 0,
    }
}

/// The supervisor owns two workers exactly while it awaits the old worker's
/// exit, and never more than two.
pub proof fn lemma_worker_count_bounds(s: State)
    ensures
        owned_live_workers(s) <= 2,
        owned_live_workers(s) == 2 <==> s is AwaitingOldExit,
{
}

/// The two-worker interval is entered only through a successful replacement
/// spawn: whenever a step raises the owned-worker count to two, the machine
/// was restarting and the event was a spawn success.
pub proof fn lemma_two_workers_entered_by_spawn_success(s: State, e: Event)
    ensures
        owned_live_workers(spec_step(s, e)) == 2 && owned_live_workers(s) != 2 ==> s is Restarting
            && e is SpawnOk,
{
}

/// The two-worker interval is exited only through the old worker's observed
/// exit: whenever a step lowers the owned-worker count from two, the event
/// was the old worker's exit, and the incoming worker is the one kept.
pub proof fn lemma_two_workers_exited_by_old_exit(s: State, e: Event)
    ensures
        owned_live_workers(s) == 2 && owned_live_workers(spec_step(s, e)) != 2 ==> e is OldExited
            && spec_step(s, e) == (State::Running { active: s->AwaitingOldExit_incoming }),
{
}

/// A failed replacement spawn abandons the handover: the machine returns to
/// `Running` with the pre-existing worker untouched, and the next action is
/// an ordinary poll, not a drain instruction.
pub proof fn lemma_spawn_failure_keeps_old_worker(old: u32)
    ensures
        spec_step(State::Restarting { old }, Event::SpawnFailed) == (State::Running {
            active: old,
        }),
        spec_action(spec_step(State::Restarting { old }, Event::SpawnFailed)) == (Action::Poll {
            active: old,
        }),
{
}

/// The drain instruction is only ever issued while awaiting the old worker's
/// exit, a state entered only through a successful replacement spawn: the old
/// worker is never told to drain before the new one exists.
pub proof fn lemma_drain_only_after_spawn_success(s: State, e: Event)
    ensures
        spec_action(s) is DrainOldAndWait ==> s is AwaitingOldExit,
        spec_step(s, e) is AwaitingOldExit && !(s is AwaitingOldExit) ==> s is Restarting
            && e is SpawnOk && spec_step(s, e)->AwaitingOldExit_old == s->Restarting_old
            && spec_step(s, e)->AwaitingOldExit_incoming == e->SpawnOk_pid,
{
}

/// A worker that exits on its own while `Running` ends the supervisor: one
/// poll that observes the exit status moves the machine to `Terminated`
/// carrying that status, whose action is to exit with it. The liveness check
/// precedes the trigger check, so this holds whether or not a trigger had
/// also arrived.
pub proof fn lemma_self_exit_terminates(active: u32, status: i32, trigger: bool)
    ensures
        spec_step(
            State::Running { active },
            Event::Polled { exited: Some(status), trigger },
        ) == (State::Terminated { status }),
        spec_action(State::Terminated { status }) == (Action::Exit { code: status }),
{
}

} // verus!
