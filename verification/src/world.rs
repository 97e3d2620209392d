//! The closed system: the state machine together with the restart flag.
//!
//! Restart triggers arrive asynchronously and only set the flag; the machine
//! reads the flag in exactly one place, the poll performed while `Running`,
//! and the flag is consumed once more and discarded whenever a handover
//! attempt ends, so a trigger that arrived while the handover was in flight
//! coalesces into it instead of queueing a second one. This module states and
//! proves that coalescing behaviour over whole runs.

use vstd::prelude::*;

use crate::supervisor::Event;
use crate::supervisor::State;
use crate::supervisor::spec_step;

verus! {

/// The supervisor and the one value shared with signal context.
pub struct World {
    /// Where the machine stands.
    pub state: State,
    /// Whether a restart trigger has arrived and not yet been consumed.
    pub flag: bool,
}

/// One occurrence the closed system can undergo: a trigger delivery, or the
/// outcome of the action the machine is waiting on.
#[derive(Clone, Copy, Debug)]
pub enum Occurrence {
    /// A restart trigger is delivered: signal context sets the flag.
    Trigger,
    /// A pending spawn resolves: `Some(pid)` on success, `None` on refusal.
    SpawnOutcome { pid: Option<u32> },
    /// One poll round completes while `Running`; the liveness probe observed
    /// `exited`, and the trigger part of the poll is read from the flag.
    PollObserved { exited: Option<i32> },
    /// The old worker's exit is observed while awaiting it.
    OldExitObserved { status: i32 },
}

/// The machine is between a committed restart and the old worker's exit.
pub open spec fn in_handover(s: State) -> bool {
    s is Restarting || s is AwaitingOldExit
}

/// How the closed system moves. The flag is read only by the poll in
/// `Running`; every consume clears it; and the step that ends a handover
/// attempt (a spawn failure or the old worker's exit) consumes it once more
/// and discards the value, coalescing triggers that arrived meanwhile.
pub open spec fn world_step(w: World, o: Occurrence) -> World {
    match o {
        Occurrence::Trigger => World { state: w.state, flag: true },
        Occurrence::SpawnOutcome { pid } => {
            if w.state is Starting || w.state is Restarting {
                let e = match pid {
                    Some(p) => Event::SpawnOk { pid: p },
                    None => Event::SpawnFailed,
                };
                let aborted = w.state is Restarting && pid is None;
                World {
                    state: spec_step(w.state, e),
                    flag: if aborted {
                        false
                    } else {
                        w.flag
                    },
                }
            } else {
                w
            }
        },
        Occurrence::PollObserved { exited } => {
            if w.state is Running {
                World {
                    state: spec_step(w.state, Event::Polled { exited, trigger: w.flag }),
                    flag: false,
                }
            } else {
                w
            }
        },
        Occurrence::OldExitObserved { status } => {
            if w.state is AwaitingOldExit {
                World { state: spec_step(w.state, Event::OldExited { status }), flag: false }
            } else {
                w
            }
        },
    }
}

/// The closed system after undergoing `t`, from `w`, first occurrence first.
pub open spec fn world_run(w: World, t: Seq<Occurrence>) -> World
    decreases t.len(),
{
    if t.len() == 0 {
        w
    } else {
        world_run(world_step(w, t.first()), t.drop_first())
    }
}

/// Whether this step starts a handover: a poll in `Running` that finds the
/// worker alive and the flag set.
pub open spec fn starts_handover(w: World, o: Occurrence) -> bool {
    &&& w.state is Running
    &&& w.flag
    &&& o matches Occurrence::PollObserved { exited } && exited is None
}

/// Whether this step completes a handover: the old worker's exit observed
/// while awaiting it.
pub open spec fn completes_handover(w: World, o: Occurrence) -> bool {
    w.state is AwaitingOldExit && o is OldExitObserved
}

/// Whether this step abandons a handover: the replacement spawn failed.
pub open spec fn aborts_handover(w: World, o: Occurrence) -> bool {
    &&& w.state is Restarting
    &&& o matches Occurrence::SpawnOutcome { pid } && pid is None
}

/// How many handovers a run of `t` from `w` starts.
pub open spec fn handovers_started(w: World, t: Seq<Occurrence>) -> nat
    decreases t.len(),
{
    if t.len() == 0 {
        0
    } else {
        (if starts_handover(w, t.first()) {
            1nat
        } else {
            0nat
        }) + handovers_started(world_step(w, t.first()), t.drop_first())
    }
}

/// How many handovers a run of `t` from `w` completes.
pub open spec fn handovers_completed(w: World, t: Seq<Occurrence>) -> nat
    decreases t.len(),
{
    if t.len() == 0 {
        0
    } else {
        (if completes_handover(w, t.first()) {
            1nat
        } else {
            0nat
        }) + handovers_completed(world_step(w, t.first()), t.drop_first())
    }
}

/// How many handovers a run of `t` from `w` abandons to a failed spawn.
pub open spec fn handovers_aborted(w: World, t: Seq<Occurrence>) -> nat
    decreases t.len(),
{
    if t.len() == 0 {
        0
    } else {
        (if aborts_handover(w, t.first()) {
            1nat
        } else {
            0nat
        }) + handovers_aborted(world_step(w, t.first()), t.drop_first())
    }
}

/// Triggers coalesce while a handover is in flight: two runs that differ only
/// in whether the flag is set during a handover pass through the same machine
/// states, start and complete the same handovers, and agree on the flag again
/// as soon as the handover attempt ends. A trigger delivered during a
/// handover therefore has no effect beyond the flag it sets.
pub proof fn lemma_trigger_during_handover_coalesces(w1: World, w2: World, t: Seq<Occurrence>)
    requires
        w1.state == w2.state,
        in_handover(w1.state),
    ensures
        world_run(w1, t).state == world_run(w2, t).state,
        handovers_started(w1, t) == handovers_started(w2, t),
        handovers_completed(w1, t) == handovers_completed(w2, t),
        handovers_aborted(w1, t) == handovers_aborted(w2, t),
    decreases t.len(),
{
    if t.len() > 0 {
        let o = t.first();
        let w1n = world_step(w1, o);
        let w2n = world_step(w2, o);
        assert(w1n.state == w2n.state);
        if in_handover(w1n.state) {
            lemma_trigger_during_handover_coalesces(w1n, w2n, t.drop_first());
        } else {
            assert(w1n.flag == w2n.flag);
            lemma_world_run_depends_only_on_world(w1n, w2n, t.drop_first());
        }
    }
}

/// Runs from equal worlds are equal, occurrence by occurrence.
pub proof fn lemma_world_run_depends_only_on_world(w1: World, w2: World, t: Seq<Occurrence>)
    requires
        w1.state == w2.state,
        w1.flag == w2.flag,
    ensures
        world_run(w1, t) == world_run(w2, t),
        handovers_started(w1, t) == handovers_started(w2, t),
        handovers_completed(w1, t) == handovers_completed(w2, t),
        handovers_aborted(w1, t) == handovers_aborted(w2, t),
    decreases t.len(),
{
    if t.len() > 0 {
        lemma_world_run_depends_only_on_world(
            world_step(w1, t.first()),
            world_step(w2, t.first()),
            t.drop_first(),
        );
    }
}

/// Every completed handover was started by a poll that observed a trigger
/// while `Running`: over any run that begins outside a handover, the
/// handovers started — one per trigger observed while `Running`, however
/// many triggers were sent — are exactly the completed ones, the ones a
/// failed spawn abandoned, and the one still in flight if the run ends
/// mid-handover. Triggers that arrive while a handover is already in
/// progress start none.
pub proof fn lemma_completed_handovers_match_running_triggers(w: World, t: Seq<Occurrence>)
    requires
        !in_handover(w.state),
    ensures
        handovers_started(w, t) == handovers_completed(w, t) + handovers_aborted(w, t) + (
        if in_handover(world_run(w, t).state) {
            1nat
        } else {
            0nat
        }),
    decreases t.len(),
{
    if t.len() > 0 {
        let o = t.first();
        let wn = world_step(w, o);
        if in_handover(wn.state) {
            lemma_handover_run_counts(wn, t.drop_first());
        } else {
            lemma_completed_handovers_match_running_triggers(wn, t.drop_first());
        }
    }
}

/// The counting invariant of a run that begins inside a handover: it will
/// resolve one more handover — by completion or abandonment — than it
/// starts, unless it ends still inside one.
pub proof fn lemma_handover_run_counts(w: World, t: Seq<Occurrence>)
    requires
        in_handover(w.state),
    ensures
        handovers_started(w, t) + 1 == handovers_completed(w, t) + handovers_aborted(w, t) + (
        if in_handover(world_run(w, t).state) {
            1nat
        } else {
            0nat
        }),
    decreases t.len(),
{
    if t.len() > 0 {
        let o = t.first();
        let wn = world_step(w, o);
        if in_handover(wn.state) {
            lemma_handover_run_counts(wn, t.drop_first());
        } else {
            lemma_completed_handovers_match_running_triggers(wn, t.drop_first());
        }
    }
}

} // verus!
