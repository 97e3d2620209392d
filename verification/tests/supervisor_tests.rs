use rs_replacer::Action;
use rs_replacer::Event;
use rs_replacer::RestartFlag;
use rs_replacer::State;
use rs_replacer::initial_state;
use rs_replacer::next_action;
use rs_replacer::step;

/// Drive one poll round the way the surrounding program does: probe the
/// worker (here: the simulated `exited` outcome), consume the flag, and feed
/// both back as one event.
fn poll(s: State, flag: &mut RestartFlag, exited: Option<i32>) -> State {
    let trigger = flag.consume();
    step(s, Event::Polled { exited, trigger })
}

#[test]
fn startup_reaches_running() {
    let s = initial_state();
    assert_eq!(s, State::Starting);
    assert_eq!(next_action(&s), Action::AnnounceAndSpawn);
    let s = step(s, Event::SpawnOk { pid: 11 });
    assert_eq!(s, State::Running { active: 11 });
    assert_eq!(next_action(&s), Action::Poll { active: 11 });
}

#[test]
fn initial_spawn_failure_is_fatal() {
    let s = step(initial_state(), Event::SpawnFailed);
    assert_eq!(s, State::StartupFailed);
    assert_eq!(next_action(&s), Action::Exit { code: 1 });
}

#[test]
fn quiet_poll_keeps_running() {
    let mut flag = RestartFlag::new();
    let s = State::Running { active: 11 };
    let s = poll(s, &mut flag, None);
    assert_eq!(s, State::Running { active: 11 });
}

#[test]
fn trigger_starts_handover() {
    let mut flag = RestartFlag::new();
    flag.trigger();
    let s = poll(State::Running { active: 11 }, &mut flag, None);
    assert_eq!(s, State::Restarting { old: 11 });
    assert_eq!(next_action(&s), Action::SpawnReplacement);
}

#[test]
fn repeated_triggers_coalesce_into_one_handover() {
    let mut flag = RestartFlag::new();
    flag.trigger();
    flag.trigger();
    flag.trigger();
    let s = poll(State::Running { active: 11 }, &mut flag, None);
    assert_eq!(s, State::Restarting { old: 11 });
    // The handover runs to completion; a further trigger arrives meanwhile.
    let s = step(s, Event::SpawnOk { pid: 12 });
    flag.trigger();
    let s = step(s, Event::OldExited { status: 0 });
    assert_eq!(s, State::Running { active: 12 });
    // The driver discards one consume when the handover ends, so the
    // mid-handover trigger does not queue a second handover.
    let _ = flag.consume();
    let s = poll(s, &mut flag, None);
    assert_eq!(s, State::Running { active: 12 });
}

#[test]
fn replacement_spawn_success_drains_old_worker() {
    let s = State::Restarting { old: 11 };
    let s = step(s, Event::SpawnOk { pid: 12 });
    assert_eq!(
        s,
        State::AwaitingOldExit {
            old: 11,
            incoming: 12
        }
    );
    assert_eq!(next_action(&s), Action::DrainOldAndWait { old: 11 });
}

#[test]
fn replacement_spawn_failure_keeps_old_worker() {
    let s = State::Restarting { old: 11 };
    let s = step(s, Event::SpawnFailed);
    assert_eq!(s, State::Running { active: 11 });
    // The old worker is polled as before, never told to drain.
    assert_eq!(next_action(&s), Action::Poll { active: 11 });
}

#[test]
fn trigger_during_failed_restart_does_not_queue_another() {
    let mut flag = RestartFlag::new();
    flag.trigger();
    let s = poll(State::Running { active: 11 }, &mut flag, None);
    assert_eq!(s, State::Restarting { old: 11 });
    // A further trigger arrives while the replacement spawn is attempted,
    // and the spawn fails: the attempt is abandoned, the driver discards
    // one consume, and no second attempt starts on its own.
    flag.trigger();
    let s = step(s, Event::SpawnFailed);
    assert_eq!(s, State::Running { active: 11 });
    let _ = flag.consume();
    let s = poll(s, &mut flag, None);
    assert_eq!(s, State::Running { active: 11 });
}

#[test]
fn old_exit_promotes_incoming_worker() {
    let s = State::AwaitingOldExit {
        old: 11,
        incoming: 12,
    };
    let s = step(s, Event::OldExited { status: 0 });
    assert_eq!(s, State::Running { active: 12 });
    assert_eq!(next_action(&s), Action::Poll { active: 12 });
}

#[test]
fn self_exit_terminates_with_worker_status() {
    let mut flag = RestartFlag::new();
    let s = poll(State::Running { active: 11 }, &mut flag, Some(7));
    assert_eq!(s, State::Terminated { status: 7 });
    assert_eq!(next_action(&s), Action::Exit { code: 7 });
}

#[test]
fn self_exit_takes_precedence_over_trigger() {
    let mut flag = RestartFlag::new();
    flag.trigger();
    let s = poll(State::Running { active: 11 }, &mut flag, Some(0));
    assert_eq!(s, State::Terminated { status: 0 });
}

#[test]
fn end_to_end_handover_then_worker_death() {
    let mut flag = RestartFlag::new();
    // Supervisor boots and worker A starts.
    let s = initial_state();
    let s = step(s, Event::SpawnOk { pid: 100 });
    assert_eq!(s, State::Running { active: 100 });
    // A restart trigger arrives; worker B spawns; A is drained and exits 0.
    flag.trigger();
    let s = poll(s, &mut flag, None);
    assert_eq!(s, State::Restarting { old: 100 });
    let s = step(s, Event::SpawnOk { pid: 200 });
    assert_eq!(next_action(&s), Action::DrainOldAndWait { old: 100 });
    let s = step(s, Event::OldExited { status: 0 });
    // Only worker B is live; the supervisor resumes polling it.
    assert_eq!(s, State::Running { active: 200 });
    let _ = flag.consume();
    let s = poll(s, &mut flag, None);
    assert_eq!(s, State::Running { active: 200 });
    // Killing worker B ends the supervisor with B's status.
    let s = poll(s, &mut flag, Some(137));
    assert_eq!(s, State::Terminated { status: 137 });
    assert_eq!(next_action(&s), Action::Exit { code: 137 });
}

#[test]
fn consume_reads_and_clears() {
    let mut flag = RestartFlag::new();
    assert!(!flag.consume());
    flag.trigger();
    assert!(flag.consume());
    assert!(!flag.consume());
}

#[test]
fn consume_twice_reports_no_trigger_the_second_time() {
    let mut flag = RestartFlag::new();
    flag.trigger();
    let first = flag.consume();
    let second = flag.consume();
    assert!(first);
    assert!(!second);
}

#[test]
fn terminal_states_ignore_events() {
    let s = State::Terminated { status: 3 };
    assert_eq!(step(s, Event::SpawnOk { pid: 5 }), s);
    let s = State::StartupFailed;
    assert_eq!(step(s, Event::OldExited { status: 0 }), s);
}
