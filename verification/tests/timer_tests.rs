use pomowise::timer::{
    PomodoroTimer, TimerState, LONG_BREAK_DURATION_MS, SHORT_BREAK_DURATION_MS, WORK_DURATION_MS,
};

fn fresh_started(now_ms: u64) -> PomodoroTimer {
    let mut t = PomodoroTimer::new();
    t.start(now_ms);
    t
}

#[test]
fn new_timer_is_idle() {
    let t = PomodoroTimer::new();
    assert_eq!(t.state, TimerState::Idle);
    assert_eq!(t.remaining_ms, 0);
    assert_eq!(t.cycle_position, 0);
    assert!(!t.is_paused());
    assert_eq!(t.session_name(), "Idle");
    assert_eq!(t.current_lap(), 0);
    assert_eq!(t.total_laps(), 0);
    assert_eq!(t.session_progress(), 0);
}

#[test]
fn start_arms_a_full_work_phase() {
    let t = fresh_started(1_000);
    assert_eq!(t.state, TimerState::Work { lap: 1 });
    assert_eq!(t.remaining_ms, WORK_DURATION_MS);
    assert_eq!(t.cycle_position, 0);
    assert_eq!(t.session_name(), "Work");
    assert_eq!(t.current_lap(), 1);
    assert_eq!(t.total_laps(), 10);
    assert_eq!(t.session_progress(), 0);
}

#[test]
fn tick_charges_exactly_the_elapsed_time() {
    let mut t = fresh_started(0);
    t.tick(400_000);
    assert_eq!(t.remaining_ms, WORK_DURATION_MS - 400_000);
    t.tick(1_000_000);
    assert_eq!(t.remaining_ms, WORK_DURATION_MS - 1_000_000);
    assert_eq!(t.state, TimerState::Work { lap: 1 });
}

#[test]
fn irregular_ticks_summing_to_the_duration_transition_once() {
    // cumulative elapsed time of exactly one work duration, in three
    // irregular steps: the phase ends at the right wall-clock instant and
    // the countdown restarts at the next phase's full duration
    let mut t = fresh_started(0);
    t.tick(400_000);
    t.tick(1_100_000);
    t.tick(WORK_DURATION_MS);
    assert_eq!(t.state, TimerState::Work { lap: 2 });
    assert_eq!(t.remaining_ms, WORK_DURATION_MS);
    assert_eq!(t.cycle_position, 0);
}

#[test]
fn tick_while_idle_or_paused_is_a_no_op() {
    let mut idle = PomodoroTimer::new();
    idle.tick(5_000);
    assert_eq!(idle.state, TimerState::Idle);
    assert_eq!(idle.remaining_ms, 0);

    let mut t = fresh_started(0);
    t.tick(60_000);
    t.toggle_pause(60_000);
    let frozen = t.remaining_ms;
    t.tick(1_000_000);
    assert_eq!(t.remaining_ms, frozen);
    assert!(t.is_paused());
}

#[test]
fn pause_then_resume_preserves_remaining() {
    // run down to 24:00, pause, wait five seconds, resume, tick
    // immediately: still 24:00
    let mut t = fresh_started(0);
    t.tick(60_000);
    assert_eq!(t.remaining_ms, 24 * 60 * 1000);
    t.toggle_pause(60_000);
    assert!(t.is_paused());
    assert_eq!(t.session_name(), "Work (Paused)");
    t.toggle_pause(65_000);
    assert!(!t.is_paused());
    t.tick(65_000);
    assert_eq!(t.remaining_ms, 24 * 60 * 1000);
    assert_eq!(t.state, TimerState::Work { lap: 1 });
}

#[test]
fn pause_from_idle_is_a_no_op() {
    let mut t = PomodoroTimer::new();
    t.toggle_pause(1_000);
    assert_eq!(t.state, TimerState::Idle);
    assert!(!t.is_paused());
}

#[test]
fn work_laps_step_through_the_phase() {
    let mut t = fresh_started(0);
    for lap in 1u8..10 {
        assert_eq!(t.state, TimerState::Work { lap });
        t.advance_state(0);
    }
    assert_eq!(t.state, TimerState::Work { lap: 10 });
    assert_eq!(t.cycle_position, 0);
    t.advance_state(0);
    assert_eq!(t.state, TimerState::ShortBreak { lap: 1 });
    assert_eq!(t.remaining_ms, SHORT_BREAK_DURATION_MS);
    assert_eq!(t.cycle_position, 1);
    assert_eq!(t.total_laps(), 3);
}

#[test]
fn fourth_completed_work_phase_earns_the_long_break() {
    let mut t = fresh_started(0);
    let mut breaks: Vec<TimerState> = Vec::new();
    let mut was_break = false;
    for _ in 0..49 {
        t.advance_state(0);
        let is_break = matches!(
            t.state,
            TimerState::ShortBreak { .. } | TimerState::LongBreak
        );
        if is_break && !was_break {
            breaks.push(t.state);
        }
        was_break = is_break;
    }
    assert_eq!(
        breaks,
        vec![
            TimerState::ShortBreak { lap: 1 },
            TimerState::ShortBreak { lap: 1 },
            TimerState::ShortBreak { lap: 1 },
            TimerState::LongBreak,
        ],
        "the fourth break must be the long one"
    );
    assert_eq!(t.state, TimerState::LongBreak);
    assert_eq!(t.remaining_ms, LONG_BREAK_DURATION_MS);
    assert_eq!(t.cycle_position, 4);
    t.advance_state(0);
    assert_eq!(t.state, TimerState::Work { lap: 1 });
    assert_eq!(t.cycle_position, 0);
}

#[test]
fn advance_from_idle_behaves_like_start() {
    let mut t = PomodoroTimer::new();
    t.advance_state(7_000);
    assert_eq!(t.state, TimerState::Work { lap: 1 });
    assert_eq!(t.remaining_ms, WORK_DURATION_MS);
    assert_eq!(t.cycle_position, 0);
}

#[test]
fn advance_while_paused_resumes_into_the_next_state() {
    let mut t = fresh_started(0);
    t.toggle_pause(1_000);
    t.advance_state(2_000);
    assert!(!t.is_paused());
    assert_eq!(t.state, TimerState::Work { lap: 2 });
    assert_eq!(t.remaining_ms, WORK_DURATION_MS);
}

#[test]
fn reset_keeps_the_phase_kind_and_refills_the_countdown() {
    let mut t = fresh_started(0);
    t.tick(100_000);
    t.reset_current_session(100_000);
    assert_eq!(t.state, TimerState::Work { lap: 1 });
    assert_eq!(t.remaining_ms, WORK_DURATION_MS);

    // resetting a paused phase unpauses it
    t.tick(200_000);
    t.toggle_pause(200_000);
    t.reset_current_session(250_000);
    assert!(!t.is_paused());
    assert_eq!(t.remaining_ms, WORK_DURATION_MS);

    // resetting from idle is a no-op
    let mut idle = PomodoroTimer::new();
    idle.reset_current_session(1_000);
    assert_eq!(idle.state, TimerState::Idle);
    assert_eq!(idle.remaining_ms, 0);
}

#[test]
fn progress_runs_from_zero_to_thousand() {
    let mut t = fresh_started(0);
    assert_eq!(t.session_progress(), 0);
    t.tick(WORK_DURATION_MS / 2);
    assert_eq!(t.session_progress(), 500);
    t.tick(WORK_DURATION_MS - 1_000);
    // 1499/1500 of the phase elapsed
    assert_eq!(t.session_progress(), 999);

    // a hand-built clock one millisecond from the end still reads 999:
    // the fraction reaches 1000 only when nothing remains
    let done = PomodoroTimer {
        state: TimerState::LongBreak,
        paused: false,
        remaining_ms: 1,
        cycle_position: 4,
        last_tick: Some(0),
    };
    assert_eq!(done.session_progress(), 999);
    let over = PomodoroTimer {
        remaining_ms: LONG_BREAK_DURATION_MS,
        ..done
    };
    assert_eq!(over.session_progress(), 0);
}

#[test]
fn session_names_cover_every_phase() {
    let mut t = fresh_started(0);
    assert_eq!(t.session_name(), "Work");
    t.state = TimerState::ShortBreak { lap: 2 };
    assert_eq!(t.session_name(), "Short Break");
    t.toggle_pause(0);
    assert_eq!(t.session_name(), "Short Break (Paused)");
    t.toggle_pause(0);
    t.state = TimerState::LongBreak;
    assert_eq!(t.session_name(), "Long Break");
    t.toggle_pause(0);
    assert_eq!(t.session_name(), "Long Break (Paused)");
}

#[test]
fn snapshot_reports_the_clock_wholesale() {
    let mut t = fresh_started(0);
    t.tick(90_000);
    let snap = t.snapshot();
    assert_eq!(snap.state, TimerState::Work { lap: 1 });
    assert_eq!(snap.remaining_secs, (WORK_DURATION_MS - 90_000) / 1000);
    assert_eq!(snap.session_name, "Work");
    assert_eq!(snap.session_progress_permille as u64, 90_000 * 1000 / WORK_DURATION_MS);
    assert!(!snap.is_paused);
    assert_eq!(snap.cycle_position, 0);
}

#[test]
fn backwards_clock_charges_nothing() {
    let mut t = fresh_started(100_000);
    t.tick(40_000);
    assert_eq!(t.remaining_ms, WORK_DURATION_MS);
    assert_eq!(t.state, TimerState::Work { lap: 1 });
}
