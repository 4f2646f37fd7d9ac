//! Laws of the session state machine, proved over the specification
//! functions of [`crate::timer`]: countdown accuracy under irregular tick
//! cadence, pause/resume exactness, the long-break cadence, and the shape of
//! the progress fraction.

use vstd::prelude::*;
use vstd::arithmetic::div_mod::lemma_div_is_ordered;

use crate::timer::{
    elapsed_since,
    full_duration_ms,
    lemma_permille_bounds,
    state_wf,
    PomodoroTimer,
    TimerState,
    CYCLE_WORK_PHASES,
    SHORT_BREAK_LAPS,
    WORK_LAPS,
};

verus! {

/// The clock after ticking once at each time in `times`, in order.
pub open spec fn spec_run_ticks(c: PomodoroTimer, times: Seq<u64>) -> PomodoroTimer
    decreases times.len(),
{
    if times.len() == 0 {
        c
    } else {
        spec_run_ticks(c.spec_tick(times[0]), times.drop_first())
    }
}

/// The clock after `n` phase advances, all stamped at the same instant.
pub open spec fn spec_iter_advance(c: PomodoroTimer, n: nat, now_ms: u64) -> PomodoroTimer
    decreases n,
{
    if n == 0 {
        c
    } else {
        spec_iter_advance(c, (n - 1) as nat, now_ms).spec_advance(now_ms)
    }
}

/// Ticks that charge no time change nothing: a running clock whose last
/// reading equals every tick time is left exactly as it was.
proof fn lemma_run_ticks_zero_elapsed(c: PomodoroTimer, times: Seq<u64>)
    requires
        !(c.state is Idle),
        !c.paused,
        c.remaining_ms > 0,
        c.last_tick is Some,
        forall|i: int| 0 <= i < times.len() ==> times[i] == c.last_tick->0,
    ensures
        spec_run_ticks(c, times) == c,
    decreases times.len(),
{
    if times.len() > 0 {
        assert(c.spec_tick(times[0]) == c);
        lemma_run_ticks_zero_elapsed(c, times.drop_first());
    }
}

/// Countdown accuracy, independent of tick cadence: for any ordered tick
/// sequence whose cumulative elapsed time equals exactly the remaining
/// countdown, the run behaves as one single tick at the final instant --
/// the phase transitions exactly once, and the countdown ends up at the
/// next phase's full duration.
pub proof fn lemma_exact_phase_completion(c: PomodoroTimer, times: Seq<u64>)
    requires
        c.wf(),
        !(c.state is Idle),
        !c.paused,
        times.len() > 0,
        forall|i: int, j: int|
            0 <= i <= j < times.len() ==> #[trigger] times[i] <= #[trigger] times[j],
        c.last_tick->0 <= times[0],
        times.last() == c.last_tick->0 + c.remaining_ms,
    ensures
        spec_run_ticks(c, times) == c.spec_tick(times.last()),
        spec_run_ticks(c, times).state == (PomodoroTimer { remaining_ms: 0, ..c }).spec_advance(
            times.last(),
        ).state,
        spec_run_ticks(c, times).remaining_ms == full_duration_ms(
            spec_run_ticks(c, times).state,
        ),
    decreases times.len(),
{
    let t0 = c.last_tick->0;
    let cap = times.last();
    if times.len() == 1 {
        assert(spec_run_ticks(c.spec_tick(times[0]), times.drop_first()) == c.spec_tick(
            times[0],
        ));
    } else {
        let t1 = times[0];
        let rest = times.drop_first();
        assert(rest.last() == cap);
        assert(t1 <= cap);
        let c1 = c.spec_tick(t1);
        if t1 < cap {
            assert(c1 == PomodoroTimer {
                remaining_ms: (c.remaining_ms - (t1 - t0)) as u64,
                last_tick: Some(t1),
                ..c
            });
            assert(c1.wf());
            lemma_exact_phase_completion(c1, rest);
            assert(c1.spec_tick(cap) == c.spec_tick(cap));
        } else {
            assert(c1 == (PomodoroTimer { remaining_ms: 0, ..c }).spec_advance(t1));
            assert(!(c1.state is Idle) && !c1.paused && c1.remaining_ms > 0);
            assert(c1.last_tick == Some(t1));
            assert(forall|i: int| 0 <= i < rest.len() ==> rest[i] == t1);
            lemma_run_ticks_zero_elapsed(c1, rest);
        }
    }
}

/// Pausing freezes the countdown exactly: pausing, waiting any wall-clock
/// time, resuming, and ticking with no further delay all leave `remaining`
/// unchanged.
pub proof fn lemma_pause_resume_preserves_remaining(
    c: PomodoroTimer,
    pause_at: u64,
    resume_at: u64,
)
    requires
        c.wf(),
        !(c.state is Idle),
        !c.paused,
    ensures
        ({
            let stopped = c.spec_toggle_pause(pause_at);
            let resumed = stopped.spec_toggle_pause(resume_at);
            let ticked = resumed.spec_tick(resume_at);
            &&& stopped.remaining_ms == c.remaining_ms
            &&& resumed.remaining_ms == c.remaining_ms
            &&& ticked.remaining_ms == c.remaining_ms
            &&& ticked.state == c.state
        }),
{
}

/// Completing the final work lap banks one more work phase; the break that
/// follows is long exactly when it is the last work phase of the cycle.
pub proof fn lemma_break_kind_after_work(c: PomodoroTimer, now_ms: u64)
    requires
        c.advance_ready(),
        c.state == (TimerState::Work { lap: WORK_LAPS }),
    ensures
        c.spec_advance(now_ms).cycle_position == c.cycle_position + 1,
        c.cycle_position == CYCLE_WORK_PHASES - 1 ==> c.spec_advance(now_ms).state
            is LongBreak,
        c.cycle_position < CYCLE_WORK_PHASES - 1 ==> c.spec_advance(now_ms).state == (
        TimerState::ShortBreak { lap: 1 }),
{
}

/// Advancing preserves the invariant: every row of the transition table
/// lands in a well-formed, unpaused, freshly armed state.
pub proof fn lemma_advance_wf(c: PomodoroTimer, now_ms: u64)
    requires
        c.advance_ready(),
    ensures
        c.spec_advance(now_ms).wf(),
        !c.spec_advance(now_ms).paused,
{
}

/// Splitting a run of advances: `m + n` advances are `m` advances followed
/// by `n` more.
pub proof fn lemma_iter_advance_add(c: PomodoroTimer, m: nat, n: nat, now_ms: u64)
    ensures
        spec_iter_advance(c, m + n, now_ms) == spec_iter_advance(
            spec_iter_advance(c, m, now_ms),
            n,
            now_ms,
        ),
    decreases n,
{
    if n > 0 {
        lemma_iter_advance_add(c, m, (n - 1) as nat, now_ms);
    }
}

/// Running a work phase to completion: from `Work { lap }`, advancing once
/// per remaining lap and once more banks one completed work phase and lands
/// in the break the cycle calls for.
pub proof fn lemma_finish_work_phase(c: PomodoroTimer, now_ms: u64)
    requires
        c.wf(),
        c.state is Work,
    ensures
        ({
            let done = spec_iter_advance(c, (WORK_LAPS - c.state->Work_lap + 1) as nat, now_ms);
            &&& done.wf()
            &&& !done.paused
            &&& done.cycle_position == c.cycle_position + 1
            &&& (c.cycle_position == CYCLE_WORK_PHASES - 1 ==> done.state is LongBreak)
            &&& (c.cycle_position < CYCLE_WORK_PHASES - 1 ==> done.state == (TimerState::ShortBreak {
                lap: 1,
            }))
        }),
    decreases WORK_LAPS - c.state->Work_lap,
{
    let lap = c.state->Work_lap;
    let c1 = c.spec_advance(now_ms);
    lemma_advance_wf(c, now_ms);
    if lap == WORK_LAPS {
        assert(spec_iter_advance(c, 0, now_ms) == c);
        assert(spec_iter_advance(c, 1, now_ms) == c1);
    } else {
        lemma_finish_work_phase(c1, now_ms);
        lemma_iter_advance_add(c, 1, (WORK_LAPS - lap) as nat, now_ms);
        assert(spec_iter_advance(c, 0, now_ms) == c);
        assert(spec_iter_advance(c, 1, now_ms) == c1);
    }
}

/// Running a short break to completion: from `ShortBreak { lap }`,
/// advancing once per remaining lap and once more returns to a fresh work
/// phase without touching the cycle counter.
pub proof fn lemma_finish_short_break(c: PomodoroTimer, now_ms: u64)
    requires
        c.wf(),
        c.state is ShortBreak,
    ensures
        ({
            let done = spec_iter_advance(
                c,
                (SHORT_BREAK_LAPS - c.state->ShortBreak_lap + 1) as nat,
                now_ms,
            );
            &&& done.wf()
            &&& !done.paused
            &&& done.cycle_position == c.cycle_position
            &&& done.state == (TimerState::Work { lap: 1 })
        }),
    decreases SHORT_BREAK_LAPS - c.state->ShortBreak_lap,
{
    let lap = c.state->ShortBreak_lap;
    let c1 = c.spec_advance(now_ms);
    lemma_advance_wf(c, now_ms);
    if lap == SHORT_BREAK_LAPS {
        assert(spec_iter_advance(c, 0, now_ms) == c);
        assert(spec_iter_advance(c, 1, now_ms) == c1);
    } else {
        lemma_finish_short_break(c1, now_ms);
        lemma_iter_advance_add(c, 1, (SHORT_BREAK_LAPS - lap) as nat, now_ms);
        assert(spec_iter_advance(c, 0, now_ms) == c);
        assert(spec_iter_advance(c, 1, now_ms) == c1);
    }
}

/// From a fresh start, the first three completed work phases are followed
/// by short breaks and the fourth by the long break: advances 10, 23 and 36
/// land in a short break, and advance 49 -- the fourth work completion --
/// lands in the long break.
pub proof fn lemma_fourth_break_is_long(now_ms: u64)
    ensures
        spec_iter_advance(PomodoroTimer::spec_start(now_ms), 10, now_ms).state is ShortBreak,
        spec_iter_advance(PomodoroTimer::spec_start(now_ms), 23, now_ms).state is ShortBreak,
        spec_iter_advance(PomodoroTimer::spec_start(now_ms), 36, now_ms).state is ShortBreak,
        spec_iter_advance(PomodoroTimer::spec_start(now_ms), 49, now_ms).state is LongBreak,
{
    let c0 = PomodoroTimer::spec_start(now_ms);
    lemma_finish_work_phase(c0, now_ms);
    let b1 = spec_iter_advance(c0, 10, now_ms);
    lemma_finish_short_break(b1, now_ms);
    lemma_iter_advance_add(c0, 10, 3, now_ms);
    let w2 = spec_iter_advance(c0, 13, now_ms);
    lemma_finish_work_phase(w2, now_ms);
    lemma_iter_advance_add(c0, 13, 10, now_ms);
    let b2 = spec_iter_advance(c0, 23, now_ms);
    lemma_finish_short_break(b2, now_ms);
    lemma_iter_advance_add(c0, 23, 3, now_ms);
    let w3 = spec_iter_advance(c0, 26, now_ms);
    lemma_finish_work_phase(w3, now_ms);
    lemma_iter_advance_add(c0, 26, 10, now_ms);
    let b3 = spec_iter_advance(c0, 36, now_ms);
    lemma_finish_short_break(b3, now_ms);
    lemma_iter_advance_add(c0, 36, 3, now_ms);
    let w4 = spec_iter_advance(c0, 39, now_ms);
    lemma_finish_work_phase(w4, now_ms);
    lemma_iter_advance_add(c0, 39, 10, now_ms);
}

/// The progress fraction starts at 0, is monotone as the countdown falls,
/// and reaches 1000 (that is, 1) exactly when the countdown reaches 0.
pub proof fn lemma_progress_endpoints(c: PomodoroTimer)
    requires
        state_wf(c.state),
        !(c.state is Idle),
        c.remaining_ms <= full_duration_ms(c.state),
    ensures
        c.spec_progress_permille() <= 1000,
        c.remaining_ms == full_duration_ms(c.state) ==> c.spec_progress_permille() == 0,
        c.spec_progress_permille() == 1000 <==> c.remaining_ms == 0,
{
    lemma_permille_bounds(full_duration_ms(c.state) as int, c.remaining_ms as int);
}

/// Across any tick that does not end the phase, progress never decreases.
pub proof fn lemma_tick_progress_non_decreasing(c: PomodoroTimer, now_ms: u64)
    requires
        c.wf(),
        !(c.state is Idle),
        !c.paused,
        elapsed_since(c.last_tick->0, now_ms) < c.remaining_ms,
    ensures
        c.spec_tick(now_ms).state == c.state,
        c.spec_progress_permille() <= c.spec_tick(now_ms).spec_progress_permille(),
{
    lemma_progress_monotone(c, c.spec_tick(now_ms));
}

/// Progress never decreases while the phase (and so its total duration)
/// stays the same and the countdown falls.
pub proof fn lemma_progress_monotone(a: PomodoroTimer, b: PomodoroTimer)
    requires
        !(a.state is Idle),
        !(b.state is Idle),
        full_duration_ms(a.state) == full_duration_ms(b.state),
        b.remaining_ms <= a.remaining_ms,
        a.remaining_ms <= full_duration_ms(a.state),
    ensures
        a.spec_progress_permille() <= b.spec_progress_permille(),
{
    let total = full_duration_ms(a.state) as int;
    lemma_div_is_ordered(
        (total - a.remaining_ms) * 1000,
        (total - b.remaining_ms) * 1000,
        total,
    );
    lemma_permille_bounds(total, a.remaining_ms as int);
    lemma_permille_bounds(total, b.remaining_ms as int);
}

} // verus!
