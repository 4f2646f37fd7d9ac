//! The pomodoro session state machine: phases, laps, the cycle counter and a
//! millisecond countdown driven by an injected monotonic clock.

use vstd::prelude::*;
use vstd::string::StringExecFns;
use vstd::arithmetic::div_mod::{
    lemma_basic_div,
    lemma_div_multiples_vanish,
    lemma_div_pos_is_pos,
    lemma_multiply_divide_le,
    lemma_multiply_divide_lt,
};

verus! {

/// Full length of a work phase, in milliseconds (25 minutes).
pub const WORK_DURATION_MS: u64 = 25 * 60 * 1000;
/// Full length of a short break, in milliseconds (5 minutes).
pub const SHORT_BREAK_DURATION_MS: u64 = 5 * 60 * 1000;
/// Full length of a long break, in milliseconds (15 minutes).
pub const LONG_BREAK_DURATION_MS: u64 = 15 * 60 * 1000;

/// Laps shown within a single work phase.
pub const WORK_LAPS: u8 = 10;
/// Laps shown within a single short break.
pub const SHORT_BREAK_LAPS: u8 = 3;
/// Completed work phases per cycle; the break after the last one is long.
pub const CYCLE_WORK_PHASES: u8 = 4;

/// The base phase of the session. Pausing is a separate flag on
/// [`PomodoroTimer`], so "no nested pause" holds by construction.
#[derive(Clone, Copy, Debug, PartialEq, Eq, Structural)]
pub enum TimerState {
    Idle,
    Work { lap: u8 },
    ShortBreak { lap: u8 },
    LongBreak,
}

/// Lap bounds for a well-formed phase value.
pub open spec fn state_wf(s: TimerState) -> bool {
    match s {
        TimerState::Work { lap } => 1 <= lap <= WORK_LAPS,
        TimerState::ShortBreak { lap } => 1 <= lap <= SHORT_BREAK_LAPS,
        TimerState::Idle => true,
        TimerState::LongBreak => true,
    }
}

/// Full duration of a phase, in milliseconds; 0 for `Idle`.
pub open spec fn full_duration_ms(s: TimerState) -> u64 {
    match s {
        TimerState::Idle => 0,
        TimerState::Work { .. } => WORK_DURATION_MS,
        TimerState::ShortBreak { .. } => SHORT_BREAK_DURATION_MS,
        TimerState::LongBreak => LONG_BREAK_DURATION_MS,
    }
}

/// Whether two phase values are the same kind of phase, laps aside.
pub open spec fn same_kind(a: TimerState, b: TimerState) -> bool {
    match (a, b) {
        (TimerState::Idle, TimerState::Idle) => true,
        (TimerState::Work { .. }, TimerState::Work { .. }) => true,
        (TimerState::ShortBreak { .. }, TimerState::ShortBreak { .. }) => true,
        (TimerState::LongBreak, TimerState::LongBreak) => true,
        _ => false,
    }
}

#[verifier::when_used_as_spec(same_kind)]
pub fn states_same_kind(a: TimerState, b: TimerState) -> (r: bool)
    ensures
        r == same_kind(a, b),
{
    match (a, b) {
        (TimerState::Idle, TimerState::Idle) => true,
        (TimerState::Work { .. }, TimerState::Work { .. }) => true,
        (TimerState::ShortBreak { .. }, TimerState::ShortBreak { .. }) => true,
        (TimerState::LongBreak, TimerState::LongBreak) => true,
        _ => false,
    }
}

/// Time elapsed between two monotonic-clock readings; 0 if the clock
/// appears to have gone backwards.
pub open spec fn elapsed_since(last: u64, now: u64) -> u64 {
    if now >= last {
        (now - last) as u64
    } else {
        0
    }
}

/// The session clock: current phase, pause flag, remaining time, count of
/// completed work phases since the last long break, and the last reading of
/// the monotonic clock while running.
pub struct PomodoroTimer {
    pub state: TimerState,
    pub paused: bool,
    pub remaining_ms: u64,
    pub cycle_position: u8,
    pub last_tick: Option<u64>,
}

/// A plain-value picture of the session clock, taken for the status file
/// that a companion process polls.
pub struct TimerSnapshot {
    pub state: TimerState,
    pub remaining_secs: u64,
    pub session_name: String,
    pub session_progress_permille: u32,
    pub is_paused: bool,
    pub cycle_position: u8,
}

/// Bounds and endpoints of the permille progress quotient: it lies in
/// [0, 1000], it is 1000 exactly when nothing remains, and it is 0 when
/// nothing has elapsed.
pub proof fn lemma_permille_bounds(total: int, rem: int)
    requires
        0 < total,
        0 <= rem <= total,
    ensures
        0 <= ((total - rem) * 1000) / total <= 1000,
        (((total - rem) * 1000) / total == 1000) <==> rem == 0,
        rem == total ==> ((total - rem) * 1000) / total == 0,
{
    let x = (total - rem) * 1000;
    lemma_div_pos_is_pos(x, total);
    lemma_multiply_divide_le(x, total, 1000);
    if rem == 0 {
        lemma_div_multiples_vanish(1000, total);
    } else {
        lemma_multiply_divide_lt(x, total, 1000);
    }
    if rem == total {
        lemma_basic_div(x, total);
    }
}

impl PomodoroTimer {
    /// The invariant every operation preserves: lap bounds, the countdown
    /// bounded by the phase duration (and positive while a phase is under
    /// way), the cycle counter bounded, and the clock armed exactly while
    /// the timer is actively running.
    pub open spec fn wf(self) -> bool {
        &&& state_wf(self.state)
        &&& (self.state is Idle ==> !self.paused)
        &&& self.remaining_ms <= full_duration_ms(self.state)
        &&& (!(self.state is Idle) ==> self.remaining_ms > 0)
        &&& self.cycle_position <= CYCLE_WORK_PHASES
        &&& ((self.state is Work || self.state is ShortBreak) ==> self.cycle_position
            < CYCLE_WORK_PHASES)
        &&& (self.last_tick is Some <==> (!(self.state is Idle) && !self.paused))
    }

    /// A fresh, idle timer.
    pub open spec fn spec_new() -> PomodoroTimer {
        PomodoroTimer {
            state: TimerState::Idle,
            paused: false,
            remaining_ms: 0,
            cycle_position: 0,
            last_tick: None,
        }
    }

    /// The state after `start`: a fresh first work lap with the clock armed.
    pub open spec fn spec_start(now_ms: u64) -> PomodoroTimer {
        PomodoroTimer {
            state: TimerState::Work { lap: 1 },
            paused: false,
            remaining_ms: WORK_DURATION_MS,
            cycle_position: 0,
            last_tick: Some(now_ms),
        }
    }

    /// The transition table: lap steps within a phase, short breaks between
    /// work phases, a long break after `CYCLE_WORK_PHASES` completed work
    /// phases, and `Idle` behaving like `start`. Always leaves the result
    /// unpaused with a full countdown and the clock re-armed.
    pub open spec fn spec_advance(self, now_ms: u64) -> PomodoroTimer {
        match self.state {
            TimerState::Idle => Self::spec_start(now_ms),
            TimerState::Work { lap } => {
                if lap < WORK_LAPS {
                    PomodoroTimer {
                        state: TimerState::Work { lap: (lap + 1) as u8 },
                        paused: false,
                        remaining_ms: WORK_DURATION_MS,
                        last_tick: Some(now_ms),
                        ..self
                    }
                } else {
                    let completed = (self.cycle_position + 1) as u8;
                    if completed >= CYCLE_WORK_PHASES {
                        PomodoroTimer {
                            state: TimerState::LongBreak,
                            paused: false,
                            remaining_ms: LONG_BREAK_DURATION_MS,
                            cycle_position: completed,
                            last_tick: Some(now_ms),
                        }
                    } else {
                        PomodoroTimer {
                            state: TimerState::ShortBreak { lap: 1 },
                            paused: false,
                            remaining_ms: SHORT_BREAK_DURATION_MS,
                            cycle_position: completed,
                            last_tick: Some(now_ms),
                        }
                    }
                }
            }
            TimerState::ShortBreak { lap } => {
                if lap < SHORT_BREAK_LAPS {
                    PomodoroTimer {
                        state: TimerState::ShortBreak { lap: (lap + 1) as u8 },
                        paused: false,
                        remaining_ms: SHORT_BREAK_DURATION_MS,
                        last_tick: Some(now_ms),
                        ..self
                    }
                } else {
                    PomodoroTimer {
                        state: TimerState::Work { lap: 1 },
                        paused: false,
                        remaining_ms: WORK_DURATION_MS,
                        last_tick: Some(now_ms),
                        ..self
                    }
                }
            }
            TimerState::LongBreak => PomodoroTimer {
                state: TimerState::Work { lap: 1 },
                paused: false,
                remaining_ms: WORK_DURATION_MS,
                cycle_position: 0,
                last_tick: Some(now_ms),
            },
        }
    }

    /// One tick of the countdown: a no-op while idle or paused; otherwise
    /// charges exactly the elapsed wall-clock delta, advancing once when the
    /// delta exhausts the countdown.
    pub open spec fn spec_tick(self, now_ms: u64) -> PomodoroTimer {
        if self.state is Idle || self.paused {
            self
        } else {
            match self.last_tick {
                Some(last) => {
                    let elapsed = elapsed_since(last, now_ms);
                    if elapsed >= self.remaining_ms {
                        (PomodoroTimer { remaining_ms: 0, ..self }).spec_advance(now_ms)
                    } else {
                        PomodoroTimer {
                            remaining_ms: (self.remaining_ms - elapsed) as u64,
                            last_tick: Some(now_ms),
                            ..self
                        }
                    }
                }
                None => self,
            }
        }
    }

    /// Pausing freezes the countdown and disarms the clock; resuming re-arms
    /// it at the current instant, so no time is charged while paused.
    pub open spec fn spec_toggle_pause(self, now_ms: u64) -> PomodoroTimer {
        if self.paused {
            PomodoroTimer { paused: false, last_tick: Some(now_ms), ..self }
        } else if self.state is Idle {
            self
        } else {
            PomodoroTimer { paused: true, last_tick: None, ..self }
        }
    }

    /// Resetting keeps the phase kind but returns to lap 1 with a full
    /// countdown, unpaused; a no-op while idle.
    pub open spec fn spec_reset_current_session(self, now_ms: u64) -> PomodoroTimer {
        match self.state {
            TimerState::Idle => self,
            TimerState::Work { .. } => PomodoroTimer {
                state: TimerState::Work { lap: 1 },
                paused: false,
                remaining_ms: WORK_DURATION_MS,
                last_tick: Some(now_ms),
                ..self
            },
            TimerState::ShortBreak { .. } => PomodoroTimer {
                state: TimerState::ShortBreak { lap: 1 },
                paused: false,
                remaining_ms: SHORT_BREAK_DURATION_MS,
                last_tick: Some(now_ms),
                ..self
            },
            TimerState::LongBreak => PomodoroTimer {
                state: TimerState::LongBreak,
                paused: false,
                remaining_ms: LONG_BREAK_DURATION_MS,
                last_tick: Some(now_ms),
                ..self
            },
        }
    }

    /// Fraction of the current phase already elapsed, in thousandths:
    /// 0 at phase start, 1000 exactly when the countdown reaches 0.
    pub open spec fn spec_progress_permille(self) -> u32 {
        if self.state is Idle {
            0
        } else {
            let total = full_duration_ms(self.state) as int;
            (((total - self.remaining_ms) * 1000) / total) as u32
        }
    }

    pub fn new() -> (r: Self)
        ensures
            r == Self::spec_new(),
            r.wf(),
    {
        PomodoroTimer {
            state: TimerState::Idle,
            paused: false,
            remaining_ms: 0,
            cycle_position: 0,
            last_tick: None,
        }
    }

    pub fn start(&mut self, now_ms: u64)
        ensures
            *final(self) == Self::spec_start(now_ms),
            final(self).wf(),
    {
        self.state = TimerState::Work { lap: 1 };
        self.paused = false;
        self.remaining_ms = WORK_DURATION_MS;
        self.cycle_position = 0;
        self.last_tick = Some(now_ms);
    }

    /// What `advance_state` needs of its input: everything `wf` says except
    /// the countdown bounds, which the transition overwrites anyway. `tick`
    /// advances from a transient state whose countdown has just reached 0.
    pub open spec fn advance_ready(self) -> bool {
        &&& state_wf(self.state)
        &&& self.cycle_position <= CYCLE_WORK_PHASES
        &&& ((self.state is Work || self.state is ShortBreak) ==> self.cycle_position
            < CYCLE_WORK_PHASES)
    }

    pub fn advance_state(&mut self, now_ms: u64)
        requires
            old(self).advance_ready(),
        ensures
            *final(self) == old(self).spec_advance(now_ms),
            final(self).wf(),
    {
        match self.state {
            TimerState::Idle => {
                self.start(now_ms);
            }
            TimerState::Work { lap } => {
                if lap < WORK_LAPS {
                    self.state = TimerState::Work { lap: lap + 1 };
                    self.remaining_ms = WORK_DURATION_MS;
                } else {
                    let completed = self.cycle_position + 1;
                    self.cycle_position = completed;
                    if completed >= CYCLE_WORK_PHASES {
                        self.state = TimerState::LongBreak;
                        self.remaining_ms = LONG_BREAK_DURATION_MS;
                    } else {
                        self.state = TimerState::ShortBreak { lap: 1 };
                        self.remaining_ms = SHORT_BREAK_DURATION_MS;
                    }
                }
                self.paused = false;
                self.last_tick = Some(now_ms);
            }
            TimerState::ShortBreak { lap } => {
                if lap < SHORT_BREAK_LAPS {
                    self.state = TimerState::ShortBreak { lap: lap + 1 };
                    self.remaining_ms = SHORT_BREAK_DURATION_MS;
                } else {
                    self.state = TimerState::Work { lap: 1 };
                    self.remaining_ms = WORK_DURATION_MS;
                }
                self.paused = false;
                self.last_tick = Some(now_ms);
            }
            TimerState::LongBreak => {
                self.state = TimerState::Work { lap: 1 };
                self.remaining_ms = WORK_DURATION_MS;
                self.cycle_position = 0;
                self.paused = false;
                self.last_tick = Some(now_ms);
            }
        }
    }

    pub fn tick(&mut self, now_ms: u64)
        requires
            old(self).wf(),
        ensures
            *final(self) == old(self).spec_tick(now_ms),
            final(self).wf(),
    {
        match self.state {
            TimerState::Idle => {
                return;
            }
            _ => {}
        }
        if self.paused {
            return;
        }
        if let Some(last) = self.last_tick {
            let elapsed = if now_ms >= last { now_ms - last } else { 0 };
            if elapsed >= self.remaining_ms {
                self.remaining_ms = 0;
                self.advance_state(now_ms);
            } else {
                self.remaining_ms = self.remaining_ms - elapsed;
                self.last_tick = Some(now_ms);
            }
        }
    }

    pub fn toggle_pause(&mut self, now_ms: u64)
        requires
            old(self).wf(),
        ensures
            *final(self) == old(self).spec_toggle_pause(now_ms),
            final(self).wf(),
    {
        if self.paused {
            self.paused = false;
            self.last_tick = Some(now_ms);
        } else {
            match self.state {
                TimerState::Idle => {}
                _ => {
                    self.paused = true;
                    self.last_tick = None;
                }
            }
        }
    }

    pub fn reset_current_session(&mut self, now_ms: u64)
        requires
            old(self).wf(),
        ensures
            *final(self) == old(self).spec_reset_current_session(now_ms),
            final(self).wf(),
    {
        match self.state {
            TimerState::Idle => {}
            TimerState::Work { .. } => {
                self.state = TimerState::Work { lap: 1 };
                self.remaining_ms = WORK_DURATION_MS;
                self.paused = false;
                self.last_tick = Some(now_ms);
            }
            TimerState::ShortBreak { .. } => {
                self.state = TimerState::ShortBreak { lap: 1 };
                self.remaining_ms = SHORT_BREAK_DURATION_MS;
                self.paused = false;
                self.last_tick = Some(now_ms);
            }
            TimerState::LongBreak => {
                self.state = TimerState::LongBreak;
                self.remaining_ms = LONG_BREAK_DURATION_MS;
                self.paused = false;
                self.last_tick = Some(now_ms);
            }
        }
    }

    /// Lap currently shown: the phase's lap counter, 0 when the phase has
    /// no laps (idle or a long break).
    pub fn current_lap(&self) -> (r: u8)
        ensures
            r == (match self.state {
                TimerState::Work { lap } => lap,
                TimerState::ShortBreak { lap } => lap,
                TimerState::Idle => 0u8,
                TimerState::LongBreak => 0u8,
            }),
    {
        match self.state {
            TimerState::Work { lap } => lap,
            TimerState::ShortBreak { lap } => lap,
            _ => 0,
        }
    }

    /// Total laps of the current phase kind; 0 when the phase has no laps.
    pub fn total_laps(&self) -> (r: u8)
        ensures
            r == (match self.state {
                TimerState::Work { .. } => WORK_LAPS,
                TimerState::ShortBreak { .. } => SHORT_BREAK_LAPS,
                TimerState::Idle => 0u8,
                TimerState::LongBreak => 0u8,
            }),
    {
        match self.state {
            TimerState::Work { .. } => WORK_LAPS,
            TimerState::ShortBreak { .. } => SHORT_BREAK_LAPS,
            _ => 0,
        }
    }

    pub fn is_paused(&self) -> (r: bool)
        ensures
            r == self.paused,
    {
        self.paused
    }

    /// Human-readable name of the current phase, with a paused marker.
    pub fn session_name(&self) -> (r: &'static str)
        ensures
            !self.paused && self.state is Idle ==> r@ == "Idle"@,
            !self.paused && self.state is Work ==> r@ == "Work"@,
            !self.paused && self.state is ShortBreak ==> r@ == "Short Break"@,
            !self.paused && self.state is LongBreak ==> r@ == "Long Break"@,
            self.paused && self.state is Work ==> r@ == "Work (Paused)"@,
            self.paused && self.state is ShortBreak ==> r@ == "Short Break (Paused)"@,
            self.paused && self.state is LongBreak ==> r@ == "Long Break (Paused)"@,
    {
        if self.paused {
            match self.state {
                TimerState::Work { .. } => "Work (Paused)",
                TimerState::ShortBreak { .. } => "Short Break (Paused)",
                TimerState::LongBreak => "Long Break (Paused)",
                TimerState::Idle => "Paused",
            }
        } else {
            match self.state {
                TimerState::Idle => "Idle",
                TimerState::Work { .. } => "Work",
                TimerState::ShortBreak { .. } => "Short Break",
                TimerState::LongBreak => "Long Break",
            }
        }
    }

    /// Progress through the current phase in thousandths, clamped to
    /// [0, 1000]; 0 while idle.
    pub fn session_progress(&self) -> (r: u32)
        requires
            self.wf(),
        ensures
            r == self.spec_progress_permille(),
            r <= 1000,
            !(self.state is Idle) ==> (r == 1000 <==> self.remaining_ms == 0),
            !(self.state is Idle) && self.remaining_ms == full_duration_ms(self.state) ==> r
                == 0,
    {
        match self.state {
            TimerState::Idle => 0,
            _ => {
                let total = match self.state {
                    TimerState::Work { .. } => WORK_DURATION_MS,
                    TimerState::ShortBreak { .. } => SHORT_BREAK_DURATION_MS,
                    TimerState::LongBreak => LONG_BREAK_DURATION_MS,
                    TimerState::Idle => 1,
                };
                proof {
                    lemma_permille_bounds(total as int, self.remaining_ms as int);
                }
                let r = (((total - self.remaining_ms) * 1000) / total) as u32;
                r
            }
        }
    }

    /// One whole-value picture of the clock, for the status file.
    pub fn snapshot(&self) -> (r: TimerSnapshot)
        requires
            self.wf(),
        ensures
            r.state == self.state,
            r.remaining_secs == self.remaining_ms / 1000,
            r.session_progress_permille == self.spec_progress_permille(),
            r.is_paused == self.paused,
            r.cycle_position == self.cycle_position,
            !self.paused && self.state is Idle ==> r.session_name@ == "Idle"@,
            !self.paused && self.state is Work ==> r.session_name@ == "Work"@,
            !self.paused && self.state is ShortBreak ==> r.session_name@ == "Short Break"@,
            !self.paused && self.state is LongBreak ==> r.session_name@ == "Long Break"@,
            self.paused && self.state is Work ==> r.session_name@ == "Work (Paused)"@,
            self.paused && self.state is ShortBreak ==> r.session_name@
                == "Short Break (Paused)"@,
            self.paused && self.state is LongBreak ==> r.session_name@ == "Long Break (Paused)"@,
    {
        TimerSnapshot {
            state: self.state,
            remaining_secs: self.remaining_ms / 1000,
            session_name: String::from_str(self.session_name()),
            session_progress_permille: self.session_progress(),
            is_paused: self.paused,
            cycle_position: self.cycle_position,
        }
    }
}

} // verus!
