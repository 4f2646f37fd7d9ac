//! The animation clock: a frame-coalescing counter that advances at most
//! one frame per call whatever the real elapsed time, a per-phase frame
//! rate, and timed rotation of the active theme. The frame index is the
//! only clock the background renderers ever observe.

use vstd::prelude::*;

use crate::fonts::DigitFont;
use crate::themes::ThemeType;
use crate::timer::{elapsed_since, TimerState};

verus! {

/// How long a theme stays before automatic rotation (2.5 minutes).
pub const THEME_ROTATION_MS: u64 = 150 * 1000;

/// Frame rate while a short break is running: slower, calmer animation.
pub const BREAK_FPS: u8 = 5;
/// Frame rate in every other phase.
pub const NORMAL_FPS: u8 = 10;

/// The animation state: frame counter, active theme and font, the instants
/// of the last frame advance and the last theme change, and the current
/// target frame rate.
pub struct AnimationEngine {
    pub frame_index: usize,
    pub current_theme: ThemeType,
    pub current_font: DigitFont,
    pub last_frame_time: u64,
    pub last_theme_change: u64,
    pub fps: u8,
}

impl AnimationEngine {
    /// The target frame rate is always one of the two phase rates.
    pub open spec fn wf(self) -> bool {
        self.fps == BREAK_FPS || self.fps == NORMAL_FPS
    }

    /// The frame counter after one advance; it wraps rather than overflow.
    pub open spec fn spec_wrap_inc(i: usize) -> usize {
        if i == usize::MAX {
            0
        } else {
            (i + 1) as usize
        }
    }

    /// Milliseconds between frames at the current target rate.
    pub open spec fn spec_frame_interval_ms(self) -> u64 {
        (1000 as u64 / self.fps as u64) as u64
    }

    /// The frame rate the session phase calls for: slower during a running
    /// short break.
    pub open spec fn spec_fps_for(state: TimerState, is_paused: bool) -> u8 {
        if state is ShortBreak && !is_paused {
            BREAK_FPS
        } else {
            NORMAL_FPS
        }
    }

    /// A fresh engine: frame counter at zero, the seeded theme, the default
    /// font, and both timers armed at `now_ms`.
    pub open spec fn spec_new(now_ms: u64, seed: u64) -> AnimationEngine {
        AnimationEngine {
            frame_index: 0,
            current_theme: ThemeType::spec_all()[(seed % 24) as int],
            current_font: DigitFont::Block3D,
            last_frame_time: now_ms,
            last_theme_change: now_ms,
            fps: NORMAL_FPS,
        }
    }

    /// A theme rotation: the seeded pick that avoids the current theme, and
    /// a fresh rotation timer.
    pub open spec fn spec_rotate(self, seed: u64, now_ms: u64) -> AnimationEngine {
        AnimationEngine {
            current_theme: ThemeType::spec_pick_except(seed, self.current_theme),
            last_theme_change: now_ms,
            ..self
        }
    }

    /// One clock tick: the target rate is recomputed from the session phase
    /// on every call, never left over from an earlier phase; then, once a
    /// frame interval at that rate has elapsed, the frame counter advances
    /// by exactly one -- never more, however large the gap; and the theme
    /// rotates if rotation is on and due.
    pub open spec fn spec_tick(
        self,
        state: TimerState,
        is_paused: bool,
        auto_rotate: bool,
        now_ms: u64,
        seed: u64,
    ) -> AnimationEngine {
        let paced = AnimationEngine { fps: Self::spec_fps_for(state, is_paused), ..self };
        let stepped = if elapsed_since(paced.last_frame_time, now_ms)
            >= paced.spec_frame_interval_ms() {
            AnimationEngine {
                frame_index: Self::spec_wrap_inc(paced.frame_index),
                last_frame_time: now_ms,
                ..paced
            }
        } else {
            paced
        };
        if auto_rotate && elapsed_since(stepped.last_theme_change, now_ms)
            >= THEME_ROTATION_MS {
            stepped.spec_rotate(seed, now_ms)
        } else {
            stepped
        }
    }

    pub fn new(now_ms: u64, seed: u64) -> (r: Self)
        ensures
            r == Self::spec_new(now_ms, seed),
            r.wf(),
    {
        AnimationEngine {
            frame_index: 0,
            current_theme: ThemeType::pick(seed),
            current_font: DigitFont::Block3D,
            last_frame_time: now_ms,
            last_theme_change: now_ms,
            fps: NORMAL_FPS,
        }
    }

    /// Restart the frame counter; the active theme deliberately survives a
    /// session reset.
    pub fn reset(&mut self, now_ms: u64)
        ensures
            *final(self) == (AnimationEngine {
                frame_index: 0,
                last_frame_time: now_ms,
                ..*old(self)
            }),
    {
        self.frame_index = 0;
        self.last_frame_time = now_ms;
    }

    /// One clock tick. The target rate is recomputed from the session phase
    /// on every call, and the frame counter advances by at most one per
    /// call, regardless of how much real time has passed: there are no
    /// catch-up frames.
    pub fn tick(
        &mut self,
        state: TimerState,
        is_paused: bool,
        auto_rotate: bool,
        now_ms: u64,
        seed: u64,
    )
        requires
            old(self).wf(),
        ensures
            *final(self) == old(self).spec_tick(state, is_paused, auto_rotate, now_ms, seed),
            final(self).wf(),
            final(self).fps == Self::spec_fps_for(state, is_paused),
            final(self).frame_index == old(self).frame_index || final(self).frame_index
                == Self::spec_wrap_inc(old(self).frame_index),
    {
        self.fps = if is_paused {
            NORMAL_FPS
        } else {
            match state {
                TimerState::ShortBreak { .. } => BREAK_FPS,
                _ => NORMAL_FPS,
            }
        };
        let frame_interval = 1000 / (self.fps as u64);
        let elapsed = if now_ms >= self.last_frame_time {
            now_ms - self.last_frame_time
        } else {
            0
        };
        if elapsed >= frame_interval {
            self.frame_index = if self.frame_index == usize::MAX {
                0
            } else {
                self.frame_index + 1
            };
            self.last_frame_time = now_ms;
        }
        if auto_rotate && self.should_rotate_theme(now_ms) {
            self.rotate_theme(seed, now_ms);
        }
    }

    /// Whether the rotation interval has elapsed since the last theme
    /// change.
    pub fn should_rotate_theme(&self, now_ms: u64) -> (r: bool)
        ensures
            r == (elapsed_since(self.last_theme_change, now_ms) >= THEME_ROTATION_MS),
    {
        let elapsed = if now_ms >= self.last_theme_change {
            now_ms - self.last_theme_change
        } else {
            0
        };
        elapsed >= THEME_ROTATION_MS
    }

    /// Switch to a seeded theme that is never the current one, and restart
    /// the rotation timer.
    pub fn rotate_theme(&mut self, seed: u64, now_ms: u64)
        ensures
            *final(self) == old(self).spec_rotate(seed, now_ms),
            final(self).current_theme != old(self).current_theme,
            final(self).frame_index == old(self).frame_index,
    {
        self.current_theme = ThemeType::pick_except(seed, self.current_theme);
        self.last_theme_change = now_ms;
    }

    /// Force a specific theme, as the theme picker and a manual skip do,
    /// and restart the rotation timer.
    pub fn set_theme(&mut self, theme: ThemeType, now_ms: u64)
        ensures
            *final(self) == (AnimationEngine {
                current_theme: theme,
                last_theme_change: now_ms,
                ..*old(self)
            }),
    {
        self.current_theme = theme;
        self.last_theme_change = now_ms;
    }

    /// Cycle to the next digit font; independent of the theme.
    pub fn next_font(&mut self)
        ensures
            *final(self) == (AnimationEngine {
                current_font: old(self).current_font.spec_next(),
                ..*old(self)
            }),
    {
        self.current_font = self.current_font.next();
    }

    /// Set a specific digit font.
    pub fn set_font(&mut self, font: DigitFont)
        ensures
            *final(self) == (AnimationEngine { current_font: font, ..*old(self) }),
    {
        self.current_font = font;
    }
}

} // verus!
