//! The application state: which screen is showing, the session clock, the
//! animation clock, the theme picker overlay, and the per-tick glue that
//! binds them. The outer event loop reads keys and the terminal size,
//! calls one method per event, and renders from the fields.

use vstd::prelude::*;

use crate::animation::AnimationEngine;
use crate::scaling::ScalingContext;
use crate::themes::ThemeType;
use crate::timer::{same_kind, states_same_kind, PomodoroTimer, TimerState};

verus! {

/// Which screen the application is showing.
#[derive(Clone, Copy, Debug, PartialEq, Eq, Structural)]
pub enum AppScreen {
    Menu,
    Timer,
}

/// The entries of the start menu.
#[derive(Clone, Copy, Debug, PartialEq, Eq, Structural)]
pub enum MenuItem {
    Start,
    Quit,
}

/// The whole application state.
pub struct App {
    pub screen: AppScreen,
    pub menu_selection: MenuItem,
    pub timer: PomodoroTimer,
    pub animation: AnimationEngine,
    pub should_quit: bool,
    pub theme_selector_open: bool,
    pub theme_selector_index: usize,
    pub auto_rotate: bool,
    pub hints_visible: bool,
    pub hint_flash_frames: u32,
    pub scaling: ScalingContext,
    pub adaptive_font: bool,
}

/// The desktop notification owed after a timer tick: when the tick ended a
/// phase (never while idle or paused, and a lap step within the same kind
/// of phase is no ending), the name of the phase kind that ended.
pub open spec fn spec_notification(prev: PomodoroTimer, next: PomodoroTimer) -> Option<
    &'static str,
> {
    if !next.paused && !(next.state is Idle) && !same_kind(prev.state, next.state) {
        match prev.state {
            TimerState::Work { .. } => Some("Work session"),
            TimerState::ShortBreak { .. } => Some("Short break"),
            TimerState::LongBreak => Some("Long break"),
            TimerState::Idle => None,
        }
    } else {
        None
    }
}

impl App {
    /// Every component invariant, and the picker index inside the theme
    /// catalogue.
    pub open spec fn wf(self) -> bool {
        &&& self.timer.wf()
        &&& self.animation.wf()
        &&& self.scaling.wf()
        &&& self.theme_selector_index < 24
    }

    /// A fresh application on the menu screen, sized to the terminal, with
    /// an idle timer and a seeded theme.
    pub fn new(width: u16, height: u16, now_ms: u64, seed: u64) -> (r: Self)
        ensures
            r.wf(),
            r.screen is Menu,
            r.menu_selection is Start,
            r.timer == PomodoroTimer::spec_new(),
            r.animation == AnimationEngine::spec_new(now_ms, seed),
            !r.should_quit,
            !r.theme_selector_open,
            r.theme_selector_index == 0,
            r.auto_rotate,
            r.hints_visible,
            r.hint_flash_frames == 0,
            r.scaling.width == width,
            r.scaling.height == height,
            r.adaptive_font,
    {
        App {
            screen: AppScreen::Menu,
            menu_selection: MenuItem::Start,
            timer: PomodoroTimer::new(),
            animation: AnimationEngine::new(now_ms, seed),
            should_quit: false,
            theme_selector_open: false,
            theme_selector_index: 0,
            auto_rotate: true,
            hints_visible: true,
            hint_flash_frames: 0,
            scaling: ScalingContext::new(width, height),
            adaptive_font: true,
        }
    }

    /// A resize: replace the scaling context wholesale, and adopt its
    /// recommended font when the adaptive mode is on.
    pub fn update_dimensions(&mut self, width: u16, height: u16)
        requires
            old(self).wf(),
        ensures
            final(self).wf(),
            *final(self) == (App {
                scaling: ScalingContext::spec_new(width, height),
                animation: if old(self).adaptive_font {
                    AnimationEngine {
                        current_font: ScalingContext::spec_new(width, height).recommended_font,
                        ..old(self).animation
                    }
                } else {
                    old(self).animation
                },
                ..*old(self)
            }),
    {
        self.scaling = ScalingContext::new(width, height);
        if self.adaptive_font {
            self.animation.current_font = self.scaling.recommended_font;
        }
    }

    /// Toggle the adaptive font mode; switching it on adopts the scaling
    /// context's recommendation at once.
    pub fn toggle_adaptive_font(&mut self)
        requires
            old(self).wf(),
        ensures
            final(self).wf(),
            *final(self) == (App {
                adaptive_font: !old(self).adaptive_font,
                animation: if !old(self).adaptive_font {
                    AnimationEngine {
                        current_font: old(self).scaling.recommended_font,
                        ..old(self).animation
                    }
                } else {
                    old(self).animation
                },
                ..*old(self)
            }),
    {
        self.adaptive_font = !self.adaptive_font;
        if self.adaptive_font {
            self.animation.current_font = self.scaling.recommended_font;
        }
    }

    pub fn menu_up(&mut self)
        ensures
            *final(self) == (App { menu_selection: MenuItem::Start, ..*old(self) }),
    {
        self.menu_selection = MenuItem::Start;
    }

    pub fn menu_down(&mut self)
        ensures
            *final(self) == (App { menu_selection: MenuItem::Quit, ..*old(self) }),
    {
        self.menu_selection = MenuItem::Quit;
    }

    /// Confirm the menu selection. Starting moves to the timer screen with
    /// a fresh work phase and a restarted frame counter; the result is
    /// false exactly when the application should quit.
    pub fn menu_select(&mut self, now_ms: u64) -> (keep_running: bool)
        requires
            old(self).wf(),
        ensures
            final(self).wf(),
            keep_running == (old(self).menu_selection is Start),
            old(self).menu_selection is Start ==> *final(self) == (App {
                screen: AppScreen::Timer,
                timer: PomodoroTimer::spec_start(now_ms),
                animation: AnimationEngine {
                    frame_index: 0,
                    last_frame_time: now_ms,
                    ..old(self).animation
                },
                ..*old(self)
            }),
            old(self).menu_selection is Quit ==> *final(self) == *old(self),
    {
        match self.menu_selection {
            MenuItem::Start => {
                self.screen = AppScreen::Timer;
                self.timer.start(now_ms);
                self.animation.reset(now_ms);
                true
            }
            MenuItem::Quit => false,
        }
    }

    pub fn toggle_pause(&mut self, now_ms: u64)
        requires
            old(self).wf(),
        ensures
            final(self).wf(),
            *final(self) == (App {
                timer: old(self).timer.spec_toggle_pause(now_ms),
                ..*old(self)
            }),
    {
        self.timer.toggle_pause(now_ms);
    }

    /// Reset the running phase to lap 1 and a full countdown; the frame
    /// counter restarts but the theme survives, by design.
    pub fn reset_session(&mut self, now_ms: u64)
        requires
            old(self).wf(),
        ensures
            final(self).wf(),
            *final(self) == (App {
                timer: old(self).timer.spec_reset_current_session(now_ms),
                animation: AnimationEngine {
                    frame_index: 0,
                    last_frame_time: now_ms,
                    ..old(self).animation
                },
                ..*old(self)
            }),
    {
        self.timer.reset_current_session(now_ms);
        self.animation.reset(now_ms);
    }

    /// Back to the menu: the session clock is discarded wholesale, the
    /// animation keeps its theme.
    pub fn quit_to_menu(&mut self, now_ms: u64)
        requires
            old(self).wf(),
        ensures
            final(self).wf(),
            *final(self) == (App {
                screen: AppScreen::Menu,
                timer: PomodoroTimer::spec_new(),
                animation: AnimationEngine {
                    frame_index: 0,
                    last_frame_time: now_ms,
                    ..old(self).animation
                },
                ..*old(self)
            }),
    {
        self.screen = AppScreen::Menu;
        self.timer = PomodoroTimer::new();
        self.animation.reset(now_ms);
    }

    /// Skip to the next lap or phase, and force a theme change regardless
    /// of the rotation timer.
    pub fn skip_to_next(&mut self, now_ms: u64, seed: u64)
        requires
            old(self).wf(),
        ensures
            final(self).wf(),
            *final(self) == (App {
                timer: old(self).timer.spec_advance(now_ms),
                animation: old(self).animation.spec_rotate(seed, now_ms),
                ..*old(self)
            }),
            final(self).animation.current_theme != old(self).animation.current_theme,
    {
        self.timer.advance_state(now_ms);
        self.animation.rotate_theme(seed, now_ms);
    }

    /// Open or close the theme picker; opening points it at the current
    /// theme.
    pub fn toggle_theme_selector(&mut self)
        requires
            old(self).wf(),
        ensures
            final(self).wf(),
            *final(self) == (App {
                theme_selector_open: !old(self).theme_selector_open,
                theme_selector_index: final(self).theme_selector_index,
                ..*old(self)
            }),
            final(self).theme_selector_open ==> ThemeType::spec_all()[final(self).theme_selector_index as int] == old(self).animation.current_theme,
            !final(self).theme_selector_open ==> final(self).theme_selector_index == old(self).theme_selector_index,
    {
        self.theme_selector_open = !self.theme_selector_open;
        if self.theme_selector_open {
            self.theme_selector_index = ThemeType::index_of(self.animation.current_theme);
        }
    }

    /// Move the picker up one entry, wrapping, and preview that theme.
    pub fn theme_selector_up(&mut self, now_ms: u64)
        requires
            old(self).wf(),
        ensures
            final(self).wf(),
            *final(self) == (App {
                theme_selector_index: (if old(self).theme_selector_index > 0 {
                    (old(self).theme_selector_index - 1) as usize
                } else {
                    23usize
                }),
                animation: AnimationEngine {
                    current_theme: ThemeType::spec_all()[final(self).theme_selector_index as int],
                    last_theme_change: now_ms,
                    ..old(self).animation
                },
                ..*old(self)
            }),
    {
        if self.theme_selector_index > 0 {
            self.theme_selector_index = self.theme_selector_index - 1;
        } else {
            self.theme_selector_index = 23;
        }
        let themes = ThemeType::all();
        let theme = themes[self.theme_selector_index];
        self.animation.set_theme(theme, now_ms);
    }

    /// Move the picker down one entry, wrapping, and preview that theme.
    pub fn theme_selector_down(&mut self, now_ms: u64)
        requires
            old(self).wf(),
        ensures
            final(self).wf(),
            *final(self) == (App {
                theme_selector_index: ((old(self).theme_selector_index + 1) % 24) as usize,
                animation: AnimationEngine {
                    current_theme: ThemeType::spec_all()[final(self).theme_selector_index as int],
                    last_theme_change: now_ms,
                    ..old(self).animation
                },
                ..*old(self)
            }),
    {
        self.theme_selector_index = (self.theme_selector_index + 1) % 24;
        let themes = ThemeType::all();
        let theme = themes[self.theme_selector_index];
        self.animation.set_theme(theme, now_ms);
    }

    /// Confirm the previewed theme and close the picker.
    pub fn theme_selector_confirm(&mut self, now_ms: u64)
        requires
            old(self).wf(),
        ensures
            final(self).wf(),
            *final(self) == (App {
                theme_selector_open: false,
                animation: AnimationEngine {
                    current_theme: ThemeType::spec_all()[old(self).theme_selector_index as int],
                    last_theme_change: now_ms,
                    ..old(self).animation
                },
                ..*old(self)
            }),
    {
        let themes = ThemeType::all();
        let theme = themes[self.theme_selector_index];
        self.animation.set_theme(theme, now_ms);
        self.theme_selector_open = false;
    }

    /// Close the picker; the theme previewed while navigating stays.
    pub fn theme_selector_cancel(&mut self)
        ensures
            *final(self) == (App { theme_selector_open: false, ..*old(self) }),
    {
        self.theme_selector_open = false;
    }

    pub fn toggle_auto_rotate(&mut self)
        ensures
            *final(self) == (App { auto_rotate: !old(self).auto_rotate, ..*old(self) }),
    {
        self.auto_rotate = !self.auto_rotate;
    }

    /// Toggle the zen display; hiding the hints flashes a short reminder
    /// for about two seconds of frames.
    pub fn toggle_hints(&mut self)
        ensures
            *final(self) == (App {
                hints_visible: !old(self).hints_visible,
                hint_flash_frames: (if old(self).hints_visible {
                    20u32
                } else {
                    old(self).hint_flash_frames
                }),
                ..*old(self)
            }),
    {
        self.hints_visible = !self.hints_visible;
        if !self.hints_visible {
            self.hint_flash_frames = 20;
        }
    }

    /// One pass of the outer loop: tick the animation always (the menu
    /// previews it too), count the hint flash down, and on the timer
    /// screen tick the session clock. The result names the phase kind
    /// that ended on this tick, if any, for the notification dispatcher.
    pub fn tick(&mut self, now_ms: u64, seed: u64) -> (r: Option<&'static str>)
        requires
            old(self).wf(),
        ensures
            final(self).wf(),
            final(self).animation == old(self).animation.spec_tick(
                old(self).timer.state,
                old(self).timer.paused,
                old(self).auto_rotate,
                now_ms,
                seed,
            ),
            final(self).hint_flash_frames == (if old(self).hint_flash_frames > 0 {
                old(self).hint_flash_frames - 1
            } else {
                0int
            }),
            *final(self) == (App {
                animation: old(self).animation.spec_tick(
                    old(self).timer.state,
                    old(self).timer.paused,
                    old(self).auto_rotate,
                    now_ms,
                    seed,
                ),
                timer: if old(self).screen is Timer {
                    old(self).timer.spec_tick(now_ms)
                } else {
                    old(self).timer
                },
                hint_flash_frames: (if old(self).hint_flash_frames > 0 {
                    (old(self).hint_flash_frames - 1) as u32
                } else {
                    0u32
                }),
                ..*old(self)
            }),
            r == (if old(self).screen is Timer {
                spec_notification(old(self).timer, old(self).timer.spec_tick(now_ms))
            } else {
                Option::<&'static str>::None
            }),
    {
        self.animation.tick(self.timer.state, self.timer.paused, self.auto_rotate, now_ms, seed);

        if self.hint_flash_frames > 0 {
            self.hint_flash_frames = self.hint_flash_frames - 1;
        }

        match self.screen {
            AppScreen::Menu => None,
            AppScreen::Timer => {
                let prev_state = self.timer.state;
                self.timer.tick(now_ms);

                if !self.timer.is_paused() && !matches!(self.timer.state, TimerState::Idle)
                    && !states_same_kind(prev_state, self.timer.state) {
                    match prev_state {
                        TimerState::Work { .. } => Some("Work session"),
                        TimerState::ShortBreak { .. } => Some("Short break"),
                        TimerState::LongBreak => Some("Long break"),
                        TimerState::Idle => None,
                    }
                } else {
                    None
                }
            }
        }
    }
}

} // verus!
