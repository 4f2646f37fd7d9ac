use pomowise::animation::{AnimationEngine, THEME_ROTATION_MS};
use pomowise::fonts::DigitFont;
use pomowise::themes::ThemeType;
use pomowise::timer::TimerState;

fn engine(now_ms: u64) -> AnimationEngine {
    AnimationEngine::new(now_ms, 0)
}

#[test]
fn new_engine_starts_at_frame_zero() {
    let a = engine(1_000);
    assert_eq!(a.frame_index, 0);
    assert_eq!(a.current_font, DigitFont::Block3D);
    assert_eq!(a.fps, 10);
    assert_eq!(a.current_theme, ThemeType::all()[0]);
    // the seed picks the theme deterministically
    assert_eq!(AnimationEngine::new(0, 3).current_theme, ThemeType::all()[3]);
    assert_eq!(AnimationEngine::new(0, 27).current_theme, ThemeType::all()[3]);
}

#[test]
fn frame_advances_by_at_most_one_per_call() {
    // a gap of many minutes still advances the counter by exactly one:
    // no catch-up frames
    let mut a = engine(0);
    a.tick(TimerState::Work { lap: 1 }, false, false, 600_000, 0);
    assert_eq!(a.frame_index, 1);
    a.tick(TimerState::Work { lap: 1 }, false, false, 1_200_000, 0);
    assert_eq!(a.frame_index, 2);
}

#[test]
fn frame_waits_for_the_interval() {
    let mut a = engine(0);
    // at 10 fps a frame lasts 100 ms: 50 ms is not enough
    a.tick(TimerState::Work { lap: 1 }, false, false, 50, 0);
    assert_eq!(a.frame_index, 0);
    a.tick(TimerState::Work { lap: 1 }, false, false, 100, 0);
    assert_eq!(a.frame_index, 1);
}

#[test]
fn short_break_slows_the_frame_rate() {
    let mut a = engine(0);
    // the rate drops to 5 fps as soon as a short break ticks, so a frame
    // now needs 200 ms
    a.tick(TimerState::ShortBreak { lap: 1 }, false, false, 100, 0);
    assert_eq!(a.fps, 5);
    assert_eq!(a.frame_index, 0);
    a.tick(TimerState::ShortBreak { lap: 1 }, false, false, 200, 0);
    assert_eq!(a.frame_index, 1);
    a.tick(TimerState::ShortBreak { lap: 1 }, false, false, 250, 0);
    assert_eq!(a.frame_index, 1);
    a.tick(TimerState::ShortBreak { lap: 1 }, false, false, 400, 0);
    assert_eq!(a.frame_index, 2);
    // a paused short break runs at the normal rate again
    a.tick(TimerState::ShortBreak { lap: 1 }, true, false, 450, 0);
    assert_eq!(a.fps, 10);
    assert_eq!(a.frame_index, 2);
}

#[test]
fn frame_rate_is_recomputed_on_every_call() {
    let mut a = engine(0);
    a.tick(TimerState::ShortBreak { lap: 1 }, false, false, 200, 0);
    assert_eq!(a.fps, 5);
    assert_eq!(a.frame_index, 1);
    // a call with zero elapsed time advances no frame, but the rate still
    // returns to the one the phase calls for
    a.tick(TimerState::Work { lap: 1 }, false, false, 200, 0);
    assert_eq!(a.fps, 10);
    assert_eq!(a.frame_index, 1);
}

#[test]
fn theme_rotation_waits_for_its_interval_and_avoids_repeats() {
    let mut a = engine(0);
    let before = a.current_theme;
    assert!(!a.should_rotate_theme(THEME_ROTATION_MS - 1));
    a.tick(TimerState::Work { lap: 1 }, false, true, THEME_ROTATION_MS - 1, 0);
    assert_eq!(a.current_theme, before);
    assert!(a.should_rotate_theme(THEME_ROTATION_MS));
    a.tick(TimerState::Work { lap: 1 }, false, true, THEME_ROTATION_MS, 0);
    assert_ne!(a.current_theme, before);
    // with rotation off the timer may expire without a change
    let mut locked = engine(0);
    locked.tick(TimerState::Work { lap: 1 }, false, false, 10 * THEME_ROTATION_MS, 0);
    assert_eq!(locked.current_theme, before);
}

#[test]
fn rotate_theme_never_returns_the_current_theme() {
    for seed in 0..48u64 {
        for &current in ThemeType::all().iter() {
            let mut a = engine(0);
            a.set_theme(current, 0);
            a.rotate_theme(seed, 1_000);
            assert_ne!(a.current_theme, current, "seed {}", seed);
        }
    }
}

#[test]
fn reset_restarts_frames_but_keeps_the_theme() {
    let mut a = engine(0);
    a.set_theme(ThemeType::Ocean, 0);
    a.tick(TimerState::Work { lap: 1 }, false, false, 100, 0);
    assert_eq!(a.frame_index, 1);
    a.reset(200);
    assert_eq!(a.frame_index, 0);
    assert_eq!(a.current_theme, ThemeType::Ocean);
}

#[test]
fn fonts_cycle_and_set() {
    let mut a = engine(0);
    a.next_font();
    assert_eq!(a.current_font, DigitFont::Outlined);
    a.set_font(DigitFont::LCD);
    assert_eq!(a.current_font, DigitFont::LCD);
}

#[test]
fn theme_catalogue_is_distinct_and_named() {
    let all = ThemeType::all();
    assert_eq!(all.len(), 24);
    for i in 0..all.len() {
        assert_eq!(ThemeType::index_of(all[i]), i);
        for j in 0..i {
            assert_ne!(all[i], all[j]);
        }
    }
    assert_eq!(ThemeType::Matrix.name(), "Matrix Rain");
    assert_eq!(ThemeType::Synthwave.name(), "Synthwave");
}

#[test]
fn theme_palettes_are_exact() {
    let m = ThemeType::Matrix.primary_color();
    assert_eq!((m.r, m.g, m.b), (0, 255, 65));
    let s = ThemeType::Ocean.secondary_color();
    assert_eq!((s.r, s.g, s.b), (30, 80, 120));
    let b = ThemeType::GitHub.background_color();
    assert_eq!((b.r, b.g, b.b), (13, 17, 23));
    assert_eq!(ThemeType::Ocean.font(), DigitFont::Block3D);
}

#[test]
fn pick_is_seed_modulo_catalogue() {
    let all = ThemeType::all();
    assert_eq!(ThemeType::pick(0), all[0]);
    assert_eq!(ThemeType::pick(23), all[23]);
    assert_eq!(ThemeType::pick(24), all[0]);
    // a colliding pick steps one entry onward
    assert_eq!(ThemeType::pick_except(0, all[0]), all[1]);
    assert_eq!(ThemeType::pick_except(0, all[1]), all[0]);
    assert_eq!(ThemeType::pick_except(23, all[23]), all[0]);
}
