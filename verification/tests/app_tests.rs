use pomowise::app::{App, AppScreen, MenuItem};
use pomowise::fonts::DigitFont;
use pomowise::themes::ThemeType;
use pomowise::timer::{TimerState, WORK_DURATION_MS};

fn app() -> App {
    App::new(120, 40, 0, 0)
}

#[test]
fn new_app_opens_the_menu() {
    let a = app();
    assert_eq!(a.screen, AppScreen::Menu);
    assert_eq!(a.menu_selection, MenuItem::Start);
    assert_eq!(a.timer.state, TimerState::Idle);
    assert!(!a.should_quit);
    assert!(a.auto_rotate);
    assert!(a.hints_visible);
    assert!(a.adaptive_font);
    assert_eq!(a.scaling.width, 120);
    assert_eq!(a.scaling.height, 40);
}

#[test]
fn menu_navigation_and_selection() {
    let mut a = app();
    a.menu_down();
    assert_eq!(a.menu_selection, MenuItem::Quit);
    assert!(!a.menu_select(0), "selecting Quit asks to leave");
    a.menu_up();
    assert_eq!(a.menu_selection, MenuItem::Start);
    assert!(a.menu_select(1_000));
    assert_eq!(a.screen, AppScreen::Timer);
    assert_eq!(a.timer.state, TimerState::Work { lap: 1 });
    assert_eq!(a.animation.frame_index, 0);
}

#[test]
fn resize_replaces_the_scaling_context_wholesale() {
    let mut a = app();
    assert_eq!(a.animation.current_font, DigitFont::Block3D);
    a.update_dimensions(200, 50);
    assert_eq!(a.scaling.width, 200);
    assert_eq!(a.scaling.height, 50);
    // adaptive mode adopts the new recommendation at once
    assert_eq!(a.animation.current_font, DigitFont::Outlined);

    a.toggle_adaptive_font();
    assert!(!a.adaptive_font);
    a.update_dimensions(50, 18);
    // no longer adaptive: the font stays
    assert_eq!(a.animation.current_font, DigitFont::Outlined);
    a.toggle_adaptive_font();
    assert!(a.adaptive_font);
    assert_eq!(a.animation.current_font, DigitFont::Classic);
}

#[test]
fn skip_advances_the_phase_and_forces_a_theme_change() {
    let mut a = app();
    a.menu_select(0);
    let theme_before = a.animation.current_theme;
    a.skip_to_next(1_000, 7);
    assert_eq!(a.timer.state, TimerState::Work { lap: 2 });
    assert_ne!(a.animation.current_theme, theme_before);
}

#[test]
fn theme_selector_walks_the_catalogue() {
    let mut a = app();
    let themes = ThemeType::all();
    a.animation.set_theme(themes[5], 0);
    a.toggle_theme_selector();
    assert!(a.theme_selector_open);
    assert_eq!(a.theme_selector_index, 5);
    a.theme_selector_up(0);
    assert_eq!(a.theme_selector_index, 4);
    assert_eq!(a.animation.current_theme, themes[4]);
    a.theme_selector_down(0);
    a.theme_selector_down(0);
    assert_eq!(a.theme_selector_index, 6);
    assert_eq!(a.animation.current_theme, themes[6]);
    a.theme_selector_confirm(0);
    assert!(!a.theme_selector_open);
    assert_eq!(a.animation.current_theme, themes[6]);

    // the picker wraps at both ends
    a.toggle_theme_selector();
    a.theme_selector_index = 0;
    a.theme_selector_up(0);
    assert_eq!(a.theme_selector_index, 23);
    a.theme_selector_down(0);
    assert_eq!(a.theme_selector_index, 0);
    a.theme_selector_cancel();
    assert!(!a.theme_selector_open);
}

#[test]
fn hint_toggle_flashes_a_reminder() {
    let mut a = app();
    a.toggle_hints();
    assert!(!a.hints_visible);
    assert_eq!(a.hint_flash_frames, 20);
    a.tick(0, 0);
    assert_eq!(a.hint_flash_frames, 19);
    a.toggle_hints();
    assert!(a.hints_visible);
}

#[test]
fn tick_reports_a_finished_work_phase() {
    let mut a = app();
    a.menu_select(0);
    // a lap step within the work phase is no phase ending
    a.timer.remaining_ms = 50;
    assert_eq!(a.tick(100, 0), None);
    assert_eq!(a.timer.state, TimerState::Work { lap: 2 });

    // the last lap of the last work phase of the cycle ends in a break
    a.timer.state = TimerState::Work { lap: 10 };
    a.timer.remaining_ms = 50;
    let note = a.tick(200, 0);
    assert_eq!(note, Some("Work session"));
    assert_eq!(a.timer.state, TimerState::ShortBreak { lap: 1 });

    a.timer.state = TimerState::ShortBreak { lap: 3 };
    a.timer.remaining_ms = 50;
    assert_eq!(a.tick(300, 0), Some("Short break"));
    assert_eq!(a.timer.state, TimerState::Work { lap: 1 });
}

#[test]
fn tick_on_the_menu_screen_leaves_the_timer_alone() {
    let mut a = app();
    assert_eq!(a.tick(1_000, 0), None);
    assert_eq!(a.timer.state, TimerState::Idle);
    // the animation still runs for the menu preview
    assert_eq!(a.animation.frame_index, 1);
}

#[test]
fn quit_to_menu_discards_the_session() {
    let mut a = app();
    a.menu_select(0);
    a.tick(60_000, 0);
    assert!(a.timer.remaining_ms < WORK_DURATION_MS);
    a.quit_to_menu(70_000);
    assert_eq!(a.screen, AppScreen::Menu);
    assert_eq!(a.timer.state, TimerState::Idle);
    assert_eq!(a.animation.frame_index, 0);
}

#[test]
fn pause_and_reset_pass_through() {
    let mut a = app();
    a.menu_select(0);
    a.toggle_pause(1_000);
    assert!(a.timer.is_paused());
    a.toggle_pause(2_000);
    assert!(!a.timer.is_paused());
    a.tick(60_000, 0);
    a.reset_session(60_000);
    assert_eq!(a.timer.remaining_ms, WORK_DURATION_MS);
    assert_eq!(a.animation.frame_index, 0);
}

#[test]
fn auto_rotate_toggle() {
    let mut a = app();
    assert!(a.auto_rotate);
    a.toggle_auto_rotate();
    assert!(!a.auto_rotate);
    a.toggle_auto_rotate();
    assert!(a.auto_rotate);
}
