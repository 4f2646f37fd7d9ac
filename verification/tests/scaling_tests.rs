use pomowise::fonts::DigitFont;
use pomowise::scaling::{select_font_for_size, ScalingContext, TerminalSize};

#[test]
fn test_size_categories() {
    assert_eq!(TerminalSize::from_dimensions(30, 10), TerminalSize::TooSmall);
    assert_eq!(TerminalSize::from_dimensions(50, 18), TerminalSize::Compact);
    assert_eq!(TerminalSize::from_dimensions(80, 24), TerminalSize::Medium);
    assert_eq!(TerminalSize::from_dimensions(120, 40), TerminalSize::Large);
    assert_eq!(TerminalSize::from_dimensions(200, 50), TerminalSize::ExtraLarge);
}

#[test]
fn test_font_selection() {
    // Small terminal should get small font
    let small = select_font_for_size(50, 20);
    assert!(small.height() <= 7);

    // Large terminal can use bigger font
    let large = select_font_for_size(150, 50);
    assert!(large.height() >= 9);
}

#[test]
fn size_categories_at_exact_thresholds() {
    // exactly at the minimum is not too small
    assert_eq!(TerminalSize::from_dimensions(40, 15), TerminalSize::Compact);
    // one below either minimum is
    assert_eq!(TerminalSize::from_dimensions(39, 15), TerminalSize::TooSmall);
    assert_eq!(TerminalSize::from_dimensions(40, 14), TerminalSize::TooSmall);
    // the upper bucket edges land on the larger side
    assert_eq!(TerminalSize::from_dimensions(60, 20), TerminalSize::Medium);
    assert_eq!(TerminalSize::from_dimensions(100, 30), TerminalSize::Large);
    assert_eq!(TerminalSize::from_dimensions(150, 45), TerminalSize::ExtraLarge);
    // one short of a bucket edge stays on the smaller side
    assert_eq!(TerminalSize::from_dimensions(59, 100), TerminalSize::Compact);
    assert_eq!(TerminalSize::from_dimensions(100, 29), TerminalSize::Medium);
    assert_eq!(TerminalSize::from_dimensions(149, 100), TerminalSize::Large);
}

#[test]
fn context_flags_follow_category() {
    let too_small = ScalingContext::new(30, 10);
    assert!(too_small.is_too_small());
    assert!(!too_small.show_progress_bar);
    assert!(!too_small.show_hints);
    assert!(!too_small.show_session_info);
    assert_eq!(too_small.background_detail_level, 0);

    let compact = ScalingContext::new(50, 18);
    assert!(!compact.is_too_small());
    assert!(compact.show_progress_bar);
    assert!(!compact.show_hints);
    assert_eq!(compact.recommended_font, DigitFont::Classic);
    assert_eq!(compact.background_detail_level, 1);

    let medium = ScalingContext::new(80, 24);
    assert!(medium.show_hints);
    assert!(medium.show_session_info);
    assert_eq!(medium.recommended_font, DigitFont::LCD);
    assert_eq!(medium.background_detail_level, 2);

    let large = ScalingContext::new(120, 40);
    assert_eq!(large.recommended_font, DigitFont::Block3D);
    assert_eq!(large.background_detail_level, 3);

    let extra = ScalingContext::new(200, 50);
    assert_eq!(extra.recommended_font, DigitFont::Outlined);
    assert_eq!(extra.background_detail_level, 3);
}

#[test]
fn timer_geometry() {
    let ctx = ScalingContext::new(120, 40);
    // Block3D: 7 wide digits, 3 wide colon, 4 padding; 9 tall plus 4 padding
    assert_eq!(ctx.timer_width(), 7 * 4 + 3 + 4);
    assert_eq!(ctx.timer_area_height, 9 + 4);
    assert_eq!(ctx.timer_y(), 40 * 35 / 100);
    assert_eq!(ctx.progress_bar_y(), 37);
    assert_eq!(ctx.hints_y(), 35);
}

#[test]
fn centring_rounds_down_and_clamps() {
    let ctx = ScalingContext::new(100, 31);
    assert_eq!(ctx.center_x(40), 30);
    assert_eq!(ctx.center_x(41), 29);
    assert_eq!(ctx.center_x(100), 0);
    assert_eq!(ctx.center_x(200), 0);
    assert_eq!(ctx.center_y(11), 10);
    assert_eq!(ctx.center_y(31), 0);
}

#[test]
fn proportional_scaling() {
    let ctx = ScalingContext::new(100, 50);
    assert_eq!(ctx.scale_width(30, 60), 50);
    assert_eq!(ctx.scale_height(10, 25), 20);
    // a zero reference saturates instead of dividing by zero
    assert_eq!(ctx.scale_width(30, 0), u16::MAX);
    assert_eq!(ctx.scale_height(30, 0), u16::MAX);
}

#[test]
fn category_table_and_best_fit_agree_on_shared_fixtures() {
    for (w, h) in [(50, 20), (150, 50)] {
        assert_eq!(
            ScalingContext::new(w, h).recommended_font,
            select_font_for_size(w, h),
            "at {}x{}",
            w,
            h
        );
    }
}

#[test]
fn font_selection_prefers_largest_that_fits() {
    // 40% of height 25 is 10: exactly tall enough for Isometric, whose
    // timer row (8 * 4 + 3 = 35) also fits in 60% of width 60 (36)
    assert_eq!(select_font_for_size(60, 25), DigitFont::Isometric);
    // one row shorter and the scan falls through to Block3D
    assert_eq!(select_font_for_size(60, 24), DigitFont::Block3D);
    // nothing fits in a tiny terminal: fall back to the smallest font
    assert_eq!(select_font_for_size(10, 5), DigitFont::Classic);
}
