use pomowise::fonts::{timer_dimensions, timer_dimensions_for_font, DigitFont};

#[test]
fn test_font_dimensions() {
    for font in DigitFont::all() {
        for digit in 0..10 {
            let lines = font.get_digit(digit);
            assert_eq!(
                lines.len() as u16,
                font.height(),
                "Font {:?} digit {} height mismatch",
                font,
                digit
            );
        }
        let colon = font.get_colon();
        assert_eq!(
            colon.len() as u16,
            font.height(),
            "Font {:?} colon height mismatch",
            font
        );
    }
}

#[test]
fn test_font_cycle() {
    let mut font = DigitFont::Classic;
    let start = font;
    for _ in 0..5 {
        font = font.next();
    }
    assert_eq!(font, start, "Font should cycle back to start");
}

#[test]
fn font_catalogue_lists_every_font_once() {
    let all = DigitFont::all();
    assert_eq!(all.len(), 5);
    for i in 0..all.len() {
        for j in 0..i {
            assert_ne!(all[i], all[j]);
        }
    }
}

#[test]
fn font_metrics_match_catalogue() {
    assert_eq!(DigitFont::Classic.width(), 5);
    assert_eq!(DigitFont::Classic.height(), 5);
    assert_eq!(DigitFont::Classic.colon_width(), 2);
    assert_eq!(DigitFont::Block3D.width(), 7);
    assert_eq!(DigitFont::Block3D.height(), 9);
    assert_eq!(DigitFont::Outlined.height(), 11);
    assert_eq!(DigitFont::Isometric.width(), 8);
    assert_eq!(DigitFont::LCD.width(), 6);
}

#[test]
fn glyph_rows_span_the_font_width() {
    for font in DigitFont::all() {
        for digit in 0..10 {
            for row in font.get_digit(digit) {
                assert_eq!(
                    row.chars().count() as u16,
                    font.width(),
                    "Font {:?} digit {} row width mismatch",
                    font,
                    digit
                );
            }
        }
        for row in font.get_colon() {
            assert_eq!(row.chars().count() as u16, font.colon_width());
        }
    }
}

#[test]
fn digit_clamps_above_nine() {
    let nine = DigitFont::Classic.get_digit(9);
    let clamped = DigitFont::Classic.get_digit(12);
    assert_eq!(nine, clamped);
}

#[test]
fn font_names() {
    assert_eq!(DigitFont::Classic.name(), "Classic");
    assert_eq!(DigitFont::Block3D.name(), "3D Blocks");
    assert_eq!(DigitFont::Outlined.name(), "Outlined");
    assert_eq!(DigitFont::Isometric.name(), "Isometric");
    assert_eq!(DigitFont::LCD.name(), "LCD");
}

#[test]
fn timer_dimensions_reserve_room_for_mm_ss() {
    // 4 digits of width 5, a colon of width 2, and 4 columns of padding
    assert_eq!(timer_dimensions(), (5 * 4 + 2 + 4, 5));
    assert_eq!(timer_dimensions_for_font(DigitFont::Block3D), (7 * 4 + 3 + 4, 9));
    assert_eq!(timer_dimensions_for_font(DigitFont::Outlined), (7 * 4 + 3 + 4, 11));
}

#[test]
fn primary_and_secondary_chars_disjoint() {
    for font in DigitFont::all() {
        let primary = font.primary_chars();
        let secondary = font.secondary_chars();
        for c in &secondary {
            assert!(!primary.contains(c), "Font {:?} reuses {:?}", font, c);
        }
    }
}
