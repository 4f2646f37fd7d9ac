//! Terminal scaling: classify the live terminal dimensions into a size
//! category and derive from it the display font, layout flags and geometry.
//! A context is recomputed wholesale on every resize, never patched.

use vstd::prelude::*;

use crate::fonts::DigitFont;

verus! {

/// Minimum terminal width for the normal display.
pub const MIN_WIDTH: u16 = 40;
/// Minimum terminal height for the normal display.
pub const MIN_HEIGHT: u16 = 15;

/// Ordered terminal size categories.
#[derive(Clone, Copy, Debug, PartialEq, Eq, Structural)]
pub enum TerminalSize {
    /// Below the minimum: the normal display gives way to a warning.
    TooSmall,
    /// Narrow or short: smallest font, no hints.
    Compact,
    /// Mid-sized: a compact but readable font.
    Medium,
    /// Roomy: the standard font.
    Large,
    /// Very large: the largest font.
    ExtraLarge,
}

impl TerminalSize {
    /// Classification of (width, height) into a category: the thresholds
    /// bucket terminals by ascending width/height pairs, and a terminal
    /// below either minimum is `TooSmall`.
    pub open spec fn spec_from_dimensions(width: u16, height: u16) -> TerminalSize {
        if width < MIN_WIDTH || height < MIN_HEIGHT {
            TerminalSize::TooSmall
        } else if width < 60 || height < 20 {
            TerminalSize::Compact
        } else if width < 100 || height < 30 {
            TerminalSize::Medium
        } else if width < 150 || height < 45 {
            TerminalSize::Large
        } else {
            TerminalSize::ExtraLarge
        }
    }

    #[verifier::when_used_as_spec(spec_from_dimensions)]
    pub fn from_dimensions(width: u16, height: u16) -> (r: TerminalSize)
        ensures
            r == Self::spec_from_dimensions(width, height),
    {
        if width < MIN_WIDTH || height < MIN_HEIGHT {
            TerminalSize::TooSmall
        } else if width < 60 || height < 20 {
            TerminalSize::Compact
        } else if width < 100 || height < 30 {
            TerminalSize::Medium
        } else if width < 150 || height < 45 {
            TerminalSize::Large
        } else {
            TerminalSize::ExtraLarge
        }
    }
}

/// Everything the layout derives from the terminal dimensions: the size
/// category, the recommended font, the timer area height and which parts of
/// the overlay are shown.
pub struct ScalingContext {
    pub width: u16,
    pub height: u16,
    pub size_category: TerminalSize,
    pub recommended_font: DigitFont,
    pub timer_area_height: u16,
    pub show_progress_bar: bool,
    pub show_hints: bool,
    pub show_session_info: bool,
    /// Theme complexity the background renderers are asked for, 0-3.
    pub background_detail_level: u8,
}

/// The font each size category recommends.
pub open spec fn spec_font_for_category(c: TerminalSize) -> DigitFont {
    match c {
        TerminalSize::TooSmall => DigitFont::Classic,
        TerminalSize::Compact => DigitFont::Classic,
        TerminalSize::Medium => DigitFont::LCD,
        TerminalSize::Large => DigitFont::Block3D,
        TerminalSize::ExtraLarge => DigitFont::Outlined,
    }
}

impl ScalingContext {
    /// The derived fields agree with the category table and the stored
    /// dimensions.
    pub open spec fn wf(self) -> bool {
        &&& self.size_category == TerminalSize::spec_from_dimensions(self.width, self.height)
        &&& self.recommended_font == spec_font_for_category(self.size_category)
        &&& self.timer_area_height == self.recommended_font.spec_height() + 4
        &&& self.show_progress_bar == !(self.size_category is TooSmall)
        &&& self.show_hints == (self.size_category is Medium || self.size_category is Large
            || self.size_category is ExtraLarge)
        &&& self.show_session_info == self.show_hints
        &&& self.background_detail_level == (match self.size_category {
            TerminalSize::TooSmall => 0u8,
            TerminalSize::Compact => 1u8,
            TerminalSize::Medium => 2u8,
            TerminalSize::Large => 3u8,
            TerminalSize::ExtraLarge => 3u8,
        })
    }

    /// The whole context a pair of terminal dimensions determines.
    pub open spec fn spec_new(width: u16, height: u16) -> ScalingContext {
        let category = TerminalSize::spec_from_dimensions(width, height);
        let font = spec_font_for_category(category);
        let hints = category is Medium || category is Large || category is ExtraLarge;
        ScalingContext {
            width,
            height,
            size_category: category,
            recommended_font: font,
            timer_area_height: (font.spec_height() + 4) as u16,
            show_progress_bar: !(category is TooSmall),
            show_hints: hints,
            show_session_info: hints,
            background_detail_level: match category {
                TerminalSize::TooSmall => 0u8,
                TerminalSize::Compact => 1u8,
                TerminalSize::Medium => 2u8,
                TerminalSize::Large => 3u8,
                TerminalSize::ExtraLarge => 3u8,
            },
        }
    }

    /// Builds the whole context from live terminal dimensions: classify,
    /// look the category up in the table, and derive the timer area height
    /// from the recommended font plus fixed padding.
    pub fn new(width: u16, height: u16) -> (r: Self)
        ensures
            r == Self::spec_new(width, height),
            r.wf(),
            r.width == width,
            r.height == height,
    {
        let size_category = TerminalSize::from_dimensions(width, height);

        let (recommended_font, background_detail_level): (DigitFont, u8) = match size_category {
            TerminalSize::TooSmall => (DigitFont::Classic, 0),
            TerminalSize::Compact => (DigitFont::Classic, 1),
            TerminalSize::Medium => (DigitFont::LCD, 2),
            TerminalSize::Large => (DigitFont::Block3D, 3),
            TerminalSize::ExtraLarge => (DigitFont::Outlined, 3),
        };
        let show_progress_bar = match size_category {
            TerminalSize::TooSmall => false,
            _ => true,
        };
        let show_hints = match size_category {
            TerminalSize::TooSmall => false,
            TerminalSize::Compact => false,
            _ => true,
        };
        let show_session_info = show_hints;

        let timer_area_height = recommended_font.height() + 4;

        ScalingContext {
            width,
            height,
            size_category,
            recommended_font,
            timer_area_height,
            show_progress_bar,
            show_hints,
            show_session_info,
            background_detail_level,
        }
    }

    /// Whether the terminal is below the minimum the display needs.
    pub fn is_too_small(&self) -> (r: bool)
        ensures
            r == (self.size_category is TooSmall),
    {
        match self.size_category {
            TerminalSize::TooSmall => true,
            _ => false,
        }
    }

    /// Width of the "MM:SS" timer display in the recommended font: four
    /// digits, the colon, and fixed padding.
    pub fn timer_width(&self) -> (r: u16)
        ensures
            r == self.recommended_font.spec_width() * 4 + self.recommended_font.spec_colon_width()
                + 4,
    {
        self.recommended_font.width() * 4 + self.recommended_font.colon_width() + 4
    }

    /// X position that centres an element of the given width; 0 when it
    /// does not fit.
    pub fn center_x(&self, element_width: u16) -> (r: u16)
        ensures
            element_width >= self.width ==> r == 0,
            element_width < self.width ==> r == (self.width - element_width) / 2,
    {
        if element_width >= self.width {
            0
        } else {
            (self.width - element_width) / 2
        }
    }

    /// Y position that centres an element of the given height; 0 when it
    /// does not fit.
    pub fn center_y(&self, element_height: u16) -> (r: u16)
        ensures
            element_height >= self.height ==> r == 0,
            element_height < self.height ==> r == (self.height - element_height) / 2,
    {
        if element_height >= self.height {
            0
        } else {
            (self.height - element_height) / 2
        }
    }

    /// Y position of the timer block: 35% from the top for visual balance,
    /// or 0 when the font does not fit at all.
    pub fn timer_y(&self) -> (r: u16)
        ensures
            self.recommended_font.spec_height() + 4 >= self.height ==> r == 0,
            self.recommended_font.spec_height() + 4 < self.height ==> r == (self.height * 35)
                / 100,
    {
        let font_height = self.recommended_font.height();
        if font_height as u32 + 4 >= self.height as u32 {
            0
        } else {
            ((self.height as u32 * 35) / 100) as u16
        }
    }

    /// Y position of the progress bar, anchored to the bottom edge.
    pub fn progress_bar_y(&self) -> (r: u16)
        ensures
            self.height >= 3 ==> r == self.height - 3,
            self.height < 3 ==> r == 0,
    {
        if self.height >= 3 {
            self.height - 3
        } else {
            0
        }
    }

    /// Y position of the hint bar, just above the progress bar.
    pub fn hints_y(&self) -> (r: u16)
        ensures
            self.height >= 5 ==> r == self.height - 5,
            self.height < 5 ==> r == 0,
    {
        if self.height >= 5 {
            self.height - 5
        } else {
            0
        }
    }

    /// Scales `base_value` in proportion to the terminal width against a
    /// reference width, saturating at the type bounds.
    pub fn scale_width(&self, base_value: u16, reference_width: u16) -> (r: u16)
        ensures
            reference_width == 0 ==> r == u16::MAX,
            reference_width > 0 ==> r as int == ({
                let exact = (base_value * self.width) as int / (reference_width as int);
                if exact > u16::MAX { u16::MAX as int } else { exact }
            }),
    {
        if reference_width == 0 {
            u16::MAX
        } else {
            proof {
                assert((base_value as int) * (self.width as int) < 0x1_0000_0000int)
                    by (nonlinear_arith)
                    requires
                        base_value <= 0xffff,
                        self.width <= 0xffff,
                ;
            }
            let scaled = (base_value as u64 * self.width as u64) / (reference_width as u64);
            if scaled > 65535 {
                u16::MAX
            } else {
                scaled as u16
            }
        }
    }

    /// Scales `base_value` in proportion to the terminal height against a
    /// reference height, saturating at the type bounds.
    pub fn scale_height(&self, base_value: u16, reference_height: u16) -> (r: u16)
        ensures
            reference_height == 0 ==> r == u16::MAX,
            reference_height > 0 ==> r as int == ({
                let exact = (base_value * self.height) as int / (reference_height as int);
                if exact > u16::MAX { u16::MAX as int } else { exact }
            }),
    {
        if reference_height == 0 {
            u16::MAX
        } else {
            proof {
                assert((base_value as int) * (self.height as int) < 0x1_0000_0000int)
                    by (nonlinear_arith)
                    requires
                        base_value <= 0xffff,
                        self.height <= 0xffff,
                ;
            }
            let scaled = (base_value as u64 * self.height as u64) / (reference_height as u64);
            if scaled > 65535 {
                u16::MAX
            } else {
                scaled as u16
            }
        }
    }
}

/// The catalogue `select_font_for_size` scans, smallest to largest, with
/// each font's digit width and height.
pub open spec fn spec_font_catalogue() -> Seq<(DigitFont, u16, u16)> {
    seq![
        (DigitFont::Classic, 5u16, 5u16),
        (DigitFont::LCD, 6u16, 9u16),
        (DigitFont::Block3D, 7u16, 9u16),
        (DigitFont::Isometric, 8u16, 10u16),
        (DigitFont::Outlined, 7u16, 11u16),
    ]
}

/// Whether a font of the given digit width and height fits the space the
/// timer may take: 60% of the terminal width and 40% of its height.
pub open spec fn spec_font_fits(digit_width: u16, digit_height: u16, width: u16, height: u16) -> bool {
    &&& digit_width * 4 + 3 <= (width * 3) / 5
    &&& digit_height <= (height * 2) / 5
}

/// The font the best-fit scan returns: the largest catalogue entry that
/// fits, or the smallest font when none fits.
pub open spec fn spec_select_font(width: u16, height: u16) -> DigitFont {
    let cat = spec_font_catalogue();
    if spec_font_fits(cat[4].1, cat[4].2, width, height) {
        cat[4].0
    } else if spec_font_fits(cat[3].1, cat[3].2, width, height) {
        cat[3].0
    } else if spec_font_fits(cat[2].1, cat[2].2, width, height) {
        cat[2].0
    } else if spec_font_fits(cat[1].1, cat[1].2, width, height) {
        cat[1].0
    } else {
        cat[0].0
    }
}

/// The best-fit scan returns the highest catalogue entry that fits when
/// every entry above it does not.
proof fn lemma_select_font_pick(i: int, width: u16, height: u16)
    requires
        0 <= i < 5,
        spec_font_fits(
            spec_font_catalogue()[i].1,
            spec_font_catalogue()[i].2,
            width,
            height,
        ),
        forall|j: int|
            i < j < 5 ==> !spec_font_fits(
                #[trigger] spec_font_catalogue()[j].1,
                spec_font_catalogue()[j].2,
                width,
                height,
            ),
    ensures
        spec_select_font(width, height) == spec_font_catalogue()[i].0,
{
    if i < 4 {
        assert(!spec_font_fits(spec_font_catalogue()[4].1, spec_font_catalogue()[4].2, width, height));
    }
    if i < 3 {
        assert(!spec_font_fits(spec_font_catalogue()[3].1, spec_font_catalogue()[3].2, width, height));
    }
    if i < 2 {
        assert(!spec_font_fits(spec_font_catalogue()[2].1, spec_font_catalogue()[2].2, width, height));
    }
    if i < 1 {
        assert(!spec_font_fits(spec_font_catalogue()[1].1, spec_font_catalogue()[1].2, width, height));
    }
}

/// Best-fit font selection, independent of the category table: scan the
/// font catalogue from largest to smallest and return the first whose
/// rendered "MM:SS" fits within 60% of the width and 40% of the height;
/// fall back to the smallest font.
pub fn select_font_for_size(width: u16, height: u16) -> (r: DigitFont)
    ensures
        r == spec_select_font(width, height),
{
    let available_width = (width as u32 * 3 / 5) as u16;
    let available_height = (height as u32 * 2 / 5) as u16;
    assert(available_width == (width as int * 3) / 5);
    assert(available_height == (height as int * 2) / 5);

    let catalogue: Vec<(DigitFont, u16, u16)> = vec![
        (DigitFont::Classic, 5, 5),
        (DigitFont::LCD, 6, 9),
        (DigitFont::Block3D, 7, 9),
        (DigitFont::Isometric, 8, 10),
        (DigitFont::Outlined, 7, 11),
    ];
    assert(catalogue@ =~= spec_font_catalogue());

    let mut best_font = DigitFont::Classic;
    let mut i: usize = catalogue.len();
    while i > 0
        invariant
            i <= catalogue.len(),
            catalogue@ =~= spec_font_catalogue(),
            available_width == (width as int * 3) / 5,
            available_height == (height as int * 2) / 5,
            forall|j: int|
                i <= j < catalogue@.len() ==> !spec_font_fits(
                    catalogue@[j].1,
                    catalogue@[j].2,
                    width,
                    height,
                ),
            best_font == DigitFont::Classic,
        decreases i,
    {
        i = i - 1;
        let (font, digit_width, digit_height) = catalogue[i];
        let timer_width = digit_width * 4 + 3;
        if timer_width <= available_width && digit_height <= available_height {
            best_font = font;
            proof {
                assert(spec_font_fits(
                    spec_font_catalogue()[i as int].1,
                    spec_font_catalogue()[i as int].2,
                    width,
                    height,
                ));
                lemma_select_font_pick(i as int, width, height);
            }
            return best_font;
        }
        proof {
            assert(!spec_font_fits(
                spec_font_catalogue()[i as int].1,
                spec_font_catalogue()[i as int].2,
                width,
                height,
            ));
        }
    }
    best_font
}

} // verus!
