//! Digit fonts for the large countdown display. Each font draws the digits
//! 0-9 and a colon as rows of text; every glyph of a font shares the font's
//! height, and all digits share its width.

use vstd::prelude::*;

verus! {

/// The catalogue of digit fonts, from the plain block font to the large
/// outlined one.
#[derive(Clone, Copy, Debug, PartialEq, Eq, Structural)]
pub enum DigitFont {
    /// Simple block font (5x5).
    Classic,
    /// Block style with a depth effect (7x9).
    Block3D,
    /// Large outlined style with double lines (7x11).
    Outlined,
    /// Isometric perspective (8x10).
    Isometric,
    /// Retro segmented display (6x9).
    LCD,
}

impl DigitFont {
    /// Every font, in the order the font-cycling key walks them.
    pub open spec fn spec_all() -> Seq<DigitFont> {
        seq![
            DigitFont::Classic,
            DigitFont::Block3D,
            DigitFont::Outlined,
            DigitFont::Isometric,
            DigitFont::LCD,
        ]
    }

    pub fn all() -> (r: Vec<DigitFont>)
        ensures
            r@ == Self::spec_all(),
    {
        let r = vec![
            DigitFont::Classic,
            DigitFont::Block3D,
            DigitFont::Outlined,
            DigitFont::Isometric,
            DigitFont::LCD,
        ];
        assert(r@ =~= Self::spec_all());
        r
    }

    /// Height of every glyph of the font, in rows.
    pub open spec fn spec_height(&self) -> u16 {
        match self {
            DigitFont::Classic => 5,
            DigitFont::Block3D => 9,
            DigitFont::Outlined => 11,
            DigitFont::Isometric => 10,
            DigitFont::LCD => 9,
        }
    }

    #[verifier::when_used_as_spec(spec_height)]
    pub fn height(&self) -> (r: u16)
        ensures
            r == self.spec_height(),
    {
        match self {
            DigitFont::Classic => 5,
            DigitFont::Block3D => 9,
            DigitFont::Outlined => 11,
            DigitFont::Isometric => 10,
            DigitFont::LCD => 9,
        }
    }

    /// Width of every digit glyph of the font, in columns.
    pub open spec fn spec_width(&self) -> u16 {
        match self {
            DigitFont::Classic => 5,
            DigitFont::Block3D => 7,
            DigitFont::Outlined => 7,
            DigitFont::Isometric => 8,
            DigitFont::LCD => 6,
        }
    }

    #[verifier::when_used_as_spec(spec_width)]
    pub fn width(&self) -> (r: u16)
        ensures
            r == self.spec_width(),
    {
        match self {
            DigitFont::Classic => 5,
            DigitFont::Block3D => 7,
            DigitFont::Outlined => 7,
            DigitFont::Isometric => 8,
            DigitFont::LCD => 6,
        }
    }

    /// Width of the colon glyph, in columns.
    pub open spec fn spec_colon_width(&self) -> u16 {
        match self {
            DigitFont::Classic => 2,
            DigitFont::Block3D => 3,
            DigitFont::Outlined => 3,
            DigitFont::Isometric => 3,
            DigitFont::LCD => 2,
        }
    }

    #[verifier::when_used_as_spec(spec_colon_width)]
    pub fn colon_width(&self) -> (r: u16)
        ensures
            r == self.spec_colon_width(),
    {
        match self {
            DigitFont::Classic => 2,
            DigitFont::Block3D => 3,
            DigitFont::Outlined => 3,
            DigitFont::Isometric => 3,
            DigitFont::LCD => 2,
        }
    }

    /// Display name of the font.
    pub fn name(&self) -> (r: &'static str)
        ensures
            self is Classic ==> r@ == "Classic"@,
            self is Block3D ==> r@ == "3D Blocks"@,
            self is Outlined ==> r@ == "Outlined"@,
            self is Isometric ==> r@ == "Isometric"@,
            self is LCD ==> r@ == "LCD"@,
    {
        match self {
            DigitFont::Classic => "Classic",
            DigitFont::Block3D => "3D Blocks",
            DigitFont::Outlined => "Outlined",
            DigitFont::Isometric => "Isometric",
            DigitFont::LCD => "LCD",
        }
    }

    /// The font after `self` in the catalogue order, wrapping around.
    pub open spec fn spec_next(&self) -> DigitFont {
        match self {
            DigitFont::Classic => DigitFont::Block3D,
            DigitFont::Block3D => DigitFont::Outlined,
            DigitFont::Outlined => DigitFont::Isometric,
            DigitFont::Isometric => DigitFont::LCD,
            DigitFont::LCD => DigitFont::Classic,
        }
    }

    #[verifier::when_used_as_spec(spec_next)]
    pub fn next(&self) -> (r: DigitFont)
        ensures
            r == self.spec_next(),
    {
        match self {
            DigitFont::Classic => DigitFont::Block3D,
            DigitFont::Block3D => DigitFont::Outlined,
            DigitFont::Outlined => DigitFont::Isometric,
            DigitFont::Isometric => DigitFont::LCD,
            DigitFont::LCD => DigitFont::Classic,
        }
    }

    /// Glyph rows for one digit; values above 9 are clamped to 9. Every
    /// glyph of a font shares the font's height, and every row spans
    /// exactly the font's width.
    pub fn get_digit(&self, digit: usize) -> (r: Vec<&'static str>)
        ensures
            r@.len() == self.spec_height(),
            forall|i: int| 0 <= i < r@.len() ==> (#[trigger] r@[i])@.len()
                == self.spec_width(),
    {
        let d = if digit > 9 { 9 } else { digit };
        match self {
            DigitFont::Classic => match d {
                0 => {
                    let v: Vec<&'static str> = vec![
                        " ███ ",
                        "█   █",
                        "█   █",
                        "█   █",
                        " ███ ",
                    ];
                    proof {
                        reveal_strlit(" ███ ");
                        reveal_strlit("█   █");
                        assert(forall|i: int| 0 <= i < v@.len() ==> (#[trigger] v@[i])@.len() == 5);
                    }
                    v
                },
                1 => {
                    let v: Vec<&'static str> = vec![
                        "  █  ",
                        " ██  ",
                        "  █  ",
                        "  █  ",
                        " ███ ",
                    ];
                    proof {
                        reveal_strlit("  █  ");
                        reveal_strlit(" ██  ");
                        reveal_strlit(" ███ ");
                        assert(forall|i: int| 0 <= i < v@.len() ==> (#[trigger] v@[i])@.len() == 5);
                    }
                    v
                },
                2 => {
                    let v: Vec<&'static str> = vec![
                        " ███ ",
                        "    █",
                        " ███ ",
                        "█    ",
                        "█████",
                    ];
                    proof {
                        reveal_strlit("    █");
                        reveal_strlit(" ███ ");
                        reveal_strlit("█    ");
                        reveal_strlit("█████");
                        assert(forall|i: int| 0 <= i < v@.len() ==> (#[trigger] v@[i])@.len() == 5);
                    }
                    v
                },
                3 => {
                    let v: Vec<&'static str> = vec![
                        "█████",
                        "    █",
                        " ███ ",
                        "    █",
                        "█████",
                    ];
                    proof {
                        reveal_strlit("    █");
                        reveal_strlit(" ███ ");
                        reveal_strlit("█████");
                        assert(forall|i: int| 0 <= i < v@.len() ==> (#[trigger] v@[i])@.len() == 5);
                    }
                    v
                },
                4 => {
                    let v: Vec<&'static str> = vec![
                        "█   █",
                        "█   █",
                        "█████",
                        "    █",
                        "    █",
                    ];
                    proof {
                        reveal_strlit("    █");
                        reveal_strlit("█   █");
                        reveal_strlit("█████");
                        assert(forall|i: int| 0 <= i < v@.len() ==> (#[trigger] v@[i])@.len() == 5);
                    }
                    v
                },
                5 => {
                    let v: Vec<&'static str> = vec![
                        "█████",
                        "█    ",
                        "████ ",
                        "    █",
                        "████ ",
                    ];
                    proof {
                        reveal_strlit("    █");
                        reveal_strlit("█    ");
                        reveal_strlit("████ ");
                        reveal_strlit("█████");
                        assert(forall|i: int| 0 <= i < v@.len() ==> (#[trigger] v@[i])@.len() == 5);
                    }
                    v
                },
                6 => {
                    let v: Vec<&'static str> = vec![
                        " ███ ",
                        "█    ",
                        "████ ",
                        "█   █",
                        " ███ ",
                    ];
                    proof {
                        reveal_strlit(" ███ ");
                        reveal_strlit("█    ");
                        reveal_strlit("█   █");
                        reveal_strlit("████ ");
                        assert(forall|i: int| 0 <= i < v@.len() ==> (#[trigger] v@[i])@.len() == 5);
                    }
                    v
                },
                7 => {
                    let v: Vec<&'static str> = vec![
                        "█████",
                        "    █",
                        "   █ ",
                        "  █  ",
                        "  █  ",
                    ];
                    proof {
                        reveal_strlit("    █");
                        reveal_strlit("   █ ");
                        reveal_strlit("  █  ");
                        reveal_strlit("█████");
                        assert(forall|i: int| 0 <= i < v@.len() ==> (#[trigger] v@[i])@.len() == 5);
                    }
                    v
                },
                8 => {
                    let v: Vec<&'static str> = vec![
                        " ███ ",
                        "█   █",
                        " ███ ",
                        "█   █",
                        " ███ ",
                    ];
                    proof {
                        reveal_strlit(" ███ ");
                        reveal_strlit("█   █");
                        assert(forall|i: int| 0 <= i < v@.len() ==> (#[trigger] v@[i])@.len() == 5);
                    }
                    v
                },
                _ => {
                    let v: Vec<&'static str> = vec![
                        " ███ ",
                        "█   █",
                        " ████",
                        "    █",
                        " ███ ",
                    ];
                    proof {
                        reveal_strlit("    █");
                        reveal_strlit(" ███ ");
                        reveal_strlit(" ████");
                        reveal_strlit("█   █");
                        assert(forall|i: int| 0 <= i < v@.len() ==> (#[trigger] v@[i])@.len() == 5);
                    }
                    v
                },
            },
            DigitFont::Block3D => match d {
                0 => {
                    let v: Vec<&'static str> = vec![
                        " ▄███▄ ",
                        "██▀▀▀██",
                        "██   ██",
                        "██   ██",
                        "██   ██",
                        "██   ██",
                        "██▄▄▄██",
                        " ▀███▀ ",
                        "       ",
                    ];
                    proof {
                        reveal_strlit("       ");
                        reveal_strlit(" ▀███▀ ");
                        reveal_strlit(" ▄███▄ ");
                        reveal_strlit("██   ██");
                        reveal_strlit("██▀▀▀██");
                        reveal_strlit("██▄▄▄██");
                        assert(forall|i: int| 0 <= i < v@.len() ==> (#[trigger] v@[i])@.len() == 7);
                    }
                    v
                },
                1 => {
                    let v: Vec<&'static str> = vec![
                        "  ▄██  ",
                        " ▀███  ",
                        "  ███  ",
                        "  ███  ",
                        "  ███  ",
                        "  ███  ",
                        "  ███  ",
                        " ▄███▄ ",
                        "       ",
                    ];
                    proof {
                        reveal_strlit("       ");
                        reveal_strlit("  ▄██  ");
                        reveal_strlit("  ███  ");
                        reveal_strlit(" ▀███  ");
                        reveal_strlit(" ▄███▄ ");
                        assert(forall|i: int| 0 <= i < v@.len() ==> (#[trigger] v@[i])@.len() == 7);
                    }
                    v
                },
                2 => {
                    let v: Vec<&'static str> = vec![
                        " ▄███▄ ",
                        "██▀▀▀██",
                        "    ▐██",
                        "   ▄██▀",
                        "  ▄██▀ ",
                        " ▄██▀  ",
                        "███████",
                        "▀▀▀▀▀▀▀",
                        "       ",
                    ];
                    proof {
                        reveal_strlit("       ");
                        reveal_strlit("    ▐██");
                        reveal_strlit("   ▄██▀");
                        reveal_strlit("  ▄██▀ ");
                        reveal_strlit(" ▄██▀  ");
                        reveal_strlit(" ▄███▄ ");
                        reveal_strlit("▀▀▀▀▀▀▀");
                        reveal_strlit("██▀▀▀██");
                        reveal_strlit("███████");
                        assert(forall|i: int| 0 <= i < v@.len() ==> (#[trigger] v@[i])@.len() == 7);
                    }
                    v
                },
                3 => {
                    let v: Vec<&'static str> = vec![
                        "▄█████▄",
                        "▀▀▀▀▀██",
                        "    ▐██",
                        " ▄████▀",
                        "    ▀██",
                        "     ██",
                        "▄▄▄▄▄██",
                        "▀█████▀",
                        "       ",
                    ];
                    proof {
                        reveal_strlit("       ");
                        reveal_strlit("     ██");
                        reveal_strlit("    ▀██");
                        reveal_strlit("    ▐██");
                        reveal_strlit(" ▄████▀");
                        reveal_strlit("▀▀▀▀▀██");
                        reveal_strlit("▀█████▀");
                        reveal_strlit("▄▄▄▄▄██");
                        reveal_strlit("▄█████▄");
                        assert(forall|i: int| 0 <= i < v@.len() ==> (#[trigger] v@[i])@.len() == 7);
                    }
                    v
                },
                4 => {
                    let v: Vec<&'static str> = vec![
                        "██   ██",
                        "██   ██",
                        "██   ██",
                        "███████",
                        "▀▀▀▀▀██",
                        "     ██",
                        "     ██",
                        "     ▀▀",
                        "       ",
                    ];
                    proof {
                        reveal_strlit("       ");
                        reveal_strlit("     ▀▀");
                        reveal_strlit("     ██");
                        reveal_strlit("▀▀▀▀▀██");
                        reveal_strlit("██   ██");
                        reveal_strlit("███████");
                        assert(forall|i: int| 0 <= i < v@.len() ==> (#[trigger] v@[i])@.len() == 7);
                    }
                    v
                },
                5 => {
                    let v: Vec<&'static str> = vec![
                        "███████",
                        "██▀▀▀▀▀",
                        "██     ",
                        "██████▄",
                        "▀▀▀▀▀██",
                        "     ██",
                        "▄▄▄▄▄██",
                        "▀█████▀",
                        "       ",
                    ];
                    proof {
                        reveal_strlit("       ");
                        reveal_strlit("     ██");
                        reveal_strlit("▀▀▀▀▀██");
                        reveal_strlit("▀█████▀");
                        reveal_strlit("▄▄▄▄▄██");
                        reveal_strlit("██     ");
                        reveal_strlit("██▀▀▀▀▀");
                        reveal_strlit("██████▄");
                        reveal_strlit("███████");
                        assert(forall|i: int| 0 <= i < v@.len() ==> (#[trigger] v@[i])@.len() == 7);
                    }
                    v
                },
                6 => {
                    let v: Vec<&'static str> = vec![
                        " ▄███▄ ",
                        "██▀▀▀▀ ",
                        "██     ",
                        "██████▄",
                        "██▀▀▀██",
                        "██   ██",
                        "██▄▄▄██",
                        " ▀███▀ ",
                        "       ",
                    ];
                    proof {
                        reveal_strlit("       ");
                        reveal_strlit(" ▀███▀ ");
                        reveal_strlit(" ▄███▄ ");
                        reveal_strlit("██     ");
                        reveal_strlit("██   ██");
                        reveal_strlit("██▀▀▀▀ ");
                        reveal_strlit("██▀▀▀██");
                        reveal_strlit("██▄▄▄██");
                        reveal_strlit("██████▄");
                        assert(forall|i: int| 0 <= i < v@.len() ==> (#[trigger] v@[i])@.len() == 7);
                    }
                    v
                },
                7 => {
                    let v: Vec<&'static str> = vec![
                        "███████",
                        "▀▀▀▀▀██",
                        "    ▐██",
                        "   ▄██▀",
                        "  ▐██▀ ",
                        "  ██▀  ",
                        "  ██   ",
                        "  ▀▀   ",
                        "       ",
                    ];
                    proof {
                        reveal_strlit("       ");
                        reveal_strlit("    ▐██");
                        reveal_strlit("   ▄██▀");
                        reveal_strlit("  ▀▀   ");
                        reveal_strlit("  ██   ");
                        reveal_strlit("  ██▀  ");
                        reveal_strlit("  ▐██▀ ");
                        reveal_strlit("▀▀▀▀▀██");
                        reveal_strlit("███████");
                        assert(forall|i: int| 0 <= i < v@.len() ==> (#[trigger] v@[i])@.len() == 7);
                    }
                    v
                },
                8 => {
                    let v: Vec<&'static str> = vec![
                        " ▄███▄ ",
                        "██▀▀▀██",
                        "██   ██",
                        " ▀███▀ ",
                        "██▀▀▀██",
                        "██   ██",
                        "██▄▄▄██",
                        " ▀███▀ ",
                        "       ",
                    ];
                    proof {
                        reveal_strlit("       ");
                        reveal_strlit(" ▀███▀ ");
                        reveal_strlit(" ▄███▄ ");
                        reveal_strlit("██   ██");
                        reveal_strlit("██▀▀▀██");
                        reveal_strlit("██▄▄▄██");
                        assert(forall|i: int| 0 <= i < v@.len() ==> (#[trigger] v@[i])@.len() == 7);
                    }
                    v
                },
                _ => {
                    let v: Vec<&'static str> = vec![
                        " ▄███▄ ",
                        "██▀▀▀██",
                        "██   ██",
                        " ▀████▀",
                        "     ██",
                        "    ▐██",
                        "▄▄▄▄██▀",
                        "▀████▀ ",
                        "       ",
                    ];
                    proof {
                        reveal_strlit("       ");
                        reveal_strlit("     ██");
                        reveal_strlit("    ▐██");
                        reveal_strlit(" ▀████▀");
                        reveal_strlit(" ▄███▄ ");
                        reveal_strlit("▀████▀ ");
                        reveal_strlit("▄▄▄▄██▀");
                        reveal_strlit("██   ██");
                        reveal_strlit("██▀▀▀██");
                        assert(forall|i: int| 0 <= i < v@.len() ==> (#[trigger] v@[i])@.len() == 7);
                    }
                    v
                },
            },
            DigitFont::Outlined => match d {
                0 => {
                    let v: Vec<&'static str> = vec![
                        "╔═════╗",
                        "║█████║",
                        "║██ ██║",
                        "║██ ██║",
                        "║██ ██║",
                        "║██ ██║",
                        "║██ ██║",
                        "║██ ██║",
                        "║█████║",
                        "╚═════╝",
                        "       ",
                    ];
                    proof {
                        reveal_strlit("       ");
                        reveal_strlit("║██ ██║");
                        reveal_strlit("║█████║");
                        reveal_strlit("╔═════╗");
                        reveal_strlit("╚═════╝");
                        assert(forall|i: int| 0 <= i < v@.len() ==> (#[trigger] v@[i])@.len() == 7);
                    }
                    v
                },
                1 => {
                    let v: Vec<&'static str> = vec![
                        "  ╔══╗ ",
                        "  ║██║ ",
                        " ╔╝██║ ",
                        " ║ ██║ ",
                        " ║ ██║ ",
                        " ║ ██║ ",
                        " ║ ██║ ",
                        " ║ ██║ ",
                        "╔╩═══╩╗",
                        "╚═════╝",
                        "       ",
                    ];
                    proof {
                        reveal_strlit("       ");
                        reveal_strlit("  ║██║ ");
                        reveal_strlit("  ╔══╗ ");
                        reveal_strlit(" ║ ██║ ");
                        reveal_strlit(" ╔╝██║ ");
                        reveal_strlit("╔╩═══╩╗");
                        reveal_strlit("╚═════╝");
                        assert(forall|i: int| 0 <= i < v@.len() ==> (#[trigger] v@[i])@.len() == 7);
                    }
                    v
                },
                2 => {
                    let v: Vec<&'static str> = vec![
                        "╔═════╗",
                        "║█████║",
                        "╚══╗██║",
                        "   ║██║",
                        "╔══╩██║",
                        "║█████║",
                        "║██╔══╝",
                        "║██║   ",
                        "║█████╗",
                        "╚═════╝",
                        "       ",
                    ];
                    proof {
                        reveal_strlit("       ");
                        reveal_strlit("   ║██║");
                        reveal_strlit("║██║   ");
                        reveal_strlit("║██╔══╝");
                        reveal_strlit("║█████║");
                        reveal_strlit("║█████╗");
                        reveal_strlit("╔═════╗");
                        reveal_strlit("╔══╩██║");
                        reveal_strlit("╚═════╝");
                        reveal_strlit("╚══╗██║");
                        assert(forall|i: int| 0 <= i < v@.len() ==> (#[trigger] v@[i])@.len() == 7);
                    }
                    v
                },
                3 => {
                    let v: Vec<&'static str> = vec![
                        "╔═════╗",
                        "║█████║",
                        "╚══╗██║",
                        "   ║██║",
                        "╔══╩██║",
                        "╚══╗██║",
                        "   ║██║",
                        "╔══╝██║",
                        "║█████║",
                        "╚═════╝",
                        "       ",
                    ];
                    proof {
                        reveal_strlit("       ");
                        reveal_strlit("   ║██║");
                        reveal_strlit("║█████║");
                        reveal_strlit("╔═════╗");
                        reveal_strlit("╔══╝██║");
                        reveal_strlit("╔══╩██║");
                        reveal_strlit("╚═════╝");
                        reveal_strlit("╚══╗██║");
                        assert(forall|i: int| 0 <= i < v@.len() ==> (#[trigger] v@[i])@.len() == 7);
                    }
                    v
                },
                4 => {
                    let v: Vec<&'static str> = vec![
                        "╔══╗╔══",
                        "║██║║██",
                        "║██║║██",
                        "║██║║██",
                        "║█████║",
                        "╚══╗║██",
                        "   ║║██",
                        "   ║║██",
                        "   ╚╩══",
                        "       ",
                        "       ",
                    ];
                    proof {
                        reveal_strlit("       ");
                        reveal_strlit("   ║║██");
                        reveal_strlit("   ╚╩══");
                        reveal_strlit("║██║║██");
                        reveal_strlit("║█████║");
                        reveal_strlit("╔══╗╔══");
                        reveal_strlit("╚══╗║██");
                        assert(forall|i: int| 0 <= i < v@.len() ==> (#[trigger] v@[i])@.len() == 7);
                    }
                    v
                },
                5 => {
                    let v: Vec<&'static str> = vec![
                        "╔═════╗",
                        "║█████║",
                        "║██╔══╝",
                        "║██║   ",
                        "║█████╗",
                        "╚══╗██║",
                        "   ║██║",
                        "╔══╝██║",
                        "║█████║",
                        "╚═════╝",
                        "       ",
                    ];
                    proof {
                        reveal_strlit("       ");
                        reveal_strlit("   ║██║");
                        reveal_strlit("║██║   ");
                        reveal_strlit("║██╔══╝");
                        reveal_strlit("║█████║");
                        reveal_strlit("║█████╗");
                        reveal_strlit("╔═════╗");
                        reveal_strlit("╔══╝██║");
                        reveal_strlit("╚═════╝");
                        reveal_strlit("╚══╗██║");
                        assert(forall|i: int| 0 <= i < v@.len() ==> (#[trigger] v@[i])@.len() == 7);
                    }
                    v
                },
                6 => {
                    let v: Vec<&'static str> = vec![
                        "╔═════╗",
                        "║█████║",
                        "║██╔══╝",
                        "║██║   ",
                        "║█████╗",
                        "║██╔██║",
                        "║██║██║",
                        "║██╚██║",
                        "║█████║",
                        "╚═════╝",
                        "       ",
                    ];
                    proof {
                        reveal_strlit("       ");
                        reveal_strlit("║██║   ");
                        reveal_strlit("║██║██║");
                        reveal_strlit("║██╔══╝");
                        reveal_strlit("║██╔██║");
                        reveal_strlit("║██╚██║");
                        reveal_strlit("║█████║");
                        reveal_strlit("║█████╗");
                        reveal_strlit("╔═════╗");
                        reveal_strlit("╚═════╝");
                        assert(forall|i: int| 0 <= i < v@.len() ==> (#[trigger] v@[i])@.len() == 7);
                    }
                    v
                },
                7 => {
                    let v: Vec<&'static str> = vec![
                        "╔═════╗",
                        "║█████║",
                        "╚══╗██║",
                        "   ║██║",
                        "  ╔╝██║",
                        "  ║██╔╝",
                        "  ║██║ ",
                        "  ║██║ ",
                        "  ╚══╝ ",
                        "       ",
                        "       ",
                    ];
                    proof {
                        reveal_strlit("       ");
                        reveal_strlit("   ║██║");
                        reveal_strlit("  ║██║ ");
                        reveal_strlit("  ║██╔╝");
                        reveal_strlit("  ╔╝██║");
                        reveal_strlit("  ╚══╝ ");
                        reveal_strlit("║█████║");
                        reveal_strlit("╔═════╗");
                        reveal_strlit("╚══╗██║");
                        assert(forall|i: int| 0 <= i < v@.len() ==> (#[trigger] v@[i])@.len() == 7);
                    }
                    v
                },
                8 => {
                    let v: Vec<&'static str> = vec![
                        "╔═════╗",
                        "║█████║",
                        "║██╔██║",
                        "║██║██║",
                        "║█████║",
                        "║██╔██║",
                        "║██║██║",
                        "║██╚██║",
                        "║█████║",
                        "╚═════╝",
                        "       ",
                    ];
                    proof {
                        reveal_strlit("       ");
                        reveal_strlit("║██║██║");
                        reveal_strlit("║██╔██║");
                        reveal_strlit("║██╚██║");
                        reveal_strlit("║█████║");
                        reveal_strlit("╔═════╗");
                        reveal_strlit("╚═════╝");
                        assert(forall|i: int| 0 <= i < v@.len() ==> (#[trigger] v@[i])@.len() == 7);
                    }
                    v
                },
                _ => {
                    let v: Vec<&'static str> = vec![
                        "╔═════╗",
                        "║█████║",
                        "║██╔██║",
                        "║██║██║",
                        "║█████║",
                        "╚══╗██║",
                        "   ║██║",
                        "╔══╝██║",
                        "║█████║",
                        "╚═════╝",
                        "       ",
                    ];
                    proof {
                        reveal_strlit("       ");
                        reveal_strlit("   ║██║");
                        reveal_strlit("║██║██║");
                        reveal_strlit("║██╔██║");
                        reveal_strlit("║█████║");
                        reveal_strlit("╔═════╗");
                        reveal_strlit("╔══╝██║");
                        reveal_strlit("╚═════╝");
                        reveal_strlit("╚══╗██║");
                        assert(forall|i: int| 0 <= i < v@.len() ==> (#[trigger] v@[i])@.len() == 7);
                    }
                    v
                },
            },
            DigitFont::Isometric => match d {
                0 => {
                    let v: Vec<&'static str> = vec![
                        "  ____  ",
                        " /\\   \\ ",
                        "/  \\   \\",
                        "\\   \\  /",
                        " \\   \\/ ",
                        " /\\   \\ ",
                        "/  \\   \\",
                        "\\   \\  /",
                        " \\___\\/ ",
                        "        ",
                    ];
                    proof {
                        reveal_strlit("        ");
                        reveal_strlit("  ____  ");
                        reveal_strlit(" /\\   \\ ");
                        reveal_strlit(" \\   \\/ ");
                        reveal_strlit(" \\___\\/ ");
                        reveal_strlit("/  \\   \\");
                        reveal_strlit("\\   \\  /");
                        assert(forall|i: int| 0 <= i < v@.len() ==> (#[trigger] v@[i])@.len() == 8);
                    }
                    v
                },
                1 => {
                    let v: Vec<&'static str> = vec![
                        "   __   ",
                        "  /\\ \\  ",
                        " /  \\ \\ ",
                        " \\   \\ \\",
                        "  \\   \\ ",
                        "  /\\   \\",
                        " /  \\   ",
                        " \\___\\__",
                        "        ",
                        "        ",
                    ];
                    proof {
                        reveal_strlit("        ");
                        reveal_strlit("   __   ");
                        reveal_strlit("  /\\   \\");
                        reveal_strlit("  /\\ \\  ");
                        reveal_strlit("  \\   \\ ");
                        reveal_strlit(" /  \\   ");
                        reveal_strlit(" /  \\ \\ ");
                        reveal_strlit(" \\   \\ \\");
                        reveal_strlit(" \\___\\__");
                        assert(forall|i: int| 0 <= i < v@.len() ==> (#[trigger] v@[i])@.len() == 8);
                    }
                    v
                },
                2 => {
                    let v: Vec<&'static str> = vec![
                        "  ____  ",
                        " /\\   \\ ",
                        " \\ \\   \\",
                        "  \\ \\  /",
                        "  /\\  / ",
                        " /  \\   ",
                        "/____\\  ",
                        "\\______\\",
                        "        ",
                        "        ",
                    ];
                    proof {
                        reveal_strlit("        ");
                        reveal_strlit("  /\\  / ");
                        reveal_strlit("  \\ \\  /");
                        reveal_strlit("  ____  ");
                        reveal_strlit(" /  \\   ");
                        reveal_strlit(" /\\   \\ ");
                        reveal_strlit(" \\ \\   \\");
                        reveal_strlit("/____\\  ");
                        reveal_strlit("\\______\\");
                        assert(forall|i: int| 0 <= i < v@.len() ==> (#[trigger] v@[i])@.len() == 8);
                    }
                    v
                },
                3 => {
                    let v: Vec<&'static str> = vec![
                        " ______ ",
                        " \\     \\",
                        "  \\    /",
                        "  /___/ ",
                        "  \\    \\",
                        "   \\   /",
                        " __\\  / ",
                        " \\____/ ",
                        "        ",
                        "        ",
                    ];
                    proof {
                        reveal_strlit("        ");
                        reveal_strlit("   \\   /");
                        reveal_strlit("  /___/ ");
                        reveal_strlit("  \\    /");
                        reveal_strlit("  \\    \\");
                        reveal_strlit(" \\     \\");
                        reveal_strlit(" \\____/ ");
                        reveal_strlit(" __\\  / ");
                        reveal_strlit(" ______ ");
                        assert(forall|i: int| 0 <= i < v@.len() ==> (#[trigger] v@[i])@.len() == 8);
                    }
                    v
                },
                4 => {
                    let v: Vec<&'static str> = vec![
                        " __  __ ",
                        "/\\ \\/\\ \\",
                        "\\ \\ \\_\\ ",
                        " \\ \\____",
                        "  \\/___/",
                        "      \\ ",
                        "       \\",
                        "        ",
                        "        ",
                        "        ",
                    ];
                    proof {
                        reveal_strlit("        ");
                        reveal_strlit("       \\");
                        reveal_strlit("      \\ ");
                        reveal_strlit("  \\/___/");
                        reveal_strlit(" \\ \\____");
                        reveal_strlit(" __  __ ");
                        reveal_strlit("/\\ \\/\\ \\");
                        reveal_strlit("\\ \\ \\_\\ ");
                        assert(forall|i: int| 0 <= i < v@.len() ==> (#[trigger] v@[i])@.len() == 8);
                    }
                    v
                },
                5 => {
                    let v: Vec<&'static str> = vec![
                        " ______ ",
                        "/\\     \\",
                        "\\ \\     ",
                        " \\ \\____",
                        "  \\/   /",
                        "   \\  / ",
                        " __/  / ",
                        " \\____/ ",
                        "        ",
                        "        ",
                    ];
                    proof {
                        reveal_strlit("        ");
                        reveal_strlit("   \\  / ");
                        reveal_strlit("  \\/   /");
                        reveal_strlit(" \\ \\____");
                        reveal_strlit(" \\____/ ");
                        reveal_strlit(" __/  / ");
                        reveal_strlit(" ______ ");
                        reveal_strlit("/\\     \\");
                        reveal_strlit("\\ \\     ");
                        assert(forall|i: int| 0 <= i < v@.len() ==> (#[trigger] v@[i])@.len() == 8);
                    }
                    v
                },
                6 => {
                    let v: Vec<&'static str> = vec![
                        "  ____  ",
                        " /\\   \\ ",
                        "/  \\    ",
                        "\\   \\___",
                        " \\  /  /",
                        " /\\ \\  \\",
                        "/  \\ \\  ",
                        "\\___\\_\\/",
                        "        ",
                        "        ",
                    ];
                    proof {
                        reveal_strlit("        ");
                        reveal_strlit("  ____  ");
                        reveal_strlit(" /\\   \\ ");
                        reveal_strlit(" /\\ \\  \\");
                        reveal_strlit(" \\  /  /");
                        reveal_strlit("/  \\    ");
                        reveal_strlit("/  \\ \\  ");
                        reveal_strlit("\\   \\___");
                        reveal_strlit("\\___\\_\\/");
                        assert(forall|i: int| 0 <= i < v@.len() ==> (#[trigger] v@[i])@.len() == 8);
                    }
                    v
                },
                7 => {
                    let v: Vec<&'static str> = vec![
                        " ______ ",
                        " \\     \\",
                        "  \\    /",
                        "   \\  / ",
                        "   /  \\ ",
                        "  /  / \\",
                        " /  /   ",
                        " \\/     ",
                        "        ",
                        "        ",
                    ];
                    proof {
                        reveal_strlit("        ");
                        reveal_strlit("   /  \\ ");
                        reveal_strlit("   \\  / ");
                        reveal_strlit("  /  / \\");
                        reveal_strlit("  \\    /");
                        reveal_strlit(" /  /   ");
                        reveal_strlit(" \\     \\");
                        reveal_strlit(" \\/     ");
                        reveal_strlit(" ______ ");
                        assert(forall|i: int| 0 <= i < v@.len() ==> (#[trigger] v@[i])@.len() == 8);
                    }
                    v
                },
                8 => {
                    let v: Vec<&'static str> = vec![
                        "  ____  ",
                        " /\\   \\ ",
                        "/  \\   \\",
                        "\\  /\\  /",
                        " \\/  \\/ ",
                        " /\\  /\\ ",
                        "/  \\/  \\",
                        "\\______/",
                        "        ",
                        "        ",
                    ];
                    proof {
                        reveal_strlit("        ");
                        reveal_strlit("  ____  ");
                        reveal_strlit(" /\\   \\ ");
                        reveal_strlit(" /\\  /\\ ");
                        reveal_strlit(" \\/  \\/ ");
                        reveal_strlit("/  \\   \\");
                        reveal_strlit("/  \\/  \\");
                        reveal_strlit("\\  /\\  /");
                        reveal_strlit("\\______/");
                        assert(forall|i: int| 0 <= i < v@.len() ==> (#[trigger] v@[i])@.len() == 8);
                    }
                    v
                },
                _ => {
                    let v: Vec<&'static str> = vec![
                        "  ____  ",
                        " /\\   \\ ",
                        "/  \\   \\",
                        "\\   \\__/",
                        " \\___/\\ ",
                        "     \\ \\",
                        "  ___\\ \\",
                        "  \\____\\",
                        "        ",
                        "        ",
                    ];
                    proof {
                        reveal_strlit("        ");
                        reveal_strlit("     \\ \\");
                        reveal_strlit("  \\____\\");
                        reveal_strlit("  ___\\ \\");
                        reveal_strlit("  ____  ");
                        reveal_strlit(" /\\   \\ ");
                        reveal_strlit(" \\___/\\ ");
                        reveal_strlit("/  \\   \\");
                        reveal_strlit("\\   \\__/");
                        assert(forall|i: int| 0 <= i < v@.len() ==> (#[trigger] v@[i])@.len() == 8);
                    }
                    v
                },
            },
            DigitFont::LCD => match d {
                0 => {
                    let v: Vec<&'static str> = vec![
                        " ▄▄▄▄ ",
                        "▐█▀▀█▌",
                        "▐█  █▌",
                        "▐█  █▌",
                        "▐█  █▌",
                        "▐█  █▌",
                        "▐█▄▄█▌",
                        " ▀▀▀▀ ",
                        "      ",
                    ];
                    proof {
                        reveal_strlit("      ");
                        reveal_strlit(" ▀▀▀▀ ");
                        reveal_strlit(" ▄▄▄▄ ");
                        reveal_strlit("▐█  █▌");
                        reveal_strlit("▐█▀▀█▌");
                        reveal_strlit("▐█▄▄█▌");
                        assert(forall|i: int| 0 <= i < v@.len() ==> (#[trigger] v@[i])@.len() == 6);
                    }
                    v
                },
                1 => {
                    let v: Vec<&'static str> = vec![
                        "  ▄█  ",
                        " ▀██  ",
                        "  ██  ",
                        "  ██  ",
                        "  ██  ",
                        "  ██  ",
                        " ▄██▄ ",
                        "      ",
                        "      ",
                    ];
                    proof {
                        reveal_strlit("      ");
                        reveal_strlit("  ▄█  ");
                        reveal_strlit("  ██  ");
                        reveal_strlit(" ▀██  ");
                        reveal_strlit(" ▄██▄ ");
                        assert(forall|i: int| 0 <= i < v@.len() ==> (#[trigger] v@[i])@.len() == 6);
                    }
                    v
                },
                2 => {
                    let v: Vec<&'static str> = vec![
                        " ▄▄▄▄ ",
                        "▀▀▀▀█▌",
                        "    █▌",
                        " ▄▄▄█▌",
                        "▐█▀▀▀ ",
                        "▐█    ",
                        "▐█▄▄▄▄",
                        " ▀▀▀▀▀",
                        "      ",
                    ];
                    proof {
                        reveal_strlit("      ");
                        reveal_strlit("    █▌");
                        reveal_strlit(" ▀▀▀▀▀");
                        reveal_strlit(" ▄▄▄▄ ");
                        reveal_strlit(" ▄▄▄█▌");
                        reveal_strlit("▀▀▀▀█▌");
                        reveal_strlit("▐█    ");
                        reveal_strlit("▐█▀▀▀ ");
                        reveal_strlit("▐█▄▄▄▄");
                        assert(forall|i: int| 0 <= i < v@.len() ==> (#[trigger] v@[i])@.len() == 6);
                    }
                    v
                },
                3 => {
                    let v: Vec<&'static str> = vec![
                        "▄▄▄▄▄ ",
                        "▀▀▀▀█▌",
                        "    █▌",
                        " ▄▄▄█▌",
                        "    █▌",
                        "    █▌",
                        "▄▄▄▄█▌",
                        "▀▀▀▀▀ ",
                        "      ",
                    ];
                    proof {
                        reveal_strlit("      ");
                        reveal_strlit("    █▌");
                        reveal_strlit(" ▄▄▄█▌");
                        reveal_strlit("▀▀▀▀▀ ");
                        reveal_strlit("▀▀▀▀█▌");
                        reveal_strlit("▄▄▄▄▄ ");
                        reveal_strlit("▄▄▄▄█▌");
                        assert(forall|i: int| 0 <= i < v@.len() ==> (#[trigger] v@[i])@.len() == 6);
                    }
                    v
                },
                4 => {
                    let v: Vec<&'static str> = vec![
                        "▐█  █▌",
                        "▐█  █▌",
                        "▐█  █▌",
                        "▐█▄▄█▌",
                        " ▀▀▀█▌",
                        "    █▌",
                        "    █▌",
                        "      ",
                        "      ",
                    ];
                    proof {
                        reveal_strlit("      ");
                        reveal_strlit("    █▌");
                        reveal_strlit(" ▀▀▀█▌");
                        reveal_strlit("▐█  █▌");
                        reveal_strlit("▐█▄▄█▌");
                        assert(forall|i: int| 0 <= i < v@.len() ==> (#[trigger] v@[i])@.len() == 6);
                    }
                    v
                },
                5 => {
                    let v: Vec<&'static str> = vec![
                        "▐█▄▄▄▄",
                        "▐█▀▀▀▀",
                        "▐█    ",
                        "▐█▄▄▄ ",
                        " ▀▀▀█▌",
                        "    █▌",
                        "▄▄▄▄█▌",
                        "▀▀▀▀▀ ",
                        "      ",
                    ];
                    proof {
                        reveal_strlit("      ");
                        reveal_strlit("    █▌");
                        reveal_strlit(" ▀▀▀█▌");
                        reveal_strlit("▀▀▀▀▀ ");
                        reveal_strlit("▄▄▄▄█▌");
                        reveal_strlit("▐█    ");
                        reveal_strlit("▐█▀▀▀▀");
                        reveal_strlit("▐█▄▄▄ ");
                        reveal_strlit("▐█▄▄▄▄");
                        assert(forall|i: int| 0 <= i < v@.len() ==> (#[trigger] v@[i])@.len() == 6);
                    }
                    v
                },
                6 => {
                    let v: Vec<&'static str> = vec![
                        " ▄▄▄▄ ",
                        "▐█▀▀▀ ",
                        "▐█    ",
                        "▐█▄▄▄ ",
                        "▐█▀▀█▌",
                        "▐█  █▌",
                        "▐█▄▄█▌",
                        " ▀▀▀▀ ",
                        "      ",
                    ];
                    proof {
                        reveal_strlit("      ");
                        reveal_strlit(" ▀▀▀▀ ");
                        reveal_strlit(" ▄▄▄▄ ");
                        reveal_strlit("▐█    ");
                        reveal_strlit("▐█  █▌");
                        reveal_strlit("▐█▀▀▀ ");
                        reveal_strlit("▐█▀▀█▌");
                        reveal_strlit("▐█▄▄▄ ");
                        reveal_strlit("▐█▄▄█▌");
                        assert(forall|i: int| 0 <= i < v@.len() ==> (#[trigger] v@[i])@.len() == 6);
                    }
                    v
                },
                7 => {
                    let v: Vec<&'static str> = vec![
                        "▄▄▄▄▄▄",
                        "▀▀▀▀█▌",
                        "   ▐█ ",
                        "   █▌ ",
                        "  ▐█  ",
                        "  █▌  ",
                        "  █▌  ",
                        "      ",
                        "      ",
                    ];
                    proof {
                        reveal_strlit("      ");
                        reveal_strlit("   █▌ ");
                        reveal_strlit("   ▐█ ");
                        reveal_strlit("  █▌  ");
                        reveal_strlit("  ▐█  ");
                        reveal_strlit("▀▀▀▀█▌");
                        reveal_strlit("▄▄▄▄▄▄");
                        assert(forall|i: int| 0 <= i < v@.len() ==> (#[trigger] v@[i])@.len() == 6);
                    }
                    v
                },
                8 => {
                    let v: Vec<&'static str> = vec![
                        " ▄▄▄▄ ",
                        "▐█▀▀█▌",
                        "▐█  █▌",
                        " ▀▄▄▀ ",
                        "▐█▀▀█▌",
                        "▐█  █▌",
                        "▐█▄▄█▌",
                        " ▀▀▀▀ ",
                        "      ",
                    ];
                    proof {
                        reveal_strlit("      ");
                        reveal_strlit(" ▀▀▀▀ ");
                        reveal_strlit(" ▀▄▄▀ ");
                        reveal_strlit(" ▄▄▄▄ ");
                        reveal_strlit("▐█  █▌");
                        reveal_strlit("▐█▀▀█▌");
                        reveal_strlit("▐█▄▄█▌");
                        assert(forall|i: int| 0 <= i < v@.len() ==> (#[trigger] v@[i])@.len() == 6);
                    }
                    v
                },
                _ => {
                    let v: Vec<&'static str> = vec![
                        " ▄▄▄▄ ",
                        "▐█▀▀█▌",
                        "▐█  █▌",
                        " ▀▄▄█▌",
                        "    █▌",
                        "   ▐█ ",
                        "▄▄▄█▌ ",
                        "▀▀▀▀  ",
                        "      ",
                    ];
                    proof {
                        reveal_strlit("      ");
                        reveal_strlit("    █▌");
                        reveal_strlit("   ▐█ ");
                        reveal_strlit(" ▀▄▄█▌");
                        reveal_strlit(" ▄▄▄▄ ");
                        reveal_strlit("▀▀▀▀  ");
                        reveal_strlit("▄▄▄█▌ ");
                        reveal_strlit("▐█  █▌");
                        reveal_strlit("▐█▀▀█▌");
                        assert(forall|i: int| 0 <= i < v@.len() ==> (#[trigger] v@[i])@.len() == 6);
                    }
                    v
                },
            },
        }
    }

    /// Glyph rows for the colon separator: the font's height, each row
    /// spanning exactly the colon's width.
    pub fn get_colon(&self) -> (r: Vec<&'static str>)
        ensures
            r@.len() == self.spec_height(),
            forall|i: int| 0 <= i < r@.len() ==> (#[trigger] r@[i])@.len()
                == self.spec_colon_width(),
    {
        match self {
            DigitFont::Classic => {
                let v: Vec<&'static str> = vec![
                    "  ",
                    "██",
                    "  ",
                    "██",
                    "  ",
                ];
                proof {
                    reveal_strlit("  ");
                    reveal_strlit("██");
                    assert(forall|i: int| 0 <= i < v@.len() ==> (#[trigger] v@[i])@.len() == 2);
                }
                v
            },
            DigitFont::Block3D => {
                let v: Vec<&'static str> = vec![
                    "   ",
                    "   ",
                    "▐█▌",
                    "   ",
                    "   ",
                    "▐█▌",
                    "   ",
                    "   ",
                    "   ",
                ];
                proof {
                    reveal_strlit("   ");
                    reveal_strlit("▐█▌");
                    assert(forall|i: int| 0 <= i < v@.len() ==> (#[trigger] v@[i])@.len() == 3);
                }
                v
            },
            DigitFont::Outlined => {
                let v: Vec<&'static str> = vec![
                    "   ",
                    "   ",
                    "╔═╗",
                    "║█║",
                    "╚═╝",
                    "   ",
                    "╔═╗",
                    "║█║",
                    "╚═╝",
                    "   ",
                    "   ",
                ];
                proof {
                    reveal_strlit("   ");
                    reveal_strlit("║█║");
                    reveal_strlit("╔═╗");
                    reveal_strlit("╚═╝");
                    assert(forall|i: int| 0 <= i < v@.len() ==> (#[trigger] v@[i])@.len() == 3);
                }
                v
            },
            DigitFont::Isometric => {
                let v: Vec<&'static str> = vec![
                    "   ",
                    "   ",
                    " /\\",
                    " \\/",
                    "   ",
                    "   ",
                    " /\\",
                    " \\/",
                    "   ",
                    "   ",
                ];
                proof {
                    reveal_strlit("   ");
                    reveal_strlit(" /\\");
                    reveal_strlit(" \\/");
                    assert(forall|i: int| 0 <= i < v@.len() ==> (#[trigger] v@[i])@.len() == 3);
                }
                v
            },
            DigitFont::LCD => {
                let v: Vec<&'static str> = vec![
                    "  ",
                    "  ",
                    "▐▌",
                    "  ",
                    "  ",
                    "▐▌",
                    "  ",
                    "  ",
                    "  ",
                ];
                proof {
                    reveal_strlit("  ");
                    reveal_strlit("▐▌");
                    assert(forall|i: int| 0 <= i < v@.len() ==> (#[trigger] v@[i])@.len() == 2);
                }
                v
            },
        }
    }

    /// Characters a renderer styles in the theme's primary colour.
    pub open spec fn spec_primary_chars(&self) -> Seq<char> {
        match self {
            DigitFont::Classic => seq!['█'],
            DigitFont::Block3D => seq!['█', '▀', '▄', '▌', '▐', '▓', '▒'],
            DigitFont::Outlined => seq!['█', '▀', '▄', '║', '═', '╔', '╗', '╚', '╝', '│', '─', '┌', '┐', '└', '┘', '╠', '╣', '╬'],
            DigitFont::Isometric => seq!['/', '\\', '_', '|', '▓', '▒', '░'],
            DigitFont::LCD => seq!['█', '▀', '▄', '▐', '▌', '│', '─'],
        }
    }

    pub fn primary_chars(&self) -> (r: Vec<char>)
        ensures
            r@ == self.spec_primary_chars(),
    {
        let r: Vec<char> = match self {
            DigitFont::Classic => vec!['█'],
            DigitFont::Block3D => vec!['█', '▀', '▄', '▌', '▐', '▓', '▒'],
            DigitFont::Outlined => vec!['█', '▀', '▄', '║', '═', '╔', '╗', '╚', '╝', '│', '─', '┌', '┐', '└', '┘', '╠', '╣', '╬'],
            DigitFont::Isometric => vec!['/', '\\', '_', '|', '▓', '▒', '░'],
            DigitFont::LCD => vec!['█', '▀', '▄', '▐', '▌', '│', '─'],
        };
        assert(r@ =~= self.spec_primary_chars());
        r
    }

    /// Characters a renderer styles in the theme's secondary colour, for
    /// shadows and depth; disjoint from the primary set.
    pub open spec fn spec_secondary_chars(&self) -> Seq<char> {
        match self {
            DigitFont::Classic => Seq::empty(),
            DigitFont::Block3D => seq!['░', '▁', '▏'],
            DigitFont::Outlined => seq!['░', '▒'],
            DigitFont::Isometric => seq!['·', '.'],
            DigitFont::LCD => seq!['░'],
        }
    }

    pub fn secondary_chars(&self) -> (r: Vec<char>)
        ensures
            r@ == self.spec_secondary_chars(),
    {
        let r: Vec<char> = match self {
            DigitFont::Classic => vec![],
            DigitFont::Block3D => vec!['░', '▁', '▏'],
            DigitFont::Outlined => vec!['░', '▒'],
            DigitFont::Isometric => vec!['·', '.'],
            DigitFont::LCD => vec!['░'],
        };
        assert(r@ =~= self.spec_secondary_chars());
        r
    }

    /// The two styling sets never claim the same character: a glyph cell is
    /// primary, secondary, or unstyled, never two of these at once.
    pub proof fn lemma_two_tone_disjoint(&self)
        ensures
            forall|i: int, j: int|
                0 <= i < self.spec_primary_chars().len() && 0 <= j
                    < self.spec_secondary_chars().len() ==> #[trigger] self.spec_primary_chars()[i]
                    != #[trigger] self.spec_secondary_chars()[j],
    {
    }
}

impl Default for DigitFont {
    /// The font used when nothing picked one.
    fn default() -> (r: Self)
        ensures
            r is Classic,
    {
        DigitFont::Classic
    }
}

/// The (width, height) the "MM:SS" timer display needs in the given font:
/// four digits, the colon, and spacing between the glyphs.
pub fn timer_dimensions_for_font(font: DigitFont) -> (r: (u16, u16))
    ensures
        r.0 == font.spec_width() * 4 + font.spec_colon_width() + 4,
        r.1 == font.spec_height(),
{
    (font.width() * 4 + font.colon_width() + 4, font.height())
}

/// The (width, height) the timer display needs in the default font.
pub fn timer_dimensions() -> (r: (u16, u16))
    ensures
        r.0 == DigitFont::Classic.spec_width() * 4 + DigitFont::Classic.spec_colon_width() + 4,
        r.1 == DigitFont::Classic.spec_height(),
{
    timer_dimensions_for_font(DigitFont::Classic)
}

} // verus!
