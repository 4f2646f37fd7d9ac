//! The closed set of animation themes: identifiers, display names, the
//! colour palette each bundles, and deterministic seeded selection. The
//! decorative background renderers that draw each theme live outside this
//! crate and observe nothing but a frame index.

use vstd::prelude::*;

use crate::fonts::DigitFont;

verus! {

/// An RGB colour, as plain channel values.
#[derive(Clone, Copy, Debug, PartialEq, Eq, Structural)]
pub struct Rgb {
    pub r: u8,
    pub g: u8,
    pub b: u8,
}

/// Every animation theme the timer can show.
#[derive(Clone, Copy, Debug, PartialEq, Eq, Structural)]
pub enum ThemeType {
    Matrix,
    Fire,
    Starfield,
    Plasma,
    RainDrops,
    RadioWaves,
    SpinningShapes,
    Fireworks,
    Aurora,
    Ocean,
    DNA,
    Bubbles,
    Electric,
    Snowfall,
    Nature,
    Geometric,
    Glitch,
    Minimal,
    Seasonal,
    Landscape,
    Amber,
    GitHub,
    Medieval,
    Synthwave,
}

impl ThemeType {
    /// Every theme, in presentation order.
    pub open spec fn spec_all() -> Seq<ThemeType> {
        seq![
            ThemeType::Matrix,
            ThemeType::Fire,
            ThemeType::Starfield,
            ThemeType::Plasma,
            ThemeType::RainDrops,
            ThemeType::RadioWaves,
            ThemeType::SpinningShapes,
            ThemeType::Fireworks,
            ThemeType::Aurora,
            ThemeType::Ocean,
            ThemeType::DNA,
            ThemeType::Bubbles,
            ThemeType::Electric,
            ThemeType::Snowfall,
            ThemeType::Nature,
            ThemeType::Geometric,
            ThemeType::Glitch,
            ThemeType::Minimal,
            ThemeType::Seasonal,
            ThemeType::Landscape,
            ThemeType::Amber,
            ThemeType::GitHub,
            ThemeType::Medieval,
            ThemeType::Synthwave,
        ]
    }

    pub fn all() -> (r: Vec<ThemeType>)
        ensures
            r@ == Self::spec_all(),
            r@.len() == 24,
    {
        let r = vec![
            ThemeType::Matrix,
            ThemeType::Fire,
            ThemeType::Starfield,
            ThemeType::Plasma,
            ThemeType::RainDrops,
            ThemeType::RadioWaves,
            ThemeType::SpinningShapes,
            ThemeType::Fireworks,
            ThemeType::Aurora,
            ThemeType::Ocean,
            ThemeType::DNA,
            ThemeType::Bubbles,
            ThemeType::Electric,
            ThemeType::Snowfall,
            ThemeType::Nature,
            ThemeType::Geometric,
            ThemeType::Glitch,
            ThemeType::Minimal,
            ThemeType::Seasonal,
            ThemeType::Landscape,
            ThemeType::Amber,
            ThemeType::GitHub,
            ThemeType::Medieval,
            ThemeType::Synthwave,
        ];
        assert(r@ =~= Self::spec_all());
        r
    }

    /// Display name of the theme.
    pub fn name(&self) -> (r: &'static str)
        ensures
            self is Matrix ==> r@ == "Matrix Rain"@,
            self is Fire ==> r@ == "Fire"@,
            self is Starfield ==> r@ == "Starfield"@,
            self is Plasma ==> r@ == "Plasma"@,
            self is RainDrops ==> r@ == "Rain Drops"@,
            self is RadioWaves ==> r@ == "Radio Waves"@,
            self is SpinningShapes ==> r@ == "Spinning Shapes"@,
            self is Fireworks ==> r@ == "Fireworks"@,
            self is Aurora ==> r@ == "Aurora Borealis"@,
            self is Ocean ==> r@ == "Ocean Waves"@,
            self is DNA ==> r@ == "DNA Helix"@,
            self is Bubbles ==> r@ == "Bubbles"@,
            self is Electric ==> r@ == "Electric Storm"@,
            self is Snowfall ==> r@ == "Snowfall"@,
            self is Nature ==> r@ == "Forest Nature"@,
            self is Geometric ==> r@ == "Geometric Patterns"@,
            self is Glitch ==> r@ == "Glitch Cyberpunk"@,
            self is Minimal ==> r@ == "Minimal Zen"@,
            self is Seasonal ==> r@ == "Seasonal"@,
            self is Landscape ==> r@ == "Landscape"@,
            self is Amber ==> r@ == "Amber"@,
            self is GitHub ==> r@ == "GitHub"@,
            self is Medieval ==> r@ == "Medieval"@,
            self is Synthwave ==> r@ == "Synthwave"@,
    {
        match self {
            ThemeType::Matrix => "Matrix Rain",
            ThemeType::Fire => "Fire",
            ThemeType::Starfield => "Starfield",
            ThemeType::Plasma => "Plasma",
            ThemeType::RainDrops => "Rain Drops",
            ThemeType::RadioWaves => "Radio Waves",
            ThemeType::SpinningShapes => "Spinning Shapes",
            ThemeType::Fireworks => "Fireworks",
            ThemeType::Aurora => "Aurora Borealis",
            ThemeType::Ocean => "Ocean Waves",
            ThemeType::DNA => "DNA Helix",
            ThemeType::Bubbles => "Bubbles",
            ThemeType::Electric => "Electric Storm",
            ThemeType::Snowfall => "Snowfall",
            ThemeType::Nature => "Forest Nature",
            ThemeType::Geometric => "Geometric Patterns",
            ThemeType::Glitch => "Glitch Cyberpunk",
            ThemeType::Minimal => "Minimal Zen",
            ThemeType::Seasonal => "Seasonal",
            ThemeType::Landscape => "Landscape",
            ThemeType::Amber => "Amber",
            ThemeType::GitHub => "GitHub",
            ThemeType::Medieval => "Medieval",
            ThemeType::Synthwave => "Synthwave",
        }
    }

    /// Primary colour of the theme, used for the digits.
    pub open spec fn spec_primary_color(&self) -> Rgb {
        match self {
            ThemeType::Matrix => Rgb { r: 0, g: 255, b: 65 },
            ThemeType::Fire => Rgb { r: 255, g: 200, b: 50 },
            ThemeType::Starfield => Rgb { r: 200, g: 200, b: 255 },
            ThemeType::Plasma => Rgb { r: 255, g: 100, b: 255 },
            ThemeType::RainDrops => Rgb { r: 100, g: 200, b: 255 },
            ThemeType::RadioWaves => Rgb { r: 0, g: 255, b: 255 },
            ThemeType::SpinningShapes => Rgb { r: 255, g: 255, b: 100 },
            ThemeType::Fireworks => Rgb { r: 255, g: 220, b: 100 },
            ThemeType::Aurora => Rgb { r: 100, g: 255, b: 150 },
            ThemeType::Ocean => Rgb { r: 100, g: 200, b: 255 },
            ThemeType::DNA => Rgb { r: 150, g: 255, b: 200 },
            ThemeType::Bubbles => Rgb { r: 180, g: 220, b: 255 },
            ThemeType::Electric => Rgb { r: 150, g: 200, b: 255 },
            ThemeType::Snowfall => Rgb { r: 220, g: 230, b: 255 },
            ThemeType::Nature => Rgb { r: 120, g: 200, b: 100 },
            ThemeType::Geometric => Rgb { r: 200, g: 150, b: 255 },
            ThemeType::Glitch => Rgb { r: 255, g: 50, b: 150 },
            ThemeType::Minimal => Rgb { r: 150, g: 160, b: 180 },
            ThemeType::Seasonal => Rgb { r: 200, g: 180, b: 150 },
            ThemeType::Landscape => Rgb { r: 150, g: 200, b: 100 },
            ThemeType::Amber => Rgb { r: 217, g: 119, b: 6 },
            ThemeType::GitHub => Rgb { r: 57, g: 211, b: 83 },
            ThemeType::Medieval => Rgb { r: 255, g: 180, b: 80 },
            ThemeType::Synthwave => Rgb { r: 255, g: 100, b: 200 },
        }
    }

    #[verifier::when_used_as_spec(spec_primary_color)]
    pub fn primary_color(&self) -> (r: Rgb)
        ensures
            r == self.spec_primary_color(),
    {
        match self {
            ThemeType::Matrix => Rgb { r: 0, g: 255, b: 65 },
            ThemeType::Fire => Rgb { r: 255, g: 200, b: 50 },
            ThemeType::Starfield => Rgb { r: 200, g: 200, b: 255 },
            ThemeType::Plasma => Rgb { r: 255, g: 100, b: 255 },
            ThemeType::RainDrops => Rgb { r: 100, g: 200, b: 255 },
            ThemeType::RadioWaves => Rgb { r: 0, g: 255, b: 255 },
            ThemeType::SpinningShapes => Rgb { r: 255, g: 255, b: 100 },
            ThemeType::Fireworks => Rgb { r: 255, g: 220, b: 100 },
            ThemeType::Aurora => Rgb { r: 100, g: 255, b: 150 },
            ThemeType::Ocean => Rgb { r: 100, g: 200, b: 255 },
            ThemeType::DNA => Rgb { r: 150, g: 255, b: 200 },
            ThemeType::Bubbles => Rgb { r: 180, g: 220, b: 255 },
            ThemeType::Electric => Rgb { r: 150, g: 200, b: 255 },
            ThemeType::Snowfall => Rgb { r: 220, g: 230, b: 255 },
            ThemeType::Nature => Rgb { r: 120, g: 200, b: 100 },
            ThemeType::Geometric => Rgb { r: 200, g: 150, b: 255 },
            ThemeType::Glitch => Rgb { r: 255, g: 50, b: 150 },
            ThemeType::Minimal => Rgb { r: 150, g: 160, b: 180 },
            ThemeType::Seasonal => Rgb { r: 200, g: 180, b: 150 },
            ThemeType::Landscape => Rgb { r: 150, g: 200, b: 100 },
            ThemeType::Amber => Rgb { r: 217, g: 119, b: 6 },
            ThemeType::GitHub => Rgb { r: 57, g: 211, b: 83 },
            ThemeType::Medieval => Rgb { r: 255, g: 180, b: 80 },
            ThemeType::Synthwave => Rgb { r: 255, g: 100, b: 200 },
        }
    }

    /// Secondary colour, used for digit shadows and outlines.
    pub open spec fn spec_secondary_color(&self) -> Rgb {
        match self {
            ThemeType::Matrix => Rgb { r: 0, g: 100, b: 30 },
            ThemeType::Fire => Rgb { r: 200, g: 50, b: 0 },
            ThemeType::Starfield => Rgb { r: 50, g: 50, b: 100 },
            ThemeType::Plasma => Rgb { r: 100, g: 0, b: 150 },
            ThemeType::RainDrops => Rgb { r: 0, g: 50, b: 100 },
            ThemeType::RadioWaves => Rgb { r: 100, g: 0, b: 150 },
            ThemeType::SpinningShapes => Rgb { r: 100, g: 100, b: 0 },
            ThemeType::Fireworks => Rgb { r: 150, g: 100, b: 0 },
            ThemeType::Aurora => Rgb { r: 50, g: 100, b: 80 },
            ThemeType::Ocean => Rgb { r: 30, g: 80, b: 120 },
            ThemeType::DNA => Rgb { r: 60, g: 120, b: 100 },
            ThemeType::Bubbles => Rgb { r: 80, g: 120, b: 150 },
            ThemeType::Electric => Rgb { r: 50, g: 80, b: 150 },
            ThemeType::Snowfall => Rgb { r: 100, g: 120, b: 150 },
            ThemeType::Nature => Rgb { r: 60, g: 100, b: 50 },
            ThemeType::Geometric => Rgb { r: 80, g: 60, b: 120 },
            ThemeType::Glitch => Rgb { r: 100, g: 0, b: 80 },
            ThemeType::Minimal => Rgb { r: 60, g: 70, b: 80 },
            ThemeType::Seasonal => Rgb { r: 100, g: 90, b: 80 },
            ThemeType::Landscape => Rgb { r: 80, g: 120, b: 60 },
            ThemeType::Amber => Rgb { r: 120, g: 70, b: 10 },
            ThemeType::GitHub => Rgb { r: 30, g: 100, b: 40 },
            ThemeType::Medieval => Rgb { r: 100, g: 60, b: 30 },
            ThemeType::Synthwave => Rgb { r: 150, g: 50, b: 100 },
        }
    }

    #[verifier::when_used_as_spec(spec_secondary_color)]
    pub fn secondary_color(&self) -> (r: Rgb)
        ensures
            r == self.spec_secondary_color(),
    {
        match self {
            ThemeType::Matrix => Rgb { r: 0, g: 100, b: 30 },
            ThemeType::Fire => Rgb { r: 200, g: 50, b: 0 },
            ThemeType::Starfield => Rgb { r: 50, g: 50, b: 100 },
            ThemeType::Plasma => Rgb { r: 100, g: 0, b: 150 },
            ThemeType::RainDrops => Rgb { r: 0, g: 50, b: 100 },
            ThemeType::RadioWaves => Rgb { r: 100, g: 0, b: 150 },
            ThemeType::SpinningShapes => Rgb { r: 100, g: 100, b: 0 },
            ThemeType::Fireworks => Rgb { r: 150, g: 100, b: 0 },
            ThemeType::Aurora => Rgb { r: 50, g: 100, b: 80 },
            ThemeType::Ocean => Rgb { r: 30, g: 80, b: 120 },
            ThemeType::DNA => Rgb { r: 60, g: 120, b: 100 },
            ThemeType::Bubbles => Rgb { r: 80, g: 120, b: 150 },
            ThemeType::Electric => Rgb { r: 50, g: 80, b: 150 },
            ThemeType::Snowfall => Rgb { r: 100, g: 120, b: 150 },
            ThemeType::Nature => Rgb { r: 60, g: 100, b: 50 },
            ThemeType::Geometric => Rgb { r: 80, g: 60, b: 120 },
            ThemeType::Glitch => Rgb { r: 100, g: 0, b: 80 },
            ThemeType::Minimal => Rgb { r: 60, g: 70, b: 80 },
            ThemeType::Seasonal => Rgb { r: 100, g: 90, b: 80 },
            ThemeType::Landscape => Rgb { r: 80, g: 120, b: 60 },
            ThemeType::Amber => Rgb { r: 120, g: 70, b: 10 },
            ThemeType::GitHub => Rgb { r: 30, g: 100, b: 40 },
            ThemeType::Medieval => Rgb { r: 100, g: 60, b: 30 },
            ThemeType::Synthwave => Rgb { r: 150, g: 50, b: 100 },
        }
    }

    /// Background fill colour of the theme.
    pub open spec fn spec_background_color(&self) -> Rgb {
        match self {
            ThemeType::Matrix => Rgb { r: 0, g: 10, b: 0 },
            ThemeType::Fire => Rgb { r: 20, g: 5, b: 0 },
            ThemeType::Starfield => Rgb { r: 0, g: 0, b: 15 },
            ThemeType::Plasma => Rgb { r: 10, g: 0, b: 20 },
            ThemeType::RainDrops => Rgb { r: 5, g: 10, b: 20 },
            ThemeType::RadioWaves => Rgb { r: 10, g: 0, b: 20 },
            ThemeType::SpinningShapes => Rgb { r: 10, g: 10, b: 20 },
            ThemeType::Fireworks => Rgb { r: 5, g: 5, b: 15 },
            ThemeType::Aurora => Rgb { r: 5, g: 5, b: 15 },
            ThemeType::Ocean => Rgb { r: 0, g: 20, b: 40 },
            ThemeType::DNA => Rgb { r: 5, g: 10, b: 20 },
            ThemeType::Bubbles => Rgb { r: 5, g: 15, b: 35 },
            ThemeType::Electric => Rgb { r: 10, g: 10, b: 20 },
            ThemeType::Snowfall => Rgb { r: 10, g: 15, b: 25 },
            ThemeType::Nature => Rgb { r: 15, g: 30, b: 20 },
            ThemeType::Geometric => Rgb { r: 8, g: 5, b: 15 },
            ThemeType::Glitch => Rgb { r: 5, g: 5, b: 12 },
            ThemeType::Minimal => Rgb { r: 12, g: 12, b: 15 },
            ThemeType::Seasonal => Rgb { r: 20, g: 20, b: 25 },
            ThemeType::Landscape => Rgb { r: 20, g: 30, b: 40 },
            ThemeType::Amber => Rgb { r: 30, g: 20, b: 15 },
            ThemeType::GitHub => Rgb { r: 13, g: 17, b: 23 },
            ThemeType::Medieval => Rgb { r: 15, g: 12, b: 10 },
            ThemeType::Synthwave => Rgb { r: 10, g: 5, b: 20 },
        }
    }

    #[verifier::when_used_as_spec(spec_background_color)]
    pub fn background_color(&self) -> (r: Rgb)
        ensures
            r == self.spec_background_color(),
    {
        match self {
            ThemeType::Matrix => Rgb { r: 0, g: 10, b: 0 },
            ThemeType::Fire => Rgb { r: 20, g: 5, b: 0 },
            ThemeType::Starfield => Rgb { r: 0, g: 0, b: 15 },
            ThemeType::Plasma => Rgb { r: 10, g: 0, b: 20 },
            ThemeType::RainDrops => Rgb { r: 5, g: 10, b: 20 },
            ThemeType::RadioWaves => Rgb { r: 10, g: 0, b: 20 },
            ThemeType::SpinningShapes => Rgb { r: 10, g: 10, b: 20 },
            ThemeType::Fireworks => Rgb { r: 5, g: 5, b: 15 },
            ThemeType::Aurora => Rgb { r: 5, g: 5, b: 15 },
            ThemeType::Ocean => Rgb { r: 0, g: 20, b: 40 },
            ThemeType::DNA => Rgb { r: 5, g: 10, b: 20 },
            ThemeType::Bubbles => Rgb { r: 5, g: 15, b: 35 },
            ThemeType::Electric => Rgb { r: 10, g: 10, b: 20 },
            ThemeType::Snowfall => Rgb { r: 10, g: 15, b: 25 },
            ThemeType::Nature => Rgb { r: 15, g: 30, b: 20 },
            ThemeType::Geometric => Rgb { r: 8, g: 5, b: 15 },
            ThemeType::Glitch => Rgb { r: 5, g: 5, b: 12 },
            ThemeType::Minimal => Rgb { r: 12, g: 12, b: 15 },
            ThemeType::Seasonal => Rgb { r: 20, g: 20, b: 25 },
            ThemeType::Landscape => Rgb { r: 20, g: 30, b: 40 },
            ThemeType::Amber => Rgb { r: 30, g: 20, b: 15 },
            ThemeType::GitHub => Rgb { r: 13, g: 17, b: 23 },
            ThemeType::Medieval => Rgb { r: 15, g: 12, b: 10 },
            ThemeType::Synthwave => Rgb { r: 10, g: 5, b: 20 },
        }
    }

    /// The digit font the theme prefers. The font catalogue's default,
    /// used by every theme in this catalogue.
    pub fn font(&self) -> (r: DigitFont)
        ensures
            r == DigitFont::Block3D,
    {
        DigitFont::Block3D
    }

    /// Position of a theme in the catalogue order.
    pub fn index_of(t: ThemeType) -> (i: usize)
        ensures
            i < 24,
            Self::spec_all()[i as int] == t,
    {
        match t {
            ThemeType::Matrix => 0,
            ThemeType::Fire => 1,
            ThemeType::Starfield => 2,
            ThemeType::Plasma => 3,
            ThemeType::RainDrops => 4,
            ThemeType::RadioWaves => 5,
            ThemeType::SpinningShapes => 6,
            ThemeType::Fireworks => 7,
            ThemeType::Aurora => 8,
            ThemeType::Ocean => 9,
            ThemeType::DNA => 10,
            ThemeType::Bubbles => 11,
            ThemeType::Electric => 12,
            ThemeType::Snowfall => 13,
            ThemeType::Nature => 14,
            ThemeType::Geometric => 15,
            ThemeType::Glitch => 16,
            ThemeType::Minimal => 17,
            ThemeType::Seasonal => 18,
            ThemeType::Landscape => 19,
            ThemeType::Amber => 20,
            ThemeType::GitHub => 21,
            ThemeType::Medieval => 22,
            ThemeType::Synthwave => 23,
        }
    }

    /// The theme at `seed` modulo the catalogue size: a deterministic,
    /// injectable stand-in for wall-clock-seeded selection.
    pub fn pick(seed: u64) -> (r: ThemeType)
        ensures
            r == Self::spec_all()[(seed % 24) as int],
    {
        let themes = Self::all();
        let idx = (seed % 24) as usize;
        themes[idx]
    }

    /// The theme `pick_except` returns: the seeded pick, stepped past
    /// `current` if it collides.
    pub open spec fn spec_pick_except(seed: u64, current: ThemeType) -> ThemeType {
        let idx = (seed % 24) as int;
        if Self::spec_all()[idx] == current {
            Self::spec_all()[((idx + 1) % 24) as int]
        } else {
            Self::spec_all()[idx]
        }
    }

    /// Seeded selection never hands back the theme it was asked to avoid:
    /// in the catalogue no two neighbouring themes are equal, so the one
    /// step past a collision always lands elsewhere.
    pub proof fn lemma_pick_except_ne(seed: u64, current: ThemeType)
        ensures
            Self::spec_pick_except(seed, current) != current,
    {
        let idx = (seed % 24) as int;
        assert(Self::spec_all()[idx] == current ==> Self::spec_all()[((idx + 1) % 24) as int]
            != current);
    }

    /// Seeded selection that never returns `current`: take the seeded
    /// pick, and step to the next theme if it collides. The catalogue
    /// holds at least two themes, so a different one always exists.
    pub fn pick_except(seed: u64, current: ThemeType) -> (r: ThemeType)
        ensures
            r == Self::spec_pick_except(seed, current),
            r != current,
    {
        let themes = Self::all();
        let idx = (seed % 24) as usize;
        let t = themes[idx];
        if t == current {
            let idx2 = (idx + 1) % 24;
            let u = themes[idx2];
            assert(u != t);
            u
        } else {
            t
        }
    }
}

} // verus!
