//! Colours of the interface and the light/dark choice.
use vstd::prelude::*;
use crate::text::{chars_of, contains_chars, has_substring, lowercase, to_lowercase};

verus! {

/// A 24-bit colour.
#[derive(Clone, Copy, Debug, PartialEq, Eq, Structural)]
pub struct Rgb {
    pub r: u8,
    pub g: u8,
    pub b: u8,
}

/// The colour with these components.
pub open spec fn rgb(r: u8, g: u8, b: u8) -> Rgb {
    Rgb { r, g, b }
}

/// Light or dark terminal background.
#[derive(Clone, Copy, Debug, PartialEq, Eq, Structural)]
pub enum ThemeMode {
    Dark,
    Light,
}

/// Colour of the countdown on a dark background: brand from 10 s left, warning from
/// 5 s, danger below.
pub open spec fn spec_timer_color(seconds: u64) -> Rgb {
    if seconds >= 10 {
        rgb(184, 158, 255)
    } else if seconds >= 5 {
        rgb(251, 191, 36)
    } else {
        rgb(248, 113, 113)
    }
}

/// Colour of the countdown on a light background: the light brand from 10 s left,
/// then the same warning and danger colours as on dark.
pub open spec fn spec_timer_color_light(seconds: u64) -> Rgb {
    if seconds >= 10 {
        rgb(117, 89, 184)
    } else if seconds >= 5 {
        rgb(251, 191, 36)
    } else {
        rgb(248, 113, 113)
    }
}

/// Progress-bar colour for `seconds` left in the TOTP window (dark palette).
pub fn timer_color(seconds: u64) -> (c: Rgb)
    ensures
        c == spec_timer_color(seconds),
{
    if seconds >= 10 {
        Rgb { r: 184, g: 158, b: 255 }
    } else if seconds >= 5 {
        Rgb { r: 251, g: 191, b: 36 }
    } else {
        Rgb { r: 248, g: 113, b: 113 }
    }
}

/// Progress-bar colour for `seconds` left in the TOTP window (light palette).
pub fn timer_color_light(seconds: u64) -> (c: Rgb)
    ensures
        c == spec_timer_color_light(seconds),
{
    if seconds >= 10 {
        Rgb { r: 117, g: 89, b: 184 }
    } else if seconds >= 5 {
        Rgb { r: 251, g: 191, b: 36 }
    } else {
        Rgb { r: 248, g: 113, b: 113 }
    }
}

/// Colour of the list header timer: code blue above 10 s, warning orange from 5 s,
/// urgent red below.
pub open spec fn spec_list_timer_color(seconds: u64) -> Rgb {
    if seconds > 10 {
        rgb(121, 192, 255)
    } else if seconds >= 5 {
        rgb(210, 153, 34)
    } else {
        rgb(248, 81, 73)
    }
}

/// Timer and code colour of the account list for `seconds` left.
pub fn list_timer_color(seconds: u64) -> (c: Rgb)
    ensures
        c == spec_list_timer_color(seconds),
{
    if seconds > 10 {
        Rgb { r: 121, g: 192, b: 255 }
    } else if seconds >= 5 {
        Rgb { r: 210, g: 153, b: 34 }
    } else {
        Rgb { r: 248, g: 81, b: 73 }
    }
}

/// The brand colour of a mode.
pub open spec fn brand_of(m: ThemeMode) -> Rgb {
    match m {
        ThemeMode::Dark => rgb(184, 158, 255),
        ThemeMode::Light => rgb(117, 89, 184),
    }
}

/// The bg colour of a mode.
pub open spec fn bg_of(m: ThemeMode) -> Rgb {
    match m {
        ThemeMode::Dark => rgb(10, 10, 18),
        ThemeMode::Light => rgb(244, 243, 248),
    }
}

/// The surface colour of a mode.
pub open spec fn surface_of(m: ThemeMode) -> Rgb {
    match m {
        ThemeMode::Dark => rgb(20, 19, 31),
        ThemeMode::Light => rgb(255, 255, 255),
    }
}

/// The border colour of a mode.
pub open spec fn border_of(m: ThemeMode) -> Rgb {
    match m {
        ThemeMode::Dark => rgb(42, 42, 58),
        ThemeMode::Light => rgb(216, 212, 224),
    }
}

/// The text colour of a mode.
pub open spec fn text_of(m: ThemeMode) -> Rgb {
    match m {
        ThemeMode::Dark => rgb(232, 230, 240),
        ThemeMode::Light => rgb(10, 10, 18),
    }
}

/// The text muted colour of a mode.
pub open spec fn text_muted_of(m: ThemeMode) -> Rgb {
    match m {
        ThemeMode::Dark => rgb(122, 118, 144),
        ThemeMode::Light => rgb(86, 83, 107),
    }
}

/// The countdown colour of `m` for `seconds` left.
pub open spec fn mode_timer_color(m: ThemeMode, seconds: u64) -> Rgb {
    match m {
        ThemeMode::Dark => spec_timer_color(seconds),
        ThemeMode::Light => spec_timer_color_light(seconds),
    }
}

impl ThemeMode {
    /// Brand colour.
    pub fn brand(&self) -> (c: Rgb)
        ensures
            c == brand_of(*self),
    {
        match self {
            ThemeMode::Dark => Rgb { r: 184, g: 158, b: 255 },
            ThemeMode::Light => Rgb { r: 117, g: 89, b: 184 },
        }
    }

    /// Background colour.
    pub fn bg(&self) -> (c: Rgb)
        ensures
            c == bg_of(*self),
    {
        match self {
            ThemeMode::Dark => Rgb { r: 10, g: 10, b: 18 },
            ThemeMode::Light => Rgb { r: 244, g: 243, b: 248 },
        }
    }

    /// Surface (raised panel) colour.
    pub fn surface(&self) -> (c: Rgb)
        ensures
            c == surface_of(*self),
    {
        match self {
            ThemeMode::Dark => Rgb { r: 20, g: 19, b: 31 },
            ThemeMode::Light => Rgb { r: 255, g: 255, b: 255 },
        }
    }

    /// Border colour.
    pub fn border(&self) -> (c: Rgb)
        ensures
            c == border_of(*self),
    {
        match self {
            ThemeMode::Dark => Rgb { r: 42, g: 42, b: 58 },
            ThemeMode::Light => Rgb { r: 216, g: 212, b: 224 },
        }
    }

    /// Text colour.
    pub fn text(&self) -> (c: Rgb)
        ensures
            c == text_of(*self),
    {
        match self {
            ThemeMode::Dark => Rgb { r: 232, g: 230, b: 240 },
            ThemeMode::Light => Rgb { r: 10, g: 10, b: 18 },
        }
    }

    /// Muted text colour.
    pub fn text_muted(&self) -> (c: Rgb)
        ensures
            c == text_muted_of(*self),
    {
        match self {
            ThemeMode::Dark => Rgb { r: 122, g: 118, b: 144 },
            ThemeMode::Light => Rgb { r: 86, g: 83, b: 107 },
        }
    }

    /// Countdown colour of this mode for `seconds` left.
    pub fn timer_color(&self, seconds: u64) -> (c: Rgb)
        ensures
            c == mode_timer_color(*self, seconds),
    {
        match self {
            ThemeMode::Dark => timer_color(seconds),
            ThemeMode::Light => timer_color_light(seconds),
        }
    }
}

/// The mode chosen from the values of `$TOFA_THEME`, `$TERM_BACKGROUND` and
/// `$COLORSCHEME` (in that order; `None` for an unset one): the first set value whose
/// lowercase form contains `"light"` gives Light, or contains `"dark"` gives Dark;
/// values with neither are skipped; Dark when nothing decides.
pub open spec fn mode_from_values(vals: Seq<Option<String>>) -> ThemeMode
    decreases vals.len(),
{
    if vals.len() == 0 {
        ThemeMode::Dark
    } else {
        match vals[0] {
            Some(v) => if has_substring(lowercase(v@), "light"@) {
                ThemeMode::Light
            } else if has_substring(lowercase(v@), "dark"@) {
                ThemeMode::Dark
            } else {
                mode_from_values(vals.drop_first())
            },
            None => mode_from_values(vals.drop_first()),
        }
    }
}

/// Picks the theme from the values of those three variables.
pub fn mode_from_env(vals: &[Option<String>]) -> (m: ThemeMode)
    ensures
        m == mode_from_values(vals@),
{
    let light = chars_of("light");
    let dark = chars_of("dark");
    let mut i: usize = 0;
    assert(vals@.skip(0) == vals@);
    while i < vals.len()
        invariant
            i <= vals.len(),
            light@ == "light"@,
            dark@ == "dark"@,
            mode_from_values(vals@) == mode_from_values(vals@.skip(i as int)),
        decreases vals.len() - i,
    {
        assert(vals@.skip(i as int).drop_first() == vals@.skip(i + 1));
        assert(vals@.skip(i as int)[0] == vals@[i as int]);
        if let Some(v) = &vals[i] {
            let lower = to_lowercase(v.as_str());
            let lc = chars_of(lower.as_str());
            if contains_chars(lc.as_slice(), light.as_slice()) {
                return ThemeMode::Light;
            }
            if contains_chars(lc.as_slice(), dark.as_slice()) {
                return ThemeMode::Dark;
            }
        }
        i = i + 1;
    }
    ThemeMode::Dark
}

} // verus!
