//! Themes and colors.

use vstd::prelude::*;

verus! {

/// How an application looks.
#[derive(Clone, Copy, Debug, PartialEq, Eq)]
pub enum Theme {
    Light,
    Dark,
}

/// How the system is asked to look.
#[derive(Clone, Copy, Debug, PartialEq, Eq)]
pub enum ColorMode {
    Dark,
    Light,
    /// Follows the system.
    NoSet,
}

/// Red, green, blue and opacity.
pub type Rgba = (u8, u8, u8, u8);

impl ColorMode {
    /// The number of the mode on the bridge.
    pub open spec fn number(self) -> i32 {
        match self {
            ColorMode::Dark => 0,
            ColorMode::Light => 1,
            ColorMode::NoSet => 2,
        }
    }

    /// The number of the mode on the bridge.
    pub fn code(self) -> (r: i32)
        ensures
            r == self.number(),
    {
        match self {
            ColorMode::Dark => 0,
            ColorMode::Light => 1,
            ColorMode::NoSet => 2,
        }
    }
}

/// The mode that shows a theme; without one the system is followed.
pub open spec fn mode_of(theme: Option<Theme>) -> ColorMode {
    match theme {
        Some(Theme::Dark) => ColorMode::Dark,
        Some(Theme::Light) => ColorMode::Light,
        None => ColorMode::NoSet,
    }
}

/// The mode that shows a theme.
pub fn color_mode(theme: Option<Theme>) -> (r: ColorMode)
    ensures
        r == mode_of(theme),
{
    match theme {
        Some(Theme::Dark) => ColorMode::Dark,
        Some(Theme::Light) => ColorMode::Light,
        None => ColorMode::NoSet,
    }
}

/// A color as one number: opacity, red, green and blue, a byte each, from the
/// highest byte down.
pub open spec fn packed(color: Rgba) -> u32 {
    (color.3 * 0x100_0000 + color.0 * 0x1_0000 + color.1 * 0x100 + color.2) as u32
}

/// The background of a window: all zero for a transparent one, whatever its
/// color.
pub open spec fn background(transparent: bool, color: Option<Rgba>) -> Option<u32> {
    if transparent {
        Some(0)
    } else {
        match color {
            Some(color) => Some(packed(color)),
            None => None,
        }
    }
}

/// The background of a window.
pub fn rgba_to_ohos_color(transparent: bool, bg: Option<Rgba>) -> (r: Option<u32>)
    ensures
        r == background(transparent, bg),
{
    if transparent {
        return Some(0);
    }
    match bg {
        Some((red, green, blue, alpha)) => {
            assert(((alpha as u32) << 24) | ((red as u32) << 16) | ((green as u32) << 8) | (
            blue as u32) == alpha * 0x100_0000 + red * 0x1_0000 + green * 0x100 + blue)
                by (bit_vector);
            Some(
                ((alpha as u32) << 24) | ((red as u32) << 16) | ((green as u32) << 8) | (
                blue as u32),
            )
        },
        None => None,
    }
}

/// Each part of a color is one byte of the number: opacity, red, green and blue, from
/// the highest byte down.
pub proof fn lemma_packing_keeps_each_part(color: Rgba)
    ensures
        packed(color) / 0x100_0000 == color.3,
        (packed(color) / 0x1_0000) % 0x100 == color.0,
        (packed(color) / 0x100) % 0x100 == color.1,
        packed(color) % 0x100 == color.2,
{
}

/// The background is clear for a transparent window whatever its color; for any other it
/// is there exactly where a color is.
pub proof fn lemma_transparency_beats_color(color: Option<Rgba>)
    ensures
        background(true, color) == Some(0u32),
        background(false, color) is Some <==> color is Some,
        color matches Some(color) ==> background(false, Some(color)) == Some(packed(color)),
{
}

/// The number tells all four parts of a color.
pub proof fn lemma_packing_loses_nothing(a: Rgba, b: Rgba)
    requires
        packed(a) == packed(b),
    ensures
        a == b,
{
}

} // verus!
