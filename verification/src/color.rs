//! Colours and themes.
use vstd::prelude::*;

verus! {

/// Red, green, blue and opacity.
pub type RGBA = (u8, u8, u8, u8);

/// The number `0xAARRGGBB` that the platform takes for a colour.
pub open spec fn argb(color: RGBA) -> int {
    let (r, g, b, a) = color;
    a * 0x100_0000 + r * 0x1_0000 + g * 0x100 + b
}

/// The colour behind the window's contents. Transparency takes priority over any colour.
pub open spec fn ohos_color(transparent: bool, bg: Option<RGBA>) -> Option<u32> {
    if transparent {
        Some(0)
    } else {
        match bg {
            Some(color) => Some(argb(color) as u32),
            None => None,
        }
    }
}

/// Converts a colour to the number that the platform takes. A transparent window has the fully
/// transparent colour whatever `bg` is.
pub fn rgba_to_ohos_color(transparent: bool, bg: Option<RGBA>) -> (color: Option<u32>)
    ensures
        color == ohos_color(transparent, bg),
{
    if transparent {
        Some(0x00000000)
    } else {
        match bg {
            Some((r, g, b, a)) => {
                assert(((a as u32) << 24) | ((r as u32) << 16) | ((g as u32) << 8) | (b as u32)
                    == a * 0x100_0000 + r * 0x1_0000 + g * 0x100 + b) by (bit_vector);
                Some(((a as u32) << 24) | ((r as u32) << 16) | ((g as u32) << 8) | (b as u32))
            },
            None => None,
        }
    }
}

/// The number of a colour fits thirty-two bits, and its four bytes are opacity, red, green and
/// blue.
pub proof fn law_color_reads_back(color: RGBA)
    ensures
        0 <= argb(color) <= u32::MAX,
        argb(color) % 0x100 == color.2,
        argb(color) / 0x100 % 0x100 == color.1,
        argb(color) / 0x1_0000 % 0x100 == color.0,
        argb(color) / 0x100_0000 == color.3,
{
}

/// Different colours have different numbers.
pub proof fn law_colors_keep_apart(c: RGBA, d: RGBA)
    requires
        argb(c) == argb(d),
    ensures
        c == d,
{
    law_color_reads_back(c);
    law_color_reads_back(d);
}

/// A transparent window has the same colour whichever is asked for; any other window has one
/// exactly if one is asked for.
pub proof fn law_transparency_takes_priority(bg: Option<RGBA>, other: Option<RGBA>)
    ensures
        ohos_color(true, bg) == ohos_color(true, other),
        ohos_color(true, bg) == Some(0u32),
        ohos_color(false, bg) is Some <==> bg is Some,
{
}

/// The colour that the platform is told of a window that is not transparent has, from the highest
/// byte to the lowest, the opacity, the red, the green and the blue that were asked for.
pub proof fn law_color_is_as_asked(r: u8, g: u8, b: u8, a: u8)
    ensures
        ohos_color(false, Some((r, g, b, a))) matches Some(told) && {
            &&& told as int / 0x100_0000 == a
            &&& told as int / 0x1_0000 % 0x100 == r
            &&& told as int / 0x100 % 0x100 == g
            &&& told as int % 0x100 == b
        },
        ohos_color(false, None) is None,
{
}

/// The theme of a window.
#[derive(Clone, Copy, Debug, PartialEq, Eq, Structural)]
pub enum Theme {
    Light,
    Dark,
}

/// The colour mode of the ability. `NoSet` follows the system.
#[derive(Clone, Copy, Debug, PartialEq, Eq, Hash, Structural)]
pub enum ColorMode {
    NoSet,
    Dark,
    Light,
}

/// The colour mode that a requested theme stands for. No theme follows the system.
pub open spec fn color_mode_of(theme: Option<Theme>) -> ColorMode {
    match theme {
        Some(Theme::Dark) => ColorMode::Dark,
        Some(Theme::Light) => ColorMode::Light,
        None => ColorMode::NoSet,
    }
}

/// The colour mode that a requested theme stands for.
pub fn theme_to_color_mode(theme: Option<Theme>) -> (mode: ColorMode)
    ensures
        mode == color_mode_of(theme),
{
    match theme {
        Some(Theme::Dark) => ColorMode::Dark,
        Some(Theme::Light) => ColorMode::Light,
        None => ColorMode::NoSet,
    }
}

/// A requested theme sets the colour mode of the same name, and no theme leaves it to the system.
/// Different requests set different modes.
pub proof fn law_color_mode_is_as_asked(theme: Option<Theme>, other: Option<Theme>)
    ensures
        color_mode_of(theme) is Dark <==> theme == Some(Theme::Dark),
        color_mode_of(theme) is Light <==> theme == Some(Theme::Light),
        color_mode_of(theme) is NoSet <==> theme is None,
        color_mode_of(theme) == color_mode_of(other) ==> theme == other,
{
}

} // verus!
