//! The Solarized palette and the terminal colours that stand for it.

use vstd::prelude::*;

verus! {

/// An RGBA colour as a theme gives it.
#[derive(Clone, Copy, Debug, PartialEq, Eq, Structural)]
pub struct Color {
    pub r: u8,
    pub g: u8,
    pub b: u8,
    pub a: u8,
}

/// A foreground colour that a terminal can be asked for.
#[derive(Clone, Copy, Debug, PartialEq, Eq, Structural)]
pub enum AnsiColor {
    /// The terminal's own default foreground.
    Default,
    Yellow,
    /// Stands in for Solarized's orange.
    LightRed,
    Red,
    Magenta,
    /// Stands in for Solarized's violet.
    LightMagenta,
    Blue,
    Cyan,
    Green,
}

/// The terminal colour of a Solarized colour, by its red, green and blue
/// parts. The eight base shades change between the light and the dark
/// variant, so all of them become the terminal's default; the eight accents
/// keep their hue. Every other colour has no counterpart.
pub open spec fn palette_target(r: u8, g: u8, b: u8) -> Option<AnsiColor> {
    if (r, g, b) == (0x00u8, 0x2bu8, 0x36u8) {
        Some(AnsiColor::Default)
    } else if (r, g, b) == (0x07u8, 0x36u8, 0x42u8) {
        Some(AnsiColor::Default)
    } else if (r, g, b) == (0x58u8, 0x6eu8, 0x75u8) {
        Some(AnsiColor::Default)
    } else if (r, g, b) == (0x65u8, 0x7bu8, 0x83u8) {
        Some(AnsiColor::Default)
    } else if (r, g, b) == (0x83u8, 0x94u8, 0x96u8) {
        Some(AnsiColor::Default)
    } else if (r, g, b) == (0x93u8, 0xa1u8, 0xa1u8) {
        Some(AnsiColor::Default)
    } else if (r, g, b) == (0xeeu8, 0xe8u8, 0xd5u8) {
        Some(AnsiColor::Default)
    } else if (r, g, b) == (0xfdu8, 0xf6u8, 0xe3u8) {
        Some(AnsiColor::Default)
    } else if (r, g, b) == (0xb5u8, 0x89u8, 0x00u8) {
        Some(AnsiColor::Yellow)
    } else if (r, g, b) == (0xcbu8, 0x4bu8, 0x16u8) {
        Some(AnsiColor::LightRed)
    } else if (r, g, b) == (0xdcu8, 0x32u8, 0x2fu8) {
        Some(AnsiColor::Red)
    } else if (r, g, b) == (0xd3u8, 0x36u8, 0x82u8) {
        Some(AnsiColor::Magenta)
    } else if (r, g, b) == (0x6cu8, 0x71u8, 0xc4u8) {
        Some(AnsiColor::LightMagenta)
    } else if (r, g, b) == (0x26u8, 0x8bu8, 0xd2u8) {
        Some(AnsiColor::Blue)
    } else if (r, g, b) == (0x2au8, 0xa1u8, 0x98u8) {
        Some(AnsiColor::Cyan)
    } else if (r, g, b) == (0x85u8, 0x99u8, 0x00u8) {
        Some(AnsiColor::Green)
    } else {
        None
    }
}

/// The eight base shades of Solarized, from the darkest to the lightest.
pub open spec fn base_shades() -> Set<(u8, u8, u8)> {
    set![
        (0x00u8, 0x2bu8, 0x36u8),
        (0x07u8, 0x36u8, 0x42u8),
        (0x58u8, 0x6eu8, 0x75u8),
        (0x65u8, 0x7bu8, 0x83u8),
        (0x83u8, 0x94u8, 0x96u8),
        (0x93u8, 0xa1u8, 0xa1u8),
        (0xeeu8, 0xe8u8, 0xd5u8),
        (0xfdu8, 0xf6u8, 0xe3u8),
    ]
}

impl AnsiColor {
    /// The Solarized accent that this terminal colour stands for. The
    /// default stands for no accent.
    pub open spec fn accent(self) -> Option<(u8, u8, u8)> {
        match self {
            AnsiColor::Default => None,
            AnsiColor::Yellow => Some((0xb5u8, 0x89u8, 0x00u8)),
            AnsiColor::LightRed => Some((0xcbu8, 0x4bu8, 0x16u8)),
            AnsiColor::Red => Some((0xdcu8, 0x32u8, 0x2fu8)),
            AnsiColor::Magenta => Some((0xd3u8, 0x36u8, 0x82u8)),
            AnsiColor::LightMagenta => Some((0x6cu8, 0x71u8, 0xc4u8)),
            AnsiColor::Blue => Some((0x26u8, 0x8bu8, 0xd2u8)),
            AnsiColor::Cyan => Some((0x2au8, 0xa1u8, 0x98u8)),
            AnsiColor::Green => Some((0x85u8, 0x99u8, 0x00u8)),
        }
    }
}

/// The palette holds sixteen colours. Eight are the base shades, and these
/// are the colours that become the terminal's default. Each of the other
/// eight terminal colours stands for one accent and for nothing else.
pub proof fn lemma_palette_shape()
    ensures
        base_shades().finite(),
        base_shades().len() == 8,
        forall|r: u8, g: u8, b: u8|
            palette_target(r, g, b) == Some(AnsiColor::Default) <==> base_shades().contains(
                (r, g, b),
            ),
        forall|r: u8, g: u8, b: u8, color: AnsiColor|
            color != AnsiColor::Default ==> (#[trigger] palette_target(r, g, b) == Some(color)
                <==> #[trigger] color.accent() == Some((r, g, b))),
        forall|one: AnsiColor, other: AnsiColor|
            one.accent().is_some() && #[trigger] one.accent() == #[trigger] other.accent() ==> one
                == other,
{
    broadcast use vstd::set::group_set_axioms;

}

impl Color {
    /// The terminal colour that stands for this colour, see
    /// [`palette_target`]. The alpha part plays no role.
    pub open spec fn target(self) -> Option<AnsiColor> {
        palette_target(self.r, self.g, self.b)
    }

    /// Looks this colour up in the palette.
    pub fn ansi(&self) -> (found: Option<AnsiColor>)
        ensures
            found == self.target(),
    {
        match (self.r, self.g, self.b) {
            (0x00, 0x2b, 0x36) => Some(AnsiColor::Default),
            (0x07, 0x36, 0x42) => Some(AnsiColor::Default),
            (0x58, 0x6e, 0x75) => Some(AnsiColor::Default),
            (0x65, 0x7b, 0x83) => Some(AnsiColor::Default),
            (0x83, 0x94, 0x96) => Some(AnsiColor::Default),
            (0x93, 0xa1, 0xa1) => Some(AnsiColor::Default),
            (0xee, 0xe8, 0xd5) => Some(AnsiColor::Default),
            (0xfd, 0xf6, 0xe3) => Some(AnsiColor::Default),
            (0xb5, 0x89, 0x00) => Some(AnsiColor::Yellow),
            (0xcb, 0x4b, 0x16) => Some(AnsiColor::LightRed),
            (0xdc, 0x32, 0x2f) => Some(AnsiColor::Red),
            (0xd3, 0x36, 0x82) => Some(AnsiColor::Magenta),
            (0x6c, 0x71, 0xc4) => Some(AnsiColor::LightMagenta),
            (0x26, 0x8b, 0xd2) => Some(AnsiColor::Blue),
            (0x2a, 0xa1, 0x98) => Some(AnsiColor::Cyan),
            (0x85, 0x99, 0x00) => Some(AnsiColor::Green),
            _ => None,
        }
    }
}

} // verus!
