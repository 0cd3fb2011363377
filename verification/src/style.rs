//! Styles: a foreground colour and a set of font flags.

use crate::escape::Attribute;
use crate::palette::Color;
use vstd::prelude::*;

verus! {

/// The bit of the bold flag.
pub const BOLD: u8 = 1;

/// The bit of the underline flag.
pub const UNDERLINE: u8 = 2;

/// The bit of the italic flag.
pub const ITALIC: u8 = 4;

/// A set of font flags, one bit each: [`BOLD`], [`UNDERLINE`], [`ITALIC`].
#[derive(Clone, Copy, Debug, PartialEq, Eq, Structural)]
pub struct FontStyle {
    pub bits: u8,
}

/// A colour pair and the font flags of a span of text. The background is
/// carried along and never rendered.
#[derive(Clone, Copy, Debug, PartialEq, Eq, Structural)]
pub struct Style {
    pub foreground: Color,
    pub background: Color,
    pub font_style: FontStyle,
}

/// Whether the flag set `bits` holds every flag of `flags`. Only the three
/// lowest bits name a flag; the others are dropped on both sides.
pub open spec fn flags_within(bits: u8, flags: u8) -> bool {
    (bits & flags & 7) == (flags & 7)
}

/// Asks syntect's `FontStyle::contains` whether one flag set holds another.
/// Both sets are made from their bits by `FontStyle::from_bits_truncate`,
/// which keeps the three lowest bits; `contains` then tests that the bits of
/// the second set, masked by those of the first, are the second set's bits.
#[verifier::external_body]
fn contains_flags(bits: u8, flags: u8) -> (held: bool)
    ensures
        held == flags_within(bits, flags),
{
    let set = syntect::highlighting::FontStyle::from_bits_truncate(bits);
    set.contains(syntect::highlighting::FontStyle::from_bits_truncate(flags))
}

impl FontStyle {
    /// Whether the bold flag is set.
    pub open spec fn is_bold(self) -> bool {
        self.bits & 1 == 1
    }

    /// Whether the underline flag is set.
    pub open spec fn is_underline(self) -> bool {
        self.bits & 2 == 2
    }

    /// Whether the italic flag is set.
    pub open spec fn is_italic(self) -> bool {
        self.bits & 4 == 4
    }

    /// Whether the flag of `attribute` is set.
    pub open spec fn has(self, attribute: Attribute) -> bool {
        match attribute {
            Attribute::Bold => self.is_bold(),
            Attribute::Italic => self.is_italic(),
            Attribute::Underline => self.is_underline(),
        }
    }

    /// Whether every flag of `other` is set in `self`.
    pub open spec fn holds(self, other: FontStyle) -> bool {
        flags_within(self.bits, other.bits)
    }

    /// Tests whether every flag of `other` is set in `self`.
    pub fn contains(&self, other: FontStyle) -> (held: bool)
        ensures
            held == self.holds(other),
    {
        contains_flags(self.bits, other.bits)
    }

    /// To hold the set of one flag is to have that flag, whatever the bits
    /// above the three flags are.
    pub proof fn lemma_holds_one(self)
        ensures
            self.holds(FontStyle { bits: BOLD }) == self.is_bold(),
            self.holds(FontStyle { bits: UNDERLINE }) == self.is_underline(),
            self.holds(FontStyle { bits: ITALIC }) == self.is_italic(),
    {
        let bits = self.bits;
        assert((bits & 1 & 7) == (1u8 & 7) <==> bits & 1 == 1) by (bit_vector);
        assert((bits & 2 & 7) == (2u8 & 7) <==> bits & 2 == 2) by (bit_vector);
        assert((bits & 4 & 7) == (4u8 & 7) <==> bits & 4 == 4) by (bit_vector);
    }
}

} // verus!
