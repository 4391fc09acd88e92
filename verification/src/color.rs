//! The sixteen hardware colours and the attribute byte packed from two of them.

use vstd::prelude::*;

verus! {

/// A colour of the hardware palette.
#[derive(Debug, Clone, Copy, PartialEq, Eq, Structural)]
pub enum Color {
    Black,
    Blue,
    Green,
    Cyan,
    Red,
    Magenta,
    Brown,
    LightGray,
    DarkGray,
    LightBlue,
    LightGreen,
    LightCyan,
    LightRed,
    Pink,
    Yellow,
    White,
}

impl Color {
    /// The four-bit number by which the hardware knows this colour.
    pub open spec fn code_spec(self) -> u8 {
        match self {
            Color::Black => 0,
            Color::Blue => 1,
            Color::Green => 2,
            Color::Cyan => 3,
            Color::Red => 4,
            Color::Magenta => 5,
            Color::Brown => 6,
            Color::LightGray => 7,
            Color::DarkGray => 8,
            Color::LightBlue => 9,
            Color::LightGreen => 10,
            Color::LightCyan => 11,
            Color::LightRed => 12,
            Color::Pink => 13,
            Color::Yellow => 14,
            Color::White => 15,
        }
    }

    /// The four-bit number by which the hardware knows this colour.
    #[verifier::when_used_as_spec(code_spec)]
    pub fn code(self) -> (code: u8)
        ensures
            code == self.code_spec(),
            code < 16,
    {
        match self {
            Color::Black => 0,
            Color::Blue => 1,
            Color::Green => 2,
            Color::Cyan => 3,
            Color::Red => 4,
            Color::Magenta => 5,
            Color::Brown => 6,
            Color::LightGray => 7,
            Color::DarkGray => 8,
            Color::LightBlue => 9,
            Color::LightGreen => 10,
            Color::LightCyan => 11,
            Color::LightRed => 12,
            Color::Pink => 13,
            Color::Yellow => 14,
            Color::White => 15,
        }
    }
}

/// An attribute byte: the background colour in the high nibble, the
/// foreground colour in the low nibble.
#[derive(Debug, Clone, Copy, PartialEq, Eq, Structural)]
pub struct ColorEntry(pub u8);

impl ColorEntry {
    /// The attribute byte of a foreground on a background, as a number.
    pub open spec fn packed(foreground: Color, background: Color) -> ColorEntry {
        ColorEntry((16 * background.code_spec() + foreground.code_spec()) as u8)
    }

    /// The number in the low nibble.
    pub open spec fn foreground_code(self) -> u8 {
        self.0 & 0x0f
    }

    /// The number in the high nibble.
    pub open spec fn background_code(self) -> u8 {
        self.0 >> 4
    }

    /// Packs a foreground and a background colour into one attribute byte.
    pub fn new(foreground: Color, background: Color) -> (entry: ColorEntry)
        ensures
            entry == Self::packed(foreground, background),
            entry.foreground_code() == foreground.code(),
            entry.background_code() == background.code(),
    {
        let low: u8 = foreground.code();
        let high: u8 = background.code();
        let byte: u8 = (high << 4) | low;
        assert(byte == 16 * high + low && byte & 0x0f == low && byte >> 4 == high) by (bit_vector)
            requires
                byte == (high << 4) | low,
                low < 16,
                high < 16,
        ;
        ColorEntry(byte)
    }
}

/// Packing loses nothing: the low nibble of the attribute byte is the
/// foreground's code and the high nibble is the background's, for every pair
/// of colours.
pub proof fn lemma_nibbles_of_packed(foreground: Color, background: Color)
    ensures
        ColorEntry::packed(foreground, background).foreground_code() == foreground.code(),
        ColorEntry::packed(foreground, background).background_code() == background.code(),
        ColorEntry::packed(foreground, background).0 == 16 * background.code() + foreground.code(),
{
    let low: u8 = foreground.code();
    let high: u8 = background.code();
    let byte: u8 = (16 * high + low) as u8;
    assert(byte & 0x0f == low && byte >> 4 == high) by (bit_vector)
        requires
            byte == 16 * high + low,
            low < 16,
            high < 16,
    ;
}

} // verus!
