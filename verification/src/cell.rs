//! Character cells: a glyph byte and an attribute byte, in that order.

use vstd::prelude::*;
use crate::color::ColorEntry;

verus! {

/// The byte that starts a new line instead of drawing a glyph.
pub const LINE_FEED: u8 = 0x0a;

/// The glyph drawn in place of a byte that has no glyph of its own.
pub const PLACEHOLDER: u8 = 0xfe;

/// Whether a byte is a printable ASCII character, space to tilde.
pub open spec fn is_printable(byte: u8) -> bool {
    0x20 <= byte <= 0x7e
}

/// The byte that reaches the grid for a byte of text: itself where it is
/// printable or a line feed, the placeholder otherwise.
pub open spec fn shown_spec(byte: u8) -> u8 {
    if is_printable(byte) || byte == LINE_FEED {
        byte
    } else {
        PLACEHOLDER
    }
}

/// The byte that reaches the grid for a byte of text.
#[verifier::when_used_as_spec(shown_spec)]
pub fn shown(byte: u8) -> (out: u8)
    ensures
        out == shown_spec(byte),
{
    if (0x20 <= byte && byte <= 0x7e) || byte == LINE_FEED {
        byte
    } else {
        PLACEHOLDER
    }
}

/// A text, byte by byte, as it reaches the grid.
pub open spec fn shown_text(bytes: Seq<u8>) -> Seq<u8> {
    Seq::new(bytes.len(), |i: int| shown_spec(bytes[i]))
}

/// One cell of the grid.
#[derive(Debug, Clone, Copy, PartialEq, Eq, Structural)]
pub struct Char {
    pub ascii: u8,
    pub color_entry: ColorEntry,
}

impl Char {
    /// The two bytes of a cell as the display reads them: glyph first,
    /// attribute second.
    pub open spec fn layout(self) -> Seq<u8> {
        seq![self.ascii, self.color_entry.0]
    }

    /// The cell that two bytes of display memory stand for.
    pub open spec fn decode(bytes: Seq<u8>) -> Char {
        Char { ascii: bytes[0], color_entry: ColorEntry(bytes[1]) }
    }

    /// Lays the cell out as the display reads it.
    pub fn to_bytes(self) -> (bytes: [u8; 2])
        ensures
            bytes@ == self.layout(),
    {
        let bytes: [u8; 2] = [self.ascii, self.color_entry.0];
        assert(bytes@ =~= self.layout());
        bytes
    }

    /// Reads a cell back from its two bytes.
    pub fn from_bytes(bytes: [u8; 2]) -> (cell: Char)
        ensures
            cell == Self::decode(bytes@),
    {
        Char { ascii: bytes[0], color_entry: ColorEntry(bytes[1]) }
    }
}

/// A cell survives being laid out and read back.
pub proof fn lemma_decode_layout(cell: Char)
    ensures
        Char::decode(cell.layout()) == cell,
{
}

} // verus!
