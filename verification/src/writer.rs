//! The console writer: a cursor over the display memory and the operations
//! that draw bytes at it.

use vstd::prelude::*;
use vstd::string::StringSliceAdditionalSpecFns;
use crate::buffer::{grid, load, store, Buffer, HEIGHT, WIDTH};
use crate::cell::{shown, shown_text, Char, LINE_FEED};
use crate::color::{Color, ColorEntry};
use crate::screen::{lemma_takes_prefix, lemma_write_bytes_wf, lemma_write_push, Screen};

verus! {

/// A text was not written: one of its glyphs would have fallen below the last
/// row of the grid, or the row counter would have passed what the machine
/// can count.
#[derive(Debug, Clone, Copy, PartialEq, Eq, Structural)]
pub struct Overflow;

/// Draws bytes onto the display memory and remembers where the next one goes.
pub struct Writer {
    row: usize,
    column: usize,
    color_entry: ColorEntry,
    buffer: &'static mut Buffer,
}

impl View for Writer {
    type V = Screen;

    closed spec fn view(&self) -> Screen {
        Screen {
            row: self.row as nat,
            column: self.column as nat,
            color: self.color_entry,
            cells: grid(*self.buffer),
        }
    }
}

impl Writer {
    #[verifier::type_invariant]
    spec fn cursor_in_line(self) -> bool {
        self.column <= WIDTH
    }

    /// A writer over the given display memory, with the cursor in the top
    /// left corner, drawing white on black. The memory keeps what it holds.
    pub fn new(buffer: &'static mut Buffer) -> (writer: Writer)
        ensures
            writer@.wf(),
            writer@.row == 0,
            writer@.column == 0,
            writer@.color == ColorEntry::packed(Color::White, Color::Black),
            writer@.cells == grid(*old(buffer)),
    {
        Writer { row: 0, column: 0, color_entry: ColorEntry::new(Color::White, Color::Black), buffer }
    }

    /// Row of the cursor.
    pub fn row(&self) -> (row: usize)
        ensures
            row == self@.row,
    {
        self.row
    }

    /// Column of the cursor; `WIDTH` when the line is full.
    pub fn column(&self) -> (column: usize)
        ensures
            column == self@.column,
            column <= WIDTH,
            self@.wf(),
    {
        proof {
            use_type_invariant(self);
        }
        self.column
    }

    /// The attribute that every glyph is drawn with.
    pub fn color_entry(&self) -> (entry: ColorEntry)
        ensures
            entry == self@.color,
    {
        self.color_entry
    }

    /// The cell that the display shows at a row and a column, if the grid has
    /// such a cell.
    pub fn cell(&self, row: usize, column: usize) -> (cell: Option<Char>)
        ensures
            cell == if row < HEIGHT && column < WIDTH {
                Some(self@.cells[row as int][column as int])
            } else {
                None
            },
    {
        if row < HEIGHT && column < WIDTH {
            let bytes: [u8; 2] = load(&self.buffer[row][column]);
            Some(Char::from_bytes(bytes))
        } else {
            None
        }
    }

    /// Whether [`Writer::write_byte`] may be called with this byte.
    pub fn can_write_byte(&self, byte: u8) -> (ok: bool)
        ensures
            ok == self@.takes_byte(byte),
    {
        if byte == LINE_FEED {
            self.row < usize::MAX
        } else if self.column >= WIDTH {
            self.row < HEIGHT - 1
        } else {
            self.row < HEIGHT
        }
    }

    /// Writes one byte: a line feed moves the cursor to the start of the next
    /// row and draws nothing; any other byte is drawn at the cursor, in the
    /// first column of the next row if the line is full, and the cursor moves
    /// one column on.
    pub fn write_byte(&mut self, byte: u8)
        requires
            old(self)@.takes_byte(byte),
        ensures
            final(self)@ == old(self)@.write_byte(byte),
            final(self)@.wf(),
    {
        proof {
            use_type_invariant(&*self);
        }
        if byte == LINE_FEED {
            self.newline();
        } else {
            if self.column >= WIDTH {
                self.newline();
            }
            let row: usize = self.row;
            let column: usize = self.column;
            let cell: Char = Char { ascii: byte, color_entry: self.color_entry };
            store(&mut self.buffer[row][column], cell.to_bytes());
            self.column += 1;
            assert(self@.cells =~~= old(self)@.draw(byte).cells);
        }
    }

    /// Whether [`Writer::write_string`] may be called with this text.
    pub fn can_write_string(&self, string: &str) -> (ok: bool)
        ensures
            ok == self@.takes_text(string.spec_bytes()),
    {
        proof {
            use_type_invariant(self);
        }
        let bytes: &[u8] = string.as_bytes();
        let ghost text: Seq<u8> = shown_text(bytes@);
        let mut row: usize = self.row;
        let mut column: usize = self.column;
        let mut i: usize = 0;
        while i < bytes.len()
            invariant
                i <= bytes.len(),
                bytes@ == string.spec_bytes(),
                text == shown_text(bytes@),
                column <= WIDTH,
                self@.takes(text.subrange(0, i as int)),
                self@.write_bytes(text.subrange(0, i as int)).row == row,
                self@.write_bytes(text.subrange(0, i as int)).column == column,
            decreases bytes.len() - i,
        {
            let byte: u8 = shown(bytes[i]);
            proof {
                assert(text.subrange(0, i + 1) =~= text.subrange(0, i as int).push(byte));
                lemma_write_push(self@, text.subrange(0, i as int), byte);
                if self@.takes(text) {
                    lemma_takes_prefix(self@, text, i + 1);
                }
            }
            if byte == LINE_FEED {
                if row == usize::MAX {
                    return false;
                }
                row += 1;
                column = 0;
            } else {
                if column >= WIDTH {
                    if row >= HEIGHT - 1 {
                        return false;
                    }
                    row += 1;
                    column = 0;
                } else if row >= HEIGHT {
                    return false;
                }
                column += 1;
            }
            i += 1;
        }
        proof {
            assert(text.subrange(0, i as int) =~= text);
        }
        true
    }

    /// Writes a text byte by byte. A byte that is printable ASCII or a line
    /// feed is written as it is, any other as the placeholder glyph.
    pub fn write_string(&mut self, string: &str)
        requires
            old(self)@.takes_text(string.spec_bytes()),
        ensures
            final(self)@ == old(self)@.write_text(string.spec_bytes()),
            final(self)@.wf(),
    {
        proof {
            use_type_invariant(&*self);
        }
        let bytes: &[u8] = string.as_bytes();
        let ghost start: Screen = self@;
        let ghost text: Seq<u8> = shown_text(bytes@);
        let mut i: usize = 0;
        while i < bytes.len()
            invariant
                i <= bytes.len(),
                bytes@ == string.spec_bytes(),
                text == shown_text(bytes@),
                start.wf(),
                start.takes(text),
                self@ == start.write_bytes(text.subrange(0, i as int)),
            decreases bytes.len() - i,
        {
            let byte: u8 = shown(bytes[i]);
            proof {
                assert(text.subrange(0, i + 1) =~= text.subrange(0, i as int).push(byte));
                lemma_write_push(start, text.subrange(0, i as int), byte);
                lemma_takes_prefix(start, text, i + 1);
            }
            self.write_byte(byte);
            i += 1;
        }
        proof {
            assert(text.subrange(0, i as int) =~= text);
            lemma_write_bytes_wf(start, text);
        }
    }

    /// Writes a text if all of it can be written, and nothing of it otherwise.
    pub fn write_str(&mut self, s: &str) -> (result: Result<(), Overflow>)
        ensures
            old(self)@.takes_text(s.spec_bytes()) ==> result is Ok && final(self)@ == old(
                self,
            )@.write_text(s.spec_bytes()),
            !old(self)@.takes_text(s.spec_bytes()) ==> result is Err && final(self)@ == old(self)@,
            final(self)@.wf(),
    {
        proof {
            use_type_invariant(&*self);
        }
        if self.can_write_string(s) {
            self.write_string(s);
            Ok(())
        } else {
            Err(Overflow)
        }
    }

    /// Moves the cursor to the start of the next row.
    fn newline(&mut self)
        requires
            old(self).row < usize::MAX,
        ensures
            final(self)@ == old(self)@.newline(),
            final(self).row == old(self).row + 1,
            final(self).column == 0,
    {
        proof {
            use_type_invariant(&*self);
        }
        self.row += 1;
        self.column = 0;
    }
}

} // verus!
