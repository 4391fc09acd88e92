//! The console as a mathematical value: a cursor, an attribute and a grid of
//! cells, with the effect of each write as a function from one such value to
//! the next. The contracts of [`crate::writer::Writer`] are stated over it.

use vstd::prelude::*;
use crate::buffer::{HEIGHT, WIDTH};
use crate::cell::{is_printable, shown_spec, shown_text, Char, LINE_FEED, PLACEHOLDER};
use crate::color::ColorEntry;

verus! {

/// What a console is at one moment.
pub struct Screen {
    /// Row of the cursor, counted from the top. It may lie below the grid.
    pub row: nat,
    /// Column of the cursor, counted from the left; `WIDTH` once a line is full.
    pub column: nat,
    /// The attribute given to every glyph that is drawn.
    pub color: ColorEntry,
    /// The cells of the grid, row by row.
    pub cells: Seq<Seq<Char>>,
}

impl Screen {
    /// The cursor is within or just behind a line, and the grid has its size.
    pub open spec fn wf(self) -> bool {
        &&& self.column <= WIDTH
        &&& self.cells.len() == HEIGHT
        &&& forall|row: int| 0 <= row < HEIGHT ==> (#[trigger] self.cells[row]).len() == WIDTH
    }

    /// The row in which the next glyph is drawn: the cursor's, or the one
    /// below it once the line is full.
    pub open spec fn glyph_row(self) -> nat {
        if self.column >= WIDTH {
            self.row + 1
        } else {
            self.row
        }
    }

    /// The column in which the next glyph is drawn.
    pub open spec fn glyph_column(self) -> nat {
        if self.column >= WIDTH {
            0
        } else {
            self.column
        }
    }

    /// The cursor at the start of the next row; no cell changes.
    pub open spec fn newline(self) -> Screen {
        Screen { row: self.row + 1, column: 0, ..self }
    }

    /// One glyph drawn where the next glyph belongs, the cursor behind it.
    pub open spec fn draw(self, byte: u8) -> Screen {
        let row: nat = self.glyph_row();
        let column: nat = self.glyph_column();
        let cell: Char = Char { ascii: byte, color_entry: self.color };
        Screen {
            row,
            column: column + 1,
            color: self.color,
            cells: self.cells.update(row as int, self.cells[row as int].update(column as int, cell)),
        }
    }

    /// The effect of one byte: a line feed starts a new line, any other byte
    /// is drawn.
    pub open spec fn write_byte(self, byte: u8) -> Screen {
        if byte == LINE_FEED {
            self.newline()
        } else {
            self.draw(byte)
        }
    }

    /// Whether one byte can be written: a glyph needs a row of the grid to
    /// land in, a line feed a row number that the machine can still count.
    pub open spec fn takes_byte(self, byte: u8) -> bool {
        if byte == LINE_FEED {
            self.row < usize::MAX
        } else {
            self.glyph_row() < HEIGHT
        }
    }

    /// The effect of a sequence of bytes, written one after another.
    pub open spec fn write_bytes(self, bytes: Seq<u8>) -> Screen
        decreases bytes.len(),
    {
        if bytes.len() == 0 {
            self
        } else {
            self.write_bytes(bytes.drop_last()).write_byte(bytes.last())
        }
    }

    /// Whether every byte of a sequence can be written in its turn.
    pub open spec fn takes(self, bytes: Seq<u8>) -> bool
        decreases bytes.len(),
    {
        bytes.len() == 0 || (self.takes(bytes.drop_last()) && self.write_bytes(
            bytes.drop_last(),
        ).takes_byte(bytes.last()))
    }

    /// The effect of a text: each byte as [`shown_spec`] gives it.
    pub open spec fn write_text(self, text: Seq<u8>) -> Screen {
        self.write_bytes(shown_text(text))
    }

    /// Whether a text can be written to its end.
    pub open spec fn takes_text(self, text: Seq<u8>) -> bool {
        self.takes(shown_text(text))
    }
}

/// Writing a sequence and then one byte more is writing the longer sequence.
pub proof fn lemma_write_push(screen: Screen, bytes: Seq<u8>, byte: u8)
    ensures
        screen.write_bytes(bytes.push(byte)) == screen.write_bytes(bytes).write_byte(byte),
        screen.takes(bytes.push(byte)) == (screen.takes(bytes) && screen.write_bytes(
            bytes,
        ).takes_byte(byte)),
{
    assert(bytes.push(byte).drop_last() =~= bytes);
}

/// A sequence that can be written can be written up to any point of it.
pub proof fn lemma_takes_prefix(screen: Screen, bytes: Seq<u8>, n: int)
    requires
        0 <= n <= bytes.len(),
        screen.takes(bytes),
    ensures
        screen.takes(bytes.subrange(0, n)),
    decreases bytes.len(),
{
    if n < bytes.len() {
        lemma_takes_prefix(screen, bytes.drop_last(), n);
        assert(bytes.drop_last().subrange(0, n) =~= bytes.subrange(0, n));
    } else {
        assert(bytes.subrange(0, n) =~= bytes);
    }
}

/// Writing two sequences one after the other is writing them joined, and the
/// pair can be written exactly when the joined sequence can.
pub proof fn lemma_write_concat(screen: Screen, head: Seq<u8>, tail: Seq<u8>)
    ensures
        screen.write_bytes(head + tail) == screen.write_bytes(head).write_bytes(tail),
        screen.takes(head + tail) == (screen.takes(head) && screen.write_bytes(head).takes(tail)),
    decreases tail.len(),
{
    if tail.len() == 0 {
        assert(head + tail =~= head);
    } else {
        lemma_write_concat(screen, head, tail.drop_last());
        assert((head + tail).drop_last() =~= head + tail.drop_last());
        assert((head + tail).last() == tail.last());
    }
}

/// Writing two texts one after the other is writing them joined: a text may
/// be handed over in pieces.
pub proof fn lemma_text_in_pieces(screen: Screen, head: Seq<u8>, tail: Seq<u8>)
    ensures
        screen.write_text(head + tail) == screen.write_text(head).write_text(tail),
        screen.takes_text(head + tail) == (screen.takes_text(head) && screen.write_text(
            head,
        ).takes_text(tail)),
{
    assert(shown_text(head + tail) =~= shown_text(head) + shown_text(tail));
    lemma_write_concat(screen, shown_text(head), shown_text(tail));
}

/// A byte that can be written leaves the screen well formed, with the same
/// attribute.
pub proof fn lemma_write_byte_wf(screen: Screen, byte: u8)
    requires
        screen.wf(),
        screen.takes_byte(byte),
    ensures
        screen.write_byte(byte).wf(),
        screen.write_byte(byte).color == screen.color,
{
}

/// A sequence that can be written leaves the screen well formed, with the
/// same attribute.
pub proof fn lemma_write_bytes_wf(screen: Screen, bytes: Seq<u8>)
    requires
        screen.wf(),
        screen.takes(bytes),
    ensures
        screen.write_bytes(bytes).wf(),
        screen.write_bytes(bytes).color == screen.color,
    decreases bytes.len(),
{
    if bytes.len() > 0 {
        lemma_write_bytes_wf(screen, bytes.drop_last());
        lemma_write_byte_wf(screen.write_bytes(bytes.drop_last()), bytes.last());
    }
}

/// Bytes that fit in the rest of the line, none of them a line feed, move the
/// cursor right by their number and leave its row alone.
pub proof fn lemma_cursor_advance(screen: Screen, bytes: Seq<u8>)
    requires
        forall|i: int| 0 <= i < bytes.len() ==> bytes[i] != LINE_FEED,
        screen.column + bytes.len() <= WIDTH,
    ensures
        screen.write_bytes(bytes).row == screen.row,
        screen.write_bytes(bytes).column == screen.column + bytes.len(),
        screen.write_bytes(bytes).color == screen.color,
        screen.takes(bytes) <==> bytes.len() == 0 || screen.row < HEIGHT,
    decreases bytes.len(),
{
    if bytes.len() > 0 {
        lemma_cursor_advance(screen, bytes.drop_last());
    }
}

/// The glyphs of such bytes stand side by side from where the cursor was,
/// each with the screen's attribute, and no other cell changes.
pub proof fn lemma_glyphs_in_line(screen: Screen, bytes: Seq<u8>)
    requires
        screen.wf(),
        forall|i: int| 0 <= i < bytes.len() ==> bytes[i] != LINE_FEED,
        screen.column + bytes.len() <= WIDTH,
        screen.row < HEIGHT,
    ensures
        screen.write_bytes(bytes).wf(),
        forall|row: int, column: int|
            0 <= row < HEIGHT && 0 <= column < WIDTH ==> #[trigger] screen.write_bytes(
                bytes,
            ).cells[row][column] == if row == screen.row && screen.column <= column
                < screen.column + bytes.len() {
                Char { ascii: bytes[column - screen.column], color_entry: screen.color }
            } else {
                screen.cells[row][column]
            },
    decreases bytes.len(),
{
    if bytes.len() > 0 {
        lemma_glyphs_in_line(screen, bytes.drop_last());
        lemma_cursor_advance(screen, bytes.drop_last());
    }
}

/// A full line wraps: after as many glyphs as a line has cells, written from
/// the start of a line, one more glyph goes to the first column of the next
/// row, not behind the end of the line.
pub proof fn lemma_line_wrap(screen: Screen, line: Seq<u8>, next: u8)
    requires
        screen.wf(),
        screen.column == 0,
        line.len() == WIDTH,
        forall|i: int| 0 <= i < line.len() ==> line[i] != LINE_FEED,
        next != LINE_FEED,
    ensures
        screen.write_bytes(line).row == screen.row,
        screen.write_bytes(line).column == WIDTH,
        screen.write_bytes(line.push(next)).row == screen.row + 1,
        screen.write_bytes(line.push(next)).column == 1,
        screen.row + 1 < HEIGHT ==> screen.takes(line.push(next)) && screen.write_bytes(
            line.push(next),
        ).cells[screen.row as int + 1][0] == (Char { ascii: next, color_entry: screen.color }),
        screen.row + 1 < HEIGHT ==> forall|column: int|
            0 <= column < WIDTH ==> #[trigger] screen.write_bytes(
                line.push(next),
            ).cells[screen.row as int][column] == (Char {
                ascii: line[column],
                color_entry: screen.color,
            }),
{
    lemma_cursor_advance(screen, line);
    lemma_write_push(screen, line, next);
    if screen.row + 1 < HEIGHT {
        lemma_glyphs_in_line(screen, line);
    }
}

/// A line feed draws nothing: every cell and the attribute stay as they
/// were, the cursor goes to the start of the next row.
pub proof fn lemma_line_feed(screen: Screen)
    ensures
        screen.write_byte(LINE_FEED).cells == screen.cells,
        screen.write_byte(LINE_FEED).color == screen.color,
        screen.write_byte(LINE_FEED).row == screen.row + 1,
        screen.write_byte(LINE_FEED).column == 0,
        screen.write_text(seq![LINE_FEED]) == screen.write_byte(LINE_FEED),
{
    lemma_text_of_one(screen, LINE_FEED);
}

/// A text of one byte has the effect of that byte as it is shown.
pub proof fn lemma_text_of_one(screen: Screen, byte: u8)
    ensures
        screen.write_text(seq![byte]) == screen.write_byte(shown_spec(byte)),
        screen.takes_text(seq![byte]) == screen.takes_byte(shown_spec(byte)),
{
    let one: Seq<u8> = seq![shown_spec(byte)];
    assert(shown_text(seq![byte]) =~= one);
    assert(one.drop_last() =~= Seq::<u8>::empty());
    assert(one.last() == shown_spec(byte));
    assert(screen.write_bytes(one.drop_last()) == screen);
    assert(screen.takes(one.drop_last()));
}

/// A byte of text that is neither printable nor a line feed puts the
/// placeholder glyph into the cell where the byte itself would have gone,
/// and moves the cursor as the byte itself would have.
pub proof fn lemma_placeholder(screen: Screen, byte: u8)
    requires
        screen.wf(),
        !is_printable(byte),
        byte != LINE_FEED,
        screen.glyph_row() < HEIGHT,
    ensures
        screen.takes_text(seq![byte]),
        screen.write_text(seq![byte]) == screen.draw(PLACEHOLDER),
        screen.write_text(seq![byte]).cells[screen.glyph_row() as int][screen.glyph_column() as int]
            == (Char { ascii: PLACEHOLDER, color_entry: screen.color }),
        screen.write_text(seq![byte]).row == screen.write_byte(byte).row,
        screen.write_text(seq![byte]).column == screen.write_byte(byte).column,
        forall|row: int, column: int|
            0 <= row < HEIGHT && 0 <= column < WIDTH && !(row == screen.glyph_row() && column
                == screen.glyph_column()) ==> #[trigger] screen.write_text(
                seq![byte],
            ).cells[row][column] == screen.cells[row][column],
{
    lemma_text_of_one(screen, byte);
}

/// A printable byte of text reaches the grid as it is.
pub proof fn lemma_printable(screen: Screen, byte: u8)
    requires
        screen.wf(),
        is_printable(byte),
        screen.glyph_row() < HEIGHT,
    ensures
        screen.write_text(seq![byte]) == screen.draw(byte),
        screen.write_text(seq![byte]).cells[screen.glyph_row() as int][screen.glyph_column() as int]
            == (Char { ascii: byte, color_entry: screen.color }),
{
    lemma_text_of_one(screen, byte);
}

/// Two glyphs drawn one after the other carry the same attribute byte, the
/// one that the screen had before either was drawn.
pub proof fn lemma_same_attribute(screen: Screen, first: u8, second: u8)
    requires
        screen.wf(),
        first != LINE_FEED,
        second != LINE_FEED,
        screen.takes_byte(first),
        screen.write_byte(first).takes_byte(second),
    ensures
        ({
            let middle: Screen = screen.write_byte(first);
            let after: Screen = middle.write_byte(second);
            let one: Char = after.cells[screen.glyph_row() as int][screen.glyph_column() as int];
            let two: Char = after.cells[middle.glyph_row() as int][middle.glyph_column() as int];
            &&& one == (Char { ascii: first, color_entry: screen.color })
            &&& two == (Char { ascii: second, color_entry: screen.color })
            &&& one.color_entry == two.color_entry
            &&& after.color == screen.color
        }),
{
}

} // verus!
