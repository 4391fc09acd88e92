use vga_text::buffer::{Buffer, HEIGHT, WIDTH};
use vga_text::cell::Char;
use vga_text::color::{Color, ColorEntry};
use vga_text::writer::{Overflow, Writer};
use volatile::Volatile;

const WHITE_ON_BLACK: ColorEntry = ColorEntry(0x0f);

fn memory(glyph: u8, attribute: u8) -> &'static mut Buffer {
    let grid: Buffer =
        core::array::from_fn(|_| core::array::from_fn(|_| Volatile::new([glyph, attribute])));
    Box::leak(Box::new(grid))
}

fn console() -> Writer {
    Writer::new(memory(b' ', 0x07))
}

fn glyph(byte: u8) -> Option<Char> {
    Some(Char { ascii: byte, color_entry: WHITE_ON_BLACK })
}

fn untouched() -> Option<Char> {
    Some(Char { ascii: b' ', color_entry: ColorEntry(0x07) })
}

#[test]
fn grid_is_25_rows_of_80_cells() {
    assert_eq!(HEIGHT, 25);
    assert_eq!(WIDTH, 80);
    assert_eq!(core::mem::size_of::<Buffer>(), 25 * 80 * 2);
}

#[test]
fn new_writer_starts_in_the_top_left_corner() {
    let writer = console();
    assert_eq!(writer.row(), 0);
    assert_eq!(writer.column(), 0);
}

#[test]
fn new_writer_draws_white_on_black() {
    let writer = console();
    assert_eq!(writer.color_entry(), ColorEntry::new(Color::White, Color::Black));
    assert_eq!(writer.color_entry().0, 0x0f);
}

#[test]
fn new_writer_keeps_what_the_memory_holds() {
    let buffer = memory(b'#', 0x4e);
    buffer[3][7].write([b'x', 0x21]);
    let writer = Writer::new(buffer);
    assert_eq!(writer.cell(3, 7), Some(Char { ascii: b'x', color_entry: ColorEntry(0x21) }));
    assert_eq!(writer.cell(0, 0), Some(Char { ascii: b'#', color_entry: ColorEntry(0x4e) }));
    assert_eq!(writer.cell(24, 79), Some(Char { ascii: b'#', color_entry: ColorEntry(0x4e) }));
}

#[test]
fn cell_outside_the_grid_is_none() {
    let writer = console();
    assert_eq!(writer.cell(25, 0), None);
    assert_eq!(writer.cell(0, 80), None);
    assert_eq!(writer.cell(usize::MAX, usize::MAX), None);
    assert_eq!(writer.cell(24, 79), untouched());
}

#[test]
fn written_byte_is_stored_in_the_cell_under_the_cursor() {
    let mut writer = console();
    writer.write_byte(b'Q');
    assert_eq!(writer.cell(0, 0), glyph(b'Q'));
    assert_eq!(writer.cell(0, 1), untouched());
    assert_eq!(writer.cell(1, 0), untouched());
    assert_eq!((writer.row(), writer.column()), (0, 1));
}

#[test]
fn write_byte_draws_any_byte_but_line_feed_unchanged() {
    let mut writer = console();
    writer.write_byte(0x00);
    writer.write_byte(0xc3);
    writer.write_byte(0xfe);
    assert_eq!(writer.cell(0, 0), glyph(0x00));
    assert_eq!(writer.cell(0, 1), glyph(0xc3));
    assert_eq!(writer.cell(0, 2), glyph(0xfe));
    assert_eq!((writer.row(), writer.column()), (0, 3));
}

#[test]
fn cursor_advances_by_the_number_of_printable_bytes() {
    let mut writer = console();
    writer.write_string("hello, world");
    assert_eq!((writer.row(), writer.column()), (0, 12));
    writer.write_string("!");
    assert_eq!((writer.row(), writer.column()), (0, 13));
    for (column, byte) in "hello, world!".bytes().enumerate() {
        assert_eq!(writer.cell(0, column), glyph(byte));
    }
    assert_eq!(writer.cell(0, 13), untouched());
}

#[test]
fn cursor_advances_from_the_middle_of_a_line() {
    let mut writer = console();
    writer.write_string("\n");
    writer.write_string("abc");
    writer.write_string("defgh");
    assert_eq!((writer.row(), writer.column()), (1, 8));
    assert_eq!(writer.cell(1, 3), glyph(b'd'));
    assert_eq!(writer.cell(1, 7), glyph(b'h'));
}

#[test]
fn full_line_leaves_the_cursor_behind_its_end() {
    let mut writer = console();
    let line = "x".repeat(80);
    writer.write_string(&line);
    assert_eq!((writer.row(), writer.column()), (0, 80));
    assert_eq!(writer.cell(0, 79), glyph(b'x'));
    assert_eq!(writer.cell(1, 0), untouched());
}

#[test]
fn byte_after_a_full_line_wraps_to_the_next_row() {
    let mut writer = console();
    let line = "x".repeat(80);
    writer.write_string(&line);
    writer.write_byte(b'y');
    assert_eq!(writer.cell(1, 0), glyph(b'y'));
    assert_eq!((writer.row(), writer.column()), (1, 1));
    for column in 0..80 {
        assert_eq!(writer.cell(0, column), glyph(b'x'));
    }
    assert_eq!(writer.cell(1, 1), untouched());
}

#[test]
fn long_text_wraps_within_one_call() {
    let mut writer = console();
    let text = "ab".repeat(100);
    writer.write_string(&text);
    assert_eq!((writer.row(), writer.column()), (2, 40));
    assert_eq!(writer.cell(0, 0), glyph(b'a'));
    assert_eq!(writer.cell(0, 79), glyph(b'b'));
    assert_eq!(writer.cell(1, 0), glyph(b'a'));
    assert_eq!(writer.cell(2, 39), glyph(b'b'));
    assert_eq!(writer.cell(2, 40), untouched());
}

#[test]
fn line_feed_moves_the_cursor_and_draws_nothing() {
    let mut writer = console();
    writer.write_string("abc");
    writer.write_byte(b'\n');
    assert_eq!((writer.row(), writer.column()), (1, 0));
    assert_eq!(writer.cell(0, 3), untouched());
    assert_eq!(writer.cell(1, 0), untouched());
    for row in 0..25 {
        for column in 0..80 {
            let expected = if row == 0 && column < 3 { glyph(b"abc"[column]) } else { untouched() };
            assert_eq!(writer.cell(row, column), expected);
        }
    }
}

#[test]
fn line_feed_after_a_full_line_does_not_skip_a_row() {
    let mut writer = console();
    writer.write_string(&"x".repeat(80));
    writer.write_byte(b'\n');
    assert_eq!((writer.row(), writer.column()), (1, 0));
    writer.write_byte(b'z');
    assert_eq!(writer.cell(1, 0), glyph(b'z'));
}

#[test]
fn consecutive_line_feeds_each_take_a_row() {
    let mut writer = console();
    writer.write_string("\n\n\n");
    assert_eq!((writer.row(), writer.column()), (3, 0));
}

#[test]
fn unprintable_byte_becomes_the_placeholder_in_its_place() {
    let mut writer = console();
    writer.write_string("a\tb");
    assert_eq!(writer.cell(0, 0), glyph(b'a'));
    assert_eq!(writer.cell(0, 1), glyph(0xfe));
    assert_eq!(writer.cell(0, 2), glyph(b'b'));
    assert_eq!((writer.row(), writer.column()), (0, 3));
}

#[test]
fn each_byte_of_a_multibyte_character_becomes_a_placeholder() {
    let mut writer = console();
    writer.write_string("h\u{e9}!");
    assert_eq!(writer.cell(0, 0), glyph(b'h'));
    assert_eq!(writer.cell(0, 1), glyph(0xfe));
    assert_eq!(writer.cell(0, 2), glyph(0xfe));
    assert_eq!(writer.cell(0, 3), glyph(b'!'));
    assert_eq!((writer.row(), writer.column()), (0, 4));
}

#[test]
fn delete_and_carriage_return_become_placeholders() {
    let mut writer = console();
    writer.write_string("\u{7f}\r");
    assert_eq!(writer.cell(0, 0), glyph(0xfe));
    assert_eq!(writer.cell(0, 1), glyph(0xfe));
    assert_eq!((writer.row(), writer.column()), (0, 2));
}

#[test]
fn consecutive_glyphs_carry_the_same_attribute() {
    let mut writer = console();
    writer.write_byte(b'a');
    writer.write_byte(b'b');
    let first = writer.cell(0, 0).unwrap();
    let second = writer.cell(0, 1).unwrap();
    assert_eq!(first.color_entry, second.color_entry);
    assert_eq!(first.color_entry, ColorEntry(0x0f));
    assert_eq!(writer.color_entry(), ColorEntry(0x0f));
}

#[test]
fn glyphs_on_either_side_of_a_wrap_carry_the_same_attribute() {
    let mut writer = console();
    writer.write_string(&"x".repeat(80));
    writer.write_byte(b'y');
    assert_eq!(
        writer.cell(0, 79).unwrap().color_entry,
        writer.cell(1, 0).unwrap().color_entry
    );
}

#[test]
fn text_with_a_trailing_line_feed_ends_on_the_next_row() {
    let mut writer = console();
    let text = format!("{}\n", "hi");
    assert_eq!(writer.write_str(&text), Ok(()));
    assert_eq!(writer.cell(0, 0), glyph(b'h'));
    assert_eq!(writer.cell(0, 1), glyph(b'i'));
    assert_eq!(writer.cell(0, 2), untouched());
    assert_eq!((writer.row(), writer.column()), (1, 0));
}

#[test]
fn pieces_written_one_by_one_equal_the_whole() {
    let mut pieces = console();
    pieces.write_string("hi");
    pieces.write_string("\n");
    let mut whole = console();
    whole.write_string("hi\n");
    assert_eq!((pieces.row(), pieces.column()), (whole.row(), whole.column()));
    for row in 0..25 {
        for column in 0..80 {
            assert_eq!(pieces.cell(row, column), whole.cell(row, column));
        }
    }
}

#[test]
fn empty_text_changes_nothing() {
    let mut writer = console();
    writer.write_string("ab");
    writer.write_string("");
    assert_eq!(writer.write_str(""), Ok(()));
    assert_eq!((writer.row(), writer.column()), (0, 2));
    assert_eq!(writer.cell(0, 2), untouched());
}

#[test]
fn whole_grid_can_be_filled() {
    let mut writer = console();
    let text = "#".repeat(25 * 80);
    assert!(writer.can_write_string(&text));
    writer.write_string(&text);
    assert_eq!((writer.row(), writer.column()), (24, 80));
    assert_eq!(writer.cell(24, 79), glyph(b'#'));
    assert_eq!(writer.cell(0, 0), glyph(b'#'));
}

#[test]
fn glyph_below_the_last_row_cannot_be_written() {
    let mut writer = console();
    writer.write_string(&"#".repeat(25 * 80));
    assert!(!writer.can_write_byte(b'x'));
    assert!(!writer.can_write_string("x"));
    assert!(writer.can_write_byte(b'\n'));
    assert!(writer.can_write_string("\n"));
    assert!(writer.can_write_string(""));
}

#[test]
fn text_one_glyph_too_long_cannot_be_written() {
    let writer = console();
    assert!(writer.can_write_string(&"#".repeat(2000)));
    assert!(!writer.can_write_string(&"#".repeat(2001)));
}

#[test]
fn line_feeds_may_leave_the_grid_but_glyphs_may_not_follow() {
    let mut writer = console();
    writer.write_string(&"\n".repeat(24));
    assert_eq!((writer.row(), writer.column()), (24, 0));
    assert!(writer.can_write_byte(b'x'));
    writer.write_byte(b'\n');
    assert_eq!((writer.row(), writer.column()), (25, 0));
    assert!(!writer.can_write_byte(b'x'));
    assert!(writer.can_write_byte(b'\n'));
    writer.write_byte(b'\n');
    assert_eq!((writer.row(), writer.column()), (26, 0));
}

#[test]
fn can_write_string_looks_at_bytes_as_they_are_shown() {
    let mut writer = console();
    writer.write_string(&"\n".repeat(24));
    writer.write_string(&"x".repeat(79));
    assert!(writer.can_write_string("\u{7f}"));
    assert!(!writer.can_write_string("\u{e9}"));
    assert!(writer.can_write_string("a\n"));
    assert!(!writer.can_write_string("a\nb"));
}

#[test]
fn write_str_refuses_a_text_that_overflows_and_writes_none_of_it() {
    let mut writer = console();
    writer.write_string(&"\n".repeat(24));
    writer.write_string(&"x".repeat(78));
    assert_eq!(writer.write_str("abc"), Err(Overflow));
    assert_eq!((writer.row(), writer.column()), (24, 78));
    assert_eq!(writer.cell(24, 78), untouched());
    assert_eq!(writer.cell(24, 79), untouched());
    assert_eq!(writer.write_str("ab"), Ok(()));
    assert_eq!(writer.cell(24, 78), glyph(b'a'));
    assert_eq!(writer.cell(24, 79), glyph(b'b'));
    assert_eq!((writer.row(), writer.column()), (24, 80));
}

#[test]
fn write_str_writes_what_write_string_writes() {
    let mut one = console();
    let mut other = console();
    assert_eq!(one.write_str("a\u{0}b\nc"), Ok(()));
    other.write_string("a\u{0}b\nc");
    assert_eq!((one.row(), one.column()), (1, 1));
    for row in 0..2 {
        for column in 0..4 {
            assert_eq!(one.cell(row, column), other.cell(row, column));
        }
    }
    assert_eq!(one.cell(0, 1), glyph(0xfe));
    assert_eq!(one.cell(1, 0), glyph(b'c'));
}

#[test]
fn writes_overwrite_what_the_memory_held() {
    let buffer = memory(b'#', 0x4e);
    let mut writer = Writer::new(buffer);
    writer.write_byte(b'k');
    assert_eq!(writer.cell(0, 0), glyph(b'k'));
    assert_eq!(writer.cell(0, 1), Some(Char { ascii: b'#', color_entry: ColorEntry(0x4e) }));
}
