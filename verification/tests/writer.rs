use vga_screen::buffer::Buffer;
use vga_screen::buffer::ScreenChar;
use vga_screen::buffer::BUFFER_HEIGHT;
use vga_screen::buffer::BUFFER_WIDTH;
use vga_screen::color::Color;
use vga_screen::color::ColorCode;
use vga_screen::screen::NEWLINE;
use vga_screen::screen::PLACEHOLDER;
use vga_screen::writer::Writer;
use volatile::Volatile;

const H: usize = BUFFER_HEIGHT;
const W: usize = BUFFER_WIDTH;

fn white_on_black() -> ColorCode {
    ColorCode::new(Color::White, Color::Black)
}

fn glyph(character: u8, color_code: ColorCode) -> ScreenChar {
    ScreenChar { ascii_character: character, color_code }
}

/// Memory in which the cell at (row, col) holds what `content` gives.
fn memory(content: impl Fn(usize, usize) -> ScreenChar) -> &'static mut Buffer {
    Box::leak(Box::new(core::array::from_fn(|row| {
        core::array::from_fn(|col| Volatile::new(content(row, col).to_bytes()))
    })))
}

/// A writer in white on black over a blank grid.
fn fresh() -> Writer {
    let code = white_on_black();
    Writer::new(code, memory(|_, _| ScreenChar::blank(code)))
}

/// A writer in white on black over a grid whose row `r` is filled with the
/// letter number `r` of the alphabet, in yellow on blue.
fn lettered() -> Writer {
    Writer::new(white_on_black(), memory(|row, _| glyph(0x41 + row as u8, ColorCode(0x1e))))
}

fn row_of(writer: &Writer, row: usize) -> Vec<ScreenChar> {
    (0..W).map(|col| writer.cell(row, col).unwrap()).collect()
}

fn text_of(writer: &Writer, row: usize) -> Vec<u8> {
    row_of(writer, row).iter().map(|cell| cell.ascii_character).collect()
}

fn blank_row() -> Vec<ScreenChar> {
    vec![ScreenChar::blank(white_on_black()); W]
}

#[test]
fn new_writer_starts_at_column_0() {
    let writer = fresh();
    assert_eq!(writer.column_position(), 0);
    assert_eq!(writer.color_code(), ColorCode(0x0f));
}

#[test]
fn new_writer_leaves_the_memory_alone() {
    let writer = lettered();
    for row in 0..H {
        assert_eq!(row_of(&writer, row), vec![glyph(0x41 + row as u8, ColorCode(0x1e)); W]);
    }
}

#[test]
fn console_writer_is_white_on_black() {
    let blank = ScreenChar::blank(ColorCode(0x70));
    let mut writer = Writer::white_on_black(memory(|_, _| blank));
    assert_eq!(writer.column_position(), 0);
    assert_eq!(writer.color_code(), ColorCode(0x0f));
    assert_eq!(writer.color_code().foreground(), Color::White);
    assert_eq!(writer.color_code().background(), Color::Black);
    assert_eq!(row_of(&writer, H - 1), vec![blank; W]);
    writer.write_string("A");
    assert_eq!(writer.cell(H - 1, 0), Some(glyph(0x41, ColorCode(0x0f))));
    assert_eq!(writer.cell(H - 1, 1), Some(blank));
}

#[test]
fn no_cell_outside_the_grid() {
    let writer = fresh();
    assert_eq!(writer.cell(H, 0), None);
    assert_eq!(writer.cell(0, W), None);
    assert_eq!(writer.cell(usize::MAX, usize::MAX), None);
    assert_eq!(writer.cell(H - 1, W - 1), Some(ScreenChar::blank(white_on_black())));
}

#[test]
fn hello_world_on_a_fresh_writer() {
    let mut writer = fresh();
    writer.write_string("Hello World!");
    let text = "Hello World!".as_bytes();
    assert_eq!(text.len(), 12);
    for col in 0..12 {
        assert_eq!(writer.cell(H - 1, col), Some(glyph(text[col], ColorCode(0x0f))));
    }
    for col in 12..W {
        assert_eq!(writer.cell(H - 1, col), Some(ScreenChar::blank(white_on_black())));
    }
    assert_eq!(writer.column_position(), 12);
    for row in 0..H - 1 {
        assert_eq!(row_of(&writer, row), blank_row());
    }
}

#[test]
fn non_printable_byte_is_shown_as_the_placeholder() {
    let mut writer = fresh();
    writer.write_string("\u{1}");
    assert_eq!(PLACEHOLDER, 0xfe);
    assert_eq!(writer.cell(H - 1, 0), Some(glyph(0xfe, ColorCode(0x0f))));
    assert_eq!(writer.column_position(), 1);
    assert_eq!(writer.cell(H - 1, 1), Some(ScreenChar::blank(white_on_black())));
}

#[test]
fn each_byte_of_a_wide_character_is_a_placeholder() {
    let mut writer = fresh();
    writer.write_string("a\u{e9}b\u{20ac}c");
    assert_eq!(
        text_of(&writer, H - 1)[..9].to_vec(),
        vec![0x61, 0xfe, 0xfe, 0x62, 0xfe, 0xfe, 0xfe, 0x63, 0x20]
    );
    assert_eq!(writer.column_position(), 8);
}

#[test]
fn control_characters_and_delete_are_placeholders() {
    let mut writer = fresh();
    writer.write_string("\t\r\u{0}\u{1f}\u{7f}");
    assert_eq!(text_of(&writer, H - 1)[..6].to_vec(), vec![0xfe, 0xfe, 0xfe, 0xfe, 0xfe, 0x20]);
    assert_eq!(writer.column_position(), 5);
}

#[test]
fn ends_of_the_printable_range_are_kept() {
    let mut writer = fresh();
    writer.write_string(" ~");
    assert_eq!(text_of(&writer, H - 1)[..3].to_vec(), vec![0x20, 0x7e, 0x20]);
    assert_eq!(writer.column_position(), 2);
}

#[test]
fn text_leaves_only_glyphs_on_the_display() {
    let mut writer = fresh();
    let mut text = String::new();
    for code in 0u32..0x250 {
        text.push(char::from_u32(code).unwrap());
    }
    writer.write_string(&text);
    for row in 0..H {
        for character in text_of(&writer, row) {
            assert!((0x20..=0x7e).contains(&character) || character == 0xfe);
        }
    }
}

#[test]
fn write_byte_writes_the_byte_as_it_is() {
    let mut writer = fresh();
    writer.write_byte(0x41);
    writer.write_byte(0x01);
    assert_eq!(writer.cell(H - 1, 0), Some(glyph(0x41, ColorCode(0x0f))));
    assert_eq!(writer.cell(H - 1, 1), Some(glyph(0x01, ColorCode(0x0f))));
    assert_eq!(writer.column_position(), 2);
}

#[test]
fn writer_uses_its_own_colors() {
    let code = ColorCode::new(Color::Yellow, Color::Blue);
    let blank = ScreenChar::blank(white_on_black());
    let mut writer = Writer::new(code, memory(|_, _| blank));
    writer.write_string("ok\n");
    assert_eq!(writer.cell(H - 2, 0), Some(glyph(0x6f, ColorCode(0x1e))));
    assert_eq!(writer.cell(H - 2, 1), Some(glyph(0x6b, ColorCode(0x1e))));
    assert_eq!(writer.cell(H - 2, 2), Some(blank));
    assert_eq!(row_of(&writer, H - 1), vec![glyph(0x20, ColorCode(0x1e)); W]);
}

#[test]
fn full_row_stays_until_the_next_character() {
    let mut writer = lettered();
    writer.write_byte(NEWLINE);
    let line: String = (0..W).map(|col| char::from(0x30 + (col % 10) as u8)).collect();
    writer.write_string(&line);
    assert_eq!(writer.column_position(), W);
    assert_eq!(text_of(&writer, H - 1), line.as_bytes().to_vec());
    assert_eq!(writer.cell(H - 1, W - 1), Some(glyph(0x39, ColorCode(0x0f))));
    assert_eq!(row_of(&writer, H - 2), vec![glyph(0x41 + (H - 1) as u8, ColorCode(0x1e)); W]);

    writer.write_string("x");
    assert_eq!(writer.column_position(), 1);
    assert_eq!(text_of(&writer, H - 2), line.as_bytes().to_vec());
    let mut bottom = blank_row();
    bottom[0] = glyph(0x78, ColorCode(0x0f));
    assert_eq!(row_of(&writer, H - 1), bottom);
}

#[test]
fn two_characters_at_the_last_column() {
    let mut writer = fresh();
    writer.write_string(&"-".repeat(W - 1));
    assert_eq!(writer.column_position(), W - 1);

    writer.write_byte(0x61);
    assert_eq!(writer.column_position(), W);
    assert_eq!(writer.cell(H - 1, W - 1), Some(glyph(0x61, ColorCode(0x0f))));
    assert_eq!(row_of(&writer, H - 2), blank_row());

    writer.write_byte(0x62);
    assert_eq!(writer.column_position(), 1);
    let mut moved = vec![glyph(0x2d, ColorCode(0x0f)); W];
    moved[W - 1] = glyph(0x61, ColorCode(0x0f));
    assert_eq!(row_of(&writer, H - 2), moved);
    let mut bottom = blank_row();
    bottom[0] = glyph(0x62, ColorCode(0x0f));
    assert_eq!(row_of(&writer, H - 1), bottom);
}

#[test]
fn newline_after_a_full_row_advances_once() {
    let mut writer = fresh();
    writer.write_string(&"=".repeat(W));
    writer.write_string("\n");
    assert_eq!(writer.column_position(), 0);
    assert_eq!(row_of(&writer, H - 2), vec![glyph(0x3d, ColorCode(0x0f)); W]);
    assert_eq!(row_of(&writer, H - 1), blank_row());
    assert_eq!(row_of(&writer, H - 3), blank_row());
}

#[test]
fn newline_moves_every_row_up_by_one() {
    let mut writer = lettered();
    writer.write_string("abc");
    assert_eq!(writer.column_position(), 3);
    let before: Vec<Vec<ScreenChar>> = (0..H).map(|row| row_of(&writer, row)).collect();

    writer.write_byte(0x0a);
    assert_eq!(writer.column_position(), 0);
    for row in 0..H - 1 {
        assert_eq!(row_of(&writer, row), before[row + 1]);
    }
    assert_eq!(text_of(&writer, H - 2)[..4].to_vec(), vec![0x61, 0x62, 0x63, 0x41 + (H - 1) as u8]);
    assert_eq!(text_of(&writer, 0), vec![0x42; W]);
    assert_eq!(row_of(&writer, H - 1), blank_row());
}

#[test]
fn a_screenful_of_newlines_scrolls_everything_off() {
    let mut writer = lettered();
    writer.write_string("left over");
    for _ in 0..H {
        writer.write_byte(NEWLINE);
    }
    assert_eq!(writer.column_position(), 0);
    for row in 0..H {
        assert_eq!(row_of(&writer, row), blank_row());
    }
}

#[test]
fn one_newline_short_of_a_screenful_keeps_the_last_row() {
    let mut writer = lettered();
    for _ in 0..H - 1 {
        writer.write_string("\n");
    }
    assert_eq!(row_of(&writer, 0), vec![glyph(0x41 + (H - 1) as u8, ColorCode(0x1e)); W]);
    for row in 1..H {
        assert_eq!(row_of(&writer, row), blank_row());
    }
}

#[test]
fn lines_come_out_in_order() {
    let mut writer = fresh();
    writer.write_string("one\ntwo\nthree");
    assert_eq!(text_of(&writer, H - 3)[..4].to_vec(), vec![0x6f, 0x6e, 0x65, 0x20]);
    assert_eq!(text_of(&writer, H - 2)[..4].to_vec(), vec![0x74, 0x77, 0x6f, 0x20]);
    assert_eq!(text_of(&writer, H - 1)[..6].to_vec(), vec![0x74, 0x68, 0x72, 0x65, 0x65, 0x20]);
    assert_eq!(writer.column_position(), 5);
}

#[test]
fn two_appends_are_one_append_of_both() {
    let mut split = lettered();
    split.write_string("Hello ");
    split.write_string("World!\nbye");
    let mut joined = lettered();
    joined.write_string("Hello World!\nbye");
    assert_eq!(split.column_position(), joined.column_position());
    for row in 0..H {
        assert_eq!(row_of(&split, row), row_of(&joined, row));
    }
}

#[test]
fn empty_text_changes_nothing() {
    let mut writer = lettered();
    writer.write_string("ab");
    writer.write_string("");
    assert_eq!(writer.column_position(), 2);
    assert_eq!(text_of(&writer, H - 1)[..3].to_vec(), vec![0x61, 0x62, 0x41 + (H - 1) as u8]);
    assert_eq!(text_of(&writer, 0), vec![0x41; W]);
}

#[test]
fn formatted_output_goes_through_write_string() {
    let mut writer = fresh();
    assert_eq!(core::fmt::Write::write_str(&mut writer, "ab\u{1}"), Ok(()));
    assert_eq!(core::fmt::Write::write_char(&mut writer, 'c'), Ok(()));
    assert_eq!(core::fmt::Write::write_char(&mut writer, '\u{e9}'), Ok(()));
    assert_eq!(
        text_of(&writer, H - 1)[..7].to_vec(),
        vec![0x61, 0x62, 0xfe, 0x63, 0xfe, 0xfe, 0x20]
    );
    assert_eq!(writer.column_position(), 6);
}
