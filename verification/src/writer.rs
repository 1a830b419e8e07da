//! The writer: appends text on the bottom row of the display and scrolls.

use vstd::prelude::*;
use vstd::string::StringSliceAdditionalSpecFns;
use crate::buffer::grid;
use crate::buffer::read_cell;
use crate::buffer::write_cell;
use crate::buffer::Buffer;
use crate::buffer::ScreenChar;
use crate::buffer::BUFFER_HEIGHT;
use crate::buffer::BUFFER_WIDTH;
use crate::color::pack;
use crate::color::Color;
use crate::color::ColorCode;
use crate::screen::lemma_append_text_push;
use crate::screen::sanitize;
use crate::screen::sanitize_byte;
use crate::screen::Screen;
use crate::screen::NEWLINE;

verus! {

/// Writes text to the display's character memory.
///
/// Its view is the `Screen` that the memory shows, with the column of the
/// next character and the writer's colors.
pub struct Writer {
    /// Column of the next character on the bottom row; `BUFFER_WIDTH` when
    /// that row is full.
    column_position: usize,
    /// Colors of every cell that the writer writes.
    color_code: ColorCode,
    /// The character memory of the device.
    buffer: &'static mut Buffer,
}

impl View for Writer {
    type V = Screen;

    closed spec fn view(&self) -> Screen {
        Screen {
            column: self.column_position as int,
            color: self.color_code,
            rows: grid(*self.buffer),
        }
    }
}

impl Writer {
    #[verifier::type_invariant]
    spec fn column_in_row(self) -> bool {
        self.column_position <= BUFFER_WIDTH
    }

    /// A writer at column 0 of the bottom row, over the given memory, which
    /// it leaves as it is.
    pub fn new(color_code: ColorCode, buffer: &'static mut Buffer) -> (writer: Writer)
        ensures
            writer@ == (Screen { column: 0, color: color_code, rows: grid(*old(buffer)) }),
            writer@.wf(),
    {
        Writer { column_position: 0, color_code, buffer }
    }

    /// The writer that a console starts with: white on black, at column 0.
    pub fn white_on_black(buffer: &'static mut Buffer) -> (writer: Writer)
        ensures
            writer@ == (Screen { column: 0, color: ColorCode(0x0f), rows: grid(*old(buffer)) }),
            writer@.color.spec_foreground() == Color::White,
            writer@.color.spec_background() == Color::Black,
            writer@.wf(),
    {
        assert(pack(15, 0) == 0x0f) by (bit_vector);
        Writer::new(ColorCode::new(Color::White, Color::Black), buffer)
    }

    /// The column at which the next character is written.
    pub fn column_position(&self) -> (column: usize)
        ensures
            column == self@.column,
            column <= BUFFER_WIDTH,
    {
        proof {
            use_type_invariant(self);
        }
        self.column_position
    }

    /// The colors of what the writer writes.
    pub fn color_code(&self) -> (color_code: ColorCode)
        ensures
            color_code == self@.color,
    {
        self.color_code
    }

    /// What the display shows at a row and a column; `None` outside the grid.
    pub fn cell(&self, row: usize, col: usize) -> (cell: Option<ScreenChar>)
        ensures
            self@.wf(),
            cell == if row < BUFFER_HEIGHT && col < BUFFER_WIDTH {
                Some(self@.rows[row as int][col as int])
            } else {
                None
            },
    {
        proof {
            use_type_invariant(self);
        }
        if row < BUFFER_HEIGHT && col < BUFFER_WIDTH {
            Some(read_cell(&*self.buffer, row, col))
        } else {
            None
        }
    }

    /// Appends one byte: a newline advances the line; any other byte is
    /// written at the column on the bottom row, after a line advance where
    /// that row is full.
    pub fn write_byte(&mut self, byte: u8)
        ensures
            final(self)@ == old(self)@.append_byte(byte),
            final(self)@.wf(),
    {
        proof {
            use_type_invariant(&*self);
        }
        if byte == NEWLINE {
            self.new_line();
        } else {
            if self.column_position >= BUFFER_WIDTH {
                self.new_line();
            }
            let row: usize = BUFFER_HEIGHT - 1;
            let col: usize = self.column_position;
            let color_code = self.color_code;
            write_cell(self.buffer, row, col, ScreenChar { ascii_character: byte, color_code });
            self.column_position += 1;
        }
    }

    /// Appends a text byte by byte, in order; a byte that is neither
    /// printable nor a newline is written as the placeholder glyph.
    pub fn write_string(&mut self, s: &str)
        ensures
            final(self)@ == old(self)@.append_text(s.spec_bytes()),
            final(self)@.wf(),
    {
        proof {
            use_type_invariant(&*self);
        }
        let bytes = s.as_bytes();
        let mut i: usize = 0;
        assert(sanitize(bytes@.take(0)) =~= Seq::<u8>::empty());
        while i < bytes.len()
            invariant
                i <= bytes.len(),
                bytes@ == s.spec_bytes(),
                self@ == old(self)@.append_text(bytes@.take(i as int)),
                self@.wf(),
            decreases bytes.len() - i,
        {
            let byte: u8 = bytes[i];
            proof {
                assert(bytes@.take(i + 1) =~= bytes@.take(i as int).push(byte));
                lemma_append_text_push(old(self)@, bytes@.take(i as int), byte);
            }
            self.write_byte(sanitize_byte(byte));
            i += 1;
        }
        assert(bytes@.take(i as int) =~= bytes@);
    }

    /// Scrolls by one line: every row moves up by one, the bottom row is
    /// blanked and the column goes back to 0.
    fn new_line(&mut self)
        ensures
            final(self)@ == old(self)@.line_advance(),
            final(self)@.wf(),
    {
        proof {
            use_type_invariant(&*self);
        }
        let ghost before = grid(*self.buffer);
        // Rows are copied from the top down, so no row is overwritten before
        // it has been copied.
        let mut row: usize = 1;
        while row < BUFFER_HEIGHT
            invariant
                1 <= row <= BUFFER_HEIGHT,
                self.column_position == old(self).column_position,
                self.column_position <= BUFFER_WIDTH,
                self.color_code == old(self).color_code,
                before == grid(*old(self).buffer),
                forall|r: int|
                    0 <= r < row - 1 ==> #[trigger] grid(*self.buffer)[r] == before[r + 1],
                forall|r: int|
                    row - 1 <= r < BUFFER_HEIGHT ==> #[trigger] grid(*self.buffer)[r] == before[r],
            decreases BUFFER_HEIGHT - row,
        {
            let mut col: usize = 0;
            while col < BUFFER_WIDTH
                invariant
                    1 <= row < BUFFER_HEIGHT,
                    col <= BUFFER_WIDTH,
                    self.column_position == old(self).column_position,
                    self.column_position <= BUFFER_WIDTH,
                    self.color_code == old(self).color_code,
                    before == grid(*old(self).buffer),
                    forall|r: int|
                        0 <= r < row - 1 ==> #[trigger] grid(*self.buffer)[r] == before[r + 1],
                    forall|r: int|
                        row <= r < BUFFER_HEIGHT ==> #[trigger] grid(*self.buffer)[r] == before[r],
                    forall|c: int|
                        0 <= c < col ==> #[trigger] grid(*self.buffer)[row - 1][c]
                            == before[row as int][c],
                    forall|c: int|
                        col <= c < BUFFER_WIDTH ==> #[trigger] grid(*self.buffer)[row - 1][c]
                            == before[row - 1][c],
                decreases BUFFER_WIDTH - col,
            {
                let character = read_cell(&*self.buffer, row, col);
                // Move the character up by one row.
                write_cell(self.buffer, row - 1, col, character);
                col += 1;
            }
            assert(grid(*self.buffer)[row - 1] =~= before[row as int]);
            row += 1;
        }
        self.clear_row(BUFFER_HEIGHT - 1);
        self.column_position = 0;
        assert(self@.rows =~= old(self)@.line_advance().rows);
    }

    /// Blanks one row in the writer's colors.
    fn clear_row(&mut self, row_num: usize)
        requires
            row_num < BUFFER_HEIGHT,
        ensures
            final(self)@ == old(self)@.clear_row(row_num as int),
    {
        proof {
            use_type_invariant(&*self);
        }
        let blank = ScreenChar::blank(self.color_code);
        let ghost before = grid(*self.buffer);
        let mut col: usize = 0;
        while col < BUFFER_WIDTH
            invariant
                row_num < BUFFER_HEIGHT,
                col <= BUFFER_WIDTH,
                self.column_position == old(self).column_position,
                self.column_position <= BUFFER_WIDTH,
                self.color_code == old(self).color_code,
                blank == ScreenChar::spec_blank(self.color_code),
                before == grid(*old(self).buffer),
                forall|r: int|
                    0 <= r < BUFFER_HEIGHT && r != row_num ==> #[trigger] grid(*self.buffer)[r]
                        == before[r],
                forall|c: int|
                    0 <= c < col ==> #[trigger] grid(*self.buffer)[row_num as int][c] == blank,
            decreases BUFFER_WIDTH - col,
        {
            write_cell(self.buffer, row_num, col, blank);
            col += 1;
        }
        assert(grid(*self.buffer)[row_num as int] =~= Screen::blank_row(self.color_code));
        assert(self@.rows =~= old(self)@.clear_row(row_num as int).rows);
    }
}

/// `core::fmt::Error`, the error of formatted output. It is carried
/// through; nothing is claimed of it.
#[verifier::external_type_specification]
#[verifier::external_body]
pub struct ExFmtError(core::fmt::Error);

/// Formatted output goes through `write_string`, piece by piece, and never
/// fails.
impl core::fmt::Write for Writer {
    fn write_str(&mut self, s: &str) -> (done: Result<(), core::fmt::Error>)
        ensures
            done is Ok,
            final(self)@ == old(self)@.append_text(s.spec_bytes()),
            final(self)@.wf(),
    {
        self.write_string(s);
        Ok(())
    }
}

} // verus!
