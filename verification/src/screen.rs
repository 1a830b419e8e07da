//! The display as a mathematical value, and what appending text does to it.

use vstd::prelude::*;
use crate::buffer::ScreenChar;
use crate::buffer::BUFFER_HEIGHT;
use crate::buffer::BUFFER_WIDTH;
use crate::color::ColorCode;

verus! {

/// The byte that ends a line.
pub const NEWLINE: u8 = 0x0a;

/// The glyph shown in place of a byte that cannot be displayed.
pub const PLACEHOLDER: u8 = 0xfe;

/// Whether a byte is a printable ASCII character.
pub open spec fn is_printable(byte: u8) -> bool {
    0x20 <= byte <= 0x7e
}

/// Whether a byte may be handed to the display: a printable character, the
/// newline, or the placeholder glyph.
pub open spec fn is_renderable(byte: u8) -> bool {
    is_printable(byte) || byte == NEWLINE || byte == PLACEHOLDER
}

/// Whether a byte is the character of a cell that some glyph stands for: a
/// printable character or the placeholder glyph.
pub open spec fn is_glyph(byte: u8) -> bool {
    is_printable(byte) || byte == PLACEHOLDER
}

/// The byte written for an input byte: the byte itself where it is printable
/// or a newline, the placeholder glyph otherwise.
pub open spec fn spec_sanitize_byte(byte: u8) -> u8 {
    if is_printable(byte) || byte == NEWLINE {
        byte
    } else {
        PLACEHOLDER
    }
}

/// The byte written for an input byte: never anything but a printable
/// character, a newline or the placeholder glyph.
#[verifier::when_used_as_spec(spec_sanitize_byte)]
pub fn sanitize_byte(byte: u8) -> (written: u8)
    ensures
        written == spec_sanitize_byte(byte),
        is_renderable(written),
{
    if (0x20 <= byte && byte <= 0x7e) || byte == NEWLINE {
        byte
    } else {
        PLACEHOLDER
    }
}

/// The bytes written for a sequence of input bytes, one for one and in order.
pub open spec fn sanitize(bytes: Seq<u8>) -> Seq<u8> {
    Seq::new(bytes.len(), |i: int| spec_sanitize_byte(bytes[i]))
}

/// What the writer knows of the display: the column of the next character on
/// the bottom row, the colors of what it writes, and the cells row by row.
pub struct Screen {
    pub column: int,
    pub color: ColorCode,
    pub rows: Seq<Seq<ScreenChar>>,
}

impl Screen {
    /// The grid has its fixed size and the column lies in the bottom row or
    /// just behind its last cell.
    pub open spec fn wf(self) -> bool {
        &&& 0 <= self.column <= BUFFER_WIDTH
        &&& self.rows.len() == BUFFER_HEIGHT
        &&& forall|row: int|
            0 <= row < BUFFER_HEIGHT ==> (#[trigger] self.rows[row]).len() == BUFFER_WIDTH
    }

    /// A row of spaces in the given colors.
    pub open spec fn blank_row(color: ColorCode) -> Seq<ScreenChar> {
        Seq::new(BUFFER_WIDTH as nat, |col: int| ScreenChar::spec_blank(color))
    }

    /// A row with the bytes written side by side from a column on, in the
    /// given colors; the cells before and behind them stay.
    pub open spec fn row_with(
        row: Seq<ScreenChar>,
        column: int,
        bytes: Seq<u8>,
        color: ColorCode,
    ) -> Seq<ScreenChar> {
        Seq::new(
            row.len(),
            |col: int|
                if column <= col < column + bytes.len() {
                    ScreenChar { ascii_character: bytes[col - column], color_code: color }
                } else {
                    row[col]
                },
        )
    }

    /// The display with one row blanked in the writer's colors.
    pub open spec fn clear_row(self, row: int) -> Screen {
        Screen { rows: self.rows.update(row, Screen::blank_row(self.color)), ..self }
    }

    /// The display scrolled by one line: the top row is gone, every other row
    /// has moved up by one, the bottom row is blank, and the column is 0.
    pub open spec fn line_advance(self) -> Screen {
        Screen {
            column: 0,
            color: self.color,
            rows: self.rows.drop_first().push(Screen::blank_row(self.color)),
        }
    }

    /// The display after `count` line advances in a row.
    pub open spec fn advance_times(self, count: nat) -> Screen
        decreases count,
    {
        if count == 0 {
            self
        } else {
            self.advance_times((count - 1) as nat).line_advance()
        }
    }

    /// The display with a character written at the column on the bottom row,
    /// and the column moved on by one.
    pub open spec fn put(self, byte: u8) -> Screen {
        let bottom = BUFFER_HEIGHT - 1;
        let cell = ScreenChar { ascii_character: byte, color_code: self.color };
        Screen {
            column: self.column + 1,
            color: self.color,
            rows: self.rows.update(bottom, self.rows[bottom].update(self.column, cell)),
        }
    }

    /// The display after one byte is appended. A newline advances the line.
    /// Any other byte is written on the bottom row, after a line advance
    /// where that row is full.
    pub open spec fn append_byte(self, byte: u8) -> Screen {
        if byte == NEWLINE {
            self.line_advance()
        } else if self.column >= BUFFER_WIDTH {
            self.line_advance().put(byte)
        } else {
            self.put(byte)
        }
    }

    /// The display after the bytes are appended one by one, in order.
    pub open spec fn append_bytes(self, bytes: Seq<u8>) -> Screen
        decreases bytes.len(),
    {
        if bytes.len() == 0 {
            self
        } else {
            self.append_bytes(bytes.drop_last()).append_byte(bytes.last())
        }
    }

    /// The display after a text is appended: each byte that cannot be
    /// displayed is replaced by the placeholder glyph first.
    pub open spec fn append_text(self, bytes: Seq<u8>) -> Screen {
        self.append_bytes(sanitize(bytes))
    }

    /// Whether every cell of the grid shows a printable character or the
    /// placeholder glyph.
    pub open spec fn shows_glyphs_only(self) -> bool {
        forall|row: int, col: int|
            0 <= row < self.rows.len() && 0 <= col < self.rows[row].len() ==> is_glyph(
                (#[trigger] self.rows[row][col]).ascii_character,
            )
    }
}

/// Sanitizing keeps the length and the order, and yields nothing but
/// printable bytes, newlines and the placeholder glyph, whatever the bytes.
pub proof fn lemma_sanitize_renderable(bytes: Seq<u8>)
    ensures
        sanitize(bytes).len() == bytes.len(),
        forall|i: int|
            0 <= i < bytes.len() ==> #[trigger] sanitize(bytes)[i] == spec_sanitize_byte(bytes[i]),
        forall|i: int| 0 <= i < bytes.len() ==> is_renderable(#[trigger] sanitize(bytes)[i]),
{
}

/// A text of printable bytes and newlines is written as it stands.
pub proof fn lemma_sanitize_clean(bytes: Seq<u8>)
    requires
        forall|i: int|
            0 <= i < bytes.len() ==> is_printable(#[trigger] bytes[i]) || bytes[i] == NEWLINE,
    ensures
        sanitize(bytes) == bytes,
{
    assert(sanitize(bytes) =~= bytes);
}

/// A line advance keeps the display well formed. It moves rows 1 and up by
/// one row towards the top, blanks the bottom row in the writer's colors and
/// sets the column to 0.
pub proof fn lemma_line_advance(screen: Screen)
    requires
        screen.wf(),
    ensures
        screen.line_advance().wf(),
        screen.line_advance().column == 0,
        screen.line_advance().color == screen.color,
        forall|row: int|
            0 <= row < BUFFER_HEIGHT - 1 ==> (#[trigger] screen.line_advance().rows[row])
                == screen.rows[row + 1],
        screen.line_advance().rows[BUFFER_HEIGHT - 1] == Screen::blank_row(screen.color),
{
}

/// Appending a newline is a line advance: the column is 0 afterwards, the
/// rows above the bottom one hold what stood one row below them, and the
/// bottom row is blank in the writer's colors.
pub proof fn lemma_newline(screen: Screen)
    requires
        screen.wf(),
    ensures
        screen.append_byte(NEWLINE) == screen.line_advance(),
        screen.append_byte(NEWLINE).column == 0,
        forall|row: int|
            0 <= row < BUFFER_HEIGHT - 1 ==> (#[trigger] screen.append_byte(NEWLINE).rows[row])
                == screen.rows[row + 1],
        screen.append_byte(NEWLINE).rows[BUFFER_HEIGHT - 1] == Screen::blank_row(screen.color),
{
    lemma_line_advance(screen);
}

/// Where the column stands after a byte: at 0 after a newline and only then;
/// after any other byte one behind where it stood, or at 1 where the row was
/// full and the line was advanced first.
pub proof fn lemma_column_after_byte(screen: Screen, byte: u8)
    requires
        screen.wf(),
    ensures
        screen.append_byte(byte).column == if byte == NEWLINE {
            0
        } else if screen.column == BUFFER_WIDTH {
            1
        } else {
            screen.column + 1
        },
        screen.append_byte(byte).column == 0 <==> byte == NEWLINE,
{
}

/// Appending a byte keeps the display well formed and keeps the colors.
pub proof fn lemma_append_byte_wf(screen: Screen, byte: u8)
    requires
        screen.wf(),
    ensures
        screen.append_byte(byte).wf(),
        screen.append_byte(byte).color == screen.color,
{
    lemma_line_advance(screen);
}

/// Appending bytes keeps the display well formed and keeps the colors.
pub proof fn lemma_append_bytes_wf(screen: Screen, bytes: Seq<u8>)
    requires
        screen.wf(),
    ensures
        screen.append_bytes(bytes).wf(),
        screen.append_bytes(bytes).color == screen.color,
    decreases bytes.len(),
{
    if bytes.len() > 0 {
        lemma_append_bytes_wf(screen, bytes.drop_last());
        lemma_append_byte_wf(screen.append_bytes(bytes.drop_last()), bytes.last());
    }
}

/// Bytes are appended in order: a text with one more byte at its end gives
/// what the text gives, with what that byte is written as appended.
pub proof fn lemma_append_text_push(screen: Screen, bytes: Seq<u8>, byte: u8)
    ensures
        screen.append_text(bytes.push(byte)) == screen.append_text(bytes).append_byte(
            spec_sanitize_byte(byte),
        ),
{
    assert(sanitize(bytes.push(byte)).drop_last() =~= sanitize(bytes));
}

/// Appending no text changes nothing, and appending a text of one byte
/// appends what that byte is written as.
pub proof fn lemma_append_single(screen: Screen, byte: u8)
    ensures
        screen.append_text(Seq::empty()) == screen,
        screen.append_text(seq![byte]) == screen.append_byte(spec_sanitize_byte(byte)),
{
    assert(sanitize(Seq::empty()) =~= Seq::<u8>::empty());
    assert(seq![byte] =~= Seq::<u8>::empty().push(byte));
    lemma_append_text_push(screen, Seq::empty(), byte);
}

/// Appending two runs of bytes one after the other is appending their
/// concatenation.
pub proof fn lemma_append_bytes_concat(screen: Screen, first: Seq<u8>, second: Seq<u8>)
    ensures
        screen.append_bytes(first + second) == screen.append_bytes(first).append_bytes(second),
    decreases second.len(),
{
    if second.len() == 0 {
        assert(first + second =~= first);
    } else {
        lemma_append_bytes_concat(screen, first, second.drop_last());
        assert((first + second).drop_last() =~= first + second.drop_last());
    }
}

/// Appending two texts one after the other is appending their
/// concatenation.
pub proof fn lemma_append_text_concat(screen: Screen, first: Seq<u8>, second: Seq<u8>)
    ensures
        screen.append_text(first + second) == screen.append_text(first).append_text(second),
{
    assert(sanitize(first + second) =~= sanitize(first) + sanitize(second));
    lemma_append_bytes_concat(screen, sanitize(first), sanitize(second));
}

/// Bytes without a newline that still fit on the bottom row are written
/// there side by side, from the column on; the column moves on by their
/// number and every other cell stays as it is.
pub proof fn lemma_append_within_row(screen: Screen, bytes: Seq<u8>)
    requires
        screen.wf(),
        screen.column + bytes.len() <= BUFFER_WIDTH,
        forall|i: int| 0 <= i < bytes.len() ==> #[trigger] bytes[i] != NEWLINE,
    ensures
        screen.append_bytes(bytes) == (Screen {
            column: screen.column + bytes.len(),
            color: screen.color,
            rows: screen.rows.update(
                BUFFER_HEIGHT - 1,
                Screen::row_with(
                    screen.rows[BUFFER_HEIGHT - 1],
                    screen.column,
                    bytes,
                    screen.color,
                ),
            ),
        }),
    decreases bytes.len(),
{
    let bottom = BUFFER_HEIGHT - 1;
    let written = |bytes: Seq<u8>|
        screen.rows.update(
            bottom,
            Screen::row_with(screen.rows[bottom], screen.column, bytes, screen.color),
        );
    if bytes.len() == 0 {
        assert(written(bytes)[bottom] =~= screen.rows[bottom]);
        assert(written(bytes) =~= screen.rows);
    } else {
        let front = bytes.drop_last();
        lemma_append_within_row(screen, front);
        let after = screen.append_bytes(front).put(bytes.last());
        assert(after.rows[bottom] =~= written(bytes)[bottom]);
        assert(after.rows =~= written(bytes));
    }
}

/// Wrap before write. A row of printable characters written from column 0
/// fills the bottom row and leaves the column just behind its last cell; the
/// rows above stay. Only the next printable character advances the line: the
/// full row moves up by one and the character stands at column 0 of a
/// bottom row that is blank behind it, with the column at 1.
pub proof fn lemma_wrap_before_write(screen: Screen, bytes: Seq<u8>, next: u8)
    requires
        screen.wf(),
        screen.column == 0,
        bytes.len() == BUFFER_WIDTH,
        forall|i: int| 0 <= i < bytes.len() ==> is_printable(#[trigger] bytes[i]),
        is_printable(next),
    ensures
        ({
            let full = screen.append_text(bytes);
            let wrapped = full.append_text(seq![next]);
            let color = screen.color;
            &&& full.column == BUFFER_WIDTH
            &&& full.rows[BUFFER_HEIGHT - 1] == Seq::new(
                BUFFER_WIDTH as nat,
                |col: int| ScreenChar { ascii_character: bytes[col], color_code: color },
            )
            &&& forall|row: int|
                0 <= row < BUFFER_HEIGHT - 1 ==> #[trigger] full.rows[row] == screen.rows[row]
            &&& wrapped == full.line_advance().put(next)
            &&& wrapped.column == 1
            &&& forall|row: int|
                0 <= row < BUFFER_HEIGHT - 1 ==> #[trigger] wrapped.rows[row] == full.rows[row + 1]
            &&& wrapped.rows[BUFFER_HEIGHT - 1] == Screen::blank_row(color).update(
                0,
                ScreenChar { ascii_character: next, color_code: color },
            )
        }),
{
    let bottom = BUFFER_HEIGHT - 1;
    lemma_sanitize_clean(bytes);
    lemma_append_within_row(screen, bytes);
    let full = screen.append_text(bytes);
    assert(full.rows[bottom] =~= Seq::new(
        BUFFER_WIDTH as nat,
        |col: int| ScreenChar { ascii_character: bytes[col], color_code: screen.color },
    ));
    lemma_append_single(full, next);
    lemma_line_advance(full);
}

/// Scrolling by up to a screenful: after `count` line advances the rows
/// that are left have moved up by `count`, and the `count` rows at the
/// bottom are blank in the writer's colors.
pub proof fn lemma_advance_times(screen: Screen, count: nat)
    requires
        screen.wf(),
        count <= BUFFER_HEIGHT,
    ensures
        screen.advance_times(count).wf(),
        screen.advance_times(count).color == screen.color,
        count > 0 ==> screen.advance_times(count).column == 0,
        forall|row: int|
            0 <= row < BUFFER_HEIGHT - count ==> (#[trigger] screen.advance_times(count).rows[row])
                == screen.rows[row + count],
        forall|row: int|
            BUFFER_HEIGHT - count <= row < BUFFER_HEIGHT ==> (#[trigger] screen.advance_times(
                count,
            ).rows[row]) == Screen::blank_row(screen.color),
    decreases count,
{
    if count > 0 {
        let fewer = (count - 1) as nat;
        lemma_advance_times(screen, fewer);
        lemma_line_advance(screen.advance_times(fewer));
    }
}

/// As many line advances as the grid has rows scroll everything off: every
/// row is blank afterwards, whatever the grid held.
pub proof fn lemma_scroll_off(screen: Screen)
    requires
        screen.wf(),
    ensures
        screen.advance_times(BUFFER_HEIGHT as nat).rows == Seq::new(
            BUFFER_HEIGHT as nat,
            |row: int| Screen::blank_row(screen.color),
        ),
        screen.advance_times(BUFFER_HEIGHT as nat).column == 0,
{
    lemma_advance_times(screen, BUFFER_HEIGHT as nat);
    assert(screen.advance_times(BUFFER_HEIGHT as nat).rows =~= Seq::new(
        BUFFER_HEIGHT as nat,
        |row: int| Screen::blank_row(screen.color),
    ));
}

/// A display that shows glyphs only still does so after a byte that may be
/// handed to it is appended.
pub proof fn lemma_append_byte_glyphs(screen: Screen, byte: u8)
    requires
        screen.wf(),
        screen.shows_glyphs_only(),
        is_renderable(byte),
    ensures
        screen.append_byte(byte).shows_glyphs_only(),
{
    let advanced = screen.line_advance();
    assert(advanced.shows_glyphs_only()) by {
        assert forall|row: int, col: int|
            0 <= row < advanced.rows.len() && 0 <= col < advanced.rows[row].len() implies is_glyph(
            (#[trigger] advanced.rows[row][col]).ascii_character,
        ) by {
            if row < BUFFER_HEIGHT - 1 {
                assert(is_glyph(screen.rows[row + 1][col].ascii_character));
            }
        }
    }
    if byte != NEWLINE {
        let base = if screen.column >= BUFFER_WIDTH { advanced } else { screen };
        let after = base.put(byte);
        assert forall|row: int, col: int|
            0 <= row < after.rows.len() && 0 <= col < after.rows[row].len() implies is_glyph(
            (#[trigger] after.rows[row][col]).ascii_character,
        ) by {
            assert(is_glyph(base.rows[row][col].ascii_character));
        }
    }
}

/// Whatever text is appended, a display that shows glyphs only still does
/// so: no byte outside the printable range and the placeholder glyph ever
/// reaches a cell.
pub proof fn lemma_append_text_glyphs(screen: Screen, bytes: Seq<u8>)
    requires
        screen.wf(),
        screen.shows_glyphs_only(),
    ensures
        screen.append_text(bytes).shows_glyphs_only(),
    decreases bytes.len(),
{
    if bytes.len() > 0 {
        let front = bytes.drop_last();
        lemma_append_text_glyphs(screen, front);
        assert(sanitize(bytes).drop_last() =~= sanitize(front));
        lemma_append_bytes_wf(screen, sanitize(front));
        lemma_append_byte_glyphs(screen.append_text(front), sanitize(bytes).last());
    }
}

} // verus!
