//! The display's character memory: a grid of two-byte cells that is read and
//! written through volatile accesses only.

use vstd::prelude::*;
use volatile::Volatile;
use crate::color::ColorCode;

verus! {

/// Number of rows of the grid.
pub const BUFFER_HEIGHT: usize = 25;

/// Number of cells in a row of the grid.
pub const BUFFER_WIDTH: usize = 80;

/// The character of a blank cell.
pub const SPACE: u8 = 0x20;

/// What one cell of the display shows: a character and its colors.
#[derive(Debug, Clone, Copy, PartialEq, Eq, Structural)]
pub struct ScreenChar {
    pub ascii_character: u8,
    pub color_code: ColorCode,
}

impl ScreenChar {
    /// The two bytes of the cell as the device holds them: the character
    /// first, the attribute second.
    pub open spec fn spec_to_bytes(self) -> Seq<u8> {
        seq![self.ascii_character, self.color_code.0]
    }

    /// The cell that two bytes of device memory show.
    pub open spec fn spec_from_bytes(bytes: Seq<u8>) -> ScreenChar
        recommends
            bytes.len() == 2,
    {
        ScreenChar { ascii_character: bytes[0], color_code: ColorCode(bytes[1]) }
    }

    /// A space in the given colors.
    pub open spec fn spec_blank(color_code: ColorCode) -> ScreenChar {
        ScreenChar { ascii_character: SPACE, color_code }
    }

    /// The cell as the two bytes that the device holds for it.
    pub fn to_bytes(self) -> (bytes: [u8; 2])
        ensures
            bytes@ == self.spec_to_bytes(),
        no_unwind
    {
        let bytes: [u8; 2] = [self.ascii_character, self.color_code.0];
        assert(bytes@ =~= self.spec_to_bytes());
        bytes
    }

    /// The cell that two bytes of device memory show. Every pair of bytes
    /// is some cell.
    pub fn from_bytes(bytes: [u8; 2]) -> (cell: ScreenChar)
        ensures
            cell == ScreenChar::spec_from_bytes(bytes@),
        no_unwind
    {
        ScreenChar { ascii_character: bytes[0], color_code: ColorCode(bytes[1]) }
    }

    /// A space in the given colors.
    #[verifier::when_used_as_spec(spec_blank)]
    pub fn blank(color_code: ColorCode) -> (cell: ScreenChar)
        ensures
            cell == ScreenChar::spec_blank(color_code),
    {
        ScreenChar { ascii_character: SPACE, color_code }
    }

    /// A cell read back from its two bytes is the cell itself.
    pub proof fn lemma_from_bytes_of_to_bytes(self)
        ensures
            ScreenChar::spec_from_bytes(self.spec_to_bytes()) == self,
    {
    }
}

/// `volatile::Volatile`, a value that is read and written with volatile
/// accesses only. It has the size and layout of the value it wraps.
#[verifier::external_type_specification]
#[verifier::external_body]
#[verifier::reject_recursive_types(T)]
pub struct ExVolatile<T: Copy>(Volatile<T>);

/// The two bytes that a volatile cell of the grid holds: what a read of the
/// cell gives, and what the last write to it set.
pub uninterp spec fn cell_bytes(cell: Volatile<[u8; 2]>) -> Seq<u8>;

/// `Volatile::read`: a volatile read of the contained value, which hands
/// back a copy of it. The contract says that the copy holds the bytes of the
/// cell. The outside function never panics.
#[verifier::external_body]
fn volatile_read(cell: &Volatile<[u8; 2]>) -> (bytes: [u8; 2])
    ensures
        bytes@ == cell_bytes(*cell),
    no_unwind
{
    cell.read()
}

/// `Volatile::write`: a volatile write that sets the contained value to the
/// given one. The contract says that the cell then holds the given bytes.
/// The outside function never panics.
#[verifier::external_body]
fn volatile_write(cell: &mut Volatile<[u8; 2]>, bytes: [u8; 2])
    ensures
        cell_bytes(*final(cell)) == bytes@,
    no_unwind
{
    cell.write(bytes)
}

/// The character memory of the device: rows of cells, each cell two bytes
/// behind a volatile wrapper. An array of arrays of two-byte arrays has the
/// row-major layout of the device, character byte first.
pub type Buffer = [[Volatile<[u8; 2]>; BUFFER_WIDTH]; BUFFER_HEIGHT];

/// What the cell at a row and a column of the memory shows.
pub open spec fn cell_at(buffer: Buffer, row: int, col: int) -> ScreenChar {
    ScreenChar::spec_from_bytes(cell_bytes(buffer[row][col]))
}

/// What the whole memory shows: `BUFFER_HEIGHT` rows of `BUFFER_WIDTH` cells.
pub open spec fn grid(buffer: Buffer) -> Seq<Seq<ScreenChar>> {
    Seq::new(
        BUFFER_HEIGHT as nat,
        |row: int| Seq::new(BUFFER_WIDTH as nat, |col: int| cell_at(buffer, row, col)),
    )
}

/// Reads one cell of the memory with a volatile access.
pub fn read_cell(buffer: &Buffer, row: usize, col: usize) -> (cell: ScreenChar)
    requires
        row < BUFFER_HEIGHT,
        col < BUFFER_WIDTH,
    ensures
        cell == grid(*buffer)[row as int][col as int],
    no_unwind
{
    ScreenChar::from_bytes(volatile_read(&buffer[row][col]))
}

/// Replaces one cell of the memory with a volatile access; every other cell
/// stays as it is.
pub fn write_cell(buffer: &mut Buffer, row: usize, col: usize, cell: ScreenChar)
    requires
        row < BUFFER_HEIGHT,
        col < BUFFER_WIDTH,
    ensures
        grid(*final(buffer)) == grid(*old(buffer)).update(
            row as int,
            grid(*old(buffer))[row as int].update(col as int, cell),
        ),
    no_unwind
{
    volatile_write(&mut buffer[row][col], cell.to_bytes());
    proof {
        cell.lemma_from_bytes_of_to_bytes();
        let before = grid(*old(buffer));
        let after = grid(*buffer);
        let expected = before.update(row as int, before[row as int].update(col as int, cell));
        assert forall|r: int| 0 <= r < BUFFER_HEIGHT implies #[trigger] after[r] == expected[r] by {
            assert(after[r] =~= expected[r]);
        }
        assert(after =~= expected);
    }
}

} // verus!
