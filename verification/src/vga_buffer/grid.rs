use vstd::prelude::*;
use volatile::Volatile;
use crate::vga_buffer::cell::ScreenCharactor;

verus! {

/// The number of cells in a row.
pub const VGA_BUFFER_W: usize = 80;

/// The number of rows.
pub const VGA_BUFFER_H: usize = 25;

/// The address at which the hardware maps the buffer.
pub const VGA_BUFFER_ADDRESS: usize = 0xb8000;

/// The memory that the hardware renders: one volatile 16-bit word per cell,
/// row by row.
pub type VgaBuffer = [[Volatile<u16>; VGA_BUFFER_W]; VGA_BUFFER_H];

/// `volatile::Volatile`: a value of a `Copy` type that is read and written
/// with volatile accesses only, so that the compiler neither drops nor
/// reorders them. The verifier does not look inside it.
#[verifier::external_type_specification]
#[verifier::external_body]
#[verifier::reject_recursive_types(T)]
pub struct ExVolatile<T: Copy>(Volatile<T>);

/// The word that a volatile cell holds.
pub uninterp spec fn stored_word(cell: Volatile<u16>) -> u16;

/// `Volatile::read`, which loads the value that the cell holds with
/// `core::ptr::read_volatile`.
///
/// Taken on trust: the result is the word that the cell holds. For memory
/// that the hardware only displays, as it does the text-mode buffer, this
/// is the word that was last written to the cell.
#[verifier::external_body]
fn volatile_read(cell: &Volatile<u16>) -> (word: u16)
    ensures
        word == stored_word(*cell),
{
    cell.read()
}

/// `Volatile::write`, which stores the value into the cell with
/// `core::ptr::write_volatile`.
///
/// Taken on trust: afterwards the cell holds `word`, and the call does not
/// unwind (the method is documented never to panic).
#[verifier::external_body]
fn volatile_write(cell: &mut Volatile<u16>, word: u16)
    ensures
        stored_word(*final(cell)) == word,
    no_unwind
{
    cell.write(word)
}

/// The cells that a buffer shows, row by row.
pub open spec fn buffer_cells(buffer: VgaBuffer) -> Seq<Seq<ScreenCharactor>> {
    Seq::new(
        VGA_BUFFER_H as nat,
        |r: int|
            Seq::new(
                VGA_BUFFER_W as nat,
                |c: int| ScreenCharactor::spec_from_word(stored_word(buffer@[r]@[c])),
            ),
    )
}

/// Rows of cells with the shape of the display.
pub open spec fn well_shaped(rows: Seq<Seq<ScreenCharactor>>) -> bool {
    &&& rows.len() == VGA_BUFFER_H
    &&& forall|r: int| 0 <= r < VGA_BUFFER_H ==> (#[trigger] rows[r]).len() == VGA_BUFFER_W
}

/// The grid of cells that the hardware renders. Its view is the cells it
/// shows, row by row from the top.
///
/// The grid borrows the memory for as long as the program runs, and it is
/// the only way to that memory: what it shows changes by [`ScreenGrid::write`]
/// alone.
pub struct ScreenGrid {
    cells: &'static mut VgaBuffer,
}

impl View for ScreenGrid {
    type V = Seq<Seq<ScreenCharactor>>;

    closed spec fn view(&self) -> Seq<Seq<ScreenCharactor>> {
        buffer_cells(*self.cells)
    }
}

impl ScreenGrid {
    /// The view of a grid always has the shape of the display.
    pub proof fn lemma_well_shaped(&self)
        ensures
            well_shaped(self@),
    {
    }

    /// Takes over the memory that the hardware renders. The grid shows what
    /// the memory holds.
    pub fn new(cells: &'static mut VgaBuffer) -> (grid: ScreenGrid)
        ensures
            grid@ == buffer_cells(*old(cells)),
            well_shaped(grid@),
    {
        ScreenGrid { cells }
    }

    /// Reads the cell at `row` and `col` with a volatile access.
    pub fn read(&self, row: usize, col: usize) -> (cell: ScreenCharactor)
        requires
            row < VGA_BUFFER_H,
            col < VGA_BUFFER_W,
        ensures
            cell == self@[row as int][col as int],
    {
        ScreenCharactor::from_word(volatile_read(&self.cells[row][col]))
    }

    /// Writes `cell` at `row` and `col` with a volatile access. No other cell
    /// changes.
    pub fn write(&mut self, row: usize, col: usize, cell: ScreenCharactor)
        requires
            row < VGA_BUFFER_H,
            col < VGA_BUFFER_W,
        ensures
            final(self)@ == old(self)@.update(
                row as int,
                old(self)@[row as int].update(col as int, cell),
            ),
            well_shaped(final(self)@),
        no_unwind
    {
        volatile_write(&mut self.cells[row][col], cell.to_word());
        assert(self@ =~~= old(self)@.update(
            row as int,
            old(self)@[row as int].update(col as int, cell),
        ));
    }
}

} // verus!
