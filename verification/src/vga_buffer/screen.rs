use vstd::prelude::*;
use crate::vga_buffer::cell::ScreenCharactor;
use crate::vga_buffer::color::ColorCode;
use crate::vga_buffer::grid::{well_shaped, VGA_BUFFER_H, VGA_BUFFER_W};

verus! {

/// The byte that ends a line.
pub const NEWLINE: u8 = 0x0a;

/// The glyph that stands for a byte the display cannot show.
pub const UNPRINTABLE: u8 = 0xfe;

/// Printable ASCII: the bytes from the space to the tilde.
pub open spec fn is_printable(byte: u8) -> bool {
    0x20 <= byte <= 0x7e
}

/// The bytes that a string may hold and that are written as they are:
/// printable ASCII and the newline.
pub open spec fn is_writable(byte: u8) -> bool {
    is_printable(byte) || byte == NEWLINE
}

/// The byte that is written for `byte` of a string: the byte itself where
/// it is writable, the glyph for an unprintable byte where it is not.
pub open spec fn sanitize(byte: u8) -> u8 {
    if is_writable(byte) {
        byte
    } else {
        UNPRINTABLE
    }
}

/// A row of cleared cells.
pub open spec fn blank_row() -> Seq<ScreenCharactor> {
    Seq::new(VGA_BUFFER_W as nat, |c: int| ScreenCharactor::spec_blank())
}

/// The state of the display and of the writer's cursor.
pub struct Screen {
    /// The cells, row by row from the top.
    pub rows: Seq<Seq<ScreenCharactor>>,
    /// The column of the bottom row that the next character goes to. It is
    /// `VGA_BUFFER_W` when the bottom row is full.
    pub column: nat,
    /// The colors that characters are written in.
    pub color_code: ColorCode,
    /// How many times the display has scrolled so far.
    pub scrolls: nat,
}

impl Screen {
    /// The rows have the shape of the display and the cursor is within the
    /// bottom row or just behind it.
    pub open spec fn wf(self) -> bool {
        &&& well_shaped(self.rows)
        &&& self.column <= VGA_BUFFER_W
    }

    /// The row that is written to.
    pub open spec fn bottom(self) -> Seq<ScreenCharactor> {
        self.rows[VGA_BUFFER_H - 1]
    }

    /// The display after a change of colors: only later characters show it.
    pub open spec fn with_color(self, color_code: ColorCode) -> Screen {
        Screen { rows: self.rows, column: self.column, color_code, scrolls: self.scrolls }
    }

    /// The display with `row` cleared.
    pub open spec fn clear_row(self, row: int) -> Screen {
        Screen {
            rows: self.rows.update(row, blank_row()),
            column: self.column,
            color_code: self.color_code,
            scrolls: self.scrolls,
        }
    }

    /// The display after a scroll: the top row is gone, every other row has
    /// moved up by one, the bottom row is cleared and the cursor is at its start.
    pub open spec fn scroll(self) -> Screen {
        Screen {
            rows: self.rows.skip(1).push(blank_row()),
            column: 0,
            color_code: self.color_code,
            scrolls: self.scrolls + 1,
        }
    }

    /// The display after `byte` has been put into the bottom row at the
    /// cursor, in the current colors, and the cursor has moved on.
    pub open spec fn place(self, byte: u8) -> Screen {
        let cell = ScreenCharactor { charactor: byte, color_code: self.color_code };
        Screen {
            rows: self.rows.update(
                VGA_BUFFER_H - 1,
                self.bottom().update(self.column as int, cell),
            ),
            column: self.column + 1,
            color_code: self.color_code,
            scrolls: self.scrolls,
        }
    }

    /// The display after one byte has been written: a newline scrolls; any
    /// other byte is placed at the cursor, after a scroll where the bottom
    /// row is full.
    pub open spec fn write_byte(self, byte: u8) -> Screen {
        if byte == NEWLINE {
            self.scroll()
        } else if self.column >= VGA_BUFFER_W {
            self.scroll().place(byte)
        } else {
            self.place(byte)
        }
    }

    /// The display after the bytes of a string have been written in order,
    /// each one sanitized.
    pub open spec fn write_string(self, bytes: Seq<u8>) -> Screen
        decreases bytes.len(),
    {
        if bytes.len() == 0 {
            self
        } else {
            self.write_string(bytes.drop_last()).write_byte(sanitize(bytes.last()))
        }
    }
}

} // verus!
