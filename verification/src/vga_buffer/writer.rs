use vstd::prelude::*;
use vstd::string::StringSliceAdditionalSpecFns;
use crate::vga_buffer::cell::ScreenCharactor;
use crate::vga_buffer::color::{Color, ColorCode};
use crate::vga_buffer::grid::{
    buffer_cells, well_shaped, ScreenGrid, VgaBuffer, VGA_BUFFER_H, VGA_BUFFER_W,
};
use crate::vga_buffer::screen::{blank_row, Screen, NEWLINE, UNPRINTABLE};

verus! {

/// `core::fmt::Error`, the error of the formatting machinery. It carries
/// nothing.
#[verifier::external_type_specification]
#[verifier::external_body]
pub struct ExFmtError(core::fmt::Error);

/// Writes text to the bottom row of the display and scrolls the display up
/// when a line ends. Its view is the [`Screen`] it has produced so far.
///
/// Every operation that changes the display takes the writer by exclusive
/// reference, so nothing can look at the display while a byte is written
/// or a scroll is under way. Code that shares one writer puts a lock around
/// it and writes through the lock's guard.
pub struct VgaWriter {
    col_pos: usize,
    color_code: ColorCode,
    buffer: ScreenGrid,
    scrolls: Ghost<nat>,
}

impl View for VgaWriter {
    type V = Screen;

    closed spec fn view(&self) -> Screen {
        Screen {
            rows: self.buffer@,
            column: self.col_pos as nat,
            color_code: self.color_code,
            scrolls: self.scrolls@,
        }
    }
}

impl VgaWriter {
    #[verifier::type_invariant]
    spec fn cursor_in_range(&self) -> bool {
        self.col_pos <= VGA_BUFFER_W
    }

    /// A writer over the memory that the hardware renders. The display
    /// shows what the memory holds, the cursor is at the start of the bottom
    /// row, and characters are written `front` on `background`.
    pub fn new(
        front: Color,
        background: Color,
        buffer: &'static mut VgaBuffer,
    ) -> (writer: VgaWriter)
        ensures
            writer@ == (Screen {
                rows: buffer_cells(*old(buffer)),
                column: 0,
                color_code: ColorCode::spec_new(front, background),
                scrolls: 0,
            }),
            writer@.wf(),
    {
        VgaWriter {
            col_pos: 0,
            color_code: ColorCode::new(front, background),
            buffer: ScreenGrid::new(buffer),
            scrolls: Ghost(0),
        }
    }

    /// The grid that the writer writes to.
    pub fn buffer(&self) -> (grid: &ScreenGrid)
        ensures
            grid@ == self@.rows,
            self@.wf(),
    {
        proof {
            use_type_invariant(self);
            self.buffer.lemma_well_shaped();
        }
        &self.buffer
    }

    /// The column that the next character goes to.
    pub fn column(&self) -> (column: usize)
        ensures
            column == self@.column,
            self@.wf(),
    {
        proof {
            use_type_invariant(self);
            self.buffer.lemma_well_shaped();
        }
        self.col_pos
    }

    /// The colors that characters are written in.
    pub fn color_code(&self) -> (color_code: ColorCode)
        ensures
            color_code == self@.color_code,
            self@.wf(),
    {
        proof {
            use_type_invariant(self);
            self.buffer.lemma_well_shaped();
        }
        self.color_code
    }

    /// Changes the colors of the characters written from now on. What the
    /// display shows stays as it is.
    pub fn change_color(&mut self, front: Color, background: Color)
        ensures
            final(self)@ == old(self)@.with_color(ColorCode::spec_new(front, background)),
            old(self)@.wf(),
            final(self)@.wf(),
    {
        proof {
            use_type_invariant(&*self);
            self.buffer.lemma_well_shaped();
        }
        self.color_code = ColorCode::new(front, background);
    }

    /// Writes one byte: a newline scrolls the display; any other byte goes
    /// to the cursor as it is, after a scroll where the bottom row is full.
    pub fn write_byte(&mut self, byte: u8)
        ensures
            final(self)@ == old(self)@.write_byte(byte),
            old(self)@.wf(),
            final(self)@.wf(),
    {
        if byte == NEWLINE {
            self.new_line();
        } else {
            proof {
                use_type_invariant(&*self);
            }
            if self.col_pos >= VGA_BUFFER_W {
                self.new_line();
            }
            proof {
                use_type_invariant(&*self);
                self.buffer.lemma_well_shaped();
            }
            let row: usize = VGA_BUFFER_H - 1;
            let col: usize = self.col_pos;
            self.buffer.write(
                row,
                col,
                ScreenCharactor { charactor: byte, color_code: self.color_code },
            );
            self.col_pos += 1;
        }
    }

    /// Writes the bytes of `s` in order. A byte that is neither printable
    /// ASCII nor a newline is written as the glyph for an unprintable byte.
    pub fn write_string(&mut self, s: &str)
        ensures
            final(self)@ == old(self)@.write_string(s.spec_bytes()),
            old(self)@.wf(),
            final(self)@.wf(),
    {
        let bytes: &[u8] = s.as_bytes();
        let mut i: usize = 0;
        proof {
            use_type_invariant(&*self);
            self.buffer.lemma_well_shaped();
            assert(bytes@.take(0) =~= Seq::<u8>::empty());
        }
        while i < bytes.len()
            invariant
                i <= bytes.len(),
                self@ == old(self)@.write_string(bytes@.take(i as int)),
                self@.wf(),
            decreases bytes.len() - i,
        {
            let byte: u8 = bytes[i];
            if (0x20 <= byte && byte <= 0x7e) || byte == NEWLINE {
                self.write_byte(byte);
            } else {
                self.write_byte(UNPRINTABLE);
            }
            proof {
                assert(bytes@.take(i + 1).drop_last() =~= bytes@.take(i as int));
            }
            i += 1;
        }
        proof {
            assert(bytes@.take(i as int) =~= bytes@);
        }
    }

    /// Scrolls the display: every row moves up by one, the top row is lost,
    /// the bottom row is cleared and the cursor returns to its start.
    pub fn new_line(&mut self)
        ensures
            final(self)@ == old(self)@.scroll(),
            old(self)@.wf(),
            final(self)@.wf(),
    {
        proof {
            use_type_invariant(&*self);
            self.buffer.lemma_well_shaped();
        }
        let mut row: usize = 1;
        while row < VGA_BUFFER_H
            invariant
                1 <= row <= VGA_BUFFER_H,
                self.col_pos == old(self).col_pos,
                self.color_code == old(self).color_code,
                self.scrolls == old(self).scrolls,
                self.col_pos <= VGA_BUFFER_W,
                well_shaped(self.buffer@),
                well_shaped(old(self).buffer@),
                forall|r: int| 0 <= r < row - 1 ==> self.buffer@[r] == old(self).buffer@[r + 1],
                forall|r: int|
                    row - 1 <= r < VGA_BUFFER_H ==> self.buffer@[r] == old(self).buffer@[r],
            decreases VGA_BUFFER_H - row,
        {
            let mut col: usize = 0;
            while col < VGA_BUFFER_W
                invariant
                    1 <= row < VGA_BUFFER_H,
                    col <= VGA_BUFFER_W,
                    self.col_pos == old(self).col_pos,
                    self.color_code == old(self).color_code,
                    self.scrolls == old(self).scrolls,
                    self.col_pos <= VGA_BUFFER_W,
                    well_shaped(self.buffer@),
                    well_shaped(old(self).buffer@),
                    forall|r: int|
                        0 <= r < row - 1 ==> self.buffer@[r] == old(self).buffer@[r + 1],
                    forall|r: int|
                        row <= r < VGA_BUFFER_H ==> self.buffer@[r] == old(self).buffer@[r],
                    forall|c: int|
                        0 <= c < col ==> self.buffer@[row - 1][c] == old(self).buffer@[row as int][c],
                decreases VGA_BUFFER_W - col,
            {
                let screen_char: ScreenCharactor = self.buffer.read(row, col);
                self.buffer.write(row - 1, col, screen_char);
                col += 1;
            }
            proof {
                assert(self.buffer@[row - 1] =~= old(self).buffer@[row as int]);
            }
            row += 1;
        }
        self.clear_row(VGA_BUFFER_H - 1);
        self.col_pos = 0;
        proof {
            self.scrolls@ = self.scrolls@ + 1;
            assert(self.buffer@ =~= old(self).buffer@.skip(1).push(blank_row()));
        }
    }

    /// Clears `row`. The cursor stays where it is.
    fn clear_row(&mut self, row: usize)
        requires
            row < VGA_BUFFER_H,
        ensures
            final(self)@ == old(self)@.clear_row(row as int),
            old(self)@.wf(),
            final(self)@.wf(),
    {
        proof {
            use_type_invariant(&*self);
            self.buffer.lemma_well_shaped();
        }
        let mut col: usize = 0;
        while col < VGA_BUFFER_W
            invariant
                row < VGA_BUFFER_H,
                col <= VGA_BUFFER_W,
                self.col_pos == old(self).col_pos,
                self.color_code == old(self).color_code,
                self.scrolls == old(self).scrolls,
                self.col_pos <= VGA_BUFFER_W,
                well_shaped(self.buffer@),
                forall|r: int|
                    0 <= r < VGA_BUFFER_H && r != row ==> self.buffer@[r] == old(self).buffer@[r],
                forall|c: int|
                    0 <= c < col ==> self.buffer@[row as int][c] == ScreenCharactor::spec_blank(),
            decreases VGA_BUFFER_W - col,
        {
            self.buffer.write(row, col, ScreenCharactor::blank());
            col += 1;
        }
        proof {
            assert(self.buffer@[row as int] =~= blank_row());
            assert(self.buffer@ =~= old(self).buffer@.update(row as int, blank_row()));
        }
    }
}

impl core::fmt::Write for VgaWriter {
    /// Writes `s` as [`VgaWriter::write_string`] does. It never fails.
    fn write_str(&mut self, s: &str) -> (result: core::fmt::Result)
        ensures
            result is Ok,
            final(self)@ == old(self)@.write_string(s.spec_bytes()),
            old(self)@.wf(),
            final(self)@.wf(),
    {
        self.write_string(s);
        Ok(())
    }
}

} // verus!
