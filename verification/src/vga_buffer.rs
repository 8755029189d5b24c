//! The text-mode buffer and the writer that fills it.
//!
//! * [`color`] packs a foreground and a background color into an attribute byte.
//! * [`cell`] packs a character and its attribute into the 16-bit word of one cell.
//! * [`grid`] is the memory-mapped grid of cells; every access to it is volatile.
//! * [`screen`] is the mathematical model of the display: what a byte, a string
//!   or a scroll does to it.
//! * [`writer`] is the executable writer, proved against that model.
//! * [`laws`] states what follows from the model for every input.

pub mod cell;
pub mod color;
pub mod grid;
pub mod laws;
pub mod screen;
pub mod writer;

pub use self::cell::ScreenCharactor;
pub use self::color::{Color, ColorCode};
pub use self::grid::{ScreenGrid, VgaBuffer, VGA_BUFFER_ADDRESS, VGA_BUFFER_H, VGA_BUFFER_W};
pub use self::screen::Screen;
pub use self::writer::VgaWriter;
