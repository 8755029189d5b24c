//! A text-mode display driver for a freestanding kernel.
//!
//! The display is a fixed grid of character cells that the video hardware
//! renders directly from memory. [`vga_buffer`] turns that grid into an
//! ordered, line-oriented text sink; [`qemu`] names the exit codes that a
//! test run reports to the emulator.

pub mod qemu;
pub mod vga_buffer;
