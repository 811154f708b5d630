//! Dimensions of the machine and the built-in font.

use vstd::prelude::*;

verus! {

/// Width of the framebuffer in pixels.
pub const SCREEN_WIDTH: usize = 64;

/// Height of the framebuffer in pixels.
pub const SCREEN_HEIGHT: usize = 32;

/// Number of framebuffer cells, stored row by row.
pub const SCREEN_SIZE: usize = 2048;

/// Number of addressable bytes of memory.
pub const RAM_SIZE: usize = 4096;

/// Number of general-purpose registers `V0`..`VF`.
pub const NUM_REGS: usize = 16;

/// Capacity of the return-address stack.
pub const STACK_SIZE: usize = 16;

/// Number of keys on the keypad.
pub const NUM_KEYS: usize = 16;

/// Address at which programs are loaded and execution starts.
pub const START_ADDR: u16 = 0x200;

/// Index of the flag register `VF`.
pub const FLAG: usize = 0xF;

/// Number of bytes that one glyph of the font occupies.
pub const GLYPH_SIZE: u16 = 5;

/// Number of bytes of the built-in font.
pub const FONTSET_SIZE: usize = 80;

/// The sixteen hexadecimal glyphs, five rows of eight pixels each, of which
/// the four high-order pixels are used.
pub const FONTSET: [u8; 80] = [
    0xF0, 0x90, 0x90, 0x90, 0xF0,
    0x20, 0x60, 0x20, 0x20, 0x70,
    0xF0, 0x10, 0xF0, 0x80, 0xF0,
    0xF0, 0x10, 0xF0, 0x10, 0xF0,
    0x90, 0x90, 0xF0, 0x10, 0x10,
    0xF0, 0x80, 0xF0, 0x10, 0xF0,
    0xF0, 0x80, 0xF0, 0x90, 0xF0,
    0xF0, 0x10, 0x20, 0x40, 0x40,
    0xF0, 0x90, 0xF0, 0x90, 0xF0,
    0xF0, 0x90, 0xF0, 0x10, 0xF0,
    0xF0, 0x90, 0xF0, 0x90, 0x90,
    0xE0, 0x90, 0xE0, 0x90, 0xE0,
    0xF0, 0x80, 0x80, 0x80, 0xF0,
    0xE0, 0x90, 0x90, 0x90, 0xE0,
    0xF0, 0x80, 0xF0, 0x80, 0xF0,
    0xF0, 0x80, 0xF0, 0x80, 0x80,
];

} // verus!
