//! The built-in hexadecimal glyphs and where they live in memory.
use vstd::prelude::*;

verus! {

/// Address of the first glyph byte.
pub const FONT_START: u16 = 0x050;

/// Bytes per glyph: each glyph is five rows of four pixels, kept in the
/// high nibble of each byte.
pub const GLYPH_SIZE: u16 = 5;

/// Number of glyph bytes, one glyph for each hex digit `0`..=`F`.
pub const FONT_SIZE: usize = 80;

/// The glyphs for the hex digits `0` through `F`, five bytes each.
pub const FONT: [u8; 80] = [
    0xF0, 0x90, 0x90, 0x90, 0xF0, // 0
    0x20, 0x60, 0x20, 0x20, 0x70, // 1
    0xF0, 0x10, 0xF0, 0x80, 0xF0, // 2
    0xF0, 0x10, 0xF0, 0x10, 0xF0, // 3
    0x90, 0x90, 0xF0, 0x10, 0x10, // 4
    0xF0, 0x80, 0xF0, 0x10, 0xF0, // 5
    0xF0, 0x80, 0xF0, 0x90, 0xF0, // 6
    0xF0, 0x10, 0x20, 0x40, 0x40, // 7
    0xF0, 0x90, 0xF0, 0x90, 0xF0, // 8
    0xF0, 0x90, 0xF0, 0x10, 0xF0, // 9
    0xF0, 0x90, 0xF0, 0x90, 0x90, // A
    0xE0, 0x90, 0xE0, 0x90, 0xE0, // B
    0xF0, 0x80, 0x80, 0x80, 0xF0, // C
    0xE0, 0x90, 0x90, 0x90, 0xE0, // D
    0xF0, 0x80, 0xF0, 0x80, 0xF0, // E
    0xF0, 0x80, 0xF0, 0x80, 0x80, // F
];

/// The address of the glyph for the low nibble of `digit`.
pub open spec fn glyph_address(digit: u8) -> u16 {
    (FONT_START + GLYPH_SIZE * (digit % 16)) as u16
}

} // verus!
