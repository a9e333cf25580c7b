//! The built-in font: sixteen glyphs, `0` to `F`, of five rows each.

use vstd::prelude::*;

verus! {

/// Where the font lies in memory.
pub const DEFAULT_FONTPACK_LOCATION: usize = 0x50;

/// Rows per glyph.
pub const GLYPH_ROWS: usize = 5;

/// The glyphs, one after the other; the high nibble of a byte is one row.
pub const DEFAULT_FONTPACK: [u8; 80] = [
    0xF0, 0x90, 0x90, 0x90, 0xF0, // 0
    0x20, 0x60, 0x20, 0x20, 0x70, // 1
    0xF0, 0x10, 0xF0, 0x80, 0xF0, // 2
    0xF0, 0x10, 0xF0, 0x10, 0xF0, // 3
    0x90, 0x90, 0xF0, 0x10, 0x10, // 4
    0xF0, 0x80, 0xF0, 0x10, 0xF0, // 5
    0xF0, 0x80, 0xF0, 0x90, 0xF0, // 6
    0xF0, 0x10, 0x20, 0x40, 0x40, // 7
    0xF0, 0x90, 0xF0, 0x90, 0xF0, // 8
    0xF0, 0x90, 0xF0, 0x10, 0xF0, // 9
    0xF0, 0x90, 0xF0, 0x90, 0x90, // A
    0xE0, 0x90, 0xE0, 0x90, 0xE0, // B
    0xF0, 0x80, 0x80, 0x80, 0xF0, // C
    0xE0, 0x90, 0x90, 0x90, 0xE0, // D
    0xF0, 0x80, 0xF0, 0x80, 0xF0, // E
    0xF0, 0x80, 0xF0, 0x80, 0x80, // F
];

/// Address of the glyph for `digit`.
pub open spec fn glyph_address(digit: u8) -> int {
    DEFAULT_FONTPACK_LOCATION + digit * GLYPH_ROWS
}

} // verus!
