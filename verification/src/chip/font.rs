use vstd::prelude::*;

verus! {

/// Number of bytes in one glyph of the built-in font.
pub const GLYPH_SIZE: usize = 5;

/// Number of bytes in the whole built-in font: sixteen glyphs.
pub const FONT_SIZE: usize = 80;

/// The built-in hexadecimal font: glyph `d` occupies bytes `5 * d .. 5 * d + 5`,
/// one byte per row, the four high bits of each byte being its pixels.
pub const FONT_SET: [u8; 80] = [
    0xF0, 0x90, 0x90, 0x90, 0xF0,
    0x20, 0x60, 0x20, 0x20, 0x70,
    0xF0, 0x10, 0xF0, 0x80, 0xF0,
    0xF0, 0x10, 0xF0, 0x10, 0xF0,
    0x90, 0x90, 0xF0, 0x10, 0x10,
    0xF0, 0x80, 0xF0, 0x10, 0xF0,
    0xF0, 0x80, 0xF0, 0x90, 0xF0,
    0xF0, 0x10, 0x20, 0x40, 0x40,
    0xF0, 0x90, 0xF0, 0x90, 0xF0,
    0xF0, 0x90, 0xF0, 0x10, 0xF0,
    0xF0, 0x90, 0xF0, 0x90, 0x90,
    0xE0, 0x90, 0xE0, 0x90, 0xE0,
    0xF0, 0x80, 0x80, 0x80, 0xF0,
    0xE0, 0x90, 0x90, 0x90, 0xE0,
    0xF0, 0x80, 0xF0, 0x80, 0xF0,
    0xF0, 0x80, 0xF0, 0x80, 0x80,
];

/// The font as a sequence of bytes.
pub open spec fn font() -> Seq<u8> {
    FONT_SET@
}

} // verus!
