//! The background layer as the renderer draws it: a 256 x 256 picture of
//! 2-bit colours, built from the tile map at 0x9800 and the tiles at 0x8000.
use vstd::prelude::*;

verus! {

/// Width and height of the background picture.
pub const SCREEN_SIDE: usize = 256;

/// The colour of pixel `bit` (0 is leftmost) of a tile row given by its
/// two bytes: bit 0 of the colour comes from `lsb`, bit 1 from `msb`.
pub open spec fn tile_pixel(lsb: u8, msb: u8, bit: u8) -> int {
    let shift: u8 = (7 - bit) as u8;
    ((lsb >> shift) & 1u8) + (((msb >> shift) & 1u8) << 1u8)
}

/// The colour at index `i` of the picture (row `i / 256`, column `i % 256`).
pub open spec fn background_pixel(memory: Seq<u8>, i: int) -> int {
    let x = i % 256;
    let y = i / 256;
    let tile_number = memory[0x9800 + (y / 8) * 32 + x / 8];
    let start = 0x8000 + tile_number * 16;
    let row = (y % 8) * 2;
    tile_pixel(memory[start + row], memory[start + row + 1], (x % 8) as u8)
}

} // verus!
