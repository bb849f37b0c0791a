//! The named colours and the four palettes of the palette-sweep modes.
use vstd::prelude::*;
use crate::leds::Rgb;

verus! {

pub const BLACK: [u8; 3] = [0x00, 0x00, 0x00];
pub const WHITE: [u8; 3] = [0xFF, 0xFF, 0xFF];
pub const RED: [u8; 3] = [0xFF, 0x00, 0x00];
pub const YELLOW: [u8; 3] = [0xFF, 0xFF, 0x00];
pub const GREEN: [u8; 3] = [0x00, 0x80, 0x00];
pub const BLUE: [u8; 3] = [0x00, 0x00, 0xFF];
pub const CYAN: [u8; 3] = [0x00, 0xFF, 0xFF];
pub const MAGENTA: [u8; 3] = [0xFF, 0x00, 0xFF];
pub const DARK_OLIVE_GREEN: [u8; 3] = [0x55, 0x6B, 0x2F];
pub const OLIVE_DRAB: [u8; 3] = [0x6B, 0x8E, 0x23];
pub const YELLOW_GREEN: [u8; 3] = [0x9A, 0xCD, 0x32];
pub const LIME_GREEN: [u8; 3] = [0x32, 0xCD, 0x32];
pub const LAWN_GREEN: [u8; 3] = [0x7C, 0xFC, 0x00];
pub const LIGHT_GREEN: [u8; 3] = [0x90, 0xEE, 0x90];
pub const MEDIUM_AQUAMARINE: [u8; 3] = [0x66, 0xCD, 0xAA];
pub const SEA_GREEN: [u8; 3] = [0x2E, 0x8B, 0x57];
pub const FOREST_GREEN: [u8; 3] = [0x22, 0x8B, 0x22];
pub const DARK_GREEN: [u8; 3] = [0x00, 0x64, 0x00];
pub const LIGHT_BLUE: [u8; 3] = [0xAD, 0xD8, 0xE6];
pub const SKY_BLUE: [u8; 3] = [0x87, 0xCE, 0xEB];
pub const DARK_BLUE: [u8; 3] = [0x00, 0x00, 0x8B];

/// Colours in one palette.
pub const PALETTE_LEN: usize = 16;

/// Number of palettes.
pub const PALETTE_COUNT: usize = 4;

/// The palettes, each a fixed cycle of colours written red, green, blue:
/// forest, cloud, heat and rainbow, in this order.
pub const LED_COLOR_PALETTES: [[[u8; 3]; 16]; 4] = [
    [
        DARK_GREEN,
        DARK_GREEN,
        DARK_OLIVE_GREEN,
        DARK_GREEN,
        GREEN,
        FOREST_GREEN,
        OLIVE_DRAB,
        GREEN,
        SEA_GREEN,
        MEDIUM_AQUAMARINE,
        LIME_GREEN,
        YELLOW_GREEN,
        LIGHT_GREEN,
        LAWN_GREEN,
        MEDIUM_AQUAMARINE,
        FOREST_GREEN,
    ],
    [
        BLUE,
        DARK_BLUE,
        DARK_BLUE,
        DARK_BLUE,
        DARK_BLUE,
        DARK_BLUE,
        DARK_BLUE,
        DARK_BLUE,
        BLUE,
        DARK_BLUE,
        SKY_BLUE,
        SKY_BLUE,
        LIGHT_BLUE,
        WHITE,
        LIGHT_BLUE,
        SKY_BLUE,
    ],
    [
        [0x00, 0x00, 0x00],
        [0x33, 0x00, 0x00],
        [0x66, 0x00, 0x00],
        [0x99, 0x00, 0x00],
        [0xCC, 0x00, 0x00],
        [0xFF, 0x00, 0x00],
        [0xFF, 0x33, 0x00],
        [0xFF, 0x66, 0x00],
        [0xFF, 0x99, 0x00],
        [0xFF, 0xCC, 0x00],
        [0xFF, 0xFF, 0x00],
        [0xFF, 0xFF, 0x33],
        [0xFF, 0xFF, 0x66],
        [0xFF, 0xFF, 0x99],
        [0xFF, 0xFF, 0xCC],
        [0xFF, 0xFF, 0xFF],
    ],
    [
        [0xFF, 0x00, 0x00],
        [0xD5, 0x2A, 0x00],
        [0xAB, 0x55, 0x00],
        [0xAB, 0x7F, 0x00],
        [0xAB, 0xAB, 0x00],
        [0x56, 0xD5, 0x00],
        [0x00, 0xFF, 0x00],
        [0x00, 0xD5, 0x2A],
        [0x00, 0xAB, 0x55],
        [0x00, 0x56, 0xAA],
        [0x00, 0x00, 0xFF],
        [0x2A, 0x00, 0xD5],
        [0x55, 0x00, 0xAB],
        [0x7F, 0x00, 0x81],
        [0xAB, 0x00, 0x55],
        [0xD5, 0x00, 0x2B],
    ],
];

/// The colour that a red-green-blue triple stands for.
pub open spec fn rgb_of(triple: [u8; 3]) -> Rgb {
    Rgb { r: triple[0], g: triple[1], b: triple[2] }
}

/// Entry `index` of palette `palette`.
pub open spec fn palette_entry(palette: int, index: int) -> Rgb
    recommends
        0 <= palette < 4,
        0 <= index < 16,
{
    rgb_of(LED_COLOR_PALETTES[palette][index])
}

/// Turns a red-green-blue triple into a colour.
pub fn color(triple: [u8; 3]) -> (c: Rgb)
    ensures
        c == rgb_of(triple),
{
    Rgb { r: triple[0], g: triple[1], b: triple[2] }
}

/// Looks up one colour of one palette.
pub fn palette_color(palette: usize, index: usize) -> (c: Rgb)
    requires
        palette < PALETTE_COUNT,
        index < PALETTE_LEN,
    ensures
        c == palette_entry(palette as int, index as int),
{
    color(LED_COLOR_PALETTES[palette][index])
}

} // verus!
