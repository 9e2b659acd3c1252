//! The master palette of the console: 64 base colors, each with 8 color
//! emphasis variants, 512 entries in all. A frame buffer pixel is an index
//! into this palette; decoding turns it into an RGB triple.

use vstd::prelude::*;

verus! {

/// Number of base colors the video chip can produce.
pub const MASTER_PALETTE_SIZE: u16 = 64;
/// Base colors times the 8 emphasis variants.
pub const SYSTEM_PALETTE_SIZE: u16 = 512;

/// The 64 base colors, as displayed with no color emphasis.
#[verifier::opaque]
pub open spec fn master_rgb(color: int) -> (u8, u8, u8) {
    if color == 0 { (84, 84, 84) }
    else if color == 1 { (0, 30, 116) }
    else if color == 2 { (8, 16, 144) }
    else if color == 3 { (48, 0, 136) }
    else if color == 4 { (68, 0, 100) }
    else if color == 5 { (92, 0, 48) }
    else if color == 6 { (84, 4, 0) }
    else if color == 7 { (60, 24, 0) }
    else if color == 8 { (32, 42, 0) }
    else if color == 9 { (8, 58, 0) }
    else if color == 10 { (0, 64, 0) }
    else if color == 11 { (0, 60, 0) }
    else if color == 12 { (0, 50, 60) }
    else if color == 13 { (0, 0, 0) }
    else if color == 14 { (0, 0, 0) }
    else if color == 15 { (0, 0, 0) }
    else if color == 16 { (152, 150, 152) }
    else if color == 17 { (8, 76, 196) }
    else if color == 18 { (48, 50, 236) }
    else if color == 19 { (92, 30, 228) }
    else if color == 20 { (136, 20, 176) }
    else if color == 21 { (160, 20, 100) }
    else if color == 22 { (152, 34, 32) }
    else if color == 23 { (120, 60, 0) }
    else if color == 24 { (84, 90, 0) }
    else if color == 25 { (40, 114, 0) }
    else if color == 26 { (8, 124, 0) }
    else if color == 27 { (0, 118, 40) }
    else if color == 28 { (0, 102, 120) }
    else if color == 29 { (0, 0, 0) }
    else if color == 30 { (0, 0, 0) }
    else if color == 31 { (0, 0, 0) }
    else if color == 32 { (236, 238, 236) }
    else if color == 33 { (76, 154, 236) }
    else if color == 34 { (120, 124, 236) }
    else if color == 35 { (176, 98, 236) }
    else if color == 36 { (228, 84, 236) }
    else if color == 37 { (236, 88, 180) }
    else if color == 38 { (236, 106, 100) }
    else if color == 39 { (212, 136, 32) }
    else if color == 40 { (160, 170, 0) }
    else if color == 41 { (116, 196, 0) }
    else if color == 42 { (76, 208, 32) }
    else if color == 43 { (56, 204, 108) }
    else if color == 44 { (56, 180, 204) }
    else if color == 45 { (60, 60, 60) }
    else if color == 46 { (0, 0, 0) }
    else if color == 47 { (0, 0, 0) }
    else if color == 48 { (236, 238, 236) }
    else if color == 49 { (168, 204, 236) }
    else if color == 50 { (188, 188, 236) }
    else if color == 51 { (212, 178, 236) }
    else if color == 52 { (236, 174, 236) }
    else if color == 53 { (236, 174, 212) }
    else if color == 54 { (236, 180, 176) }
    else if color == 55 { (228, 196, 144) }
    else if color == 56 { (204, 210, 120) }
    else if color == 57 { (180, 222, 120) }
    else if color == 58 { (168, 226, 144) }
    else if color == 59 { (152, 226, 180) }
    else if color == 60 { (160, 214, 228) }
    else if color == 61 { (160, 162, 160) }
    else if color == 62 { (0, 0, 0) }
    else { (0, 0, 0) }
}

/// A channel attenuated by one quarter, the effect of the emphasis bits
/// on the channels they do not select.
pub open spec fn spec_dimmed(v: u8) -> u8 {
    (v - v / 4) as u8
}

/// The palette entry for a full 9-bit index: the low 6 bits pick the base
/// color, the high 3 bits are the emphasis mask (red, green, blue). With no
/// emphasis the base color stands; otherwise every channel whose emphasis
/// bit is clear is dimmed by one quarter.
pub open spec fn system_palette(index: int) -> (u8, u8, u8)
    recommends
        0 <= index < 512,
{
    let base = master_rgb(index % 64);
    let emphasis = index / 64;
    if emphasis == 0 {
        base
    } else {
        (
            if emphasis % 2 == 1 { base.0 } else { spec_dimmed(base.0) },
            if (emphasis / 2) % 2 == 1 { base.1 } else { spec_dimmed(base.1) },
            if (emphasis / 4) % 2 == 1 { base.2 } else { spec_dimmed(base.2) },
        )
    }
}

/// Look up one of the 64 base colors.
pub fn base_rgb(color: u16) -> (rgb: (u8, u8, u8))
    requires
        color < 64,
    ensures
        rgb == master_rgb(color as int),
{
    proof {
        reveal(master_rgb);
    }
    if color == 0 { (84, 84, 84) }
    else if color == 1 { (0, 30, 116) }
    else if color == 2 { (8, 16, 144) }
    else if color == 3 { (48, 0, 136) }
    else if color == 4 { (68, 0, 100) }
    else if color == 5 { (92, 0, 48) }
    else if color == 6 { (84, 4, 0) }
    else if color == 7 { (60, 24, 0) }
    else if color == 8 { (32, 42, 0) }
    else if color == 9 { (8, 58, 0) }
    else if color == 10 { (0, 64, 0) }
    else if color == 11 { (0, 60, 0) }
    else if color == 12 { (0, 50, 60) }
    else if color == 13 { (0, 0, 0) }
    else if color == 14 { (0, 0, 0) }
    else if color == 15 { (0, 0, 0) }
    else if color == 16 { (152, 150, 152) }
    else if color == 17 { (8, 76, 196) }
    else if color == 18 { (48, 50, 236) }
    else if color == 19 { (92, 30, 228) }
    else if color == 20 { (136, 20, 176) }
    else if color == 21 { (160, 20, 100) }
    else if color == 22 { (152, 34, 32) }
    else if color == 23 { (120, 60, 0) }
    else if color == 24 { (84, 90, 0) }
    else if color == 25 { (40, 114, 0) }
    else if color == 26 { (8, 124, 0) }
    else if color == 27 { (0, 118, 40) }
    else if color == 28 { (0, 102, 120) }
    else if color == 29 { (0, 0, 0) }
    else if color == 30 { (0, 0, 0) }
    else if color == 31 { (0, 0, 0) }
    else if color == 32 { (236, 238, 236) }
    else if color == 33 { (76, 154, 236) }
    else if color == 34 { (120, 124, 236) }
    else if color == 35 { (176, 98, 236) }
    else if color == 36 { (228, 84, 236) }
    else if color == 37 { (236, 88, 180) }
    else if color == 38 { (236, 106, 100) }
    else if color == 39 { (212, 136, 32) }
    else if color == 40 { (160, 170, 0) }
    else if color == 41 { (116, 196, 0) }
    else if color == 42 { (76, 208, 32) }
    else if color == 43 { (56, 204, 108) }
    else if color == 44 { (56, 180, 204) }
    else if color == 45 { (60, 60, 60) }
    else if color == 46 { (0, 0, 0) }
    else if color == 47 { (0, 0, 0) }
    else if color == 48 { (236, 238, 236) }
    else if color == 49 { (168, 204, 236) }
    else if color == 50 { (188, 188, 236) }
    else if color == 51 { (212, 178, 236) }
    else if color == 52 { (236, 174, 236) }
    else if color == 53 { (236, 174, 212) }
    else if color == 54 { (236, 180, 176) }
    else if color == 55 { (228, 196, 144) }
    else if color == 56 { (204, 210, 120) }
    else if color == 57 { (180, 222, 120) }
    else if color == 58 { (168, 226, 144) }
    else if color == 59 { (152, 226, 180) }
    else if color == 60 { (160, 214, 228) }
    else if color == 61 { (160, 162, 160) }
    else if color == 62 { (0, 0, 0) }
    else { (0, 0, 0) }
}

fn dimmed(v: u8) -> (d: u8)
    ensures
        d == spec_dimmed(v),
{
    v - v / 4
}

/// Look up the full palette entry for a 9-bit color-and-emphasis index.
pub fn palette_rgb(index: u16) -> (rgb: (u8, u8, u8))
    requires
        index < 512,
    ensures
        rgb == system_palette(index as int),
{
    let base = base_rgb(index % 64);
    let emphasis = index / 64;
    if emphasis == 0 {
        base
    } else {
        let r = if emphasis % 2 == 1 { base.0 } else { dimmed(base.0) };
        let g = if (emphasis / 2) % 2 == 1 { base.1 } else { dimmed(base.1) };
        let b = if (emphasis / 4) % 2 == 1 { base.2 } else { dimmed(base.2) };
        (r, g, b)
    }
}

} // verus!
