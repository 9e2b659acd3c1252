//! Picture Processing Unit definitions shared by the mapper layer and the
//! frame buffer: nametable mirroring modes and the geometry of the rendered
//! frame.

pub mod frame;
pub mod palette;

use vstd::prelude::*;

verus! {

/// Width of the rendered frame in pixels.
pub const RENDER_WIDTH: u32 = 256;
/// Height of the rendered frame in pixels.
pub const RENDER_HEIGHT: u32 = 240;
/// Pixels in one frame.
pub const RENDER_PIXELS: usize = 61440;
/// Bytes per output pixel (RGBA).
pub const RENDER_CHANNELS: usize = 4;
/// Bytes in one decoded RGBA frame.
pub const RENDER_SIZE: usize = 245760;

/// How the cartridge wires the two nametables into the PPU's four
/// logical nametable slots.
#[derive(Debug, Copy, Clone, PartialEq, Eq, Structural)]
pub enum Mirroring {
    Vertical,
    Horizontal,
    SingleScreenA,
    SingleScreenB,
    FourScreen,
}

impl Default for Mirroring {
    /// Vertical arrangement is the customary power-up default.
    fn default() -> (m: Self)
        ensures
            m == Mirroring::Vertical,
    {
        Mirroring::Vertical
    }
}

} // verus!
