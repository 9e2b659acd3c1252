//! Shared definitions: console regions, reset kinds, and the clocking and
//! reset traits that every component of the deck implements.

use vstd::prelude::*;

verus! {

/// How a reset was initiated: a soft reset keeps RAM, a hard reset
/// (power cycle) re-initializes everything.
#[derive(Debug, Copy, Clone, PartialEq, Eq, Structural)]
pub enum Kind {
    Soft,
    Hard,
}

/// Regional console variant. The region decides the master clock ratio,
/// the APU frame sequencer rates and the PPU's total scanline count.
#[derive(Debug, Copy, Clone, PartialEq, Eq, Structural)]
pub enum NesRegion {
    Ntsc,
    Pal,
    Dendy,
}

impl Default for NesRegion {
    /// NTSC is the reference region.
    fn default() -> (region: Self)
        ensures
            region == NesRegion::Ntsc,
    {
        NesRegion::Ntsc
    }
}

/// A component that advances under the master clock.
pub trait Clock: Sized {
    /// Advance the component one step and report how many of its own
    /// cycles elapsed. Components without an internal clock stand still.
    fn clock(&mut self) -> (cycles: usize)
        default_ensures
            *final(self) == *old(self),
            cycles == 0,
    {
        0
    }
}

/// A component that reacts to a console reset.
pub trait Reset: Sized {
    /// Apply a soft or hard reset. Components without reset-sensitive
    /// state are left untouched.
    fn reset(&mut self, kind: Kind)
        default_ensures
            *final(self) == *old(self),
    {
    }
}

} // verus!
