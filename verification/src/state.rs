//! Save-state framing: every save-state blob opens with a 4-byte magic
//! and a 2-byte little-endian format version, so a loader can tell a
//! foreign file from an incompatible one from a damaged one before it
//! touches the body.

use vstd::prelude::*;

verus! {

/// The magic opening every save-state blob, as a little-endian word of
/// its four bytes.
pub const SAVE_STATE_MAGIC: u32 = 0x5353_454E;

/// The save-state format version this build writes and accepts.
pub const SAVE_STATE_VERSION: u16 = 1;

/// Why a save-state blob was refused. A refused load adopts nothing, so
/// the deck keeps its prior state.
#[derive(Debug, Copy, Clone, PartialEq, Eq, Structural)]
pub enum SaveStateError {
    /// The blob does not open with the save-state magic: not a save
    /// state at all.
    BadMagic,
    /// The magic is right but the format version is not one this build
    /// accepts.
    IncompatibleVersion,
    /// The header is right but the body does not decode to a valid
    /// state.
    CorruptBody,
}

/// The magic word the first four bytes of `blob` spell, assembled
/// little-endian; meaningful only when the blob has a full header.
pub open spec fn spec_magic_of(blob: Seq<u8>) -> int {
    blob[0] + blob[1] * 0x100 + blob[2] * 0x1_0000 + blob[3] * 0x100_0000
}

/// The version the fifth and sixth bytes of `blob` spell, little-endian.
pub open spec fn spec_version_of(blob: Seq<u8>) -> int {
    blob[4] + blob[5] * 0x100
}

/// The six header bytes every save-state blob opens with: the magic and
/// this build's version, both little-endian.
pub fn save_header() -> (h: Vec<u8>)
    ensures
        h@.len() == 6,
        spec_magic_of(h@) == SAVE_STATE_MAGIC,
        spec_version_of(h@) == SAVE_STATE_VERSION,
{
    let mut h: Vec<u8> = Vec::new();
    h.push((SAVE_STATE_MAGIC % 0x100) as u8);
    h.push((SAVE_STATE_MAGIC / 0x100 % 0x100) as u8);
    h.push((SAVE_STATE_MAGIC / 0x1_0000 % 0x100) as u8);
    h.push((SAVE_STATE_MAGIC / 0x100_0000) as u8);
    h.push((SAVE_STATE_VERSION % 0x100) as u8);
    h.push((SAVE_STATE_VERSION / 0x100) as u8);
    h
}

/// Check a save-state blob's header: a blob without the full magic is no
/// save state, a right magic with the wrong version is incompatible, and
/// a good header yields its version. The body after the six header bytes
/// is the caller's to decode.
pub fn check_save_header(blob: &Vec<u8>) -> (r: Result<u16, SaveStateError>)
    ensures
        r == (
        if blob@.len() < 6 || spec_magic_of(blob@) != SAVE_STATE_MAGIC {
            Err::<u16, SaveStateError>(SaveStateError::BadMagic)
        } else if spec_version_of(blob@) != SAVE_STATE_VERSION {
            Err::<u16, SaveStateError>(SaveStateError::IncompatibleVersion)
        } else {
            Ok::<u16, SaveStateError>(SAVE_STATE_VERSION)
        }),
{
    if blob.len() < 6 {
        return Err(SaveStateError::BadMagic);
    }
    let magic: u32 = blob[0] as u32 + blob[1] as u32 * 0x100 + blob[2] as u32 * 0x1_0000 + blob[3]
        as u32 * 0x100_0000;
    if magic != SAVE_STATE_MAGIC {
        return Err(SaveStateError::BadMagic);
    }
    let version: u16 = blob[4] as u16 + blob[5] as u16 * 0x100;
    if version != SAVE_STATE_VERSION {
        return Err(SaveStateError::IncompatibleVersion);
    }
    Ok(version)
}

} // verus!
