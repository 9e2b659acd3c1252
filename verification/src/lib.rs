//! Core building blocks of a Nintendo Entertainment System emulator:
//! the cartridge mapper layer that translates CPU and PPU addresses into
//! ROM/RAM offsets, the PPU frame buffer with its palette decoding, and
//! the input devices the deck polls.

pub mod cart;
pub mod common;
pub mod input;
pub mod mapper;
pub mod ppu;
pub mod state;
