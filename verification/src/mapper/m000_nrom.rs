//! NROM (mapper 0): no banking at all. 16 or 32 KiB of PRG ROM sit at
//! 0x8000 (a 16 KiB image is mirrored into the upper half), 8 KiB of CHR
//! at 0x0000, and optional PRG RAM at 0x6000.

use vstd::prelude::*;
use crate::ppu::Mirroring;
use crate::mapper::{Mapped, MappedRead, MappedWrite, Mapper, MemMap};

verus! {

/// Fixed PRG at 0x8000, fixed CHR, optional PRG RAM at 0x6000.
#[derive(Debug, Copy, Clone, PartialEq, Eq, Structural)]
pub struct Nrom {
    /// Bytes of PRG ROM: one or two 16 KiB pages.
    pub prg_rom_len: usize,
    /// Bytes of CHR ROM or RAM: one 8 KiB page.
    pub chr_len: usize,
    /// Bytes of PRG RAM at 0x6000, zero when the board has none.
    pub prg_ram_len: usize,
}

impl Nrom {
    /// The board geometry NROM supports.
    pub open spec fn wf(&self) -> bool {
        &&& (self.prg_rom_len == 0x4000 || self.prg_rom_len == 0x8000)
        &&& self.chr_len == 0x2000
        &&& self.prg_ram_len <= 0x2000
    }

    /// Where a CPU or PPU read lands: pattern fetches go to CHR, 0x6000
    /// to PRG RAM when the board carries any, 0x8000 and up to PRG ROM
    /// modulo its size. Everything else is unmapped.
    pub open spec fn spec_peek(&self, addr: u16) -> MappedRead {
        if addr < 0x2000 {
            MappedRead::Chr(addr as usize)
        } else if 0x6000 <= addr < 0x8000 && self.prg_ram_len > 0 {
            MappedRead::PrgRam(((addr - 0x6000) as usize % self.prg_ram_len) as usize)
        } else if addr >= 0x8000 {
            MappedRead::PrgRom(((addr - 0x8000) as usize % self.prg_rom_len) as usize)
        } else {
            MappedRead::OpenBus
        }
    }

    /// NROM has no registers: no write moves the mapper's state.
    pub open spec fn spec_write_state(&self, addr: u16, val: u8) -> Nrom {
        *self
    }

    /// Where a CPU write lands: only PRG RAM takes writes; NROM has no
    /// registers. CHR writes are the deck's business only for CHR RAM
    /// boards and go through the same offset as reads.
    pub open spec fn spec_write_result(&self, addr: u16, val: u8) -> MappedWrite {
        if addr < 0x2000 {
            MappedWrite::Chr(addr as usize, val)
        } else if 0x6000 <= addr < 0x8000 && self.prg_ram_len > 0 {
            MappedWrite::PrgRam(((addr - 0x6000) as usize % self.prg_ram_len) as usize, val)
        } else {
            MappedWrite::Ignored
        }
    }

    /// Wire up an NROM board.
    pub fn load(prg_rom_len: usize, chr_len: usize, prg_ram_len: usize) -> (m: Mapper)
        requires
            prg_rom_len == 0x4000 || prg_rom_len == 0x8000,
            chr_len == 0x2000,
            prg_ram_len <= 0x2000,
        ensures
            m == Mapper::Nrom(Nrom { prg_rom_len, chr_len, prg_ram_len }),
            m.mem_wf(),
            m.mapped_wf(),
    {
        Mapper::Nrom(Nrom { prg_rom_len, chr_len, prg_ram_len })
    }
}

impl MemMap for Nrom {
    open spec fn mem_wf(&self) -> bool {
        self.wf()
    }

    open spec fn chr_capacity(&self) -> int {
        self.chr_len as int
    }

    open spec fn prg_rom_capacity(&self) -> int {
        self.prg_rom_len as int
    }

    open spec fn prg_ram_capacity(&self) -> int {
        self.prg_ram_len as int
    }

    /// A read has no side effects on this board.
    fn map_read(&mut self, addr: u16) -> (r: MappedRead)
        ensures
            *final(self) == *old(self),
            r == old(self).spec_peek(addr),
    {
        self.map_peek(addr)
    }

    fn map_peek(&self, addr: u16) -> (r: MappedRead)
        ensures
            r == self.spec_peek(addr),
    {
        if addr < 0x2000 {
            MappedRead::Chr(addr as usize)
        } else if 0x6000 <= addr && addr < 0x8000 && self.prg_ram_len > 0 {
            MappedRead::PrgRam((addr - 0x6000) as usize % self.prg_ram_len)
        } else if addr >= 0x8000 {
            MappedRead::PrgRom((addr - 0x8000) as usize % self.prg_rom_len)
        } else {
            MappedRead::OpenBus
        }
    }

    fn map_write(&mut self, addr: u16, val: u8) -> (w: MappedWrite)
        ensures
            *final(self) == old(self).spec_write_state(addr, val),
            w == old(self).spec_write_result(addr, val),
    {
        if addr < 0x2000 {
            MappedWrite::Chr(addr as usize, val)
        } else if 0x6000 <= addr && addr < 0x8000 && self.prg_ram_len > 0 {
            MappedWrite::PrgRam((addr - 0x6000) as usize % self.prg_ram_len, val)
        } else {
            MappedWrite::Ignored
        }
    }
}

impl Mapped for Nrom {
    open spec fn mapped_wf(&self) -> bool {
        true
    }

    open spec fn spec_mirroring(&self) -> Option<Mirroring> {
        None
    }

    /// This board has no mirroring control; the header's wiring stands.
    fn mirroring(&self) -> (mirroring: Option<Mirroring>) {
        None
    }
}

} // verus!
