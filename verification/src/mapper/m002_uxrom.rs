//! UxROM (mapper 2): a switchable 16 KiB PRG bank at 0x8000, the last
//! 16 KiB bank fixed at 0xC000, and 8 KiB of CHR RAM. Any write to
//! 0x8000-0xFFFF selects the low bank.

use vstd::prelude::*;
use crate::ppu::Mirroring;
use crate::mapper::{
    bank_offset, spec_bank_offset, Mapped, MappedRead, MappedWrite, Mapper, MemMap,
};

verus! {

/// Switchable 16 KiB PRG window at 0x8000, fixed last bank at 0xC000.
#[derive(Debug, Copy, Clone, PartialEq, Eq, Structural)]
pub struct Uxrom {
    /// Bytes of PRG ROM: a positive number of 16 KiB pages.
    pub prg_rom_len: usize,
    /// Bytes of CHR RAM: one 8 KiB page.
    pub chr_len: usize,
    /// The 16 KiB bank mapped at 0x8000, already reduced modulo the bank
    /// count.
    pub prg_lo_bank: usize,
}

impl Uxrom {
    /// The board geometry UxROM supports.
    pub open spec fn wf(&self) -> bool {
        &&& 0 < self.prg_rom_len <= 0x1000_0000
        &&& self.prg_rom_len % 0x4000 == 0
        &&& self.chr_len == 0x2000
        &&& self.prg_lo_bank < 0x100
    }

    /// Where a read lands: CHR RAM below 0x2000, the selected bank in
    /// 0x8000-0xBFFF, the last bank in 0xC000-0xFFFF.
    pub open spec fn spec_peek(&self, addr: u16) -> MappedRead {
        if addr < 0x2000 {
            MappedRead::Chr(addr as usize)
        } else if 0x8000 <= addr < 0xC000 {
            MappedRead::PrgRom(
                spec_bank_offset(
                    self.prg_rom_len as int,
                    0x4000,
                    self.prg_lo_bank as int,
                    (addr - 0x8000) as int,
                ) as usize,
            )
        } else if addr >= 0xC000 {
            MappedRead::PrgRom((self.prg_rom_len - 0x4000 + (addr - 0xC000)) as usize)
        } else {
            MappedRead::OpenBus
        }
    }

    /// The state after a CPU write: any write at 0x8000 and up latches
    /// the low PRG bank.
    pub open spec fn spec_write_state(&self, addr: u16, val: u8) -> Uxrom {
        if addr >= 0x8000 {
            Uxrom { prg_lo_bank: val as usize, ..*self }
        } else {
            *self
        }
    }

    /// What a CPU write hands back: CHR RAM takes data writes, everything
    /// else is swallowed.
    pub open spec fn spec_write_result(&self, addr: u16, val: u8) -> MappedWrite {
        if addr < 0x2000 {
            MappedWrite::Chr(addr as usize, val)
        } else {
            MappedWrite::Ignored
        }
    }

    /// Wire up a UxROM board.
    pub fn load(prg_rom_len: usize, chr_len: usize) -> (m: Mapper)
        requires
            0 < prg_rom_len <= 0x1000_0000,
            prg_rom_len % 0x4000 == 0,
            chr_len == 0x2000,
        ensures
            m == Mapper::Uxrom(Uxrom { prg_rom_len, chr_len, prg_lo_bank: 0usize }),
            m.mem_wf(),
            m.mapped_wf(),
    {
        Mapper::Uxrom(Uxrom { prg_rom_len, chr_len, prg_lo_bank: 0 })
    }
}

impl MemMap for Uxrom {
    open spec fn mem_wf(&self) -> bool {
        self.wf()
    }

    open spec fn chr_capacity(&self) -> int {
        self.chr_len as int
    }

    open spec fn prg_rom_capacity(&self) -> int {
        self.prg_rom_len as int
    }

    open spec fn prg_ram_capacity(&self) -> int {
        0
    }

    /// A read has no side effects on this board.
    fn map_read(&mut self, addr: u16) -> (r: MappedRead)
        ensures
            *final(self) == *old(self),
            r == old(self).spec_peek(addr),
    {
        self.map_peek(addr)
    }

    fn map_peek(&self, addr: u16) -> (r: MappedRead)
        ensures
            r == self.spec_peek(addr),
    {
        if addr < 0x2000 {
            MappedRead::Chr(addr as usize)
        } else if 0x8000 <= addr && addr < 0xC000 {
            MappedRead::PrgRom(
                bank_offset(self.prg_rom_len, 0x4000, self.prg_lo_bank, (addr - 0x8000) as usize),
            )
        } else if addr >= 0xC000 {
            MappedRead::PrgRom(self.prg_rom_len - 0x4000 + (addr - 0xC000) as usize)
        } else {
            MappedRead::OpenBus
        }
    }

    /// Writes into 0x8000-0xFFFF latch the low PRG bank; CHR RAM takes
    /// writes directly.
    fn map_write(&mut self, addr: u16, val: u8) -> (w: MappedWrite)
        ensures
            *final(self) == old(self).spec_write_state(addr, val),
            w == old(self).spec_write_result(addr, val),
    {
        if addr < 0x2000 {
            MappedWrite::Chr(addr as usize, val)
        } else if addr >= 0x8000 {
            self.prg_lo_bank = val as usize;
            MappedWrite::Ignored
        } else {
            MappedWrite::Ignored
        }
    }
}

impl Mapped for Uxrom {
    open spec fn mapped_wf(&self) -> bool {
        true
    }

    open spec fn spec_mirroring(&self) -> Option<Mirroring> {
        None
    }

    /// This board has no mirroring control; the header's wiring stands.
    fn mirroring(&self) -> (mirroring: Option<Mirroring>) {
        None
    }
}

} // verus!
