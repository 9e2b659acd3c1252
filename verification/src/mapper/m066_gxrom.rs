//! GxROM (mapper 66): one switchable 32 KiB PRG bank and one switchable
//! 8 KiB CHR bank, both picked by a single register: CHR from the low two
//! bits, PRG from bits 4-5.

use vstd::prelude::*;
use crate::ppu::Mirroring;
use crate::mapper::{
    bank_offset, spec_bank_offset, Mapped, MappedRead, MappedWrite, Mapper, MemMap,
};

verus! {

/// One 32 KiB PRG window and one 8 KiB CHR window.
#[derive(Debug, Copy, Clone, PartialEq, Eq, Structural)]
pub struct Gxrom {
    /// Bytes of PRG ROM: a positive number of 32 KiB pages.
    pub prg_rom_len: usize,
    /// Bytes of CHR ROM: a positive number of 8 KiB pages.
    pub chr_len: usize,
    /// The 32 KiB bank mapped at 0x8000.
    pub prg_bank: usize,
    /// The 8 KiB CHR bank mapped at 0x0000.
    pub chr_bank: usize,
}

impl Gxrom {
    /// The board geometry GxROM supports.
    pub open spec fn wf(&self) -> bool {
        &&& 0 < self.prg_rom_len <= 0x1000_0000
        &&& self.prg_rom_len % 0x8000 == 0
        &&& 0 < self.chr_len <= 0x1000_0000
        &&& self.chr_len % 0x2000 == 0
        &&& self.prg_bank < 4
        &&& self.chr_bank < 4
    }

    /// Where a read lands: the selected CHR bank below 0x2000, the
    /// selected PRG bank from 0x8000 up.
    pub open spec fn spec_peek(&self, addr: u16) -> MappedRead {
        if addr < 0x2000 {
            MappedRead::Chr(
                spec_bank_offset(self.chr_len as int, 0x2000, self.chr_bank as int, addr as int)
                    as usize,
            )
        } else if addr >= 0x8000 {
            MappedRead::PrgRom(
                spec_bank_offset(
                    self.prg_rom_len as int,
                    0x8000,
                    self.prg_bank as int,
                    (addr - 0x8000) as int,
                ) as usize,
            )
        } else {
            MappedRead::OpenBus
        }
    }

    /// The state after a CPU write: any write at 0x8000 and up latches
    /// the CHR bank from the low two bits and the PRG bank from bits 4-5.
    pub open spec fn spec_write_state(&self, addr: u16, val: u8) -> Gxrom {
        if addr >= 0x8000 {
            Gxrom {
                chr_bank: val as usize % 4,
                prg_bank: (val as int / 16) as usize % 4,
                ..*self
            }
        } else {
            *self
        }
    }

    /// What a CPU write hands back: both stores are ROM, so every write
    /// is swallowed.
    pub open spec fn spec_write_result(&self, addr: u16, val: u8) -> MappedWrite {
        MappedWrite::Ignored
    }

    /// Wire up a GxROM board.
    pub fn load(prg_rom_len: usize, chr_len: usize) -> (m: Mapper)
        requires
            0 < prg_rom_len <= 0x1000_0000,
            prg_rom_len % 0x8000 == 0,
            0 < chr_len <= 0x1000_0000,
            chr_len % 0x2000 == 0,
        ensures
            m == Mapper::Gxrom(Gxrom { prg_rom_len, chr_len, prg_bank: 0usize, chr_bank: 0usize }),
            m.mem_wf(),
            m.mapped_wf(),
    {
        Mapper::Gxrom(Gxrom { prg_rom_len, chr_len, prg_bank: 0, chr_bank: 0 })
    }
}

impl MemMap for Gxrom {
    open spec fn mem_wf(&self) -> bool {
        self.wf()
    }

    open spec fn chr_capacity(&self) -> int {
        self.chr_len as int
    }

    open spec fn prg_rom_capacity(&self) -> int {
        self.prg_rom_len as int
    }

    open spec fn prg_ram_capacity(&self) -> int {
        0
    }

    /// A read has no side effects on this board.
    fn map_read(&mut self, addr: u16) -> (r: MappedRead)
        ensures
            *final(self) == *old(self),
            r == old(self).spec_peek(addr),
    {
        self.map_peek(addr)
    }

    fn map_peek(&self, addr: u16) -> (r: MappedRead)
        ensures
            r == self.spec_peek(addr),
    {
        if addr < 0x2000 {
            MappedRead::Chr(bank_offset(self.chr_len, 0x2000, self.chr_bank, addr as usize))
        } else if addr >= 0x8000 {
            MappedRead::PrgRom(
                bank_offset(self.prg_rom_len, 0x8000, self.prg_bank, (addr - 0x8000) as usize),
            )
        } else {
            MappedRead::OpenBus
        }
    }

    /// Writes into 0x8000-0xFFFF latch both banks from one byte.
    fn map_write(&mut self, addr: u16, val: u8) -> (w: MappedWrite)
        ensures
            *final(self) == old(self).spec_write_state(addr, val),
            w == old(self).spec_write_result(addr, val),
    {
        if addr >= 0x8000 {
            self.chr_bank = val as usize % 4;
            self.prg_bank = (val as usize / 16) % 4;
        }
        MappedWrite::Ignored
    }
}

impl Mapped for Gxrom {
    open spec fn mapped_wf(&self) -> bool {
        true
    }

    open spec fn spec_mirroring(&self) -> Option<Mirroring> {
        None
    }

    /// This board has no mirroring control; the header's wiring stands.
    fn mirroring(&self) -> (mirroring: Option<Mirroring>) {
        None
    }
}

} // verus!
