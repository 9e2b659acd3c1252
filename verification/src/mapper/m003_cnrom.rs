//! CNROM (mapper 3): fixed PRG ROM like NROM, plus a switchable 8 KiB CHR
//! ROM bank. Any write to 0x8000-0xFFFF selects the CHR bank. On real
//! boards the written value contends with the ROM byte on the bus; the
//! deck resolves that conflict by handing the mapper the value actually
//! driven.

use vstd::prelude::*;
use crate::ppu::Mirroring;
use crate::mapper::{
    bank_offset, spec_bank_offset, Mapped, MappedRead, MappedWrite, Mapper, MemMap,
};

verus! {

/// Fixed PRG ROM, one switchable 8 KiB CHR window.
#[derive(Debug, Copy, Clone, PartialEq, Eq, Structural)]
pub struct Cnrom {
    /// Bytes of PRG ROM: one or two 16 KiB pages.
    pub prg_rom_len: usize,
    /// Bytes of CHR ROM: a positive number of 8 KiB pages.
    pub chr_len: usize,
    /// The 8 KiB CHR bank mapped at 0x0000.
    pub chr_bank: usize,
}

impl Cnrom {
    /// The board geometry CNROM supports.
    pub open spec fn wf(&self) -> bool {
        &&& (self.prg_rom_len == 0x4000 || self.prg_rom_len == 0x8000)
        &&& 0 < self.chr_len <= 0x1000_0000
        &&& self.chr_len % 0x2000 == 0
        &&& self.chr_bank < 0x100
    }

    /// Where a read lands: the selected CHR bank below 0x2000, PRG ROM
    /// modulo its size from 0x8000 up.
    pub open spec fn spec_peek(&self, addr: u16) -> MappedRead {
        if addr < 0x2000 {
            MappedRead::Chr(
                spec_bank_offset(self.chr_len as int, 0x2000, self.chr_bank as int, addr as int)
                    as usize,
            )
        } else if addr >= 0x8000 {
            MappedRead::PrgRom(((addr - 0x8000) as usize % self.prg_rom_len) as usize)
        } else {
            MappedRead::OpenBus
        }
    }

    /// The state after a CPU write: any write at 0x8000 and up latches
    /// the CHR bank.
    pub open spec fn spec_write_state(&self, addr: u16, val: u8) -> Cnrom {
        if addr >= 0x8000 {
            Cnrom { chr_bank: val as usize, ..*self }
        } else {
            *self
        }
    }

    /// What a CPU write hands back: the CHR is ROM and there is no RAM,
    /// so every write is swallowed.
    pub open spec fn spec_write_result(&self, addr: u16, val: u8) -> MappedWrite {
        MappedWrite::Ignored
    }

    /// Wire up a CNROM board.
    pub fn load(prg_rom_len: usize, chr_len: usize) -> (m: Mapper)
        requires
            prg_rom_len == 0x4000 || prg_rom_len == 0x8000,
            0 < chr_len <= 0x1000_0000,
            chr_len % 0x2000 == 0,
        ensures
            m == Mapper::Cnrom(Cnrom { prg_rom_len, chr_len, chr_bank: 0usize }),
            m.mem_wf(),
            m.mapped_wf(),
    {
        Mapper::Cnrom(Cnrom { prg_rom_len, chr_len, chr_bank: 0 })
    }
}

impl MemMap for Cnrom {
    open spec fn mem_wf(&self) -> bool {
        self.wf()
    }

    open spec fn chr_capacity(&self) -> int {
        self.chr_len as int
    }

    open spec fn prg_rom_capacity(&self) -> int {
        self.prg_rom_len as int
    }

    open spec fn prg_ram_capacity(&self) -> int {
        0
    }

    /// A read has no side effects on this board.
    fn map_read(&mut self, addr: u16) -> (r: MappedRead)
        ensures
            *final(self) == *old(self),
            r == old(self).spec_peek(addr),
    {
        self.map_peek(addr)
    }

    fn map_peek(&self, addr: u16) -> (r: MappedRead)
        ensures
            r == self.spec_peek(addr),
    {
        if addr < 0x2000 {
            MappedRead::Chr(bank_offset(self.chr_len, 0x2000, self.chr_bank, addr as usize))
        } else if addr >= 0x8000 {
            MappedRead::PrgRom((addr - 0x8000) as usize % self.prg_rom_len)
        } else {
            MappedRead::OpenBus
        }
    }

    /// Writes into 0x8000-0xFFFF latch the CHR bank; the CHR is ROM, so
    /// nothing else takes writes.
    fn map_write(&mut self, addr: u16, val: u8) -> (w: MappedWrite)
        ensures
            *final(self) == old(self).spec_write_state(addr, val),
            w == old(self).spec_write_result(addr, val),
    {
        if addr >= 0x8000 {
            self.chr_bank = val as usize;
        }
        MappedWrite::Ignored
    }
}

impl Mapped for Cnrom {
    open spec fn mapped_wf(&self) -> bool {
        true
    }

    open spec fn spec_mirroring(&self) -> Option<Mirroring> {
        None
    }

    /// This board has no mirroring control; the header's wiring stands.
    fn mirroring(&self) -> (mirroring: Option<Mirroring>) {
        None
    }
}

} // verus!
