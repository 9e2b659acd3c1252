//! AxROM (mapper 7): one switchable 32 KiB PRG bank fills 0x8000-0xFFFF,
//! 8 KiB of CHR RAM, and single-screen mirroring whose nametable is picked
//! by the bank register's bit 4.

use vstd::prelude::*;
use crate::mapper::{
    bank_offset, spec_bank_offset, Mapped, MappedRead, MappedWrite, Mapper, MemMap,
};
use crate::ppu::Mirroring;

verus! {

/// One 32 KiB PRG window and a single-screen select bit.
#[derive(Debug, Copy, Clone, PartialEq, Eq, Structural)]
pub struct Axrom {
    /// Bytes of PRG ROM: a positive number of 32 KiB pages.
    pub prg_rom_len: usize,
    /// Bytes of CHR RAM: one 8 KiB page.
    pub chr_len: usize,
    /// The 32 KiB bank mapped at 0x8000.
    pub prg_bank: usize,
    /// Whether the second single-screen nametable is selected.
    pub second_nametable: bool,
}

impl Axrom {
    /// The board geometry AxROM supports.
    pub open spec fn wf(&self) -> bool {
        &&& 0 < self.prg_rom_len <= 0x1000_0000
        &&& self.prg_rom_len % 0x8000 == 0
        &&& self.chr_len == 0x2000
        &&& self.prg_bank < 8
    }

    /// Where a read lands: CHR RAM below 0x2000, the selected 32 KiB bank
    /// from 0x8000 up.
    pub open spec fn spec_peek(&self, addr: u16) -> MappedRead {
        if addr < 0x2000 {
            MappedRead::Chr(addr as usize)
        } else if addr >= 0x8000 {
            MappedRead::PrgRom(
                spec_bank_offset(
                    self.prg_rom_len as int,
                    0x8000,
                    self.prg_bank as int,
                    (addr - 0x8000) as int,
                ) as usize,
            )
        } else {
            MappedRead::OpenBus
        }
    }

    /// The state after a CPU write: any write at 0x8000 and up latches
    /// the PRG bank from the low three bits and the nametable select from
    /// bit 4.
    pub open spec fn spec_write_state(&self, addr: u16, val: u8) -> Axrom {
        if addr >= 0x8000 {
            Axrom {
                prg_bank: val as usize % 8,
                second_nametable: (val as int / 16) % 2 == 1,
                ..*self
            }
        } else {
            *self
        }
    }

    /// What a CPU write hands back: CHR RAM takes data writes, everything
    /// else is swallowed.
    pub open spec fn spec_write_result(&self, addr: u16, val: u8) -> MappedWrite {
        if addr < 0x2000 {
            MappedWrite::Chr(addr as usize, val)
        } else {
            MappedWrite::Ignored
        }
    }

    /// Wire up an AxROM board.
    pub fn load(prg_rom_len: usize, chr_len: usize) -> (m: Mapper)
        requires
            0 < prg_rom_len <= 0x1000_0000,
            prg_rom_len % 0x8000 == 0,
            chr_len == 0x2000,
        ensures
            m == Mapper::Axrom(
                Axrom { prg_rom_len, chr_len, prg_bank: 0usize, second_nametable: false },
            ),
            m.mem_wf(),
            m.mapped_wf(),
    {
        Mapper::Axrom(Axrom { prg_rom_len, chr_len, prg_bank: 0, second_nametable: false })
    }
}

impl MemMap for Axrom {
    open spec fn mem_wf(&self) -> bool {
        self.wf()
    }

    open spec fn chr_capacity(&self) -> int {
        self.chr_len as int
    }

    open spec fn prg_rom_capacity(&self) -> int {
        self.prg_rom_len as int
    }

    open spec fn prg_ram_capacity(&self) -> int {
        0
    }

    /// A read has no side effects on this board.
    fn map_read(&mut self, addr: u16) -> (r: MappedRead)
        ensures
            *final(self) == *old(self),
            r == old(self).spec_peek(addr),
    {
        self.map_peek(addr)
    }

    fn map_peek(&self, addr: u16) -> (r: MappedRead)
        ensures
            r == self.spec_peek(addr),
    {
        if addr < 0x2000 {
            MappedRead::Chr(addr as usize)
        } else if addr >= 0x8000 {
            MappedRead::PrgRom(
                bank_offset(self.prg_rom_len, 0x8000, self.prg_bank, (addr - 0x8000) as usize),
            )
        } else {
            MappedRead::OpenBus
        }
    }

    /// Writes into 0x8000-0xFFFF latch the PRG bank (low three bits) and
    /// the nametable select (bit 4); CHR RAM takes writes directly.
    fn map_write(&mut self, addr: u16, val: u8) -> (w: MappedWrite)
        ensures
            *final(self) == old(self).spec_write_state(addr, val),
            w == old(self).spec_write_result(addr, val),
    {
        if addr < 0x2000 {
            MappedWrite::Chr(addr as usize, val)
        } else if addr >= 0x8000 {
            self.prg_bank = val as usize % 8;
            self.second_nametable = (val / 16) % 2 == 1;
            MappedWrite::Ignored
        } else {
            MappedWrite::Ignored
        }
    }
}

impl Mapped for Axrom {
    open spec fn mapped_wf(&self) -> bool {
        true
    }

    /// AxROM drives single-screen mirroring from the bank register.
    open spec fn spec_mirroring(&self) -> Option<Mirroring> {
        Some(
            if self.second_nametable {
                Mirroring::SingleScreenB
            } else {
                Mirroring::SingleScreenA
            },
        )
    }

    fn mirroring(&self) -> (mirroring: Option<Mirroring>) {
        if self.second_nametable {
            Some(Mirroring::SingleScreenB)
        } else {
            Some(Mirroring::SingleScreenA)
        }
    }
}

} // verus!
