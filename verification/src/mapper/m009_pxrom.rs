//! MMC2 / PxROM (mapper 9): an 8 KiB switchable PRG bank at 0x8000 with
//! the last three banks fixed, and two 4 KiB CHR windows that each swap
//! between two registered banks when the PPU fetches the magic tiles 0xFD
//! or 0xFE — the latch trick behind Punch-Out!!'s large sprites.

use vstd::prelude::*;
use crate::mapper::{
    bank_offset, spec_bank_offset, Mapped, MappedRead, MappedWrite, Mapper, MemMap,
};
use crate::ppu::Mirroring;

verus! {

/// Latch-driven CHR banking over a mostly fixed PRG map.
#[derive(Debug, Copy, Clone, PartialEq, Eq, Structural)]
pub struct Pxrom {
    /// Bytes of PRG ROM: at least four 8 KiB pages.
    pub prg_rom_len: usize,
    /// Bytes of CHR ROM: a positive number of 4 KiB pages.
    pub chr_len: usize,
    /// The 8 KiB bank mapped at 0x8000.
    pub prg_bank: usize,
    /// CHR bank for 0x0000 while its latch holds 0xFD.
    pub chr_fd_0: u8,
    /// CHR bank for 0x0000 while its latch holds 0xFE.
    pub chr_fe_0: u8,
    /// CHR bank for 0x1000 while its latch holds 0xFD.
    pub chr_fd_1: u8,
    /// CHR bank for 0x1000 while its latch holds 0xFE.
    pub chr_fe_1: u8,
    /// Whether the 0x0000 window's latch holds 0xFE.
    pub latch_0_fe: bool,
    /// Whether the 0x1000 window's latch holds 0xFE.
    pub latch_1_fe: bool,
    /// Whether the mirroring register selects horizontal arrangement.
    pub mirror_horizontal: bool,
}

impl Pxrom {
    /// The board geometry PxROM supports.
    pub open spec fn wf(&self) -> bool {
        &&& 0x8000 <= self.prg_rom_len <= 0x1000_0000
        &&& self.prg_rom_len % 0x2000 == 0
        &&& 0 < self.chr_len <= 0x1000_0000
        &&& self.chr_len % 0x1000 == 0
        &&& self.prg_bank < 0x10
    }

    /// The CHR offset a pattern fetch resolves to, through the window's
    /// latch.
    pub open spec fn spec_chr_offset(&self, addr: u16) -> int {
        if addr < 0x1000 {
            let bank = if self.latch_0_fe {
                self.chr_fe_0
            } else {
                self.chr_fd_0
            };
            spec_bank_offset(self.chr_len as int, 0x1000, bank as int, addr as int)
        } else {
            let bank = if self.latch_1_fe {
                self.chr_fe_1
            } else {
                self.chr_fd_1
            };
            spec_bank_offset(self.chr_len as int, 0x1000, bank as int, (addr - 0x1000) as int)
        }
    }

    /// Where a read lands: latched CHR below 0x2000, the switchable bank
    /// in 0x8000-0x9FFF, the last three fixed banks above.
    pub open spec fn spec_peek(&self, addr: u16) -> MappedRead {
        if addr < 0x2000 {
            MappedRead::Chr(self.spec_chr_offset(addr) as usize)
        } else if 0x8000 <= addr < 0xA000 {
            MappedRead::PrgRom(
                spec_bank_offset(
                    self.prg_rom_len as int,
                    0x2000,
                    self.prg_bank as int,
                    (addr - 0x8000) as int,
                ) as usize,
            )
        } else if addr >= 0xA000 {
            MappedRead::PrgRom((self.prg_rom_len - 0x6000 + (addr - 0xA000)) as usize)
        } else {
            MappedRead::OpenBus
        }
    }

    /// The state after a CPU write: the 0xA000-0xF000 ranges latch the
    /// PRG bank, the four CHR banks and the mirroring; nothing else moves.
    pub open spec fn spec_write_state(&self, addr: u16, val: u8) -> Pxrom {
        if 0xA000 <= addr < 0xB000 {
            Pxrom { prg_bank: val as usize % 0x10, ..*self }
        } else if 0xB000 <= addr < 0xC000 {
            Pxrom { chr_fd_0: val % 0x20, ..*self }
        } else if 0xC000 <= addr < 0xD000 {
            Pxrom { chr_fe_0: val % 0x20, ..*self }
        } else if 0xD000 <= addr < 0xE000 {
            Pxrom { chr_fd_1: val % 0x20, ..*self }
        } else if 0xE000 <= addr < 0xF000 {
            Pxrom { chr_fe_1: val % 0x20, ..*self }
        } else if addr >= 0xF000 {
            Pxrom { mirror_horizontal: val % 2 == 1, ..*self }
        } else {
            *self
        }
    }

    /// What a CPU write hands back: the CHR is ROM and there is no PRG
    /// RAM, so every write is swallowed.
    pub open spec fn spec_write_result(&self, addr: u16, val: u8) -> MappedWrite {
        MappedWrite::Ignored
    }

    /// One PPU pattern fetch observation: the magic tile addresses flip
    /// the two CHR latches; everything else passes unnoticed.
    pub open spec fn spec_ppu_read(&self, addr: u16) -> Pxrom {
        if addr == 0x0FD8 {
            Pxrom { latch_0_fe: false, ..*self }
        } else if addr == 0x0FE8 {
            Pxrom { latch_0_fe: true, ..*self }
        } else if 0x1FD8 <= addr <= 0x1FDF {
            Pxrom { latch_1_fe: false, ..*self }
        } else if 0x1FE8 <= addr <= 0x1FEF {
            Pxrom { latch_1_fe: true, ..*self }
        } else {
            *self
        }
    }

    /// Wire up a PxROM board.
    pub fn load(prg_rom_len: usize, chr_len: usize) -> (m: Mapper)
        requires
            0x8000 <= prg_rom_len <= 0x1000_0000,
            prg_rom_len % 0x2000 == 0,
            0 < chr_len <= 0x1000_0000,
            chr_len % 0x1000 == 0,
        ensures
            m == Mapper::Pxrom(
                Pxrom {
                    prg_rom_len,
                    chr_len,
                    prg_bank: 0usize,
                    chr_fd_0: 0u8,
                    chr_fe_0: 0u8,
                    chr_fd_1: 0u8,
                    chr_fe_1: 0u8,
                    latch_0_fe: false,
                    latch_1_fe: false,
                    mirror_horizontal: false,
                },
            ),
            m.mem_wf(),
            m.mapped_wf(),
    {
        Mapper::Pxrom(
            Pxrom {
                prg_rom_len,
                chr_len,
                prg_bank: 0,
                chr_fd_0: 0,
                chr_fe_0: 0,
                chr_fd_1: 0,
                chr_fe_1: 0,
                latch_0_fe: false,
                latch_1_fe: false,
                mirror_horizontal: false,
            },
        )
    }
}

impl MemMap for Pxrom {
    open spec fn mem_wf(&self) -> bool {
        self.wf()
    }

    open spec fn chr_capacity(&self) -> int {
        self.chr_len as int
    }

    open spec fn prg_rom_capacity(&self) -> int {
        self.prg_rom_len as int
    }

    open spec fn prg_ram_capacity(&self) -> int {
        0
    }

    /// A read has no side effects on this board.
    fn map_read(&mut self, addr: u16) -> (r: MappedRead)
        ensures
            *final(self) == *old(self),
            r == old(self).spec_peek(addr),
    {
        self.map_peek(addr)
    }

    fn map_peek(&self, addr: u16) -> (r: MappedRead)
        ensures
            r == self.spec_peek(addr),
    {
        if addr < 0x1000 {
            let bank = if self.latch_0_fe {
                self.chr_fe_0
            } else {
                self.chr_fd_0
            };
            MappedRead::Chr(bank_offset(self.chr_len, 0x1000, bank as usize, addr as usize))
        } else if addr < 0x2000 {
            let bank = if self.latch_1_fe {
                self.chr_fe_1
            } else {
                self.chr_fd_1
            };
            MappedRead::Chr(
                bank_offset(self.chr_len, 0x1000, bank as usize, (addr - 0x1000) as usize),
            )
        } else if 0x8000 <= addr && addr < 0xA000 {
            MappedRead::PrgRom(
                bank_offset(self.prg_rom_len, 0x2000, self.prg_bank, (addr - 0x8000) as usize),
            )
        } else if addr >= 0xA000 {
            MappedRead::PrgRom(self.prg_rom_len - 0x6000 + (addr - 0xA000) as usize)
        } else {
            MappedRead::OpenBus
        }
    }

    /// Register writes: 0xA000 picks the PRG bank, 0xB000-0xE000 the four
    /// CHR banks, 0xF000 the mirroring. The CHR is ROM, so no write ever
    /// reaches a backing store.
    fn map_write(&mut self, addr: u16, val: u8) -> (w: MappedWrite)
        ensures
            *final(self) == old(self).spec_write_state(addr, val),
            w == old(self).spec_write_result(addr, val),
    {
        if 0xA000 <= addr && addr < 0xB000 {
            self.prg_bank = val as usize % 0x10;
        } else if 0xB000 <= addr && addr < 0xC000 {
            self.chr_fd_0 = val % 0x20;
        } else if 0xC000 <= addr && addr < 0xD000 {
            self.chr_fe_0 = val % 0x20;
        } else if 0xD000 <= addr && addr < 0xE000 {
            self.chr_fd_1 = val % 0x20;
        } else if 0xE000 <= addr && addr < 0xF000 {
            self.chr_fe_1 = val % 0x20;
        } else if addr >= 0xF000 {
            self.mirror_horizontal = val % 2 == 1;
        }
        MappedWrite::Ignored
    }
}

impl Mapped for Pxrom {
    open spec fn mapped_wf(&self) -> bool {
        true
    }

    /// MMC2 drives the mirroring from its 0xF000 register.
    open spec fn spec_mirroring(&self) -> Option<Mirroring> {
        Some(
            if self.mirror_horizontal {
                Mirroring::Horizontal
            } else {
                Mirroring::Vertical
            },
        )
    }

    fn mirroring(&self) -> (mirroring: Option<Mirroring>) {
        if self.mirror_horizontal {
            Some(Mirroring::Horizontal)
        } else {
            Some(Mirroring::Vertical)
        }
    }

    /// The CHR latches watch pattern fetches: tile 0xFD selects the FD
    /// bank of its window, tile 0xFE the FE bank. The low window triggers
    /// on single addresses, the high window on eight-address ranges.
    fn ppu_read(&mut self, addr: u16)
        ensures
            *final(self) == old(self).spec_ppu_read(addr),
    {
        if addr == 0x0FD8 {
            self.latch_0_fe = false;
        } else if addr == 0x0FE8 {
            self.latch_0_fe = true;
        } else if 0x1FD8 <= addr && addr <= 0x1FDF {
            self.latch_1_fe = false;
        } else if 0x1FE8 <= addr && addr <= 0x1FEF {
            self.latch_1_fe = true;
        }
    }
}

} // verus!
