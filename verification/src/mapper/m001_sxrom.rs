//! MMC1 / SxROM (mapper 1): banking registers loaded serially, one bit per
//! write, five writes per value. The control register picks the mirroring,
//! the PRG banking mode (32 KiB, or 16 KiB with either half fixed) and the
//! CHR banking mode (8 KiB or two 4 KiB windows); further registers pick
//! the CHR banks and the PRG bank with its RAM enable bit.

use vstd::prelude::*;
use crate::mapper::{
    bank_offset, spec_bank_offset, Mapped, MappedRead, MappedWrite, Mapper, MemMap,
};
use crate::ppu::Mirroring;

verus! {

/// Which MMC1 die revision is in the cartridge. The revisions differ in
/// how the PRG RAM enable bit is honoured: the first revision has no such
/// bit and its RAM is always usable.
#[derive(Debug, Copy, Clone, PartialEq, Eq, Hash, Structural)]
pub enum Mmc1Revision {
    A,
    B,
    C,
}

/// The MMC1 register file and its serial loading port.
#[derive(Debug, Copy, Clone, PartialEq, Eq, Structural)]
pub struct Sxrom {
    /// Bytes of PRG ROM: a positive number of 32 KiB pages.
    pub prg_rom_len: usize,
    /// Bytes of CHR ROM or RAM: a positive number of 8 KiB pages.
    pub chr_len: usize,
    /// Bytes of PRG RAM at 0x6000, zero when the board has none.
    pub prg_ram_len: usize,
    /// The five-bit shift register being filled, low bits first.
    pub shift: u8,
    /// How many bits of the shift register are filled.
    pub shift_count: u8,
    /// Control register: mirroring (bits 0-1), PRG mode (2-3), CHR mode (4).
    pub control: u8,
    /// CHR bank for 0x0000 (4 KiB mode) or, halved, for all 8 KiB.
    pub chr0: u8,
    /// CHR bank for 0x1000 in 4 KiB mode.
    pub chr1: u8,
    /// PRG bank (bits 0-3) and PRG RAM disable (bit 4).
    pub prg: u8,
    /// The die revision.
    pub revision: Mmc1Revision,
}

impl Sxrom {
    /// The board geometry and register ranges SxROM supports.
    pub open spec fn wf(&self) -> bool {
        &&& 0x8000 <= self.prg_rom_len <= 0x1000_0000
        &&& self.prg_rom_len % 0x8000 == 0
        &&& 0x2000 <= self.chr_len <= 0x1000_0000
        &&& self.chr_len % 0x2000 == 0
        &&& self.prg_ram_len <= 0x8000
        &&& self.shift < 0x20
        &&& self.shift_count < 5
        &&& self.control < 0x20
        &&& self.chr0 < 0x20
        &&& self.chr1 < 0x20
        &&& self.prg < 0x20
    }

    /// PRG banking mode from control bits 2-3: 0 and 1 switch 32 KiB at
    /// once, 2 fixes the first bank at 0x8000, 3 fixes the last bank at
    /// 0xC000.
    pub open spec fn prg_mode(&self) -> int {
        (self.control as int / 4) % 4
    }

    /// Whether CHR switches in two 4 KiB windows instead of one 8 KiB.
    pub open spec fn chr_4k_mode(&self) -> bool {
        self.control / 16 == 1
    }

    /// Whether the PRG RAM answers: the first revision has no disable
    /// bit, later ones disable RAM when bit 4 of the PRG register is set.
    pub open spec fn prg_ram_enabled(&self) -> bool {
        self.revision == Mmc1Revision::A || self.prg / 16 == 0
    }

    /// The CHR offset a pattern-table access at `addr` resolves to.
    pub open spec fn spec_chr_offset(&self, addr: u16) -> int {
        if self.chr_4k_mode() {
            if addr < 0x1000 {
                spec_bank_offset(self.chr_len as int, 0x1000, self.chr0 as int, addr as int)
            } else {
                spec_bank_offset(
                    self.chr_len as int,
                    0x1000,
                    self.chr1 as int,
                    (addr - 0x1000) as int,
                )
            }
        } else {
            spec_bank_offset(self.chr_len as int, 0x2000, self.chr0 as int / 2, addr as int)
        }
    }

    /// The PRG ROM offset a fetch at `addr` (0x8000 and up) resolves to,
    /// by the current PRG mode.
    pub open spec fn spec_prg_offset(&self, addr: u16) -> int {
        let bank = (self.prg % 16) as int;
        if self.prg_mode() <= 1 {
            spec_bank_offset(self.prg_rom_len as int, 0x8000, bank / 2, (addr - 0x8000) as int)
        } else if self.prg_mode() == 2 {
            if addr < 0xC000 {
                (addr - 0x8000) as int % (self.prg_rom_len as int)
            } else {
                spec_bank_offset(self.prg_rom_len as int, 0x4000, bank, (addr - 0xC000) as int)
            }
        } else {
            if addr < 0xC000 {
                spec_bank_offset(self.prg_rom_len as int, 0x4000, bank, (addr - 0x8000) as int)
            } else {
                self.prg_rom_len - 0x4000 + (addr - 0xC000)
            }
        }
    }

    /// Where a read lands.
    pub open spec fn spec_peek(&self, addr: u16) -> MappedRead {
        if addr < 0x2000 {
            MappedRead::Chr(self.spec_chr_offset(addr) as usize)
        } else if 0x6000 <= addr < 0x8000 {
            if self.prg_ram_len > 0 && self.prg_ram_enabled() {
                MappedRead::PrgRam(((addr - 0x6000) as usize % self.prg_ram_len) as usize)
            } else {
                MappedRead::OpenBus
            }
        } else if addr >= 0x8000 {
            MappedRead::PrgRom(self.spec_prg_offset(addr) as usize)
        } else {
            MappedRead::OpenBus
        }
    }

    /// The state after a CPU write at 0x8000 and up, the serial port: a
    /// value with bit 7 set resets the shift register and re-fixes the
    /// last PRG bank; otherwise bit 0 shifts in, and the fifth bit commits
    /// the assembled value to the register the address selects.
    pub open spec fn spec_write_state(&self, addr: u16, val: u8) -> Sxrom {
        if addr < 0x8000 {
            *self
        } else if val >= 0x80 {
            Sxrom {
                shift: 0u8,
                shift_count: 0u8,
                control: (self.control % 4 + 12 + (self.control / 16) * 16) as u8,
                ..*self
            }
        } else {
            let committed = (self.shift / 2 + (val % 2) * 16) as u8;
            if self.shift_count < 4 {
                Sxrom { shift: committed, shift_count: (self.shift_count + 1) as u8, ..*self }
            } else if addr < 0xA000 {
                Sxrom { control: committed, shift: 0u8, shift_count: 0u8, ..*self }
            } else if addr < 0xC000 {
                Sxrom { chr0: committed, shift: 0u8, shift_count: 0u8, ..*self }
            } else if addr < 0xE000 {
                Sxrom { chr1: committed, shift: 0u8, shift_count: 0u8, ..*self }
            } else {
                Sxrom { prg: committed, shift: 0u8, shift_count: 0u8, ..*self }
            }
        }
    }

    /// What a CPU write hands back: CHR RAM and enabled PRG RAM take data
    /// writes at the resolved offsets, serial-port and dead regions are
    /// swallowed.
    pub open spec fn spec_write_result(&self, addr: u16, val: u8) -> MappedWrite {
        if addr < 0x2000 {
            MappedWrite::Chr(self.spec_chr_offset(addr) as usize, val)
        } else if 0x6000 <= addr < 0x8000 && self.prg_ram_len > 0 && self.prg_ram_enabled() {
            MappedWrite::PrgRam(((addr - 0x6000) as usize % self.prg_ram_len) as usize, val)
        } else {
            MappedWrite::Ignored
        }
    }

    /// Wire up an SxROM board. The control register powers up with the
    /// last PRG bank fixed at 0xC000.
    pub fn load(prg_rom_len: usize, chr_len: usize, prg_ram_len: usize, revision: Mmc1Revision) -> (m:
        Mapper)
        requires
            0x8000 <= prg_rom_len <= 0x1000_0000,
            prg_rom_len % 0x8000 == 0,
            0x2000 <= chr_len <= 0x1000_0000,
            chr_len % 0x2000 == 0,
            prg_ram_len <= 0x8000,
        ensures
            m == Mapper::Sxrom(
                Sxrom {
                    prg_rom_len,
                    chr_len,
                    prg_ram_len,
                    shift: 0u8,
                    shift_count: 0u8,
                    control: 0x0Cu8,
                    chr0: 0u8,
                    chr1: 0u8,
                    prg: 0u8,
                    revision,
                },
            ),
            m.mem_wf(),
            m.mapped_wf(),
    {
        Mapper::Sxrom(
            Sxrom {
                prg_rom_len,
                chr_len,
                prg_ram_len,
                shift: 0,
                shift_count: 0,
                control: 0x0C,
                chr0: 0,
                chr1: 0,
                prg: 0,
                revision,
            },
        )
    }

    /// Resolve a CHR access.
    fn chr_offset(&self, addr: u16) -> (offset: usize)
        requires
            self.wf(),
            addr < 0x2000,
        ensures
            offset == self.spec_chr_offset(addr),
            offset < self.chr_len,
    {
        if self.control / 16 == 1 {
            if addr < 0x1000 {
                bank_offset(self.chr_len, 0x1000, self.chr0 as usize, addr as usize)
            } else {
                bank_offset(self.chr_len, 0x1000, self.chr1 as usize, (addr - 0x1000) as usize)
            }
        } else {
            bank_offset(self.chr_len, 0x2000, self.chr0 as usize / 2, addr as usize)
        }
    }
}

impl MemMap for Sxrom {
    open spec fn mem_wf(&self) -> bool {
        self.wf()
    }

    open spec fn chr_capacity(&self) -> int {
        self.chr_len as int
    }

    open spec fn prg_rom_capacity(&self) -> int {
        self.prg_rom_len as int
    }

    open spec fn prg_ram_capacity(&self) -> int {
        self.prg_ram_len as int
    }

    /// A read has no side effects on this board.
    fn map_read(&mut self, addr: u16) -> (r: MappedRead)
        ensures
            *final(self) == *old(self),
            r == old(self).spec_peek(addr),
    {
        self.map_peek(addr)
    }

    fn map_peek(&self, addr: u16) -> (r: MappedRead)
        ensures
            r == self.spec_peek(addr),
    {
        if addr < 0x2000 {
            MappedRead::Chr(self.chr_offset(addr))
        } else if 0x6000 <= addr && addr < 0x8000 {
            let enabled = matches!(self.revision, Mmc1Revision::A) || self.prg / 16 == 0;
            if self.prg_ram_len > 0 && enabled {
                MappedRead::PrgRam((addr - 0x6000) as usize % self.prg_ram_len)
            } else {
                MappedRead::OpenBus
            }
        } else if addr >= 0x8000 {
            let bank = (self.prg % 16) as usize;
            let mode = (self.control / 4) % 4;
            if mode <= 1 {
                MappedRead::PrgRom(
                    bank_offset(self.prg_rom_len, 0x8000, bank / 2, (addr - 0x8000) as usize),
                )
            } else if mode == 2 {
                if addr < 0xC000 {
                    MappedRead::PrgRom((addr - 0x8000) as usize % self.prg_rom_len)
                } else {
                    MappedRead::PrgRom(
                        bank_offset(self.prg_rom_len, 0x4000, bank, (addr - 0xC000) as usize),
                    )
                }
            } else {
                if addr < 0xC000 {
                    MappedRead::PrgRom(
                        bank_offset(self.prg_rom_len, 0x4000, bank, (addr - 0x8000) as usize),
                    )
                } else {
                    MappedRead::PrgRom(self.prg_rom_len - 0x4000 + (addr - 0xC000) as usize)
                }
            }
        } else {
            MappedRead::OpenBus
        }
    }

    /// CHR RAM and PRG RAM take writes at the resolved offsets; writes at
    /// 0x8000 and up feed the serial port. A value with bit 7 set resets
    /// the shift register and re-fixes the last PRG bank; otherwise bit 0
    /// shifts in, and the fifth bit commits the value to the register the
    /// address selects: control below 0xA000, then the two CHR banks, the
    /// PRG bank from 0xE000 up.
    fn map_write(&mut self, addr: u16, val: u8) -> (w: MappedWrite)
        ensures
            *final(self) == old(self).spec_write_state(addr, val),
            w == old(self).spec_write_result(addr, val),
    {
        if addr < 0x2000 {
            let offset = self.chr_offset(addr);
            MappedWrite::Chr(offset, val)
        } else if 0x6000 <= addr && addr < 0x8000 {
            let enabled = matches!(self.revision, Mmc1Revision::A) || self.prg / 16 == 0;
            if self.prg_ram_len > 0 && enabled {
                MappedWrite::PrgRam((addr - 0x6000) as usize % self.prg_ram_len, val)
            } else {
                MappedWrite::Ignored
            }
        } else if addr >= 0x8000 {
            if val >= 0x80 {
                self.shift = 0;
                self.shift_count = 0;
                self.control = self.control % 4 + 12 + (self.control / 16) * 16;
            } else {
                let filled = self.shift / 2 + (val % 2) * 16;
                if self.shift_count < 4 {
                    self.shift = filled;
                    self.shift_count = self.shift_count + 1;
                } else {
                    if addr < 0xA000 {
                        self.control = filled;
                    } else if addr < 0xC000 {
                        self.chr0 = filled;
                    } else if addr < 0xE000 {
                        self.chr1 = filled;
                    } else {
                        self.prg = filled;
                    }
                    self.shift = 0;
                    self.shift_count = 0;
                }
            }
            MappedWrite::Ignored
        } else {
            MappedWrite::Ignored
        }
    }
}

impl Mapped for Sxrom {
    open spec fn mapped_wf(&self) -> bool {
        true
    }

    /// MMC1 always drives the mirroring, from control bits 0-1.
    open spec fn spec_mirroring(&self) -> Option<Mirroring> {
        Some(
            if self.control % 4 == 0 {
                Mirroring::SingleScreenA
            } else if self.control % 4 == 1 {
                Mirroring::SingleScreenB
            } else if self.control % 4 == 2 {
                Mirroring::Vertical
            } else {
                Mirroring::Horizontal
            },
        )
    }

    fn mirroring(&self) -> (mirroring: Option<Mirroring>) {
        match self.control % 4 {
            0 => Some(Mirroring::SingleScreenA),
            1 => Some(Mirroring::SingleScreenB),
            2 => Some(Mirroring::Vertical),
            _ => Some(Mirroring::Horizontal),
        }
    }
}

} // verus!
