//! Konami VRC6 (mappers 24 and 26): a 16 KiB PRG window at 0x8000, an
//! 8 KiB PRG window at 0xC000 over the fixed last bank, eight 1 KiB CHR
//! windows, four-way mirroring control, and the shared VRC IRQ counter.
//! Mapper 26 is the same chip with address lines A0 and A1 swapped, so the
//! register index inside each 4-byte group — the CHR banks and the IRQ
//! unit alike — is bit-swapped there. The
//! chip's extra sound channels live on the APU side of the deck and are
//! not part of the address translation.

use vstd::prelude::*;
use crate::common::Clock;
use crate::mapper::vrc_irq::{VrcIrq, VRC_PRESCALER_RELOAD};
use crate::mapper::{
    bank_offset, spec_bank_offset, Mapped, MappedRead, MappedWrite, Mapper, MemMap,
};
use crate::ppu::Mirroring;

verus! {

/// VRC6 banking registers and IRQ unit.
#[derive(Debug, Copy, Clone, PartialEq, Eq, Structural)]
pub struct Vrc6 {
    /// Bytes of PRG ROM: a positive number of 16 KiB pages.
    pub prg_rom_len: usize,
    /// Bytes of CHR ROM: a positive number of 1 KiB pages.
    pub chr_len: usize,
    /// Bytes of PRG RAM at 0x6000, zero when the board has none.
    pub prg_ram_len: usize,
    /// The 16 KiB bank mapped at 0x8000.
    pub prg_16_bank: u8,
    /// The 8 KiB bank mapped at 0xC000.
    pub prg_8_bank: u8,
    /// The 1 KiB CHR bank for 0x0000.
    pub chr_b0: u8,
    /// The 1 KiB CHR bank for 0x0400.
    pub chr_b1: u8,
    /// The 1 KiB CHR bank for 0x0800.
    pub chr_b2: u8,
    /// The 1 KiB CHR bank for 0x0C00.
    pub chr_b3: u8,
    /// The 1 KiB CHR bank for 0x1000.
    pub chr_b4: u8,
    /// The 1 KiB CHR bank for 0x1400.
    pub chr_b5: u8,
    /// The 1 KiB CHR bank for 0x1800.
    pub chr_b6: u8,
    /// The 1 KiB CHR bank for 0x1C00.
    pub chr_b7: u8,
    /// The mirroring the 0xB003 register selects.
    pub mirror_mode: Mirroring,
    /// Whether the PRG RAM answers, from 0xB003 bit 7.
    pub ram_enabled: bool,
    /// The scanline/cycle IRQ unit.
    pub irq: VrcIrq,
    /// Whether address lines A0 and A1 are swapped (mapper 26).
    pub swapped_lines: bool,
}

impl Vrc6 {
    /// The board geometry VRC6 supports.
    pub open spec fn wf(&self) -> bool {
        &&& 0x4000 <= self.prg_rom_len <= 0x1000_0000
        &&& self.prg_rom_len % 0x4000 == 0
        &&& self.prg_rom_len % 0x2000 == 0
        &&& 0 < self.chr_len <= 0x1000_0000
        &&& self.chr_len % 0x400 == 0
        &&& self.prg_ram_len <= 0x2000
        &&& self.irq.wf()
    }

    /// The register index a write address selects inside its 4-byte
    /// group, with A0 and A1 swapped on boards wired that way.
    pub open spec fn spec_reg(&self, addr: u16) -> int {
        if self.swapped_lines {
            (addr as int % 2) * 2 + (addr as int / 2) % 2
        } else {
            addr as int % 4
        }
    }

    /// The 1 KiB CHR bank serving 1 KiB slot `slot` of the pattern space.
    pub open spec fn chr_bank_for_slot(&self, slot: int) -> int {
        if slot == 0 {
            self.chr_b0 as int
        } else if slot == 1 {
            self.chr_b1 as int
        } else if slot == 2 {
            self.chr_b2 as int
        } else if slot == 3 {
            self.chr_b3 as int
        } else if slot == 4 {
            self.chr_b4 as int
        } else if slot == 5 {
            self.chr_b5 as int
        } else if slot == 6 {
            self.chr_b6 as int
        } else {
            self.chr_b7 as int
        }
    }

    /// Where a read lands: the per-slot CHR banks below 0x2000, PRG RAM
    /// at 0x6000, the 16 KiB window at 0x8000, the 8 KiB window at
    /// 0xC000 and the fixed last bank at 0xE000.
    pub open spec fn spec_peek(&self, addr: u16) -> MappedRead {
        if addr < 0x2000 {
            MappedRead::Chr(
                spec_bank_offset(
                    self.chr_len as int,
                    0x400,
                    self.chr_bank_for_slot(addr as int / 0x400),
                    addr as int % 0x400,
                ) as usize,
            )
        } else if 0x6000 <= addr < 0x8000 {
            if self.prg_ram_len > 0 && self.ram_enabled {
                MappedRead::PrgRam(((addr - 0x6000) as usize % self.prg_ram_len) as usize)
            } else {
                MappedRead::OpenBus
            }
        } else if 0x8000 <= addr < 0xC000 {
            MappedRead::PrgRom(
                spec_bank_offset(
                    self.prg_rom_len as int,
                    0x4000,
                    self.prg_16_bank as int,
                    (addr - 0x8000) as int,
                ) as usize,
            )
        } else if 0xC000 <= addr < 0xE000 {
            MappedRead::PrgRom(
                spec_bank_offset(
                    self.prg_rom_len as int,
                    0x2000,
                    self.prg_8_bank as int,
                    (addr - 0xC000) as int,
                ) as usize,
            )
        } else if addr >= 0xE000 {
            MappedRead::PrgRom((self.prg_rom_len - 0x2000 + (addr - 0xE000)) as usize)
        } else {
            MappedRead::OpenBus
        }
    }

    /// The state after a CPU write: the PRG windows at 0x8000-0x8003 and
    /// 0xC000-0xC003, mirroring and RAM enable at 0xB003, the CHR banks at
    /// 0xD000-0xD003 and 0xE000-0xE003, and the IRQ unit's latch, control
    /// and acknowledge in the 0xF000 group. The CHR and IRQ group indices
    /// go through the board's A0/A1 wiring.
    pub open spec fn spec_write_state(&self, addr: u16, val: u8) -> Vrc6 {
        if 0x8000 <= addr <= 0x8003 {
            Vrc6 { prg_16_bank: val, ..*self }
        } else if 0xC000 <= addr <= 0xC003 {
            Vrc6 { prg_8_bank: val, ..*self }
        } else if addr == 0xB003 {
            Vrc6 {
                mirror_mode: (
                if (val as int / 4) % 4 == 0 {
                    Mirroring::Vertical
                } else if (val as int / 4) % 4 == 1 {
                    Mirroring::Horizontal
                } else if (val as int / 4) % 4 == 2 {
                    Mirroring::SingleScreenA
                } else {
                    Mirroring::SingleScreenB
                }),
                ram_enabled: val / 128 == 1,
                ..*self
            }
        } else if 0xD000 <= addr <= 0xD003 {
            let r = self.spec_reg(addr);
            if r == 0 {
                Vrc6 { chr_b0: val, ..*self }
            } else if r == 1 {
                Vrc6 { chr_b1: val, ..*self }
            } else if r == 2 {
                Vrc6 { chr_b2: val, ..*self }
            } else {
                Vrc6 { chr_b3: val, ..*self }
            }
        } else if 0xE000 <= addr <= 0xE003 {
            let r = self.spec_reg(addr);
            if r == 0 {
                Vrc6 { chr_b4: val, ..*self }
            } else if r == 1 {
                Vrc6 { chr_b5: val, ..*self }
            } else if r == 2 {
                Vrc6 { chr_b6: val, ..*self }
            } else {
                Vrc6 { chr_b7: val, ..*self }
            }
        } else if 0xF000 <= addr <= 0xF003 {
            let r = self.spec_reg(addr);
            if r == 0 {
                Vrc6 { irq: (VrcIrq { latch: val, ..self.irq }), ..*self }
            } else if r == 1 {
                Vrc6 { irq: self.irq.spec_control_write(val), ..*self }
            } else if r == 2 {
                Vrc6 { irq: self.irq.spec_acknowledged(), ..*self }
            } else {
                *self
            }
        } else {
            *self
        }
    }

    /// What a CPU write hands back: enabled PRG RAM takes data writes, the
    /// register space and the CHR ROM swallow everything else.
    pub open spec fn spec_write_result(&self, addr: u16, val: u8) -> MappedWrite {
        if 0x6000 <= addr < 0x8000 && self.prg_ram_len > 0 && self.ram_enabled {
            MappedWrite::PrgRam(((addr - 0x6000) as usize % self.prg_ram_len) as usize, val)
        } else {
            MappedWrite::Ignored
        }
    }

    /// Wire up a VRC6 board; `swapped_lines` picks the mapper 26 wiring.
    pub fn load(prg_rom_len: usize, chr_len: usize, prg_ram_len: usize, swapped_lines: bool) -> (m:
        Mapper)
        requires
            0x4000 <= prg_rom_len <= 0x1000_0000,
            prg_rom_len % 0x4000 == 0,
            prg_rom_len % 0x2000 == 0,
            0 < chr_len <= 0x1000_0000,
            chr_len % 0x400 == 0,
            prg_ram_len <= 0x2000,
        ensures
            m == Mapper::Vrc6(
                Vrc6 {
                    prg_rom_len,
                    chr_len,
                    prg_ram_len,
                    prg_16_bank: 0u8,
                    prg_8_bank: 0u8,
                    chr_b0: 0u8,
                    chr_b1: 0u8,
                    chr_b2: 0u8,
                    chr_b3: 0u8,
                    chr_b4: 0u8,
                    chr_b5: 0u8,
                    chr_b6: 0u8,
                    chr_b7: 0u8,
                    mirror_mode: Mirroring::Vertical,
                    ram_enabled: false,
                    irq: (VrcIrq {
                        latch: 0u8,
                        counter: 0u8,
                        enabled: false,
                        enabled_after_ack: false,
                        cycle_mode: false,
                        pending: false,
                        prescaler: VRC_PRESCALER_RELOAD,
                    }),
                    swapped_lines,
                },
            ),
            m.mem_wf(),
            m.mapped_wf(),
    {
        Mapper::Vrc6(
            Vrc6 {
                prg_rom_len,
                chr_len,
                prg_ram_len,
                prg_16_bank: 0,
                prg_8_bank: 0,
                chr_b0: 0,
                chr_b1: 0,
                chr_b2: 0,
                chr_b3: 0,
                chr_b4: 0,
                chr_b5: 0,
                chr_b6: 0,
                chr_b7: 0,
                mirror_mode: Mirroring::Vertical,
                ram_enabled: false,
                irq: VrcIrq::new(),
                swapped_lines,
            },
        )
    }
}

impl MemMap for Vrc6 {
    open spec fn mem_wf(&self) -> bool {
        self.wf()
    }

    open spec fn chr_capacity(&self) -> int {
        self.chr_len as int
    }

    open spec fn prg_rom_capacity(&self) -> int {
        self.prg_rom_len as int
    }

    open spec fn prg_ram_capacity(&self) -> int {
        self.prg_ram_len as int
    }

    /// A read has no side effects on this board.
    fn map_read(&mut self, addr: u16) -> (r: MappedRead)
        ensures
            *final(self) == *old(self),
            r == old(self).spec_peek(addr),
    {
        self.map_peek(addr)
    }

    fn map_peek(&self, addr: u16) -> (r: MappedRead)
        ensures
            r == self.spec_peek(addr),
    {
        if addr < 0x2000 {
            let slot = addr / 0x400;
            let bank: usize = if slot == 0 {
                self.chr_b0 as usize
            } else if slot == 1 {
                self.chr_b1 as usize
            } else if slot == 2 {
                self.chr_b2 as usize
            } else if slot == 3 {
                self.chr_b3 as usize
            } else if slot == 4 {
                self.chr_b4 as usize
            } else if slot == 5 {
                self.chr_b5 as usize
            } else if slot == 6 {
                self.chr_b6 as usize
            } else {
                self.chr_b7 as usize
            };
            MappedRead::Chr(bank_offset(self.chr_len, 0x400, bank, (addr % 0x400) as usize))
        } else if 0x6000 <= addr && addr < 0x8000 {
            if self.prg_ram_len > 0 && self.ram_enabled {
                MappedRead::PrgRam((addr - 0x6000) as usize % self.prg_ram_len)
            } else {
                MappedRead::OpenBus
            }
        } else if 0x8000 <= addr && addr < 0xC000 {
            MappedRead::PrgRom(
                bank_offset(
                    self.prg_rom_len,
                    0x4000,
                    self.prg_16_bank as usize,
                    (addr - 0x8000) as usize,
                ),
            )
        } else if 0xC000 <= addr && addr < 0xE000 {
            MappedRead::PrgRom(
                bank_offset(
                    self.prg_rom_len,
                    0x2000,
                    self.prg_8_bank as usize,
                    (addr - 0xC000) as usize,
                ),
            )
        } else if addr >= 0xE000 {
            MappedRead::PrgRom(self.prg_rom_len - 0x2000 + (addr - 0xE000) as usize)
        } else {
            MappedRead::OpenBus
        }
    }

    /// Register writes: the PRG windows at 0x8000-0x8003 and
    /// 0xC000-0xC003, mirroring and RAM enable at 0xB003, the CHR banks at
    /// 0xD000-0xD003 and 0xE000-0xE003, and the IRQ unit's latch, control
    /// and acknowledge in the 0xF000 group — the CHR and IRQ group indices
    /// both go through the board's A0/A1 wiring. The sound registers in
    /// 0x9000-0xB002 are the APU's business and are ignored here. PRG RAM
    /// takes data writes.
    fn map_write(&mut self, addr: u16, val: u8) -> (w: MappedWrite)
        ensures
            *final(self) == old(self).spec_write_state(addr, val),
            w == old(self).spec_write_result(addr, val),
    {
        if 0x6000 <= addr && addr < 0x8000 {
            if self.prg_ram_len > 0 && self.ram_enabled {
                MappedWrite::PrgRam((addr - 0x6000) as usize % self.prg_ram_len, val)
            } else {
                MappedWrite::Ignored
            }
        } else if 0x8000 <= addr && addr <= 0x8003 {
            self.prg_16_bank = val;
            MappedWrite::Ignored
        } else if 0xC000 <= addr && addr <= 0xC003 {
            self.prg_8_bank = val;
            MappedWrite::Ignored
        } else if addr == 0xB003 {
            let mode = (val / 4) % 4;
            self.mirror_mode = if mode == 0 {
                Mirroring::Vertical
            } else if mode == 1 {
                Mirroring::Horizontal
            } else if mode == 2 {
                Mirroring::SingleScreenA
            } else {
                Mirroring::SingleScreenB
            };
            self.ram_enabled = val / 128 == 1;
            MappedWrite::Ignored
        } else if 0xD000 <= addr && addr <= 0xD003 {
            let r = self.reg(addr);
            if r == 0 {
                self.chr_b0 = val;
            } else if r == 1 {
                self.chr_b1 = val;
            } else if r == 2 {
                self.chr_b2 = val;
            } else {
                self.chr_b3 = val;
            }
            MappedWrite::Ignored
        } else if 0xE000 <= addr && addr <= 0xE003 {
            let r = self.reg(addr);
            if r == 0 {
                self.chr_b4 = val;
            } else if r == 1 {
                self.chr_b5 = val;
            } else if r == 2 {
                self.chr_b6 = val;
            } else {
                self.chr_b7 = val;
            }
            MappedWrite::Ignored
        } else if 0xF000 <= addr && addr <= 0xF003 {
            let r = self.reg(addr);
            if r == 0 {
                self.irq.write_latch(val);
            } else if r == 1 {
                self.irq.write_control(val);
            } else if r == 2 {
                self.irq.acknowledge();
            }
            MappedWrite::Ignored
        } else {
            MappedWrite::Ignored
        }
    }
}

impl Vrc6 {
    /// Resolve the register index inside a 4-byte group.
    fn reg(&self, addr: u16) -> (r: u16)
        ensures
            r == self.spec_reg(addr),
            r < 4,
    {
        if self.swapped_lines {
            (addr % 2) * 2 + (addr / 2) % 2
        } else {
            addr % 4
        }
    }
}

impl Mapped for Vrc6 {
    open spec fn mapped_wf(&self) -> bool {
        self.irq.wf()
    }

    /// The IRQ line follows the shared VRC counter.
    fn irq_pending(&self) -> (pending: bool)
        ensures
            pending == self.irq.pending,
    {
        self.irq.pending
    }

    /// VRC6 drives the mirroring from its 0xB003 register.
    open spec fn spec_mirroring(&self) -> Option<Mirroring> {
        Some(self.mirror_mode)
    }

    fn mirroring(&self) -> (mirroring: Option<Mirroring>) {
        Some(self.mirror_mode)
    }
}

impl Clock for Vrc6 {
    /// The deck clocks the mapper once per CPU cycle to drive the IRQ
    /// counter.
    fn clock(&mut self) -> (cycles: usize)
        ensures
            *final(self) == (Vrc6 { irq: old(self).irq.spec_clock(), ..*old(self) }),
            cycles == if old(self).irq.enabled {
                1int
            } else {
                0int
            },
    {
        self.irq.clock()
    }
}

} // verus!
