//! MMC3 / TxROM (mapper 4): 8 KiB PRG windows, 2 KiB and 1 KiB CHR
//! windows, mirroring control, and the scanline IRQ counter clocked by
//! rising edges of PPU address line 12 — the line that flips when the PPU
//! moves between the two pattern tables once per scanline during
//! rendering. An edge only counts after the line has been seen low a few
//! times in a row, standing in for the dead time the real chip's filter
//! imposes.

use vstd::prelude::*;
use crate::mapper::{
    bank_offset, spec_bank_offset, Mapped, MappedRead, MappedWrite, Mapper, MemMap,
};
use crate::ppu::Mirroring;

verus! {

/// Which MMC3 die revision is in the cartridge. The first revision raises
/// an IRQ only when the counter is decremented to zero; the later ones
/// also raise it when the counter reloads to zero, so a zero latch fires
/// on every filtered edge. The revisions' edge filters also differ: the
/// first demands a slightly longer rest of address line 12.
#[derive(Debug, Copy, Clone, PartialEq, Eq, Hash, Structural)]
pub enum Mmc3Revision {
    A,
    BC,
}

/// The MMC3 register file: bank select, eight bank registers, mirroring
/// and RAM protection, and the scanline IRQ unit.
#[derive(Debug, Copy, Clone, PartialEq, Eq, Structural)]
pub struct Txrom {
    /// Bytes of PRG ROM: at least two 8 KiB pages.
    pub prg_rom_len: usize,
    /// Bytes of CHR ROM or RAM: a positive number of 8 KiB pages.
    pub chr_len: usize,
    /// Bytes of PRG RAM at 0x6000, zero when the board has none.
    pub prg_ram_len: usize,
    /// Bank select: register index in bits 0-2, PRG mode in bit 6, CHR
    /// inversion in bit 7.
    pub bank_select: u8,
    /// 2 KiB CHR bank (in 1 KiB units, low bit ignored) for the first
    /// window.
    pub chr_r0: u8,
    /// 2 KiB CHR bank for the second window.
    pub chr_r1: u8,
    /// 1 KiB CHR bank for the third window.
    pub chr_r2: u8,
    /// 1 KiB CHR bank for the fourth window.
    pub chr_r3: u8,
    /// 1 KiB CHR bank for the fifth window.
    pub chr_r4: u8,
    /// 1 KiB CHR bank for the sixth window.
    pub chr_r5: u8,
    /// Switchable 8 KiB PRG bank.
    pub prg_r6: u8,
    /// Second switchable 8 KiB PRG bank.
    pub prg_r7: u8,
    /// Whether the mirroring register selects horizontal arrangement.
    pub mirror_horizontal: bool,
    /// Whether the PRG RAM answers at all.
    pub ram_enabled: bool,
    /// Whether the PRG RAM refuses writes.
    pub ram_read_only: bool,
    /// Value the IRQ counter reloads from.
    pub irq_latch: u8,
    /// The scanline countdown.
    pub irq_counter: u8,
    /// Whether reaching zero asserts the IRQ line.
    pub irq_enabled: bool,
    /// Whether the next filtered edge reloads the counter.
    pub irq_reload: bool,
    /// Whether the IRQ line is being held low.
    pub irq_asserted: bool,
    /// How many times in a row address line 12 has been observed low.
    pub a12_low_streak: u8,
    /// How many low observations the edge filter demands before a rise
    /// counts, standing in for the revision's dead time; per-cart
    /// adjustable.
    pub a12_filter: u8,
    /// The die revision.
    pub revision: Mmc3Revision,
}

/// Whether PPU address line 12 is high in `addr`.
pub open spec fn a12_high(addr: u16) -> bool {
    (addr as int / 0x1000) % 2 == 1
}

impl Txrom {
    /// The board geometry TxROM supports.
    pub open spec fn wf(&self) -> bool {
        &&& 0x4000 <= self.prg_rom_len <= 0x1000_0000
        &&& self.prg_rom_len % 0x2000 == 0
        &&& 0x2000 <= self.chr_len <= 0x1000_0000
        &&& self.chr_len % 0x2000 == 0
        &&& self.chr_len % 0x400 == 0
        &&& self.prg_ram_len <= 0x2000
        &&& 1 <= self.a12_filter <= 16
    }

    /// Whether CHR windows are inverted: the 2 KiB windows at 0x1000 and
    /// the 1 KiB windows at 0x0000.
    pub open spec fn chr_inverted(&self) -> bool {
        self.bank_select / 128 == 1
    }

    /// Whether the PRG map fixes the second-to-last bank at 0x8000 and
    /// switches 0xC000 instead.
    pub open spec fn prg_fixed_low(&self) -> bool {
        (self.bank_select as int / 64) % 2 == 1
    }

    /// The 1 KiB CHR bank serving 1 KiB slot `slot` of the
    /// possibly-inverted pattern space.
    pub open spec fn chr_bank_for_slot(&self, slot: int) -> int {
        if slot == 0 {
            self.chr_r0 as int - self.chr_r0 as int % 2
        } else if slot == 1 {
            self.chr_r0 as int - self.chr_r0 as int % 2 + 1
        } else if slot == 2 {
            self.chr_r1 as int - self.chr_r1 as int % 2
        } else if slot == 3 {
            self.chr_r1 as int - self.chr_r1 as int % 2 + 1
        } else if slot == 4 {
            self.chr_r2 as int
        } else if slot == 5 {
            self.chr_r3 as int
        } else if slot == 6 {
            self.chr_r4 as int
        } else {
            self.chr_r5 as int
        }
    }

    /// The CHR offset a pattern fetch resolves to.
    pub open spec fn spec_chr_offset(&self, addr: u16) -> int {
        let a = if self.chr_inverted() {
            (addr as int + 0x1000) % 0x2000
        } else {
            addr as int
        };
        spec_bank_offset(self.chr_len as int, 0x400, self.chr_bank_for_slot(a / 0x400), a % 0x400)
    }

    /// The PRG ROM offset a fetch at `addr` (0x8000 and up) resolves to:
    /// four 8 KiB slots, the last fixed to the last bank, one of the first
    /// and third fixed to the second-to-last by the PRG mode.
    pub open spec fn spec_prg_offset(&self, addr: u16) -> int {
        let nbanks = self.prg_rom_len as int / 0x2000;
        let slot = (addr - 0x8000) as int / 0x2000;
        let bank = if slot == 0 {
            if self.prg_fixed_low() {
                nbanks - 2
            } else {
                self.prg_r6 as int
            }
        } else if slot == 1 {
            self.prg_r7 as int
        } else if slot == 2 {
            if self.prg_fixed_low() {
                self.prg_r6 as int
            } else {
                nbanks - 2
            }
        } else {
            nbanks - 1
        };
        spec_bank_offset(self.prg_rom_len as int, 0x2000, bank, (addr - 0x8000) as int % 0x2000)
    }

    /// Where a read lands.
    pub open spec fn spec_peek(&self, addr: u16) -> MappedRead {
        if addr < 0x2000 {
            MappedRead::Chr(self.spec_chr_offset(addr) as usize)
        } else if 0x6000 <= addr < 0x8000 {
            if self.prg_ram_len > 0 && self.ram_enabled {
                MappedRead::PrgRam(((addr - 0x6000) as usize % self.prg_ram_len) as usize)
            } else {
                MappedRead::OpenBus
            }
        } else if addr >= 0x8000 {
            MappedRead::PrgRom(self.spec_prg_offset(addr) as usize)
        } else {
            MappedRead::OpenBus
        }
    }

    /// One filtered rising edge of address line 12: a zeroed or reloading
    /// counter takes the latch, any other counter counts down, and a
    /// counter that lands on zero asserts the IRQ when enabled — on the
    /// first revision only if it got there by counting down.
    pub open spec fn spec_clocked(&self) -> Txrom {
        let reloaded = self.irq_counter == 0 || self.irq_reload;
        let counter = if reloaded {
            self.irq_latch
        } else {
            (self.irq_counter - 1) as u8
        };
        let fires = counter == 0 && self.irq_enabled && (self.revision == Mmc3Revision::BC
            || !reloaded);
        Txrom {
            irq_counter: counter,
            irq_reload: false,
            irq_asserted: self.irq_asserted || fires,
            ..*self
        }
    }

    /// One PPU bus address observation: a rise of address line 12 after
    /// the filter's worth of low observations clocks the scanline
    /// counter; lows lengthen the streak, saturating.
    pub open spec fn spec_ppu_addr(&self, addr: u16) -> Txrom {
        if a12_high(addr) {
            if self.a12_low_streak >= self.a12_filter {
                Txrom { a12_low_streak: 0u8, ..self.spec_clocked() }
            } else {
                Txrom { a12_low_streak: 0u8, ..*self }
            }
        } else {
            Txrom {
                a12_low_streak: (
                if self.a12_low_streak == 255 {
                    255u8
                } else {
                    (self.a12_low_streak + 1) as u8
                }),
                ..*self
            }
        }
    }

    /// The state after a CPU write: the register pairs at 0x8000 and up,
    /// by range and address parity — bank select and bank data, mirroring
    /// and RAM protection, IRQ latch and reload, IRQ disable and enable.
    pub open spec fn spec_write_state(&self, addr: u16, val: u8) -> Txrom {
        if addr < 0x8000 {
            *self
        } else if addr < 0xA000 {
            if addr % 2 == 0 {
                Txrom { bank_select: val, ..*self }
            } else {
                let r = self.bank_select as int % 8;
                if r == 0 {
                    Txrom { chr_r0: val, ..*self }
                } else if r == 1 {
                    Txrom { chr_r1: val, ..*self }
                } else if r == 2 {
                    Txrom { chr_r2: val, ..*self }
                } else if r == 3 {
                    Txrom { chr_r3: val, ..*self }
                } else if r == 4 {
                    Txrom { chr_r4: val, ..*self }
                } else if r == 5 {
                    Txrom { chr_r5: val, ..*self }
                } else if r == 6 {
                    Txrom { prg_r6: val, ..*self }
                } else {
                    Txrom { prg_r7: val, ..*self }
                }
            }
        } else if addr < 0xC000 {
            if addr % 2 == 0 {
                Txrom { mirror_horizontal: val % 2 == 1, ..*self }
            } else {
                Txrom {
                    ram_enabled: val / 128 == 1,
                    ram_read_only: (val as int / 64) % 2 == 1,
                    ..*self
                }
            }
        } else if addr < 0xE000 {
            if addr % 2 == 0 {
                Txrom { irq_latch: val, ..*self }
            } else {
                Txrom { irq_counter: 0u8, irq_reload: true, ..*self }
            }
        } else {
            if addr % 2 == 0 {
                Txrom { irq_enabled: false, irq_asserted: false, ..*self }
            } else {
                Txrom { irq_enabled: true, ..*self }
            }
        }
    }

    /// What a CPU write hands back: CHR RAM and writable PRG RAM take
    /// data writes at the resolved offsets, register regions are
    /// swallowed.
    pub open spec fn spec_write_result(&self, addr: u16, val: u8) -> MappedWrite {
        if addr < 0x2000 {
            MappedWrite::Chr(self.spec_chr_offset(addr) as usize, val)
        } else if 0x6000 <= addr < 0x8000 && self.prg_ram_len > 0 && self.ram_enabled
            && !self.ram_read_only {
            MappedWrite::PrgRam(((addr - 0x6000) as usize % self.prg_ram_len) as usize, val)
        } else {
            MappedWrite::Ignored
        }
    }

    /// Wire up a TxROM board. The edge filter's dead time comes from the
    /// revision: the first revision rests a beat longer than the later
    /// ones.
    pub fn load(prg_rom_len: usize, chr_len: usize, prg_ram_len: usize, revision: Mmc3Revision) -> (m:
        Mapper)
        requires
            0x4000 <= prg_rom_len <= 0x1000_0000,
            prg_rom_len % 0x2000 == 0,
            0x2000 <= chr_len <= 0x1000_0000,
            chr_len % 0x2000 == 0,
            chr_len % 0x400 == 0,
            prg_ram_len <= 0x2000,
        ensures
            m == Mapper::Txrom(
                Txrom {
                    prg_rom_len,
                    chr_len,
                    prg_ram_len,
                    bank_select: 0u8,
                    chr_r0: 0u8,
                    chr_r1: 0u8,
                    chr_r2: 0u8,
                    chr_r3: 0u8,
                    chr_r4: 0u8,
                    chr_r5: 0u8,
                    prg_r6: 0u8,
                    prg_r7: 0u8,
                    mirror_horizontal: false,
                    ram_enabled: false,
                    ram_read_only: false,
                    irq_latch: 0u8,
                    irq_counter: 0u8,
                    irq_enabled: false,
                    irq_reload: false,
                    irq_asserted: false,
                    a12_low_streak: 0u8,
                    a12_filter: (
                    if revision == Mmc3Revision::A {
                        4u8
                    } else {
                        3u8
                    }),
                    revision,
                },
            ),
            m.mem_wf(),
            m.mapped_wf(),
    {
        Mapper::Txrom(
            Txrom {
                prg_rom_len,
                chr_len,
                prg_ram_len,
                bank_select: 0,
                chr_r0: 0,
                chr_r1: 0,
                chr_r2: 0,
                chr_r3: 0,
                chr_r4: 0,
                chr_r5: 0,
                prg_r6: 0,
                prg_r7: 0,
                mirror_horizontal: false,
                ram_enabled: false,
                ram_read_only: false,
                irq_latch: 0,
                irq_counter: 0,
                irq_enabled: false,
                irq_reload: false,
                irq_asserted: false,
                a12_low_streak: 0,
                a12_filter: if matches!(revision, Mmc3Revision::A) {
                    4
                } else {
                    3
                },
                revision,
            },
        )
    }

    /// Resolve a CHR access.
    fn chr_offset(&self, addr: u16) -> (offset: usize)
        requires
            self.wf(),
            addr < 0x2000,
        ensures
            offset == self.spec_chr_offset(addr),
            offset < self.chr_len,
    {
        let a: u16 = if self.bank_select / 128 == 1 {
            (addr + 0x1000) % 0x2000
        } else {
            addr
        };
        let slot = a / 0x400;
        let bank: usize = if slot == 0 {
            (self.chr_r0 - self.chr_r0 % 2) as usize
        } else if slot == 1 {
            (self.chr_r0 - self.chr_r0 % 2 + 1) as usize
        } else if slot == 2 {
            (self.chr_r1 - self.chr_r1 % 2) as usize
        } else if slot == 3 {
            (self.chr_r1 - self.chr_r1 % 2 + 1) as usize
        } else if slot == 4 {
            self.chr_r2 as usize
        } else if slot == 5 {
            self.chr_r3 as usize
        } else if slot == 6 {
            self.chr_r4 as usize
        } else {
            self.chr_r5 as usize
        };
        bank_offset(self.chr_len, 0x400, bank, (a % 0x400) as usize)
    }
}

impl MemMap for Txrom {
    open spec fn mem_wf(&self) -> bool {
        self.wf()
    }

    open spec fn chr_capacity(&self) -> int {
        self.chr_len as int
    }

    open spec fn prg_rom_capacity(&self) -> int {
        self.prg_rom_len as int
    }

    open spec fn prg_ram_capacity(&self) -> int {
        self.prg_ram_len as int
    }

    /// A read has no side effects on this board.
    fn map_read(&mut self, addr: u16) -> (r: MappedRead)
        ensures
            *final(self) == *old(self),
            r == old(self).spec_peek(addr),
    {
        self.map_peek(addr)
    }

    fn map_peek(&self, addr: u16) -> (r: MappedRead)
        ensures
            r == self.spec_peek(addr),
    {
        if addr < 0x2000 {
            MappedRead::Chr(self.chr_offset(addr))
        } else if 0x6000 <= addr && addr < 0x8000 {
            if self.prg_ram_len > 0 && self.ram_enabled {
                MappedRead::PrgRam((addr - 0x6000) as usize % self.prg_ram_len)
            } else {
                MappedRead::OpenBus
            }
        } else if addr >= 0x8000 {
            let nbanks = self.prg_rom_len / 0x2000;
            let slot = (addr - 0x8000) / 0x2000;
            let fixed_low = (self.bank_select / 64) % 2 == 1;
            let bank: usize = if slot == 0 {
                if fixed_low {
                    nbanks - 2
                } else {
                    self.prg_r6 as usize
                }
            } else if slot == 1 {
                self.prg_r7 as usize
            } else if slot == 2 {
                if fixed_low {
                    self.prg_r6 as usize
                } else {
                    nbanks - 2
                }
            } else {
                nbanks - 1
            };
            MappedRead::PrgRom(
                bank_offset(self.prg_rom_len, 0x2000, bank, ((addr - 0x8000) % 0x2000) as usize),
            )
        } else {
            MappedRead::OpenBus
        }
    }

    /// Register writes come in even/odd pairs: bank select and bank data
    /// below 0xA000, mirroring and RAM protection below 0xC000, IRQ latch
    /// and reload below 0xE000, IRQ disable (which also acknowledges) and
    /// enable above. PRG RAM and CHR RAM take data writes.
    fn map_write(&mut self, addr: u16, val: u8) -> (w: MappedWrite)
        ensures
            *final(self) == old(self).spec_write_state(addr, val),
            w == old(self).spec_write_result(addr, val),
    {
        if addr < 0x2000 {
            let offset = self.chr_offset(addr);
            MappedWrite::Chr(offset, val)
        } else if 0x6000 <= addr && addr < 0x8000 {
            if self.prg_ram_len > 0 && self.ram_enabled && !self.ram_read_only {
                MappedWrite::PrgRam((addr - 0x6000) as usize % self.prg_ram_len, val)
            } else {
                MappedWrite::Ignored
            }
        } else if addr < 0x8000 {
            MappedWrite::Ignored
        } else if addr < 0xA000 {
            if addr % 2 == 0 {
                self.bank_select = val;
            } else {
                let r = self.bank_select % 8;
                if r == 0 {
                    self.chr_r0 = val;
                } else if r == 1 {
                    self.chr_r1 = val;
                } else if r == 2 {
                    self.chr_r2 = val;
                } else if r == 3 {
                    self.chr_r3 = val;
                } else if r == 4 {
                    self.chr_r4 = val;
                } else if r == 5 {
                    self.chr_r5 = val;
                } else if r == 6 {
                    self.prg_r6 = val;
                } else {
                    self.prg_r7 = val;
                }
            }
            MappedWrite::Ignored
        } else if addr < 0xC000 {
            if addr % 2 == 0 {
                self.mirror_horizontal = val % 2 == 1;
            } else {
                self.ram_enabled = val / 128 == 1;
                self.ram_read_only = (val / 64) % 2 == 1;
            }
            MappedWrite::Ignored
        } else if addr < 0xE000 {
            if addr % 2 == 0 {
                self.irq_latch = val;
            } else {
                self.irq_counter = 0;
                self.irq_reload = true;
            }
            MappedWrite::Ignored
        } else {
            if addr % 2 == 0 {
                self.irq_enabled = false;
                self.irq_asserted = false;
            } else {
                self.irq_enabled = true;
            }
            MappedWrite::Ignored
        }
    }
}

impl Mapped for Txrom {
    open spec fn mapped_wf(&self) -> bool {
        true
    }

    /// The IRQ line follows the counter unit.
    fn irq_pending(&self) -> (pending: bool)
        ensures
            pending == self.irq_asserted,
    {
        self.irq_asserted
    }

    /// MMC3 drives the mirroring from its 0xA000 register.
    open spec fn spec_mirroring(&self) -> Option<Mirroring> {
        Some(
            if self.mirror_horizontal {
                Mirroring::Horizontal
            } else {
                Mirroring::Vertical
            },
        )
    }

    fn mirroring(&self) -> (mirroring: Option<Mirroring>) {
        if self.mirror_horizontal {
            Some(Mirroring::Horizontal)
        } else {
            Some(Mirroring::Vertical)
        }
    }

    /// Watch address line 12: a rise after the filter's worth of low
    /// observations clocks the scanline counter; lows lengthen the
    /// streak.
    fn ppu_addr(&mut self, addr: u16)
        ensures
            *final(self) == old(self).spec_ppu_addr(addr),
    {
        if (addr / 0x1000) % 2 == 1 {
            if self.a12_low_streak >= self.a12_filter {
                let reloaded = self.irq_counter == 0 || self.irq_reload;
                if reloaded {
                    self.irq_counter = self.irq_latch;
                    self.irq_reload = false;
                } else {
                    self.irq_counter = self.irq_counter - 1;
                }
                if self.irq_counter == 0 && self.irq_enabled && (matches!(
                    self.revision,
                    Mmc3Revision::BC,
                ) || !reloaded) {
                    self.irq_asserted = true;
                }
            }
            self.a12_low_streak = 0;
        } else {
            if self.a12_low_streak < 255 {
                self.a12_low_streak = self.a12_low_streak + 1;
            }
        }
    }
}

} // verus!
