//! MMC5 / ExROM (mapper 5): four PRG banking modes from 32 KiB down to
//! 8 KiB windows, four CHR modes from 8 KiB down to 1 KiB windows, a
//! banked PRG RAM window at 0x6000, per-quadrant nametable mapping with an
//! on-cart expansion RAM, a hardware 8x8 multiplier, and a scanline IRQ.
//! The chip has no line to the PPU's counters, so it infers the scanline
//! from the fetch pattern: two repeated nametable fetches in a row mark a
//! new scanline. The middle PRG windows are treated as ROM here; PRG RAM
//! is reached through the 0x6000 window. The vertical-split registers are
//! latched and readable, but the split rendering itself — like the
//! extended attribute fetches — is the PPU's work and happens outside this
//! translation layer.

use vstd::prelude::*;
use vstd::pervasive::VecAdditionalExecFns;
use crate::ppu::Mirroring;
use crate::mapper::{
    bank_offset, spec_bank_offset, Mapped, MappedRead, MappedWrite, Mapper, MemMap,
};

verus! {

/// The MMC5 register file, expansion RAM and IRQ scanline counter.
#[derive(Debug, Clone)]
pub struct Exrom {
    /// Bytes of PRG ROM: a positive number of 32 KiB pages.
    pub prg_rom_len: usize,
    /// Bytes of CHR ROM: a positive number of 8 KiB pages.
    pub chr_len: usize,
    /// Bytes of PRG RAM: a number of 8 KiB pages, zero when absent.
    pub prg_ram_len: usize,
    /// PRG banking mode, 0-3: one 32 KiB window down to four 8 KiB ones.
    pub prg_mode: u8,
    /// CHR banking mode, 0-3: one 8 KiB window down to eight 1 KiB ones.
    pub chr_mode: u8,
    /// Expansion RAM mode, 0-3: nametable, extended attribute, plain RAM,
    /// write-protected RAM.
    pub exram_mode: u8,
    /// Two bits per nametable quadrant: CIRAM page 0 or 1, expansion RAM,
    /// or the fill tile.
    pub nametable_mapping: u8,
    /// Tile index the fill mode shows everywhere.
    pub fill_tile: u8,
    /// Attribute the fill mode shows everywhere.
    pub fill_color: u8,
    /// First half of the PRG RAM write-protect key.
    pub prg_ram_protect_a: bool,
    /// Second half of the PRG RAM write-protect key.
    pub prg_ram_protect_b: bool,
    /// The 8 KiB PRG RAM bank behind 0x6000.
    pub prg_ram_bank: u8,
    /// The 8 KiB PRG bank behind 0x8000 in the 8 KiB mode.
    pub prg_bank_1: u8,
    /// The PRG bank behind 0xA000 (8 KiB mode) or 0x8000 (16 KiB modes).
    pub prg_bank_2: u8,
    /// The 8 KiB PRG bank behind 0xC000.
    pub prg_bank_3: u8,
    /// The PRG bank behind 0xE000, also serving the wider modes.
    pub prg_bank_4: u8,
    /// Upper CHR bank bits (0x5130), latched into each CHR bank register
    /// as it is written.
    pub chr_hi: u8,
    /// Vertical-split control (0x5200): enable, side and tile count.
    pub vsplit_mode: u8,
    /// Vertical-split vertical scroll (0x5201).
    pub vsplit_scroll: u8,
    /// Vertical-split 4 KiB CHR bank (0x5202).
    pub vsplit_bank: u8,
    /// CHR bank register 0 (1 KiB slot 0).
    pub chr_bank_0: u16,
    /// CHR bank register 1 (1 KiB slot 1, 2 KiB slot 0).
    pub chr_bank_1: u16,
    /// CHR bank register 2 (1 KiB slot 2).
    pub chr_bank_2: u16,
    /// CHR bank register 3 (1 KiB slot 3, 2 KiB slot 1, 4 KiB low half).
    pub chr_bank_3: u16,
    /// CHR bank register 4 (1 KiB slot 4).
    pub chr_bank_4: u16,
    /// CHR bank register 5 (1 KiB slot 5, 2 KiB slot 2).
    pub chr_bank_5: u16,
    /// CHR bank register 6 (1 KiB slot 6).
    pub chr_bank_6: u16,
    /// CHR bank register 7 (1 KiB slot 7, 2 KiB slot 3, 4 KiB high half,
    /// the whole 8 KiB mode).
    pub chr_bank_7: u16,
    /// Multiplier operand written at 0x5205.
    pub multiplicand: u8,
    /// Multiplier operand written at 0x5206.
    pub multiplier: u8,
    /// Scanline the IRQ fires on.
    pub irq_scanline: u8,
    /// Whether the IRQ output is enabled.
    pub irq_enabled: bool,
    /// Whether the scanline comparator has matched since the last
    /// acknowledge.
    pub irq_asserted: bool,
    /// Whether the chip believes the PPU is inside the visible frame.
    pub in_frame: bool,
    /// The scanline the chip has counted to.
    pub scanline: u8,
    /// The last nametable address observed on the PPU bus.
    pub last_nt_addr: u16,
    /// How many consecutive times that address repeated.
    pub nt_match_count: u8,
    /// The 1 KiB expansion RAM.
    pub exram: Vec<u8>,
}

/// All registers of `a` and `b` agree; only the expansion RAM may differ.
pub open spec fn same_exrom_regs(a: &Exrom, b: &Exrom) -> bool {
    &&& b.prg_rom_len == a.prg_rom_len
    &&& b.chr_len == a.chr_len
    &&& b.prg_ram_len == a.prg_ram_len
    &&& b.prg_mode == a.prg_mode
    &&& b.chr_mode == a.chr_mode
    &&& b.exram_mode == a.exram_mode
    &&& b.nametable_mapping == a.nametable_mapping
    &&& b.fill_tile == a.fill_tile
    &&& b.fill_color == a.fill_color
    &&& b.prg_ram_protect_a == a.prg_ram_protect_a
    &&& b.prg_ram_protect_b == a.prg_ram_protect_b
    &&& b.prg_ram_bank == a.prg_ram_bank
    &&& b.prg_bank_1 == a.prg_bank_1
    &&& b.prg_bank_2 == a.prg_bank_2
    &&& b.prg_bank_3 == a.prg_bank_3
    &&& b.prg_bank_4 == a.prg_bank_4
    &&& b.chr_hi == a.chr_hi
    &&& b.vsplit_mode == a.vsplit_mode
    &&& b.vsplit_scroll == a.vsplit_scroll
    &&& b.vsplit_bank == a.vsplit_bank
    &&& b.chr_bank_0 == a.chr_bank_0
    &&& b.chr_bank_1 == a.chr_bank_1
    &&& b.chr_bank_2 == a.chr_bank_2
    &&& b.chr_bank_3 == a.chr_bank_3
    &&& b.chr_bank_4 == a.chr_bank_4
    &&& b.chr_bank_5 == a.chr_bank_5
    &&& b.chr_bank_6 == a.chr_bank_6
    &&& b.chr_bank_7 == a.chr_bank_7
    &&& b.multiplicand == a.multiplicand
    &&& b.multiplier == a.multiplier
    &&& b.irq_scanline == a.irq_scanline
    &&& b.irq_enabled == a.irq_enabled
    &&& b.irq_asserted == a.irq_asserted
    &&& b.in_frame == a.in_frame
    &&& b.scanline == a.scanline
    &&& b.last_nt_addr == a.last_nt_addr
    &&& b.nt_match_count == a.nt_match_count
}

impl Exrom {
    /// The board geometry ExROM supports.
    pub open spec fn wf(&self) -> bool {
        &&& 0x8000 <= self.prg_rom_len <= 0x1000_0000
        &&& self.prg_rom_len % 0x8000 == 0
        &&& self.prg_rom_len % 0x4000 == 0
        &&& self.prg_rom_len % 0x2000 == 0
        &&& 0x2000 <= self.chr_len <= 0x1000_0000
        &&& self.chr_len % 0x2000 == 0
        &&& self.chr_len % 0x1000 == 0
        &&& self.chr_len % 0x800 == 0
        &&& self.chr_len % 0x400 == 0
        &&& self.prg_ram_len <= 0x1_0000
        &&& self.prg_ram_len % 0x2000 == 0
        &&& self.fill_color < 4
        &&& self.chr_hi < 4
        &&& self.exram@.len() == 0x400
    }

    /// The product the multiplier registers hold.
    pub open spec fn spec_product(&self) -> int {
        self.multiplicand * self.multiplier
    }

    /// The status byte read at 0x5204: IRQ comparator match in bit 7,
    /// in-frame flag in bit 6.
    pub open spec fn spec_irq_status(&self) -> u8 {
        ((if self.irq_asserted {
            0x80int
        } else {
            0int
        }) + (if self.in_frame {
            0x40int
        } else {
            0int
        })) as u8
    }

    /// The CHR offset a pattern fetch resolves to under the current CHR
    /// mode.
    pub open spec fn spec_chr_offset(&self, addr: u16) -> int {
        if self.chr_mode % 4 == 0 {
            spec_bank_offset(self.chr_len as int, 0x2000, self.chr_bank_7 as int, addr as int)
        } else if self.chr_mode % 4 == 1 {
            let bank = if addr < 0x1000 {
                self.chr_bank_3 as int
            } else {
                self.chr_bank_7 as int
            };
            spec_bank_offset(self.chr_len as int, 0x1000, bank, addr as int % 0x1000)
        } else if self.chr_mode % 4 == 2 {
            let slot = addr as int / 0x800;
            let bank = if slot == 0 {
                self.chr_bank_1 as int
            } else if slot == 1 {
                self.chr_bank_3 as int
            } else if slot == 2 {
                self.chr_bank_5 as int
            } else {
                self.chr_bank_7 as int
            };
            spec_bank_offset(self.chr_len as int, 0x800, bank, addr as int % 0x800)
        } else {
            let slot = addr as int / 0x400;
            let bank = if slot == 0 {
                self.chr_bank_0 as int
            } else if slot == 1 {
                self.chr_bank_1 as int
            } else if slot == 2 {
                self.chr_bank_2 as int
            } else if slot == 3 {
                self.chr_bank_3 as int
            } else if slot == 4 {
                self.chr_bank_4 as int
            } else if slot == 5 {
                self.chr_bank_5 as int
            } else if slot == 6 {
                self.chr_bank_6 as int
            } else {
                self.chr_bank_7 as int
            };
            spec_bank_offset(self.chr_len as int, 0x400, bank, addr as int % 0x400)
        }
    }

    /// The PRG ROM offset a fetch at `addr` (0x8000 and up) resolves to
    /// under the current PRG mode. Bank registers carry a ROM marker in
    /// bit 7, which banking strips; wider windows drop low bank bits.
    pub open spec fn spec_prg_offset(&self, addr: u16) -> int {
        if self.prg_mode % 4 == 0 {
            spec_bank_offset(
                self.prg_rom_len as int,
                0x8000,
                (self.prg_bank_4 as int % 0x80) / 4,
                (addr - 0x8000) as int,
            )
        } else if self.prg_mode % 4 == 1 {
            let bank = if addr < 0xC000 {
                self.prg_bank_2 as int % 0x80
            } else {
                self.prg_bank_4 as int % 0x80
            };
            spec_bank_offset(
                self.prg_rom_len as int,
                0x4000,
                bank / 2,
                (addr - 0x8000) as int % 0x4000,
            )
        } else if self.prg_mode % 4 == 2 {
            if addr < 0xC000 {
                spec_bank_offset(
                    self.prg_rom_len as int,
                    0x4000,
                    (self.prg_bank_2 as int % 0x80) / 2,
                    (addr - 0x8000) as int % 0x4000,
                )
            } else if addr < 0xE000 {
                spec_bank_offset(
                    self.prg_rom_len as int,
                    0x2000,
                    self.prg_bank_3 as int % 0x80,
                    (addr - 0xC000) as int,
                )
            } else {
                spec_bank_offset(
                    self.prg_rom_len as int,
                    0x2000,
                    self.prg_bank_4 as int % 0x80,
                    (addr - 0xE000) as int,
                )
            }
        } else {
            let slot = (addr - 0x8000) as int / 0x2000;
            let bank = if slot == 0 {
                self.prg_bank_1 as int % 0x80
            } else if slot == 1 {
                self.prg_bank_2 as int % 0x80
            } else if slot == 2 {
                self.prg_bank_3 as int % 0x80
            } else {
                self.prg_bank_4 as int % 0x80
            };
            spec_bank_offset(
                self.prg_rom_len as int,
                0x2000,
                bank,
                (addr - 0x8000) as int % 0x2000,
            )
        }
    }

    /// Whether the two-part protect key currently lets PRG RAM take
    /// writes.
    pub open spec fn prg_ram_writable(&self) -> bool {
        self.prg_ram_protect_a && self.prg_ram_protect_b
    }

    /// Where a read lands: banked CHR below 0x2000, the registers and
    /// expansion RAM in 0x5000-0x5FFF, banked PRG RAM at 0x6000, banked
    /// PRG ROM above.
    pub open spec fn spec_peek(&self, addr: u16) -> MappedRead {
        if addr < 0x2000 {
            MappedRead::Chr(self.spec_chr_offset(addr) as usize)
        } else if addr == 0x5204 {
            MappedRead::Data(self.spec_irq_status())
        } else if addr == 0x5205 {
            MappedRead::Data((self.spec_product() % 0x100) as u8)
        } else if addr == 0x5206 {
            MappedRead::Data((self.spec_product() / 0x100) as u8)
        } else if 0x5C00 <= addr < 0x6000 {
            if self.exram_mode >= 2 {
                MappedRead::Data(self.exram@[addr as int % 0x400])
            } else {
                MappedRead::OpenBus
            }
        } else if 0x6000 <= addr < 0x8000 {
            if self.prg_ram_len > 0 {
                MappedRead::PrgRam(
                    spec_bank_offset(
                        self.prg_ram_len as int,
                        0x2000,
                        self.prg_ram_bank as int,
                        (addr - 0x6000) as int,
                    ) as usize,
                )
            } else {
                MappedRead::OpenBus
            }
        } else if addr >= 0x8000 {
            MappedRead::PrgRom(self.spec_prg_offset(addr) as usize)
        } else {
            MappedRead::OpenBus
        }
    }

    /// One PPU bus address observation: the third identical nametable
    /// fetch in a row marks a scanline — entering the frame, counting and
    /// matching the comparator, or dropping out past the visible frame.
    pub open spec fn spec_ppu_addr(&self, addr: u16) -> Exrom {
        if !(0x2000 <= addr < 0x3000) {
            *self
        } else if addr != self.last_nt_addr {
            Exrom { last_nt_addr: addr, nt_match_count: 0u8, ..*self }
        } else if self.nt_match_count == 1 {
            if !self.in_frame {
                Exrom { nt_match_count: 2u8, in_frame: true, scanline: 0u8, ..*self }
            } else if self.scanline >= 240 {
                Exrom { nt_match_count: 2u8, in_frame: false, scanline: 0u8, ..*self }
            } else {
                Exrom {
                    nt_match_count: 2u8,
                    scanline: (self.scanline + 1) as u8,
                    irq_asserted: self.irq_asserted || (self.scanline + 1 == self.irq_scanline
                        && self.irq_scanline > 0),
                    ..*self
                }
            }
        } else if self.nt_match_count == 255 {
            *self
        } else {
            Exrom { nt_match_count: (self.nt_match_count + 1) as u8, ..*self }
        }
    }

    /// The registers after a CPU write: each 0x5100-0x5206 register takes
    /// its value (modes and protect keys keep only their low bits, and a
    /// CHR bank write latches the 0x5130 upper bits into the bank); data
    /// and expansion RAM writes leave every register alone. The expansion
    /// RAM itself is carried unchanged; its transition is
    /// [`Exrom::spec_write_exram`].
    pub open spec fn spec_write_state_regs(&self, addr: u16, val: u8) -> Exrom {
        if addr == 0x5100 {
            Exrom { prg_mode: val % 4, ..*self }
        } else if addr == 0x5101 {
            Exrom { chr_mode: val % 4, ..*self }
        } else if addr == 0x5102 {
            Exrom { prg_ram_protect_a: val % 4 == 2, ..*self }
        } else if addr == 0x5103 {
            Exrom { prg_ram_protect_b: val % 4 == 1, ..*self }
        } else if addr == 0x5104 {
            Exrom { exram_mode: val % 4, ..*self }
        } else if addr == 0x5105 {
            Exrom { nametable_mapping: val, ..*self }
        } else if addr == 0x5106 {
            Exrom { fill_tile: val, ..*self }
        } else if addr == 0x5107 {
            Exrom { fill_color: val % 4, ..*self }
        } else if addr == 0x5113 {
            Exrom { prg_ram_bank: val % 8, ..*self }
        } else if addr == 0x5114 {
            Exrom { prg_bank_1: val, ..*self }
        } else if addr == 0x5115 {
            Exrom { prg_bank_2: val, ..*self }
        } else if addr == 0x5116 {
            Exrom { prg_bank_3: val, ..*self }
        } else if addr == 0x5117 {
            Exrom { prg_bank_4: val, ..*self }
        } else if addr == 0x5120 {
            Exrom { chr_bank_0: (self.chr_hi as int * 0x100 + val) as u16, ..*self }
        } else if addr == 0x5121 {
            Exrom { chr_bank_1: (self.chr_hi as int * 0x100 + val) as u16, ..*self }
        } else if addr == 0x5122 {
            Exrom { chr_bank_2: (self.chr_hi as int * 0x100 + val) as u16, ..*self }
        } else if addr == 0x5123 {
            Exrom { chr_bank_3: (self.chr_hi as int * 0x100 + val) as u16, ..*self }
        } else if addr == 0x5124 {
            Exrom { chr_bank_4: (self.chr_hi as int * 0x100 + val) as u16, ..*self }
        } else if addr == 0x5125 {
            Exrom { chr_bank_5: (self.chr_hi as int * 0x100 + val) as u16, ..*self }
        } else if addr == 0x5126 {
            Exrom { chr_bank_6: (self.chr_hi as int * 0x100 + val) as u16, ..*self }
        } else if addr == 0x5127 {
            Exrom { chr_bank_7: (self.chr_hi as int * 0x100 + val) as u16, ..*self }
        } else if addr == 0x5130 {
            Exrom { chr_hi: val % 4, ..*self }
        } else if addr == 0x5200 {
            Exrom { vsplit_mode: val, ..*self }
        } else if addr == 0x5201 {
            Exrom { vsplit_scroll: val, ..*self }
        } else if addr == 0x5202 {
            Exrom { vsplit_bank: val, ..*self }
        } else if addr == 0x5203 {
            Exrom { irq_scanline: val, ..*self }
        } else if addr == 0x5204 {
            Exrom { irq_enabled: val >= 0x80, ..*self }
        } else if addr == 0x5205 {
            Exrom { multiplicand: val, ..*self }
        } else if addr == 0x5206 {
            Exrom { multiplier: val, ..*self }
        } else {
            *self
        }
    }

    /// The expansion RAM after a CPU write: 0x5C00-0x5FFF stores the byte
    /// unless the write-protected mode is selected; everything else leaves
    /// it alone.
    pub open spec fn spec_write_exram(&self, addr: u16, val: u8) -> Seq<u8> {
        if 0x5C00 <= addr < 0x6000 && self.exram_mode != 3 {
            self.exram@.update(addr as int % 0x400, val)
        } else {
            self.exram@
        }
    }

    /// What the cartridge itself serves for a nametable access: quadrants
    /// mapped to the expansion RAM read it as a nametable (its RAM modes
    /// read back zero there, as the chip does); quadrants in fill mode
    /// read the fill tile, or the fill attribute replicated across the
    /// byte in the attribute rows; CIRAM quadrants are the console's
    /// business and yield nothing here.
    pub open spec fn spec_nametable_read(&self, addr: u16) -> Option<u8> {
        let mode = (self.nametable_mapping as int / pow4((addr as int % 0x1000) / 0x400)) % 4;
        if mode == 2 {
            if self.exram_mode < 2 {
                Some(self.exram@[addr as int % 0x400])
            } else {
                Some(0u8)
            }
        } else if mode == 3 {
            if addr as int % 0x400 < 0x3C0 {
                Some(self.fill_tile)
            } else {
                Some((self.fill_color * 0x55) as u8)
            }
        } else {
            None
        }
    }

    /// The registers after a CPU read: the 0x5204 status read acknowledges
    /// the IRQ; every other read leaves the chip alone.
    pub open spec fn spec_read_state_regs(&self, addr: u16) -> Exrom {
        if addr == 0x5204 {
            Exrom { irq_asserted: false, ..*self }
        } else {
            *self
        }
    }

    /// What a CPU write hands back: CHR RAM and unprotected PRG RAM take
    /// data writes at the resolved offsets, the register space swallows
    /// everything else.
    pub open spec fn spec_write_result(&self, addr: u16, val: u8) -> MappedWrite {
        if addr < 0x2000 {
            MappedWrite::Chr(self.spec_chr_offset(addr) as usize, val)
        } else if 0x6000 <= addr < 0x8000 && self.prg_ram_len > 0 && self.prg_ram_writable() {
            MappedWrite::PrgRam(
                spec_bank_offset(
                    self.prg_ram_len as int,
                    0x2000,
                    self.prg_ram_bank as int,
                    (addr - 0x6000) as int,
                ) as usize,
                val,
            )
        } else {
            MappedWrite::Ignored
        }
    }

    /// Wire up an ExROM board. It powers up in the fully split modes
    /// with the last banks selected, as the chip does.
    pub fn load(prg_rom_len: usize, chr_len: usize, prg_ram_len: usize) -> (m: Mapper)
        requires
            0x8000 <= prg_rom_len <= 0x1000_0000,
            prg_rom_len % 0x8000 == 0,
            prg_rom_len % 0x4000 == 0,
            prg_rom_len % 0x2000 == 0,
            0x2000 <= chr_len <= 0x1000_0000,
            chr_len % 0x2000 == 0,
            chr_len % 0x1000 == 0,
            chr_len % 0x800 == 0,
            chr_len % 0x400 == 0,
            prg_ram_len <= 0x1_0000,
            prg_ram_len % 0x2000 == 0,
        ensures
            m matches Mapper::Exrom(e) && e.wf() && same_exrom_regs(
                &e,
                &(Exrom {
                    prg_rom_len,
                    chr_len,
                    prg_ram_len,
                    prg_mode: 3u8,
                    chr_mode: 3u8,
                    exram_mode: 0u8,
                    nametable_mapping: 0u8,
                    fill_tile: 0u8,
                    fill_color: 0u8,
                    prg_ram_protect_a: false,
                    prg_ram_protect_b: false,
                    prg_ram_bank: 0u8,
                    prg_bank_1: 0xFFu8,
                    prg_bank_2: 0xFFu8,
                    prg_bank_3: 0xFFu8,
                    prg_bank_4: 0xFFu8,
                    chr_hi: 0u8,
                    vsplit_mode: 0u8,
                    vsplit_scroll: 0u8,
                    vsplit_bank: 0u8,
                    chr_bank_0: 0u16,
                    chr_bank_1: 1u16,
                    chr_bank_2: 2u16,
                    chr_bank_3: 3u16,
                    chr_bank_4: 4u16,
                    chr_bank_5: 5u16,
                    chr_bank_6: 6u16,
                    chr_bank_7: 7u16,
                    multiplicand: 0xFFu8,
                    multiplier: 0xFFu8,
                    irq_scanline: 0u8,
                    irq_enabled: false,
                    irq_asserted: false,
                    in_frame: false,
                    scanline: 0u8,
                    last_nt_addr: 0u16,
                    nt_match_count: 0u8,
                    exram: e.exram,
                }),
            ) && (forall|i: int| 0 <= i < 0x400 ==> #[trigger] e.exram@[i] == 0),
            m.mem_wf(),
            m.mapped_wf(),
    {
        let mut exram: Vec<u8> = Vec::new();
        while exram.len() < 0x400
            invariant
                exram@.len() <= 0x400,
                forall|i: int| 0 <= i < exram@.len() ==> #[trigger] exram@[i] == 0,
            decreases 0x400 - exram@.len(),
        {
            exram.push(0);
        }
        Mapper::Exrom(
            Exrom {
                prg_rom_len,
                chr_len,
                prg_ram_len,
                prg_mode: 3,
                chr_mode: 3,
                exram_mode: 0,
                nametable_mapping: 0,
                fill_tile: 0,
                fill_color: 0,
                prg_ram_protect_a: false,
                prg_ram_protect_b: false,
                prg_ram_bank: 0,
                prg_bank_1: 0xFF,
                prg_bank_2: 0xFF,
                prg_bank_3: 0xFF,
                prg_bank_4: 0xFF,
                chr_hi: 0,
                vsplit_mode: 0,
                vsplit_scroll: 0,
                vsplit_bank: 0,
                chr_bank_0: 0,
                chr_bank_1: 1,
                chr_bank_2: 2,
                chr_bank_3: 3,
                chr_bank_4: 4,
                chr_bank_5: 5,
                chr_bank_6: 6,
                chr_bank_7: 7,
                multiplicand: 0xFF,
                multiplier: 0xFF,
                irq_scanline: 0,
                irq_enabled: false,
                irq_asserted: false,
                in_frame: false,
                scanline: 0,
                last_nt_addr: 0,
                nt_match_count: 0,
                exram,
            },
        )
    }

    /// Resolve a CHR access.
    fn chr_offset(&self, addr: u16) -> (offset: usize)
        requires
            self.wf(),
            addr < 0x2000,
        ensures
            offset == self.spec_chr_offset(addr),
            offset < self.chr_len,
    {
        let mode = self.chr_mode % 4;
        if mode == 0 {
            bank_offset(self.chr_len, 0x2000, self.chr_bank_7 as usize, addr as usize)
        } else if mode == 1 {
            let bank = if addr < 0x1000 {
                self.chr_bank_3
            } else {
                self.chr_bank_7
            };
            bank_offset(self.chr_len, 0x1000, bank as usize, (addr % 0x1000) as usize)
        } else if mode == 2 {
            let slot = addr / 0x800;
            let bank = if slot == 0 {
                self.chr_bank_1
            } else if slot == 1 {
                self.chr_bank_3
            } else if slot == 2 {
                self.chr_bank_5
            } else {
                self.chr_bank_7
            };
            bank_offset(self.chr_len, 0x800, bank as usize, (addr % 0x800) as usize)
        } else {
            let slot = addr / 0x400;
            let bank = if slot == 0 {
                self.chr_bank_0
            } else if slot == 1 {
                self.chr_bank_1
            } else if slot == 2 {
                self.chr_bank_2
            } else if slot == 3 {
                self.chr_bank_3
            } else if slot == 4 {
                self.chr_bank_4
            } else if slot == 5 {
                self.chr_bank_5
            } else if slot == 6 {
                self.chr_bank_6
            } else {
                self.chr_bank_7
            };
            bank_offset(self.chr_len, 0x400, bank as usize, (addr % 0x400) as usize)
        }
    }

    /// Resolve a PRG ROM access at 0x8000 and up.
    fn prg_offset(&self, addr: u16) -> (offset: usize)
        requires
            self.wf(),
            addr >= 0x8000,
        ensures
            offset == self.spec_prg_offset(addr),
            offset < self.prg_rom_len,
    {
        let mode = self.prg_mode % 4;
        if mode == 0 {
            bank_offset(
                self.prg_rom_len,
                0x8000,
                (self.prg_bank_4 % 0x80) as usize / 4,
                (addr - 0x8000) as usize,
            )
        } else if mode == 1 {
            let bank = if addr < 0xC000 {
                self.prg_bank_2 % 0x80
            } else {
                self.prg_bank_4 % 0x80
            };
            bank_offset(
                self.prg_rom_len,
                0x4000,
                bank as usize / 2,
                ((addr - 0x8000) % 0x4000) as usize,
            )
        } else if mode == 2 {
            if addr < 0xC000 {
                bank_offset(
                    self.prg_rom_len,
                    0x4000,
                    (self.prg_bank_2 % 0x80) as usize / 2,
                    ((addr - 0x8000) % 0x4000) as usize,
                )
            } else if addr < 0xE000 {
                bank_offset(
                    self.prg_rom_len,
                    0x2000,
                    (self.prg_bank_3 % 0x80) as usize,
                    (addr - 0xC000) as usize,
                )
            } else {
                bank_offset(
                    self.prg_rom_len,
                    0x2000,
                    (self.prg_bank_4 % 0x80) as usize,
                    (addr - 0xE000) as usize,
                )
            }
        } else {
            let slot = (addr - 0x8000) / 0x2000;
            let bank = if slot == 0 {
                self.prg_bank_1 % 0x80
            } else if slot == 1 {
                self.prg_bank_2 % 0x80
            } else if slot == 2 {
                self.prg_bank_3 % 0x80
            } else {
                self.prg_bank_4 % 0x80
            };
            bank_offset(
                self.prg_rom_len,
                0x2000,
                bank as usize,
                ((addr - 0x8000) % 0x2000) as usize,
            )
        }
    }
}

impl Exrom {
    /// Serve a nametable access from the cartridge, where the quadrant
    /// mapping routes it here; CIRAM quadrants yield nothing.
    pub fn nametable_read(&self, addr: u16) -> (r: Option<u8>)
        requires
            self.wf(),
        ensures
            r == self.spec_nametable_read(addr),
    {
        let quadrant = (addr % 0x1000) / 0x400;
        let divisor: u8 = if quadrant == 0 {
            1
        } else if quadrant == 1 {
            4
        } else if quadrant == 2 {
            16
        } else {
            64
        };
        proof {
            assert(divisor == pow4((addr as int % 0x1000) / 0x400));
        }
        let mode = (self.nametable_mapping / divisor) % 4;
        if mode == 2 {
            if self.exram_mode < 2 {
                Some(self.exram[(addr % 0x400) as usize])
            } else {
                Some(0)
            }
        } else if mode == 3 {
            if addr % 0x400 < 0x3C0 {
                Some(self.fill_tile)
            } else {
                Some(self.fill_color * 0x55)
            }
        } else {
            None
        }
    }
}

impl MemMap for Exrom {
    open spec fn mem_wf(&self) -> bool {
        self.wf()
    }

    open spec fn chr_capacity(&self) -> int {
        self.chr_len as int
    }

    open spec fn prg_rom_capacity(&self) -> int {
        self.prg_rom_len as int
    }

    open spec fn prg_ram_capacity(&self) -> int {
        self.prg_ram_len as int
    }

    fn map_peek(&self, addr: u16) -> (r: MappedRead)
        ensures
            r == self.spec_peek(addr),
    {
        if addr < 0x2000 {
            MappedRead::Chr(self.chr_offset(addr))
        } else if addr == 0x5204 {
            let status: u8 = (if self.irq_asserted {
                0x80u8
            } else {
                0u8
            }) + (if self.in_frame {
                0x40u8
            } else {
                0u8
            });
            MappedRead::Data(status)
        } else if addr == 0x5205 || addr == 0x5206 {
            proof {
                assert(self.multiplicand as int * self.multiplier as int <= 255 * 255)
                    by (nonlinear_arith)
                    requires
                        self.multiplicand as int <= 255,
                        self.multiplier as int <= 255,
                ;
            }
            let product: u32 = (self.multiplicand as u32) * (self.multiplier as u32);
            if addr == 0x5205 {
                MappedRead::Data((product % 0x100) as u8)
            } else {
                MappedRead::Data((product / 0x100) as u8)
            }
        } else if 0x5C00 <= addr && addr < 0x6000 {
            if self.exram_mode >= 2 {
                MappedRead::Data(self.exram[(addr % 0x400) as usize])
            } else {
                MappedRead::OpenBus
            }
        } else if 0x6000 <= addr && addr < 0x8000 {
            if self.prg_ram_len > 0 {
                MappedRead::PrgRam(
                    bank_offset(
                        self.prg_ram_len,
                        0x2000,
                        self.prg_ram_bank as usize,
                        (addr - 0x6000) as usize,
                    ),
                )
            } else {
                MappedRead::OpenBus
            }
        } else if addr >= 0x8000 {
            MappedRead::PrgRom(self.prg_offset(addr))
        } else {
            MappedRead::OpenBus
        }
    }

    /// Reading through the bus differs from peeking in one register:
    /// the 0x5204 status read acknowledges the IRQ.
    fn map_read(&mut self, addr: u16) -> (r: MappedRead)
        ensures
            r == old(self).spec_peek(addr),
            same_exrom_regs(&old(self).spec_read_state_regs(addr), &*final(self)),
            final(self).exram@ == old(self).exram@,
    {
        let r = self.map_peek(addr);
        if addr == 0x5204 {
            self.irq_asserted = false;
        }
        r
    }

    /// Register writes fill the mode, nametable, bank, multiplier and IRQ
    /// registers at 0x5100-0x5206; 0x5C00 reaches the expansion RAM;
    /// 0x6000 writes go to the banked PRG RAM when the two-part protect
    /// key is open; CHR RAM takes data writes.
    #[verifier::rlimit(100)]
    fn map_write(&mut self, addr: u16, val: u8) -> (w: MappedWrite)
        ensures
            same_exrom_regs(&old(self).spec_write_state_regs(addr, val), &*final(self)),
            final(self).exram@ == old(self).spec_write_exram(addr, val),
            w == old(self).spec_write_result(addr, val),
    {
        if addr < 0x2000 {
            let offset = self.chr_offset(addr);
            MappedWrite::Chr(offset, val)
        } else if addr == 0x5100 {
            self.prg_mode = val % 4;
            MappedWrite::Ignored
        } else if addr == 0x5101 {
            self.chr_mode = val % 4;
            MappedWrite::Ignored
        } else if addr == 0x5102 {
            self.prg_ram_protect_a = val % 4 == 2;
            MappedWrite::Ignored
        } else if addr == 0x5103 {
            self.prg_ram_protect_b = val % 4 == 1;
            MappedWrite::Ignored
        } else if addr == 0x5104 {
            self.exram_mode = val % 4;
            MappedWrite::Ignored
        } else if addr == 0x5105 {
            self.nametable_mapping = val;
            MappedWrite::Ignored
        } else if addr == 0x5106 {
            self.fill_tile = val;
            MappedWrite::Ignored
        } else if addr == 0x5107 {
            self.fill_color = val % 4;
            MappedWrite::Ignored
        } else if addr == 0x5113 {
            self.prg_ram_bank = val % 8;
            MappedWrite::Ignored
        } else if addr == 0x5114 {
            self.prg_bank_1 = val;
            MappedWrite::Ignored
        } else if addr == 0x5115 {
            self.prg_bank_2 = val;
            MappedWrite::Ignored
        } else if addr == 0x5116 {
            self.prg_bank_3 = val;
            MappedWrite::Ignored
        } else if addr == 0x5117 {
            self.prg_bank_4 = val;
            MappedWrite::Ignored
        } else if addr == 0x5120 {
            self.chr_bank_0 = (self.chr_hi as u16) * 0x100 + val as u16;
            MappedWrite::Ignored
        } else if addr == 0x5121 {
            self.chr_bank_1 = (self.chr_hi as u16) * 0x100 + val as u16;
            MappedWrite::Ignored
        } else if addr == 0x5122 {
            self.chr_bank_2 = (self.chr_hi as u16) * 0x100 + val as u16;
            MappedWrite::Ignored
        } else if addr == 0x5123 {
            self.chr_bank_3 = (self.chr_hi as u16) * 0x100 + val as u16;
            MappedWrite::Ignored
        } else if addr == 0x5124 {
            self.chr_bank_4 = (self.chr_hi as u16) * 0x100 + val as u16;
            MappedWrite::Ignored
        } else if addr == 0x5125 {
            self.chr_bank_5 = (self.chr_hi as u16) * 0x100 + val as u16;
            MappedWrite::Ignored
        } else if addr == 0x5126 {
            self.chr_bank_6 = (self.chr_hi as u16) * 0x100 + val as u16;
            MappedWrite::Ignored
        } else if addr == 0x5127 {
            self.chr_bank_7 = (self.chr_hi as u16) * 0x100 + val as u16;
            MappedWrite::Ignored
        } else if addr == 0x5130 {
            self.chr_hi = val % 4;
            MappedWrite::Ignored
        } else if addr == 0x5200 {
            self.vsplit_mode = val;
            MappedWrite::Ignored
        } else if addr == 0x5201 {
            self.vsplit_scroll = val;
            MappedWrite::Ignored
        } else if addr == 0x5202 {
            self.vsplit_bank = val;
            MappedWrite::Ignored
        } else if addr == 0x5203 {
            self.irq_scanline = val;
            MappedWrite::Ignored
        } else if addr == 0x5204 {
            self.irq_enabled = val >= 0x80;
            MappedWrite::Ignored
        } else if addr == 0x5205 {
            self.multiplicand = val;
            MappedWrite::Ignored
        } else if addr == 0x5206 {
            self.multiplier = val;
            MappedWrite::Ignored
        } else if 0x5C00 <= addr && addr < 0x6000 {
            if self.exram_mode != 3 {
                self.exram.set((addr % 0x400) as usize, val);
            }
            MappedWrite::Ignored
        } else if 0x6000 <= addr && addr < 0x8000 {
            if self.prg_ram_len > 0 && self.prg_ram_protect_a && self.prg_ram_protect_b {
                MappedWrite::PrgRam(
                    bank_offset(
                        self.prg_ram_len,
                        0x2000,
                        self.prg_ram_bank as usize,
                        (addr - 0x6000) as usize,
                    ),
                    val,
                )
            } else {
                MappedWrite::Ignored
            }
        } else {
            MappedWrite::Ignored
        }
    }
}

impl Mapped for Exrom {
    open spec fn mapped_wf(&self) -> bool {
        self.exram@.len() == 0x400
    }

    open spec fn spec_mirroring(&self) -> Option<Mirroring> {
        None
    }

    /// This board has no mirroring control; the header's wiring stands.
    fn mirroring(&self) -> (mirroring: Option<Mirroring>) {
        None
    }

    /// The IRQ line is low while the comparator has matched and the
    /// output is enabled.
    fn irq_pending(&self) -> (pending: bool)
        ensures
            pending == (self.irq_asserted && self.irq_enabled),
    {
        self.irq_asserted && self.irq_enabled
    }

    /// The quadrant modes 0 and 1 of the 0x5105 register go to the
    /// console's CIRAM; expansion RAM and fill mode are served by the
    /// cartridge.
    fn use_ciram(&self, addr: u16) -> (ciram: bool)
        ensures
            ciram == ((self.nametable_mapping as int / pow4((addr as int % 0x1000) / 0x400)) % 4
                < 2),
    {
        let quadrant = (addr % 0x1000) / 0x400;
        let divisor: u8 = if quadrant == 0 {
            1
        } else if quadrant == 1 {
            4
        } else if quadrant == 2 {
            16
        } else {
            64
        };
        proof {
            assert(divisor == pow4((addr as int % 0x1000) / 0x400));
        }
        (self.nametable_mapping / divisor) % 4 < 2
    }

    /// Which CIRAM page a nametable access goes to, when it goes to
    /// CIRAM at all.
    fn nametable_page(&self, addr: u16) -> (page: Option<u16>)
        ensures
            ({
                let mode = (self.nametable_mapping as int / pow4((addr as int % 0x1000) / 0x400))
                    % 4;
                &&& mode == 0 ==> page == Some(0u16)
                &&& mode == 1 ==> page == Some(1u16)
                &&& mode >= 2 ==> page is None
            }),
    {
        let quadrant = (addr % 0x1000) / 0x400;
        let divisor: u8 = if quadrant == 0 {
            1
        } else if quadrant == 1 {
            4
        } else if quadrant == 2 {
            16
        } else {
            64
        };
        proof {
            assert(divisor == pow4((addr as int % 0x1000) / 0x400));
        }
        let mode = (self.nametable_mapping / divisor) % 4;
        if mode == 0 {
            Some(0)
        } else if mode == 1 {
            Some(1)
        } else {
            None
        }
    }

    /// Infer scanlines from the PPU's fetch pattern: the third identical
    /// nametable fetch in a row marks a scanline. The first detected
    /// scanline enters the frame; each further one counts, matches the
    /// comparator, and past the visible frame the in-frame flag drops.
    fn ppu_addr(&mut self, addr: u16)
        ensures
            *final(self) == old(self).spec_ppu_addr(addr),
    {
        if 0x2000 <= addr && addr < 0x3000 {
            if addr == self.last_nt_addr {
                if self.nt_match_count == 1 {
                    if !self.in_frame {
                        self.in_frame = true;
                        self.scanline = 0;
                    } else if self.scanline >= 240 {
                        self.in_frame = false;
                        self.scanline = 0;
                    } else {
                        self.scanline = self.scanline + 1;
                        if self.scanline == self.irq_scanline && self.irq_scanline > 0 {
                            self.irq_asserted = true;
                        }
                    }
                    self.nt_match_count = 2;
                } else if self.nt_match_count < 255 {
                    self.nt_match_count = self.nt_match_count + 1;
                }
            } else {
                self.last_nt_addr = addr;
                self.nt_match_count = 0;
            }
        }
    }
}

/// Four to the power of a nametable quadrant index: the divisor that
/// brings the quadrant's two mapping bits to the bottom.
pub open spec fn pow4(quadrant: int) -> int {
    if quadrant == 0 {
        1
    } else if quadrant == 1 {
        4
    } else if quadrant == 2 {
        16
    } else {
        64
    }
}

} // verus!
