//! Codemasters BF909x (mapper 71): UxROM-like banking — a switchable
//! 16 KiB PRG bank at 0x8000 under the fixed last bank — with 8 KiB of CHR
//! RAM. The BF9097 revision (Fire Hawk) adds single-screen mirroring
//! control through bit 4 of writes to 0x9000-0x9FFF.

use vstd::prelude::*;
use crate::mapper::{
    bank_offset, spec_bank_offset, Mapped, MappedRead, MappedWrite, Mapper, MemMap,
};
use crate::ppu::Mirroring;

verus! {

/// Which Codemasters board revision is in the cartridge.
#[derive(Debug, Copy, Clone, PartialEq, Eq, Hash, Structural)]
pub enum Bf909Revision {
    /// The common board: no mirroring control.
    Bf909x,
    /// The Fire Hawk board: single-screen mirroring picked by register.
    Bf9097,
}

/// Switchable 16 KiB PRG window at 0x8000, fixed last bank, and the
/// BF9097 mirroring switch.
#[derive(Debug, Copy, Clone, PartialEq, Eq, Structural)]
pub struct Bf909x {
    /// Bytes of PRG ROM: a positive number of 16 KiB pages.
    pub prg_rom_len: usize,
    /// Bytes of CHR RAM: one 8 KiB page.
    pub chr_len: usize,
    /// The 16 KiB bank mapped at 0x8000.
    pub prg_lo_bank: usize,
    /// The board revision.
    pub revision: Bf909Revision,
    /// Whether the BF9097 board has its second nametable selected.
    pub second_nametable: bool,
}

impl Bf909x {
    /// The board geometry the Codemasters boards support.
    pub open spec fn wf(&self) -> bool {
        &&& 0 < self.prg_rom_len <= 0x1000_0000
        &&& self.prg_rom_len % 0x4000 == 0
        &&& self.chr_len == 0x2000
        &&& self.prg_lo_bank < 0x100
    }

    /// Where a read lands: CHR RAM below 0x2000, the selected bank in
    /// 0x8000-0xBFFF, the last bank in 0xC000-0xFFFF.
    pub open spec fn spec_peek(&self, addr: u16) -> MappedRead {
        if addr < 0x2000 {
            MappedRead::Chr(addr as usize)
        } else if 0x8000 <= addr < 0xC000 {
            MappedRead::PrgRom(
                spec_bank_offset(
                    self.prg_rom_len as int,
                    0x4000,
                    self.prg_lo_bank as int,
                    (addr - 0x8000) as int,
                ) as usize,
            )
        } else if addr >= 0xC000 {
            MappedRead::PrgRom((self.prg_rom_len - 0x4000 + (addr - 0xC000)) as usize)
        } else {
            MappedRead::OpenBus
        }
    }

    /// The state after a CPU write: 0xC000 and up latches the PRG bank;
    /// on the BF9097 board, 0x9000-0x9FFF picks the single-screen
    /// nametable from bit 4.
    pub open spec fn spec_write_state(&self, addr: u16, val: u8) -> Bf909x {
        if addr >= 0xC000 {
            Bf909x { prg_lo_bank: val as usize, ..*self }
        } else if 0x9000 <= addr < 0xA000 && self.revision == Bf909Revision::Bf9097 {
            Bf909x { second_nametable: (val as int / 16) % 2 == 1, ..*self }
        } else {
            *self
        }
    }

    /// What a CPU write hands back: CHR RAM takes data writes, everything
    /// else is swallowed.
    pub open spec fn spec_write_result(&self, addr: u16, val: u8) -> MappedWrite {
        if addr < 0x2000 {
            MappedWrite::Chr(addr as usize, val)
        } else {
            MappedWrite::Ignored
        }
    }

    /// Wire up a Codemasters board.
    pub fn load(prg_rom_len: usize, chr_len: usize, revision: Bf909Revision) -> (m: Mapper)
        requires
            0 < prg_rom_len <= 0x1000_0000,
            prg_rom_len % 0x4000 == 0,
            chr_len == 0x2000,
        ensures
            m == Mapper::Bf909x(
                Bf909x {
                    prg_rom_len,
                    chr_len,
                    prg_lo_bank: 0usize,
                    revision,
                    second_nametable: false,
                },
            ),
            m.mem_wf(),
            m.mapped_wf(),
    {
        Mapper::Bf909x(
            Bf909x { prg_rom_len, chr_len, prg_lo_bank: 0, revision, second_nametable: false },
        )
    }
}

impl MemMap for Bf909x {
    open spec fn mem_wf(&self) -> bool {
        self.wf()
    }

    open spec fn chr_capacity(&self) -> int {
        self.chr_len as int
    }

    open spec fn prg_rom_capacity(&self) -> int {
        self.prg_rom_len as int
    }

    open spec fn prg_ram_capacity(&self) -> int {
        0
    }

    /// A read has no side effects on this board.
    fn map_read(&mut self, addr: u16) -> (r: MappedRead)
        ensures
            *final(self) == *old(self),
            r == old(self).spec_peek(addr),
    {
        self.map_peek(addr)
    }

    fn map_peek(&self, addr: u16) -> (r: MappedRead)
        ensures
            r == self.spec_peek(addr),
    {
        if addr < 0x2000 {
            MappedRead::Chr(addr as usize)
        } else if 0x8000 <= addr && addr < 0xC000 {
            MappedRead::PrgRom(
                bank_offset(self.prg_rom_len, 0x4000, self.prg_lo_bank, (addr - 0x8000) as usize),
            )
        } else if addr >= 0xC000 {
            MappedRead::PrgRom(self.prg_rom_len - 0x4000 + (addr - 0xC000) as usize)
        } else {
            MappedRead::OpenBus
        }
    }

    /// Writes at 0xC000 and up latch the PRG bank; on the BF9097 board,
    /// writes into 0x9000-0x9FFF pick the single-screen nametable from
    /// bit 4; CHR RAM takes writes directly.
    fn map_write(&mut self, addr: u16, val: u8) -> (w: MappedWrite)
        ensures
            *final(self) == old(self).spec_write_state(addr, val),
            w == old(self).spec_write_result(addr, val),
    {
        if addr < 0x2000 {
            MappedWrite::Chr(addr as usize, val)
        } else if addr >= 0xC000 {
            self.prg_lo_bank = val as usize;
            MappedWrite::Ignored
        } else if 0x9000 <= addr && addr < 0xA000 && matches!(self.revision, Bf909Revision::Bf9097) {
            self.second_nametable = (val / 16) % 2 == 1;
            MappedWrite::Ignored
        } else {
            MappedWrite::Ignored
        }
    }
}

impl Mapped for Bf909x {
    open spec fn mapped_wf(&self) -> bool {
        true
    }

    /// Only the BF9097 revision overrides the header mirroring, with one
    /// of the two single screens.
    open spec fn spec_mirroring(&self) -> Option<Mirroring> {
        if self.revision == Bf909Revision::Bf9097 {
            Some(
                if self.second_nametable {
                    Mirroring::SingleScreenB
                } else {
                    Mirroring::SingleScreenA
                },
            )
        } else {
            None
        }
    }

    fn mirroring(&self) -> (mirroring: Option<Mirroring>) {
        match self.revision {
            Bf909Revision::Bf9097 => if self.second_nametable {
                Some(Mirroring::SingleScreenB)
            } else {
                Some(Mirroring::SingleScreenA)
            },
            Bf909Revision::Bf909x => None,
        }
    }
}

} // verus!
