//! Cartridge memory mappers.
//!
//! A mapper is the cartridge-resident logic that remaps the console's
//! narrow address space onto larger ROMs. Every variant answers CPU reads
//! and writes with a [`MappedRead`] or [`MappedWrite`] telling the deck
//! which backing store the access lands in and at which offset, may drive
//! the nametable mirroring, and may raise an IRQ. Mappers never hold the
//! ROM bytes themselves; they only translate addresses, so every offset
//! they hand out is proved to lie inside the backing store it names.

use vstd::prelude::*;
use vstd::arithmetic::div_mod::lemma_fundamental_div_mod;
use vstd::arithmetic::mul::{lemma_mul_inequality, lemma_mul_is_distributive_add};
use crate::common::{Clock, NesRegion, Reset};
use crate::ppu::Mirroring;

pub use m000_nrom::Nrom;
pub use m001_sxrom::{Mmc1Revision, Sxrom};
pub use m002_uxrom::Uxrom;
pub use m003_cnrom::Cnrom;
pub use m004_txrom::{Mmc3Revision, Txrom};
pub use m005_exrom::Exrom;
pub use m007_axrom::Axrom;
pub use m009_pxrom::Pxrom;
pub use m024_m026_vrc6::Vrc6;
pub use m066_gxrom::Gxrom;
pub use m071_bf909x::{Bf909Revision, Bf909x};

pub mod m000_nrom;
pub mod m001_sxrom;
pub mod m002_uxrom;
pub mod m003_cnrom;
pub mod m004_txrom;
pub mod m005_exrom;
pub mod m007_axrom;
pub mod m009_pxrom;
pub mod m024_m026_vrc6;
pub mod m066_gxrom;
pub mod m071_bf909x;
pub mod vrc_irq;

verus! {

/// A CPU read translated by the mapper: either unhandled (`OpenBus`, the
/// bus then yields its open-bus latch), an offset into CHR memory, PRG ROM
/// or PRG RAM, or a literal byte from an internal register.
#[derive(Debug, Copy, Clone, PartialEq, Eq, Structural)]
pub enum MappedRead {
    OpenBus,
    Chr(usize),
    PrgRom(usize),
    PrgRam(usize),
    Data(u8),
}

/// A CPU write translated by the mapper: either swallowed (`Ignored`, as a
/// bank register write is), a write into CHR RAM or PRG RAM at the given
/// offset, or a toggle of the PRG RAM write protection.
#[derive(Debug, Copy, Clone, PartialEq, Eq, Structural)]
pub enum MappedWrite {
    Ignored,
    Chr(usize, u8),
    PrgRam(usize, u8),
    PrgRamProtect(bool),
}

/// Every offset a translated read names lies inside the backing store it
/// points into.
pub open spec fn read_in_bounds(r: MappedRead, chr: int, prg_rom: int, prg_ram: int) -> bool {
    match r {
        MappedRead::OpenBus => true,
        MappedRead::Chr(offset) => offset < chr,
        MappedRead::PrgRom(offset) => offset < prg_rom,
        MappedRead::PrgRam(offset) => offset < prg_ram,
        MappedRead::Data(_) => true,
    }
}

/// Every offset a translated write names lies inside the backing store it
/// points into.
pub open spec fn write_in_bounds(w: MappedWrite, chr: int, prg_ram: int) -> bool {
    match w {
        MappedWrite::Ignored => true,
        MappedWrite::Chr(offset, _) => offset < chr,
        MappedWrite::PrgRam(offset, _) => offset < prg_ram,
        MappedWrite::PrgRamProtect(_) => true,
    }
}

/// The byte offset that bank `bank` of size `window`, taken modulo the
/// store's bank count, gives to the in-window position `pos`.
pub open spec fn spec_bank_offset(len: int, window: int, bank: int, pos: int) -> int {
    (bank % (len / window)) * window + pos
}

/// Resolve a banked address: `bank` wraps modulo the number of
/// `window`-sized banks in a store of `len` bytes, and `pos` is the offset
/// inside the window. The result always lies inside the store.
pub fn bank_offset(len: usize, window: usize, bank: usize, pos: usize) -> (offset: usize)
    requires
        0 < window <= len,
        len % window == 0,
        len <= 0x1000_0000,
        bank <= 0xFFFF,
        pos < window,
    ensures
        offset == spec_bank_offset(len as int, window as int, bank as int, pos as int),
        offset < len,
{
    let nbanks = len / window;
    proof {
        lemma_fundamental_div_mod(len as int, window as int);
        assert(nbanks >= 1);
    }
    let b = bank % nbanks;
    proof {
        lemma_mul_inequality(b as int + 1, nbanks as int, window as int);
        lemma_mul_is_distributive_add(window as int, b as int, 1);
    }
    b * window + pos
}

/// Address translation. Reads and writes may move internal state (bank
/// latches, IRQ counters), but they never resize the backing stores, and
/// every offset they hand out is in bounds.
pub trait MemMap: Sized {
    /// The mapper's internal registers are consistent with the sizes of
    /// the backing stores it maps into.
    spec fn mem_wf(&self) -> bool;

    /// Bytes of CHR memory (ROM or RAM) behind the cartridge.
    spec fn chr_capacity(&self) -> int;

    /// Bytes of PRG ROM behind the cartridge.
    spec fn prg_rom_capacity(&self) -> int;

    /// Bytes of PRG RAM behind the cartridge.
    spec fn prg_ram_capacity(&self) -> int;

    /// Translate a CPU read, moving any read-sensitive state.
    fn map_read(&mut self, addr: u16) -> (r: MappedRead)
        requires
            old(self).mem_wf(),
        ensures
            final(self).mem_wf(),
            final(self).chr_capacity() == old(self).chr_capacity(),
            final(self).prg_rom_capacity() == old(self).prg_rom_capacity(),
            final(self).prg_ram_capacity() == old(self).prg_ram_capacity(),
            read_in_bounds(
                r,
                old(self).chr_capacity(),
                old(self).prg_rom_capacity(),
                old(self).prg_ram_capacity(),
            ),
        default_ensures
            *final(self) == *old(self),
    {
        self.map_peek(addr)
    }

    /// Translate a CPU read without side effects; debuggers and DMA
    /// inspection use this. Unhandled by default.
    fn map_peek(&self, addr: u16) -> (r: MappedRead)
        requires
            self.mem_wf(),
        ensures
            read_in_bounds(r, self.chr_capacity(), self.prg_rom_capacity(), self.prg_ram_capacity()),
        default_ensures
            r == MappedRead::OpenBus,
    {
        MappedRead::OpenBus
    }

    /// Translate a CPU write, moving bank registers and the like.
    /// Swallowed by default.
    fn map_write(&mut self, addr: u16, val: u8) -> (w: MappedWrite)
        requires
            old(self).mem_wf(),
        ensures
            final(self).mem_wf(),
            final(self).chr_capacity() == old(self).chr_capacity(),
            final(self).prg_rom_capacity() == old(self).prg_rom_capacity(),
            final(self).prg_ram_capacity() == old(self).prg_ram_capacity(),
            write_in_bounds(w, old(self).chr_capacity(), old(self).prg_ram_capacity()),
        default_ensures
            *final(self) == *old(self),
            w == MappedWrite::Ignored,
    {
        MappedWrite::Ignored
    }
}

/// The cartridge-side signals besides address translation: IRQs, the
/// mirroring override, and the PPU bus observation hooks that IRQ counters
/// and CHR latches listen to.
pub trait Mapped: Sized {
    /// The observation state is consistent.
    spec fn mapped_wf(&self) -> bool;

    /// The mirroring the mapper imposes, as a function of its registers;
    /// `None` leaves the cartridge header's wiring in force.
    spec fn spec_mirroring(&self) -> Option<Mirroring>;

    /// Whether the mapper is holding the CPU's IRQ line low.
    fn irq_pending(&self) -> (pending: bool)
        default_ensures
            !pending,
    {
        false
    }

    /// The mirroring the mapper imposes; `None` leaves the cartridge
    /// header's wiring in force.
    fn mirroring(&self) -> (mirroring: Option<Mirroring>)
        ensures
            mirroring == self.spec_mirroring(),
    ;

    /// Whether a nametable access at `addr` goes to the console's own
    /// CIRAM; exactly four-screen carts bypass it and bring their own RAM.
    fn use_ciram(&self, addr: u16) -> (ciram: bool)
        default_ensures
            ciram == (self.spec_mirroring() != Some(Mirroring::FourScreen)),
    {
        !(matches!(self.mirroring(), Some(Mirroring::FourScreen)))
    }

    /// The nametable page the mapper routes `addr` to, for mappers that
    /// remap nametables individually.
    fn nametable_page(&self, addr: u16) -> (page: Option<u16>)
        default_ensures
            page is None,
    {
        None
    }

    /// Observe a PPU bus address change; MMC3-style scanline counters
    /// watch address line 12 here.
    fn ppu_addr(&mut self, addr: u16)
        requires
            old(self).mapped_wf(),
        ensures
            final(self).mapped_wf(),
        default_ensures
            *final(self) == *old(self),
    {
    }

    /// Observe a PPU read; CHR latch mappers switch banks here.
    fn ppu_read(&mut self, addr: u16)
        requires
            old(self).mapped_wf(),
        ensures
            final(self).mapped_wf(),
        default_ensures
            *final(self) == *old(self),
    {
    }

    /// Observe a PPU write.
    fn ppu_write(&mut self, addr: u16, val: u8)
        requires
            old(self).mapped_wf(),
        ensures
            final(self).mapped_wf(),
        default_ensures
            *final(self) == *old(self),
    {
    }

    /// Adopt the console region, for mappers whose timing depends on it.
    fn set_region(&mut self, region: NesRegion)
        requires
            old(self).mapped_wf(),
        ensures
            final(self).mapped_wf(),
        default_ensures
            *final(self) == *old(self),
    {
    }
}

/// The mapper of an empty deck with no cartridge inserted: it maps
/// nothing.
#[derive(Debug, Copy, Clone, PartialEq, Eq, Structural)]
pub struct Empty;

impl MemMap for Empty {
    open spec fn mem_wf(&self) -> bool {
        true
    }

    open spec fn chr_capacity(&self) -> int {
        0
    }

    open spec fn prg_rom_capacity(&self) -> int {
        0
    }

    open spec fn prg_ram_capacity(&self) -> int {
        0
    }

    /// An empty deck never answers a read.
    fn map_read(&mut self, addr: u16) -> (r: MappedRead)
        ensures
            *final(self) == *old(self),
            r == MappedRead::OpenBus,
    {
        MappedRead::OpenBus
    }
}

impl Mapped for Empty {
    open spec fn mapped_wf(&self) -> bool {
        true
    }

    open spec fn spec_mirroring(&self) -> Option<Mirroring> {
        None
    }

    /// An empty deck leaves the wiring alone.
    fn mirroring(&self) -> (mirroring: Option<Mirroring>) {
        None
    }
}

impl Clock for Empty {
}

impl Reset for Empty {
}

/// A per-cartridge die revision selector, for the boards that shipped in
/// several revisions with observable differences.
#[derive(Debug, Copy, Clone, PartialEq, Eq, Hash, Structural)]
pub enum MapperRevision {
    Mmc1(Mmc1Revision),
    Mmc3(Mmc3Revision),
    Bf909(Bf909Revision),
}

/// The cartridge mapper: one envelope over every supported board, so the
/// deck can hold any of them by value and dispatch without heap
/// indirection.
#[derive(Debug, Clone)]
pub enum Mapper {
    Empty(Empty),
    Nrom(Nrom),
    Sxrom(Sxrom),
    Uxrom(Uxrom),
    Cnrom(Cnrom),
    Txrom(Txrom),
    Exrom(Exrom),
    Axrom(Axrom),
    Pxrom(Pxrom),
    Vrc6(Vrc6),
    Gxrom(Gxrom),
    Bf909x(Bf909x),
}

impl Mapper {
    /// The mapper of a deck with no cartridge inserted.
    pub fn none() -> (m: Self)
        ensures
            m == Mapper::Empty(Empty),
            m.mem_wf(),
            m.mapped_wf(),
    {
        Mapper::Empty(Empty)
    }

    /// Bytes of PRG ROM behind the inserted cartridge.
    pub fn prg_rom_size(&self) -> (n: usize)
        ensures
            n == self.prg_rom_capacity(),
    {
        match self {
            Mapper::Empty(_) => 0,
            Mapper::Nrom(m) => m.prg_rom_len,
            Mapper::Sxrom(m) => m.prg_rom_len,
            Mapper::Uxrom(m) => m.prg_rom_len,
            Mapper::Cnrom(m) => m.prg_rom_len,
            Mapper::Txrom(m) => m.prg_rom_len,
            Mapper::Exrom(m) => m.prg_rom_len,
            Mapper::Axrom(m) => m.prg_rom_len,
            Mapper::Pxrom(m) => m.prg_rom_len,
            Mapper::Vrc6(m) => m.prg_rom_len,
            Mapper::Gxrom(m) => m.prg_rom_len,
            Mapper::Bf909x(m) => m.prg_rom_len,
        }
    }

    /// Bytes of CHR memory behind the inserted cartridge.
    pub fn chr_size(&self) -> (n: usize)
        ensures
            n == self.chr_capacity(),
    {
        match self {
            Mapper::Empty(_) => 0,
            Mapper::Nrom(m) => m.chr_len,
            Mapper::Sxrom(m) => m.chr_len,
            Mapper::Uxrom(m) => m.chr_len,
            Mapper::Cnrom(m) => m.chr_len,
            Mapper::Txrom(m) => m.chr_len,
            Mapper::Exrom(m) => m.chr_len,
            Mapper::Axrom(m) => m.chr_len,
            Mapper::Pxrom(m) => m.chr_len,
            Mapper::Vrc6(m) => m.chr_len,
            Mapper::Gxrom(m) => m.chr_len,
            Mapper::Bf909x(m) => m.chr_len,
        }
    }

    /// Bytes of PRG RAM behind the inserted cartridge.
    pub fn prg_ram_size(&self) -> (n: usize)
        ensures
            n == self.prg_ram_capacity(),
    {
        match self {
            Mapper::Empty(_) => 0,
            Mapper::Nrom(m) => m.prg_ram_len,
            Mapper::Sxrom(m) => m.prg_ram_len,
            Mapper::Uxrom(_) => 0,
            Mapper::Cnrom(_) => 0,
            Mapper::Txrom(m) => m.prg_ram_len,
            Mapper::Exrom(m) => m.prg_ram_len,
            Mapper::Axrom(_) => 0,
            Mapper::Pxrom(_) => 0,
            Mapper::Vrc6(m) => m.prg_ram_len,
            Mapper::Gxrom(_) => 0,
            Mapper::Bf909x(_) => 0,
        }
    }

    /// Where the inserted board sends a read: each variant's own decode.
    pub open spec fn spec_peek(&self, addr: u16) -> MappedRead {
        match self {
            Mapper::Empty(_) => MappedRead::OpenBus,
            Mapper::Nrom(m) => m.spec_peek(addr),
            Mapper::Sxrom(m) => m.spec_peek(addr),
            Mapper::Uxrom(m) => m.spec_peek(addr),
            Mapper::Cnrom(m) => m.spec_peek(addr),
            Mapper::Txrom(m) => m.spec_peek(addr),
            Mapper::Exrom(m) => m.spec_peek(addr),
            Mapper::Axrom(m) => m.spec_peek(addr),
            Mapper::Pxrom(m) => m.spec_peek(addr),
            Mapper::Vrc6(m) => m.spec_peek(addr),
            Mapper::Gxrom(m) => m.spec_peek(addr),
            Mapper::Bf909x(m) => m.spec_peek(addr),
        }
    }

    /// What the inserted board hands back for a write: the backing-store
    /// write for data regions, `Ignored` for register and ROM regions.
    pub open spec fn spec_write_result(&self, addr: u16, val: u8) -> MappedWrite {
        match self {
            Mapper::Empty(_) => MappedWrite::Ignored,
            Mapper::Nrom(m) => m.spec_write_result(addr, val),
            Mapper::Sxrom(m) => m.spec_write_result(addr, val),
            Mapper::Uxrom(m) => m.spec_write_result(addr, val),
            Mapper::Cnrom(m) => m.spec_write_result(addr, val),
            Mapper::Txrom(m) => m.spec_write_result(addr, val),
            Mapper::Exrom(m) => m.spec_write_result(addr, val),
            Mapper::Axrom(m) => m.spec_write_result(addr, val),
            Mapper::Pxrom(m) => m.spec_write_result(addr, val),
            Mapper::Vrc6(m) => m.spec_write_result(addr, val),
            Mapper::Gxrom(m) => m.spec_write_result(addr, val),
            Mapper::Bf909x(m) => m.spec_write_result(addr, val),
        }
    }

    /// The state the inserted board is left in after a write: each
    /// variant's own register transition. The MMC5 also owns a writable
    /// expansion RAM, so its transition is stated on the board itself
    /// rather than here.
    pub open spec fn spec_write_state(&self, addr: u16, val: u8) -> Mapper {
        match self {
            Mapper::Empty(_) => *self,
            Mapper::Nrom(m) => Mapper::Nrom(m.spec_write_state(addr, val)),
            Mapper::Sxrom(m) => Mapper::Sxrom(m.spec_write_state(addr, val)),
            Mapper::Uxrom(m) => Mapper::Uxrom(m.spec_write_state(addr, val)),
            Mapper::Cnrom(m) => Mapper::Cnrom(m.spec_write_state(addr, val)),
            Mapper::Txrom(m) => Mapper::Txrom(m.spec_write_state(addr, val)),
            Mapper::Exrom(_) => *self,
            Mapper::Axrom(m) => Mapper::Axrom(m.spec_write_state(addr, val)),
            Mapper::Pxrom(m) => Mapper::Pxrom(m.spec_write_state(addr, val)),
            Mapper::Vrc6(m) => Mapper::Vrc6(m.spec_write_state(addr, val)),
            Mapper::Gxrom(m) => Mapper::Gxrom(m.spec_write_state(addr, val)),
            Mapper::Bf909x(m) => Mapper::Bf909x(m.spec_write_state(addr, val)),
        }
    }

    /// Whether a nametable access through the inserted board reaches the
    /// console's own CIRAM: always, except through the MMC5's per-quadrant
    /// mapping, whose upper modes serve expansion RAM or the fill tile
    /// from the cartridge. No supported board wires four-screen RAM.
    pub open spec fn spec_use_ciram(&self, addr: u16) -> bool {
        match self {
            Mapper::Exrom(m) => (m.nametable_mapping as int / m005_exrom::pow4(
                (addr as int % 0x1000) / 0x400,
            )) % 4 < 2,
            _ => self.spec_mirroring() != Some(Mirroring::FourScreen),
        }
    }

    /// The state the inserted board is left in after a PPU bus address
    /// observation: only the scanline-counting boards move.
    pub open spec fn spec_ppu_addr_state(&self, addr: u16) -> Mapper {
        match self {
            Mapper::Txrom(m) => Mapper::Txrom(m.spec_ppu_addr(addr)),
            Mapper::Exrom(m) => Mapper::Exrom(m.spec_ppu_addr(addr)),
            _ => *self,
        }
    }

    /// The state the inserted board is left in after a PPU read
    /// observation: only the CHR latch board moves.
    pub open spec fn spec_ppu_read_state(&self, addr: u16) -> Mapper {
        match self {
            Mapper::Pxrom(m) => Mapper::Pxrom(m.spec_ppu_read(addr)),
            _ => *self,
        }
    }

    /// What the inserted board itself serves for a nametable access, on
    /// the quadrants it routes away from CIRAM: only the MMC5 does.
    pub open spec fn spec_nametable_read(&self, addr: u16) -> Option<u8> {
        match self {
            Mapper::Exrom(m) => m.spec_nametable_read(addr),
            _ => None,
        }
    }

    /// Serve a nametable access from the cartridge, where the inserted
    /// board routes it away from the console's CIRAM.
    pub fn nametable_read(&self, addr: u16) -> (r: Option<u8>)
        requires
            self.mem_wf(),
        ensures
            r == self.spec_nametable_read(addr),
    {
        match self {
            Mapper::Exrom(m) => m.nametable_read(addr),
            _ => None,
        }
    }

    /// The nametable page the inserted board routes an access to, for
    /// boards that remap nametables individually.
    pub open spec fn spec_nametable_page(&self, addr: u16) -> Option<u16> {
        match self {
            Mapper::Exrom(m) => {
                let mode = (m.nametable_mapping as int / m005_exrom::pow4(
                    (addr as int % 0x1000) / 0x400,
                )) % 4;
                if mode == 0 {
                    Some(0u16)
                } else if mode == 1 {
                    Some(1u16)
                } else {
                    None
                }
            },
            _ => None,
        }
    }

    /// Whether the inserted board is holding the IRQ line low.
    pub open spec fn spec_irq_pending(&self) -> bool {
        match self {
            Mapper::Txrom(m) => m.irq_asserted,
            Mapper::Exrom(m) => m.irq_asserted && m.irq_enabled,
            Mapper::Vrc6(m) => m.irq.pending,
            _ => false,
        }
    }
}

impl Default for Mapper {
    /// A deck powers up with no cartridge inserted.
    fn default() -> (m: Self)
        ensures
            m == Mapper::Empty(Empty),
    {
        Mapper::none()
    }
}

impl MemMap for Mapper {
    open spec fn mem_wf(&self) -> bool {
        match self {
            Mapper::Empty(m) => m.mem_wf(),
            Mapper::Nrom(m) => m.mem_wf(),
            Mapper::Sxrom(m) => m.mem_wf(),
            Mapper::Uxrom(m) => m.mem_wf(),
            Mapper::Cnrom(m) => m.mem_wf(),
            Mapper::Txrom(m) => m.mem_wf(),
            Mapper::Exrom(m) => m.mem_wf(),
            Mapper::Axrom(m) => m.mem_wf(),
            Mapper::Pxrom(m) => m.mem_wf(),
            Mapper::Vrc6(m) => m.mem_wf(),
            Mapper::Gxrom(m) => m.mem_wf(),
            Mapper::Bf909x(m) => m.mem_wf(),
        }
    }

    open spec fn chr_capacity(&self) -> int {
        match self {
            Mapper::Empty(m) => m.chr_capacity(),
            Mapper::Nrom(m) => m.chr_capacity(),
            Mapper::Sxrom(m) => m.chr_capacity(),
            Mapper::Uxrom(m) => m.chr_capacity(),
            Mapper::Cnrom(m) => m.chr_capacity(),
            Mapper::Txrom(m) => m.chr_capacity(),
            Mapper::Exrom(m) => m.chr_capacity(),
            Mapper::Axrom(m) => m.chr_capacity(),
            Mapper::Pxrom(m) => m.chr_capacity(),
            Mapper::Vrc6(m) => m.chr_capacity(),
            Mapper::Gxrom(m) => m.chr_capacity(),
            Mapper::Bf909x(m) => m.chr_capacity(),
        }
    }

    open spec fn prg_rom_capacity(&self) -> int {
        match self {
            Mapper::Empty(m) => m.prg_rom_capacity(),
            Mapper::Nrom(m) => m.prg_rom_capacity(),
            Mapper::Sxrom(m) => m.prg_rom_capacity(),
            Mapper::Uxrom(m) => m.prg_rom_capacity(),
            Mapper::Cnrom(m) => m.prg_rom_capacity(),
            Mapper::Txrom(m) => m.prg_rom_capacity(),
            Mapper::Exrom(m) => m.prg_rom_capacity(),
            Mapper::Axrom(m) => m.prg_rom_capacity(),
            Mapper::Pxrom(m) => m.prg_rom_capacity(),
            Mapper::Vrc6(m) => m.prg_rom_capacity(),
            Mapper::Gxrom(m) => m.prg_rom_capacity(),
            Mapper::Bf909x(m) => m.prg_rom_capacity(),
        }
    }

    open spec fn prg_ram_capacity(&self) -> int {
        match self {
            Mapper::Empty(m) => m.prg_ram_capacity(),
            Mapper::Nrom(m) => m.prg_ram_capacity(),
            Mapper::Sxrom(m) => m.prg_ram_capacity(),
            Mapper::Uxrom(m) => m.prg_ram_capacity(),
            Mapper::Cnrom(m) => m.prg_ram_capacity(),
            Mapper::Txrom(m) => m.prg_ram_capacity(),
            Mapper::Exrom(m) => m.prg_ram_capacity(),
            Mapper::Axrom(m) => m.prg_ram_capacity(),
            Mapper::Pxrom(m) => m.prg_ram_capacity(),
            Mapper::Vrc6(m) => m.prg_ram_capacity(),
            Mapper::Gxrom(m) => m.prg_ram_capacity(),
            Mapper::Bf909x(m) => m.prg_ram_capacity(),
        }
    }

    /// Reads through the envelope translate exactly as the board's own
    /// decode says; only the MMC5's status register makes a read move
    /// state at all.
    fn map_read(&mut self, addr: u16) -> (r: MappedRead)
        ensures
            r == old(self).spec_peek(addr),
            !(*old(self) is Exrom) ==> *final(self) == *old(self),
            *old(self) matches Mapper::Exrom(e) ==> *final(self) matches Mapper::Exrom(f)
                && m005_exrom::same_exrom_regs(&e.spec_read_state_regs(addr), &f) && f.exram@
                == e.exram@,
    {
        match self {
            Mapper::Empty(m) => m.map_read(addr),
            Mapper::Nrom(m) => m.map_read(addr),
            Mapper::Sxrom(m) => m.map_read(addr),
            Mapper::Uxrom(m) => m.map_read(addr),
            Mapper::Cnrom(m) => m.map_read(addr),
            Mapper::Txrom(m) => m.map_read(addr),
            Mapper::Exrom(m) => m.map_read(addr),
            Mapper::Axrom(m) => m.map_read(addr),
            Mapper::Pxrom(m) => m.map_read(addr),
            Mapper::Vrc6(m) => m.map_read(addr),
            Mapper::Gxrom(m) => m.map_read(addr),
            Mapper::Bf909x(m) => m.map_read(addr),
        }
    }

    fn map_peek(&self, addr: u16) -> (r: MappedRead)
        ensures
            r == self.spec_peek(addr),
    {
        match self {
            Mapper::Empty(m) => m.map_peek(addr),
            Mapper::Nrom(m) => m.map_peek(addr),
            Mapper::Sxrom(m) => m.map_peek(addr),
            Mapper::Uxrom(m) => m.map_peek(addr),
            Mapper::Cnrom(m) => m.map_peek(addr),
            Mapper::Txrom(m) => m.map_peek(addr),
            Mapper::Exrom(m) => m.map_peek(addr),
            Mapper::Axrom(m) => m.map_peek(addr),
            Mapper::Pxrom(m) => m.map_peek(addr),
            Mapper::Vrc6(m) => m.map_peek(addr),
            Mapper::Gxrom(m) => m.map_peek(addr),
            Mapper::Bf909x(m) => m.map_peek(addr),
        }
    }

    fn map_write(&mut self, addr: u16, val: u8) -> (w: MappedWrite)
        ensures
            w == old(self).spec_write_result(addr, val),
            !(*old(self) is Exrom) ==> *final(self) == old(self).spec_write_state(addr, val),
            *old(self) matches Mapper::Exrom(e) ==> *final(self) matches Mapper::Exrom(f)
                && m005_exrom::same_exrom_regs(&e.spec_write_state_regs(addr, val), &f) && f.exram@
                == e.spec_write_exram(addr, val),
    {
        match self {
            Mapper::Empty(m) => m.map_write(addr, val),
            Mapper::Nrom(m) => m.map_write(addr, val),
            Mapper::Sxrom(m) => m.map_write(addr, val),
            Mapper::Uxrom(m) => m.map_write(addr, val),
            Mapper::Cnrom(m) => m.map_write(addr, val),
            Mapper::Txrom(m) => m.map_write(addr, val),
            Mapper::Exrom(m) => m.map_write(addr, val),
            Mapper::Axrom(m) => m.map_write(addr, val),
            Mapper::Pxrom(m) => m.map_write(addr, val),
            Mapper::Vrc6(m) => m.map_write(addr, val),
            Mapper::Gxrom(m) => m.map_write(addr, val),
            Mapper::Bf909x(m) => m.map_write(addr, val),
        }
    }
}

impl Mapped for Mapper {
    open spec fn mapped_wf(&self) -> bool {
        match self {
            Mapper::Empty(m) => m.mapped_wf(),
            Mapper::Nrom(m) => m.mapped_wf(),
            Mapper::Sxrom(m) => m.mapped_wf(),
            Mapper::Uxrom(m) => m.mapped_wf(),
            Mapper::Cnrom(m) => m.mapped_wf(),
            Mapper::Txrom(m) => m.mapped_wf(),
            Mapper::Exrom(m) => m.mapped_wf(),
            Mapper::Axrom(m) => m.mapped_wf(),
            Mapper::Pxrom(m) => m.mapped_wf(),
            Mapper::Vrc6(m) => m.mapped_wf(),
            Mapper::Gxrom(m) => m.mapped_wf(),
            Mapper::Bf909x(m) => m.mapped_wf(),
        }
    }

    fn irq_pending(&self) -> (pending: bool)
        ensures
            pending == self.spec_irq_pending(),
    {
        match self {
            Mapper::Empty(m) => m.irq_pending(),
            Mapper::Nrom(m) => m.irq_pending(),
            Mapper::Sxrom(m) => m.irq_pending(),
            Mapper::Uxrom(m) => m.irq_pending(),
            Mapper::Cnrom(m) => m.irq_pending(),
            Mapper::Txrom(m) => m.irq_pending(),
            Mapper::Exrom(m) => m.irq_pending(),
            Mapper::Axrom(m) => m.irq_pending(),
            Mapper::Pxrom(m) => m.irq_pending(),
            Mapper::Vrc6(m) => m.irq_pending(),
            Mapper::Gxrom(m) => m.irq_pending(),
            Mapper::Bf909x(m) => m.irq_pending(),
        }
    }

    open spec fn spec_mirroring(&self) -> Option<Mirroring> {
        match self {
            Mapper::Empty(m) => m.spec_mirroring(),
            Mapper::Nrom(m) => m.spec_mirroring(),
            Mapper::Sxrom(m) => m.spec_mirroring(),
            Mapper::Uxrom(m) => m.spec_mirroring(),
            Mapper::Cnrom(m) => m.spec_mirroring(),
            Mapper::Txrom(m) => m.spec_mirroring(),
            Mapper::Exrom(m) => m.spec_mirroring(),
            Mapper::Axrom(m) => m.spec_mirroring(),
            Mapper::Pxrom(m) => m.spec_mirroring(),
            Mapper::Vrc6(m) => m.spec_mirroring(),
            Mapper::Gxrom(m) => m.spec_mirroring(),
            Mapper::Bf909x(m) => m.spec_mirroring(),
        }
    }

    fn mirroring(&self) -> (mirroring: Option<Mirroring>) {
        match self {
            Mapper::Empty(m) => m.mirroring(),
            Mapper::Nrom(m) => m.mirroring(),
            Mapper::Sxrom(m) => m.mirroring(),
            Mapper::Uxrom(m) => m.mirroring(),
            Mapper::Cnrom(m) => m.mirroring(),
            Mapper::Txrom(m) => m.mirroring(),
            Mapper::Exrom(m) => m.mirroring(),
            Mapper::Axrom(m) => m.mirroring(),
            Mapper::Pxrom(m) => m.mirroring(),
            Mapper::Vrc6(m) => m.mirroring(),
            Mapper::Gxrom(m) => m.mirroring(),
            Mapper::Bf909x(m) => m.mirroring(),
        }
    }

    fn use_ciram(&self, addr: u16) -> (ciram: bool)
        ensures
            ciram == self.spec_use_ciram(addr),
    {
        match self {
            Mapper::Empty(m) => m.use_ciram(addr),
            Mapper::Nrom(m) => m.use_ciram(addr),
            Mapper::Sxrom(m) => m.use_ciram(addr),
            Mapper::Uxrom(m) => m.use_ciram(addr),
            Mapper::Cnrom(m) => m.use_ciram(addr),
            Mapper::Txrom(m) => m.use_ciram(addr),
            Mapper::Exrom(m) => m.use_ciram(addr),
            Mapper::Axrom(m) => m.use_ciram(addr),
            Mapper::Pxrom(m) => m.use_ciram(addr),
            Mapper::Vrc6(m) => m.use_ciram(addr),
            Mapper::Gxrom(m) => m.use_ciram(addr),
            Mapper::Bf909x(m) => m.use_ciram(addr),
        }
    }

    fn nametable_page(&self, addr: u16) -> (page: Option<u16>)
        ensures
            page == self.spec_nametable_page(addr),
    {
        match self {
            Mapper::Empty(m) => m.nametable_page(addr),
            Mapper::Nrom(m) => m.nametable_page(addr),
            Mapper::Sxrom(m) => m.nametable_page(addr),
            Mapper::Uxrom(m) => m.nametable_page(addr),
            Mapper::Cnrom(m) => m.nametable_page(addr),
            Mapper::Txrom(m) => m.nametable_page(addr),
            Mapper::Exrom(m) => m.nametable_page(addr),
            Mapper::Axrom(m) => m.nametable_page(addr),
            Mapper::Pxrom(m) => m.nametable_page(addr),
            Mapper::Vrc6(m) => m.nametable_page(addr),
            Mapper::Gxrom(m) => m.nametable_page(addr),
            Mapper::Bf909x(m) => m.nametable_page(addr),
        }
    }

    fn ppu_addr(&mut self, addr: u16)
        ensures
            *final(self) == old(self).spec_ppu_addr_state(addr),
    {
        match self {
            Mapper::Empty(m) => m.ppu_addr(addr),
            Mapper::Nrom(m) => m.ppu_addr(addr),
            Mapper::Sxrom(m) => m.ppu_addr(addr),
            Mapper::Uxrom(m) => m.ppu_addr(addr),
            Mapper::Cnrom(m) => m.ppu_addr(addr),
            Mapper::Txrom(m) => m.ppu_addr(addr),
            Mapper::Exrom(m) => m.ppu_addr(addr),
            Mapper::Axrom(m) => m.ppu_addr(addr),
            Mapper::Pxrom(m) => m.ppu_addr(addr),
            Mapper::Vrc6(m) => m.ppu_addr(addr),
            Mapper::Gxrom(m) => m.ppu_addr(addr),
            Mapper::Bf909x(m) => m.ppu_addr(addr),
        }
    }

    fn ppu_read(&mut self, addr: u16)
        ensures
            *final(self) == old(self).spec_ppu_read_state(addr),
    {
        match self {
            Mapper::Empty(m) => m.ppu_read(addr),
            Mapper::Nrom(m) => m.ppu_read(addr),
            Mapper::Sxrom(m) => m.ppu_read(addr),
            Mapper::Uxrom(m) => m.ppu_read(addr),
            Mapper::Cnrom(m) => m.ppu_read(addr),
            Mapper::Txrom(m) => m.ppu_read(addr),
            Mapper::Exrom(m) => m.ppu_read(addr),
            Mapper::Axrom(m) => m.ppu_read(addr),
            Mapper::Pxrom(m) => m.ppu_read(addr),
            Mapper::Vrc6(m) => m.ppu_read(addr),
            Mapper::Gxrom(m) => m.ppu_read(addr),
            Mapper::Bf909x(m) => m.ppu_read(addr),
        }
    }

    /// No supported board reacts to PPU writes.
    fn ppu_write(&mut self, addr: u16, val: u8)
        ensures
            *final(self) == *old(self),
    {
        match self {
            Mapper::Empty(m) => m.ppu_write(addr, val),
            Mapper::Nrom(m) => m.ppu_write(addr, val),
            Mapper::Sxrom(m) => m.ppu_write(addr, val),
            Mapper::Uxrom(m) => m.ppu_write(addr, val),
            Mapper::Cnrom(m) => m.ppu_write(addr, val),
            Mapper::Txrom(m) => m.ppu_write(addr, val),
            Mapper::Exrom(m) => m.ppu_write(addr, val),
            Mapper::Axrom(m) => m.ppu_write(addr, val),
            Mapper::Pxrom(m) => m.ppu_write(addr, val),
            Mapper::Vrc6(m) => m.ppu_write(addr, val),
            Mapper::Gxrom(m) => m.ppu_write(addr, val),
            Mapper::Bf909x(m) => m.ppu_write(addr, val),
        }
    }

    /// No supported board's translation depends on the region.
    fn set_region(&mut self, region: NesRegion)
        ensures
            *final(self) == *old(self),
    {
        match self {
            Mapper::Empty(m) => m.set_region(region),
            Mapper::Nrom(m) => m.set_region(region),
            Mapper::Sxrom(m) => m.set_region(region),
            Mapper::Uxrom(m) => m.set_region(region),
            Mapper::Cnrom(m) => m.set_region(region),
            Mapper::Txrom(m) => m.set_region(region),
            Mapper::Exrom(m) => m.set_region(region),
            Mapper::Axrom(m) => m.set_region(region),
            Mapper::Pxrom(m) => m.set_region(region),
            Mapper::Vrc6(m) => m.set_region(region),
            Mapper::Gxrom(m) => m.set_region(region),
            Mapper::Bf909x(m) => m.set_region(region),
        }
    }
}

} // verus!
