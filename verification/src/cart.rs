//! The cartridge: the mapper together with the byte stores it translates
//! into, and the open-bus latch of the data bus. Reads resolve the
//! mapper's translation against the actual PRG ROM, CHR and PRG RAM
//! bytes; unmapped reads return the latch, and every bus transaction
//! drives it.

use vstd::prelude::*;
use vstd::pervasive::VecAdditionalExecFns;
use crate::mapper::m005_exrom::same_exrom_regs;
use crate::mapper::{Mapped, MappedRead, MappedWrite, Mapper, MemMap};

verus! {

/// A cartridge in the deck: the board's translation logic, its byte
/// stores, and the data-bus latch.
#[derive(Debug, Clone)]
pub struct Cart {
    /// The board's translation logic and registers.
    pub mapper: Mapper,
    /// The PRG ROM image.
    pub prg_rom: Vec<u8>,
    /// The CHR ROM or RAM image.
    pub chr: Vec<u8>,
    /// The PRG RAM, battery-backed on some boards; empty when absent.
    pub prg_ram: Vec<u8>,
    /// The last value driven on the data bus, returned for unmapped
    /// reads.
    pub open_bus: u8,
}

impl Cart {
    /// The stores are exactly as large as the mapper maps into, so every
    /// offset the mapper hands out lands inside them.
    pub open spec fn wf(&self) -> bool {
        &&& self.mapper.mem_wf()
        &&& self.mapper.mapped_wf()
        &&& self.prg_rom@.len() == self.mapper.prg_rom_capacity()
        &&& self.chr@.len() == self.mapper.chr_capacity()
        &&& self.prg_ram@.len() == self.mapper.prg_ram_capacity()
    }

    /// The byte a bus read at `addr` yields: the mapper's translation
    /// resolved against the stores, the open-bus latch for unmapped
    /// regions, the register byte where the board answers itself.
    pub open spec fn spec_read_value(&self, addr: u16) -> u8 {
        match self.mapper.spec_peek(addr) {
            MappedRead::OpenBus => self.open_bus,
            MappedRead::Chr(offset) => self.chr@[offset as int],
            MappedRead::PrgRom(offset) => self.prg_rom@[offset as int],
            MappedRead::PrgRam(offset) => self.prg_ram@[offset as int],
            MappedRead::Data(value) => value,
        }
    }

    /// The CHR store after a bus write at `addr`: updated where the
    /// mapper routes the write into CHR RAM, untouched everywhere else.
    pub open spec fn spec_written_chr(&self, addr: u16, val: u8) -> Seq<u8> {
        match self.mapper.spec_write_result(addr, val) {
            MappedWrite::Chr(offset, value) => self.chr@.update(offset as int, value),
            _ => self.chr@,
        }
    }

    /// The PRG RAM store after a bus write at `addr`.
    pub open spec fn spec_written_prg_ram(&self, addr: u16, val: u8) -> Seq<u8> {
        match self.mapper.spec_write_result(addr, val) {
            MappedWrite::PrgRam(offset, value) => self.prg_ram@.update(offset as int, value),
            _ => self.prg_ram@,
        }
    }

    /// Wire a mapper to its byte stores. Stores whose sizes disagree
    /// with what the mapper was loaded for are refused.
    pub fn try_new(mapper: Mapper, prg_rom: Vec<u8>, chr: Vec<u8>, prg_ram: Vec<u8>) -> (r: Option<
        Cart,
    >)
        requires
            mapper.mem_wf(),
            mapper.mapped_wf(),
        ensures
            r is Some <==> prg_rom@.len() == mapper.prg_rom_capacity() && chr@.len()
                == mapper.chr_capacity() && prg_ram@.len() == mapper.prg_ram_capacity(),
            r matches Some(c) ==> c.wf() && c.mapper == mapper && c.prg_rom@ == prg_rom@ && c.chr@
                == chr@ && c.prg_ram@ == prg_ram@ && c.open_bus == 0,
    {
        if prg_rom.len() == mapper.prg_rom_size() && chr.len() == mapper.chr_size()
            && prg_ram.len() == mapper.prg_ram_size() {
            Some(Cart { mapper, prg_rom, chr, prg_ram, open_bus: 0 })
        } else {
            None
        }
    }

    /// A CPU (or PPU pattern) read through the mapper. Unmapped regions
    /// yield the open-bus latch; whatever is read drives the latch.
    pub fn read(&mut self, addr: u16) -> (v: u8)
        requires
            old(self).wf(),
        ensures
            final(self).wf(),
            v == old(self).spec_read_value(addr),
            final(self).open_bus == v,
            final(self).prg_rom@ == old(self).prg_rom@,
            final(self).chr@ == old(self).chr@,
            final(self).prg_ram@ == old(self).prg_ram@,
            !(old(self).mapper is Exrom) ==> final(self).mapper == old(self).mapper,
            old(self).mapper matches Mapper::Exrom(e) ==> final(self).mapper matches Mapper::Exrom(
                f,
            ) && same_exrom_regs(&e.spec_read_state_regs(addr), &f) && f.exram@ == e.exram@,
    {
        let value = match self.mapper.map_read(addr) {
            MappedRead::OpenBus => self.open_bus,
            MappedRead::Chr(offset) => self.chr[offset],
            MappedRead::PrgRom(offset) => self.prg_rom[offset],
            MappedRead::PrgRam(offset) => self.prg_ram[offset],
            MappedRead::Data(value) => value,
        };
        self.open_bus = value;
        value
    }

    /// A side-effect-free read, for debuggers and DMA inspection: the
    /// same byte, with neither the boards' read-sensitive registers nor
    /// the open-bus latch moved.
    pub fn peek(&self, addr: u16) -> (v: u8)
        requires
            self.wf(),
        ensures
            v == self.spec_read_value(addr),
    {
        match self.mapper.map_peek(addr) {
            MappedRead::OpenBus => self.open_bus,
            MappedRead::Chr(offset) => self.chr[offset],
            MappedRead::PrgRom(offset) => self.prg_rom[offset],
            MappedRead::PrgRam(offset) => self.prg_ram[offset],
            MappedRead::Data(value) => value,
        }
    }

    /// A CPU (or PPU pattern) write through the mapper: register writes
    /// move the board, data writes land in CHR RAM or PRG RAM, and the
    /// written value drives the open-bus latch.
    pub fn write(&mut self, addr: u16, val: u8)
        requires
            old(self).wf(),
        ensures
            final(self).wf(),
            final(self).open_bus == val,
            final(self).prg_rom@ == old(self).prg_rom@,
            final(self).chr@ == old(self).spec_written_chr(addr, val),
            final(self).prg_ram@ == old(self).spec_written_prg_ram(addr, val),
            !(old(self).mapper is Exrom) ==> final(self).mapper == old(self).mapper.spec_write_state(
                addr,
                val,
            ),
            old(self).mapper matches Mapper::Exrom(e) ==> final(self).mapper matches Mapper::Exrom(
                f,
            ) && same_exrom_regs(&e.spec_write_state_regs(addr, val), &f) && f.exram@
                == e.spec_write_exram(addr, val),
    {
        match self.mapper.map_write(addr, val) {
            MappedWrite::Ignored => (),
            MappedWrite::Chr(offset, value) => self.chr.set(offset, value),
            MappedWrite::PrgRam(offset, value) => self.prg_ram.set(offset, value),
            MappedWrite::PrgRamProtect(_) => (),
        }
        self.open_bus = val;
    }

    /// Pass a PPU bus address change to the board's observation hook.
    pub fn ppu_bus_addr(&mut self, addr: u16)
        requires
            old(self).wf(),
        ensures
            final(self).wf(),
            final(self).mapper == old(self).mapper.spec_ppu_addr_state(addr),
            final(self).prg_rom@ == old(self).prg_rom@,
            final(self).chr@ == old(self).chr@,
            final(self).prg_ram@ == old(self).prg_ram@,
            final(self).open_bus == old(self).open_bus,
    {
        self.mapper.ppu_addr(addr);
    }

    /// Pass a PPU read observation to the board's latch hook.
    pub fn ppu_bus_read(&mut self, addr: u16)
        requires
            old(self).wf(),
        ensures
            final(self).wf(),
            final(self).mapper == old(self).mapper.spec_ppu_read_state(addr),
            final(self).prg_rom@ == old(self).prg_rom@,
            final(self).chr@ == old(self).chr@,
            final(self).prg_ram@ == old(self).prg_ram@,
            final(self).open_bus == old(self).open_bus,
    {
        self.mapper.ppu_read(addr);
    }

    /// Whether the board is holding the CPU's IRQ line low.
    pub fn irq_pending(&self) -> (pending: bool)
        ensures
            pending == self.mapper.spec_irq_pending(),
    {
        self.mapper.irq_pending()
    }
}

} // verus!
