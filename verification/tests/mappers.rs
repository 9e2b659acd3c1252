use nes_core::common::Clock;
use nes_core::mapper::{
    Axrom, Bf909Revision, Bf909x, Cnrom, Exrom, Gxrom, Mapped, MappedRead, MappedWrite, Mapper,
    MemMap, Mmc1Revision, Mmc3Revision, Nrom, Pxrom, Sxrom, Txrom, Uxrom, Vrc6,
};
use nes_core::ppu::Mirroring;

#[test]
fn empty_mapper_maps_nothing() {
    let mut m = Mapper::none();
    assert_eq!(m.map_peek(0x8000), MappedRead::OpenBus);
    assert_eq!(m.map_read(0x0000), MappedRead::OpenBus);
    assert_eq!(m.map_write(0x8000, 0xFF), MappedWrite::Ignored);
    assert!(!m.irq_pending());
    assert_eq!(m.mirroring(), None);
    assert!(m.use_ciram(0x2000));
    assert_eq!(m.nametable_page(0x2000), None);
}

#[test]
fn default_mapper_is_empty() {
    let m = Mapper::default();
    assert!(matches!(m, Mapper::Empty(_)));
}

#[test]
fn nrom_mirrors_a_small_prg_image() {
    let mut m = Nrom::load(0x4000, 0x2000, 0x2000);
    assert_eq!(m.map_peek(0x8000), MappedRead::PrgRom(0x0000));
    assert_eq!(m.map_peek(0xC123), MappedRead::PrgRom(0x0123));
    assert_eq!(m.map_peek(0x1000), MappedRead::Chr(0x1000));
    assert_eq!(m.map_peek(0x6001), MappedRead::PrgRam(0x0001));
    assert_eq!(m.map_peek(0x4020), MappedRead::OpenBus);
    assert_eq!(m.map_write(0x6002, 0xAB), MappedWrite::PrgRam(0x0002, 0xAB));
    assert_eq!(m.map_write(0x8000, 0xAB), MappedWrite::Ignored);
}

#[test]
fn nrom_without_ram_leaves_the_bus_open() {
    let m = Nrom::load(0x8000, 0x2000, 0);
    assert_eq!(m.map_peek(0x6000), MappedRead::OpenBus);
    assert_eq!(m.map_peek(0xFFFF), MappedRead::PrgRom(0x7FFF));
}

#[test]
fn uxrom_switches_the_low_bank_and_fixes_the_last() {
    let mut m = Uxrom::load(0x0_8000, 0x2000);
    assert_eq!(m.map_peek(0x8000), MappedRead::PrgRom(0x0000));
    m.map_write(0x8000, 1);
    assert_eq!(m.map_peek(0x8123), MappedRead::PrgRom(0x4123));
    // The high window always shows the last bank.
    assert_eq!(m.map_peek(0xC000), MappedRead::PrgRom(0x4000));
    // Banks wrap modulo the bank count.
    m.map_write(0x8000, 2);
    assert_eq!(m.map_peek(0x8000), MappedRead::PrgRom(0x0000));
    assert_eq!(m.map_write(0x0005, 0x77), MappedWrite::Chr(0x0005, 0x77));
}

#[test]
fn cnrom_switches_chr_banks() {
    let mut m = Cnrom::load(0x8000, 0x4000);
    assert_eq!(m.map_peek(0x0000), MappedRead::Chr(0x0000));
    m.map_write(0x8000, 1);
    assert_eq!(m.map_peek(0x0000), MappedRead::Chr(0x2000));
    // Two banks only: selecting bank 2 wraps to bank 0.
    m.map_write(0x8000, 2);
    assert_eq!(m.map_peek(0x0FFF), MappedRead::Chr(0x0FFF));
    assert_eq!(m.map_peek(0x9000), MappedRead::PrgRom(0x1000));
}

#[test]
fn axrom_selects_wide_banks_and_single_screens() {
    let mut m = Axrom::load(0x1_0000, 0x2000);
    assert_eq!(m.mirroring(), Some(Mirroring::SingleScreenA));
    m.map_write(0x8000, 0x11);
    assert_eq!(m.map_peek(0x8000), MappedRead::PrgRom(0x8000));
    assert_eq!(m.mirroring(), Some(Mirroring::SingleScreenB));
    m.map_write(0x8000, 0x00);
    assert_eq!(m.map_peek(0xFFFF), MappedRead::PrgRom(0x7FFF));
    assert_eq!(m.mirroring(), Some(Mirroring::SingleScreenA));
}

#[test]
fn gxrom_packs_both_banks_into_one_register() {
    let mut m = Gxrom::load(0x2_0000, 0x8000);
    m.map_write(0x8000, 0x31);
    assert_eq!(m.map_peek(0x8000), MappedRead::PrgRom(0x1_8000));
    assert_eq!(m.map_peek(0x0000), MappedRead::Chr(0x2000));
}

#[test]
fn bf909x_banks_like_uxrom() {
    let mut m = Bf909x::load(0x8000, 0x2000, Bf909Revision::Bf909x);
    m.map_write(0xC000, 1);
    assert_eq!(m.map_peek(0x8000), MappedRead::PrgRom(0x4000));
    assert_eq!(m.map_peek(0xC000), MappedRead::PrgRom(0x4000));
    // The common revision has no mirroring control.
    m.map_write(0x9000, 0x10);
    assert_eq!(m.mirroring(), None);
}

#[test]
fn bf9097_adds_single_screen_control() {
    let mut m = Bf909x::load(0x8000, 0x2000, Bf909Revision::Bf9097);
    assert_eq!(m.mirroring(), Some(Mirroring::SingleScreenA));
    m.map_write(0x9000, 0x10);
    assert_eq!(m.mirroring(), Some(Mirroring::SingleScreenB));
}

#[test]
fn mmc1_loads_registers_serially() {
    let mut m = Sxrom::load(0x2_0000, 0x2000, 0x2000, Mmc1Revision::B);
    // Power-up: the last bank is fixed at 0xC000.
    assert_eq!(m.map_peek(0xC000), MappedRead::PrgRom(0x1_C000));
    // Shift 0b01110 into the control register: vertical mirroring,
    // PRG mode 3.
    for bit in [0, 1, 1, 1, 0] {
        m.map_write(0x8000, bit);
    }
    assert_eq!(m.mirroring(), Some(Mirroring::Vertical));
    // Shift 0b00001 into the PRG register: bank 1 at 0x8000.
    for bit in [1, 0, 0, 0, 0] {
        m.map_write(0xE000, bit);
    }
    assert_eq!(m.map_peek(0x8000), MappedRead::PrgRom(0x4000));
    assert_eq!(m.map_peek(0xC000), MappedRead::PrgRom(0x1_C000));
    assert_eq!(m.map_peek(0x6005), MappedRead::PrgRam(0x0005));
}

#[test]
fn mmc1_reset_bit_refixes_the_last_bank() {
    let mut m = Sxrom::load(0x2_0000, 0x2000, 0, Mmc1Revision::B);
    // Two stray bits, then a reset write.
    m.map_write(0x8000, 1);
    m.map_write(0x8000, 1);
    m.map_write(0x8000, 0x80);
    // The shift register is empty again: five fresh writes commit.
    for bit in [0, 1, 0, 0, 0] {
        m.map_write(0xA000, bit);
    }
    if let Mapper::Sxrom(s) = &m {
        assert_eq!(s.chr0, 2);
        assert_eq!(s.shift_count, 0);
    } else {
        panic!("expected an SxROM board");
    }
}

#[test]
fn mmc2_latches_swap_chr_banks_on_magic_fetches() {
    let mut m = Pxrom::load(0x1_0000, 0x4000);
    m.map_write(0xB000, 1); // FD bank for the low window
    m.map_write(0xC000, 2); // FE bank for the low window
    assert_eq!(m.map_peek(0x0000), MappedRead::Chr(0x1000));
    m.ppu_read(0x0FE8);
    assert_eq!(m.map_peek(0x0000), MappedRead::Chr(0x2000));
    m.ppu_read(0x0FD8);
    assert_eq!(m.map_peek(0x0000), MappedRead::Chr(0x1000));
    // PRG: one switchable 8 KiB bank, the last three fixed.
    m.map_write(0xA000, 1);
    assert_eq!(m.map_peek(0x8000), MappedRead::PrgRom(0x2000));
    assert_eq!(m.map_peek(0xA000), MappedRead::PrgRom(0xA000));
    m.map_write(0xF000, 1);
    assert_eq!(m.mirroring(), Some(Mirroring::Horizontal));
}

#[test]
fn mmc3_banks_prg_in_four_slots() {
    let mut m = Txrom::load(0x2_0000, 0x2_0000, 0x2000, Mmc3Revision::BC);
    m.map_write(0x8000, 6);
    m.map_write(0x8001, 2);
    m.map_write(0x8000, 7);
    m.map_write(0x8001, 3);
    assert_eq!(m.map_peek(0x8000), MappedRead::PrgRom(2 * 0x2000));
    assert_eq!(m.map_peek(0xA000), MappedRead::PrgRom(3 * 0x2000));
    assert_eq!(m.map_peek(0xC000), MappedRead::PrgRom(14 * 0x2000));
    assert_eq!(m.map_peek(0xE000), MappedRead::PrgRom(15 * 0x2000));
    // PRG mode 1 swaps the switchable and fixed low slots.
    m.map_write(0x8000, 0x46);
    assert_eq!(m.map_peek(0x8000), MappedRead::PrgRom(14 * 0x2000));
    assert_eq!(m.map_peek(0xC000), MappedRead::PrgRom(2 * 0x2000));
    // CHR: 2 KiB window from register 0, low bit ignored.
    m.map_write(0x8000, 0);
    m.map_write(0x8001, 5);
    assert_eq!(m.map_peek(0x0000), MappedRead::Chr(4 * 0x400));
    assert_eq!(m.map_peek(0x0400), MappedRead::Chr(5 * 0x400));
}

#[test]
fn mmc3_ram_protect_gates_writes() {
    let mut m = Txrom::load(0x2_0000, 0x2000, 0x2000, Mmc3Revision::BC);
    assert_eq!(m.map_write(0x6000, 1), MappedWrite::Ignored);
    m.map_write(0xA001, 0x80);
    assert_eq!(m.map_write(0x6000, 1), MappedWrite::PrgRam(0, 1));
    m.map_write(0xA001, 0xC0);
    assert_eq!(m.map_write(0x6000, 1), MappedWrite::Ignored);
}

/// Four low observations then a high one: one filtered rising edge of
/// address line 12.
fn a12_edge(m: &mut Txrom) {
    for _ in 0..4 {
        m.ppu_addr(0x0000);
    }
    m.ppu_addr(0x1000);
}

#[test]
fn mmc3_counts_filtered_a12_edges() {
    let mut m = Txrom::load(0x2_0000, 0x2000, 0, Mmc3Revision::BC);
    if let Mapper::Txrom(t) = &mut m {
        t.map_write(0xC000, 1); // latch
        t.map_write(0xC001, 0); // reload on next edge
        t.map_write(0xE001, 0); // enable
        a12_edge(t); // reload: counter = 1
        assert!(!t.irq_pending());
        a12_edge(t); // decrement to 0: fire
        assert!(t.irq_pending());
        t.map_write(0xE000, 0); // disable and acknowledge
        assert!(!t.irq_pending());
    } else {
        panic!("expected a TxROM board");
    }
}

#[test]
fn mmc3_revisions_differ_on_a_zero_latch() {
    for (revision, fires) in [(Mmc3Revision::A, false), (Mmc3Revision::BC, true)] {
        let mut m = Txrom::load(0x2_0000, 0x2000, 0, revision);
        if let Mapper::Txrom(t) = &mut m {
            t.map_write(0xC000, 0); // latch 0
            t.map_write(0xC001, 0);
            t.map_write(0xE001, 0);
            a12_edge(t); // reload straight to 0
            assert_eq!(t.irq_pending(), fires);
        } else {
            panic!("expected a TxROM board");
        }
    }
}

#[test]
fn mmc3_drives_mirroring() {
    let mut m = Txrom::load(0x2_0000, 0x2000, 0, Mmc3Revision::BC);
    assert_eq!(m.mirroring(), Some(Mirroring::Vertical));
    m.map_write(0xA000, 1);
    assert_eq!(m.mirroring(), Some(Mirroring::Horizontal));
    // No mirroring mode of this board bypasses the console's CIRAM.
    assert!(m.use_ciram(0x2000));
}

#[test]
fn vrc6_banks_prg_and_chr() {
    let mut m = Vrc6::load(0x2_0000, 0x8000, 0x2000, false);
    m.map_write(0x8000, 1);
    assert_eq!(m.map_peek(0x8000), MappedRead::PrgRom(0x4000));
    m.map_write(0xC000, 3);
    assert_eq!(m.map_peek(0xC000), MappedRead::PrgRom(3 * 0x2000));
    assert_eq!(m.map_peek(0xE000), MappedRead::PrgRom(0x2_0000 - 0x2000));
    m.map_write(0xD000, 2);
    assert_eq!(m.map_peek(0x0000), MappedRead::Chr(0x800));
    m.map_write(0xB003, 0x08);
    assert_eq!(m.mirroring(), Some(Mirroring::SingleScreenA));
}

#[test]
fn vrc6_swapped_lines_pick_the_other_register() {
    let mut m = Vrc6::load(0x2_0000, 0x8000, 0, true);
    // With A0 and A1 swapped, 0xD001 selects register 2.
    m.map_write(0xD001, 5);
    assert_eq!(m.map_peek(0x0800), MappedRead::Chr(5 * 0x400));
}

#[test]
fn vrc6_irq_counts_cpu_cycles() {
    let mut m = Vrc6::load(0x2_0000, 0x8000, 0, false);
    if let Mapper::Vrc6(v) = &mut m {
        v.map_write(0xF000, 0xFE); // latch
        v.map_write(0xF001, 0x06); // enable, cycle mode
        assert_eq!(v.clock(), 1);
        assert!(!v.irq_pending());
        assert_eq!(v.clock(), 1);
        assert!(v.irq_pending());
        v.map_write(0xF002, 0); // acknowledge; bit 0 was clear, so it stops
        assert!(!v.irq_pending());
        assert_eq!(v.clock(), 0);
    } else {
        panic!("expected a VRC6 board");
    }
}

#[test]
fn mmc5_multiplier_is_read_back_in_two_halves() {
    let mut m = Exrom::load(0x2_0000, 0x2_0000, 0x1_0000);
    // Power-up state multiplies 0xFF by 0xFF.
    assert_eq!(m.map_peek(0x5205), MappedRead::Data(0x01));
    assert_eq!(m.map_peek(0x5206), MappedRead::Data(0xFE));
    m.map_write(0x5205, 6);
    m.map_write(0x5206, 7);
    assert_eq!(m.map_peek(0x5205), MappedRead::Data(42));
    assert_eq!(m.map_peek(0x5206), MappedRead::Data(0));
}

#[test]
fn mmc5_banks_prg_by_mode() {
    let mut m = Exrom::load(0x2_0000, 0x2_0000, 0x1_0000);
    // Power-up: 8 KiB mode with the last bank everywhere.
    assert_eq!(m.map_peek(0xE000), MappedRead::PrgRom(15 * 0x2000));
    m.map_write(0x5114, 0x82); // bank 2, ROM marker set
    assert_eq!(m.map_peek(0x8000), MappedRead::PrgRom(2 * 0x2000));
    // 32 KiB mode: everything comes from the top bank group.
    m.map_write(0x5100, 0);
    m.map_write(0x5117, 0xFF);
    assert_eq!(m.map_peek(0x8000), MappedRead::PrgRom(0x1_8000));
    assert_eq!(m.map_peek(0xFFFF), MappedRead::PrgRom(0x1_FFFF));
}

#[test]
fn mmc5_prg_ram_window_is_banked_and_protected() {
    let mut m = Exrom::load(0x2_0000, 0x2_0000, 0x1_0000);
    m.map_write(0x5113, 3);
    assert_eq!(m.map_peek(0x6004), MappedRead::PrgRam(3 * 0x2000 + 4));
    assert_eq!(m.map_write(0x6004, 9), MappedWrite::Ignored);
    m.map_write(0x5102, 2);
    m.map_write(0x5103, 1);
    assert_eq!(m.map_write(0x6004, 9), MappedWrite::PrgRam(3 * 0x2000 + 4, 9));
}

#[test]
fn mmc5_exram_answers_in_ram_modes_only() {
    let mut m = Exrom::load(0x2_0000, 0x2_0000, 0);
    m.map_write(0x5C05, 0xAB);
    assert_eq!(m.map_peek(0x5C05), MappedRead::OpenBus);
    m.map_write(0x5104, 2);
    assert_eq!(m.map_peek(0x5C05), MappedRead::Data(0xAB));
}

#[test]
fn mmc5_routes_nametables_per_quadrant() {
    let mut m = Exrom::load(0x2_0000, 0x2_0000, 0);
    m.map_write(0x5105, 0x44);
    assert_eq!(m.nametable_page(0x2000), Some(0));
    assert_eq!(m.nametable_page(0x2400), Some(1));
    assert_eq!(m.nametable_page(0x2800), Some(0));
    assert_eq!(m.nametable_page(0x2C00), Some(1));
    assert!(m.use_ciram(0x2000));
    m.map_write(0x5105, 0xFF);
    assert_eq!(m.nametable_page(0x2000), None);
    assert!(!m.use_ciram(0x2000));
}

#[test]
fn mmc5_infers_scanlines_and_fires_its_irq() {
    let mut m = Exrom::load(0x2_0000, 0x2_0000, 0);
    m.map_write(0x5203, 2); // compare scanline 2
    m.map_write(0x5204, 0x80); // enable
    // Three identical nametable fetches enter the frame at scanline 0.
    for _ in 0..3 {
        m.ppu_addr(0x2000);
    }
    assert!(!m.irq_pending());
    // Each further triple on a fresh address is one scanline.
    for _ in 0..3 {
        m.ppu_addr(0x2400);
    }
    assert!(!m.irq_pending());
    for _ in 0..3 {
        m.ppu_addr(0x2000);
    }
    assert!(m.irq_pending());
    // Reading the status register acknowledges.
    let status = m.map_read(0x5204);
    assert_eq!(status, MappedRead::Data(0xC0));
    assert!(!m.irq_pending());
}

#[test]
fn mmc1_wide_prg_and_split_chr_modes() {
    let mut m = Sxrom::load(0x2_0000, 0x4000, 0, Mmc1Revision::B);
    // Control 0b00010: vertical mirroring, 32 KiB PRG mode, 8 KiB CHR.
    for bit in [0, 1, 0, 0, 0] {
        m.map_write(0x8000, bit);
    }
    // PRG bank 2 in 32 KiB mode: the low bank bit is dropped.
    for bit in [0, 1, 0, 0, 0] {
        m.map_write(0xE000, bit);
    }
    assert_eq!(m.map_peek(0x8000), MappedRead::PrgRom(0x8000));
    assert_eq!(m.map_peek(0xC000), MappedRead::PrgRom(0xC000));
    // Control 0b10010: 4 KiB CHR windows.
    for bit in [0, 1, 0, 0, 1] {
        m.map_write(0x8000, bit);
    }
    // CHR bank 1 at 0x0000 and bank 3 at 0x1000.
    for bit in [1, 0, 0, 0, 0] {
        m.map_write(0xA000, bit);
    }
    for bit in [1, 1, 0, 0, 0] {
        m.map_write(0xC000, bit);
    }
    assert_eq!(m.map_peek(0x0000), MappedRead::Chr(0x1000));
    assert_eq!(m.map_peek(0x1000), MappedRead::Chr(0x3000));
}

#[test]
fn mmc5_banks_chr_by_mode() {
    let mut m = Exrom::load(0x2_0000, 0x2_0000, 0);
    // Power-up 1 KiB mode: slot banks 0..7.
    assert_eq!(m.map_peek(0x0C05), MappedRead::Chr(3 * 0x400 + 5));
    // 4 KiB mode: registers 3 and 7 serve the two halves.
    m.map_write(0x5101, 1);
    m.map_write(0x5123, 4);
    m.map_write(0x5127, 5);
    assert_eq!(m.map_peek(0x0000), MappedRead::Chr(4 * 0x1000));
    assert_eq!(m.map_peek(0x1000), MappedRead::Chr(5 * 0x1000));
    // 2 KiB mode: registers 1, 3, 5, 7.
    m.map_write(0x5101, 2);
    m.map_write(0x5121, 9);
    assert_eq!(m.map_peek(0x0000), MappedRead::Chr(9 * 0x800));
}

#[test]
fn vrc6_irq_scanline_mode_uses_the_prescaler() {
    let mut m = Vrc6::load(0x2_0000, 0x8000, 0, false);
    if let Mapper::Vrc6(v) = &mut m {
        v.map_write(0xF000, 0xFF); // latch: next tick rolls over
        v.map_write(0xF001, 0x02); // enable, scanline mode
        // The prescaler passes 341 dots — a shade under 114 CPU cycles —
        // before the counter ticks.
        for _ in 0..114 {
            assert!(!v.irq_pending());
            v.clock();
        }
        assert!(v.irq_pending());
    } else {
        panic!("expected a VRC6 board");
    }
}

#[test]
fn vrc6b_swaps_the_irq_registers() {
    // With A0 and A1 swapped, control sits at 0xF002 and acknowledge at
    // 0xF001.
    let mut m = Vrc6::load(0x2_0000, 0x8000, 0, true);
    if let Mapper::Vrc6(v) = &mut m {
        v.map_write(0xF000, 0xFE); // latch: index 0 under either wiring
        v.map_write(0xF001, 0x06); // acknowledge slot: must not enable
        assert_eq!(v.clock(), 0);
        v.map_write(0xF002, 0x06); // control slot: enable, cycle mode
        assert_eq!(v.clock(), 1);
        v.clock();
        assert!(v.irq_pending());
        v.map_write(0xF001, 0); // acknowledge
        assert!(!v.irq_pending());
    } else {
        panic!("expected a VRC6 board");
    }
}

#[test]
fn mmc3_revisions_filter_edges_differently() {
    // Three low observations before the rise satisfy the later
    // revisions' filter but not the first revision's longer dead time.
    for (revision, fires) in [(Mmc3Revision::A, false), (Mmc3Revision::BC, true)] {
        let mut m = Txrom::load(0x2_0000, 0x2000, 0, revision);
        if let Mapper::Txrom(t) = &mut m {
            t.map_write(0xC000, 0);
            t.map_write(0xC001, 0);
            t.map_write(0xE001, 0);
            for _ in 0..3 {
                t.ppu_addr(0x0000);
            }
            t.ppu_addr(0x1000);
            assert_eq!(t.irq_pending(), fires);
        } else {
            panic!("expected a TxROM board");
        }
    }
}

#[test]
fn mmc5_latches_upper_chr_bits() {
    let mut m = Exrom::load(0x2_0000, 0x8_0000, 0);
    m.map_write(0x5130, 1);
    m.map_write(0x5127, 2); // slot 7 takes bank 0x102
    assert_eq!(m.map_peek(0x1C05), MappedRead::Chr(0x102 * 0x400 + 5));
    // The upper bits latch at write time; changing them later leaves
    // already-written banks alone.
    m.map_write(0x5130, 0);
    m.map_write(0x5120, 9);
    assert_eq!(m.map_peek(0x0000), MappedRead::Chr(9 * 0x400));
    assert_eq!(m.map_peek(0x1C00), MappedRead::Chr(0x102 * 0x400));
}

#[test]
fn mmc5_latches_split_registers() {
    let mut m = Exrom::load(0x2_0000, 0x2_0000, 0);
    m.map_write(0x5200, 0x95);
    m.map_write(0x5201, 0x40);
    m.map_write(0x5202, 3);
    if let Mapper::Exrom(e) = &m {
        assert_eq!(e.vsplit_mode, 0x95);
        assert_eq!(e.vsplit_scroll, 0x40);
        assert_eq!(e.vsplit_bank, 3);
    } else {
        panic!("expected an ExROM board");
    }
}

#[test]
fn mmc5_serves_fill_and_exram_nametables() {
    let mut m = Exrom::load(0x2_0000, 0x2_0000, 0);
    // All four quadrants in fill mode: tiles read the fill tile, the
    // attribute rows the fill attribute replicated across the byte.
    m.map_write(0x5105, 0xFF);
    m.map_write(0x5106, 0xAB);
    m.map_write(0x5107, 2);
    assert_eq!(m.nametable_read(0x2000), Some(0xAB));
    assert_eq!(m.nametable_read(0x23C0), Some(0xAA));
    // All four quadrants on the expansion RAM, serving stored bytes.
    m.map_write(0x5105, 0xAA);
    m.map_write(0x5C05, 0x77);
    assert_eq!(m.nametable_read(0x2005), Some(0x77));
    // In its plain-RAM modes the expansion RAM reads back zero as a
    // nametable.
    m.map_write(0x5104, 2);
    assert_eq!(m.nametable_read(0x2005), Some(0));
    // CIRAM quadrants are not served by the cartridge.
    m.map_write(0x5105, 0x00);
    assert_eq!(m.nametable_read(0x2005), None);
}
