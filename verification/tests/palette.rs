use nes_core::ppu::palette::{base_rgb, palette_rgb, MASTER_PALETTE_SIZE, SYSTEM_PALETTE_SIZE};

#[test]
fn base_colors_match_the_master_palette() {
    assert_eq!(base_rgb(0x00), (84, 84, 84));
    assert_eq!(base_rgb(0x01), (0, 30, 116));
    assert_eq!(base_rgb(0x16), (152, 34, 32));
    assert_eq!(base_rgb(0x20), (236, 238, 236));
    assert_eq!(base_rgb(0x21), (76, 154, 236));
    assert_eq!(base_rgb(0x2A), (76, 208, 32));
    assert_eq!(base_rgb(0x3F), (0, 0, 0));
}

#[test]
fn no_emphasis_keeps_the_base_color() {
    for color in 0..MASTER_PALETTE_SIZE {
        assert_eq!(palette_rgb(color), base_rgb(color));
    }
}

#[test]
fn emphasis_dims_the_unselected_channels() {
    // Red emphasis over color 0x20 (236, 238, 236): green and blue drop
    // by a quarter.
    assert_eq!(palette_rgb(0x40 + 0x20), (236, 179, 177));
    // Green emphasis keeps green.
    assert_eq!(palette_rgb(0x80 + 0x20), (177, 238, 177));
    // Blue emphasis keeps blue.
    assert_eq!(palette_rgb(0x100 + 0x20), (177, 179, 236));
    // All three bits keep everything.
    assert_eq!(palette_rgb(0x1C0 + 0x20), (236, 238, 236));
}

#[test]
fn every_index_decodes() {
    for index in 0..SYSTEM_PALETTE_SIZE {
        let _ = palette_rgb(index);
    }
}
