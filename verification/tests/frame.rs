use nes_core::common::{Kind, Reset};
use nes_core::ppu::frame::{Frame, NTSC_LUT_LEN};
use nes_core::ppu::{RENDER_PIXELS, RENDER_SIZE};

#[test]
fn new_frame_is_blank() {
    let frame = Frame::new();
    assert_eq!(frame.num, 0);
    assert_eq!(frame.shift_lo, 0);
    assert_eq!(frame.shift_hi, 0);
    assert_eq!(frame.tile_addr, 0);
    assert_eq!(frame.prev_pixel, 0xFFFF_FFFF);
    assert_eq!(frame.front_buffer.len(), RENDER_PIXELS);
    assert_eq!(frame.back_buffer.len(), RENDER_PIXELS);
    assert_eq!(frame.output_buffer.len(), RENDER_SIZE);
    assert!(frame.front_buffer.iter().all(|&p| p == 0));
    assert!(frame.back_buffer.iter().all(|&p| p == 0));
    for (i, &b) in frame.output_buffer.iter().enumerate() {
        if i % 4 == 3 {
            assert_eq!(b, 255);
        } else {
            assert_eq!(b, 0);
        }
    }
}

#[test]
fn increment_counts_frames() {
    let mut frame = Frame::new();
    frame.increment();
    frame.increment();
    assert_eq!(frame.num, 2);
}

#[test]
fn put_pixel_then_get_color() {
    let mut frame = Frame::new();
    frame.put_pixel(10, 20, 0x21);
    assert_eq!(frame.get_color(10, 20), 0x21);
    assert_eq!(frame.get_color(11, 20), 0);
    assert_eq!(frame.get_color(10, 21), 0);
}

#[test]
fn swap_buffers_presents_the_back_buffer() {
    let mut frame = Frame::new();
    frame.put_pixel(3, 0, 0x16);
    frame.swap_buffers();
    // The plotted pixel moved to the front buffer; the back buffer is
    // blank again.
    assert_eq!(frame.get_color(3, 0), 0);
    let buf = frame.decode_buffer();
    // Palette entry 0x16 of the master palette.
    assert_eq!(&buf[12..16], &[152, 34, 32, 255]);
}

#[test]
fn decode_buffer_uses_the_master_palette() {
    let mut frame = Frame::new();
    let buf = frame.decode_buffer();
    assert_eq!(buf.len(), RENDER_SIZE);
    // A blank frame decodes to palette entry 0 everywhere, alpha opaque.
    assert_eq!(&buf[0..4], &[84, 84, 84, 255]);
    assert_eq!(&buf[RENDER_SIZE - 4..], &[84, 84, 84, 255]);
}

#[test]
fn ntsc_filter_blacks_out_column_zero_and_reads_the_lut() {
    let mut frame = Frame::new();
    // front[0] = 5, front[1] = 7 after the swap.
    frame.put_pixel(0, 0, 5);
    frame.put_pixel(1, 0, 7);
    frame.swap_buffers();
    let mut lut = vec![0u32; NTSC_LUT_LEN];
    // Pixel 1 on an even frame: phase (2 + 0*341 + 1 + 1) % 3 = 1, the
    // previous pixel is 5 and the current one 7.
    lut[1 + 5 * 3 + 7 * 192] = 0x00AA_BBCC;
    let buf = frame.apply_ntsc_filter(&lut);
    assert_eq!(&buf[0..4], &[0, 0, 0, 255]);
    assert_eq!(&buf[4..8], &[0xAA, 0xBB, 0xCC, 255]);
    // The last pixel of the frame seeds the next filter pass.
    assert_eq!(frame.prev_pixel, 0);
}

#[test]
fn reset_clears_counters_and_buffers() {
    let mut frame = Frame::new();
    frame.put_pixel(5, 5, 0x30);
    frame.increment();
    frame.reset(Kind::Soft);
    assert_eq!(frame.num, 0);
    assert_eq!(frame.get_color(5, 5), 0);
}

#[test]
fn default_frame_matches_new() {
    let frame = Frame::default();
    assert_eq!(frame.num, 0);
    assert_eq!(frame.front_buffer.len(), RENDER_PIXELS);
}
