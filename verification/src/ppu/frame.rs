//! The PPU's frame state: background tile shift registers and the
//! double-buffered 256x240 frame of palette indices, together with the
//! decoders that turn the front buffer into RGBA bytes.

use vstd::prelude::*;
use vstd::pervasive::VecAdditionalExecFns;
use crate::common::{Kind, Reset};
use crate::ppu::palette::{palette_rgb, system_palette, SYSTEM_PALETTE_SIZE};
use crate::ppu::{RENDER_HEIGHT, RENDER_PIXELS, RENDER_SIZE, RENDER_WIDTH};

verus! {

/// Entries of the composite-video lookup table handed to
/// [`Frame::apply_ntsc_filter`]: one packed RGB word for every
/// (phase, previous color, current palette index) combination.
pub const NTSC_LUT_LEN: usize = 98304;

/// Per-frame rendering state. The `front_buffer` holds the finished frame
/// of palette indices that decoding reads; the PPU plots into the
/// `back_buffer`; `output_buffer` is the decoded RGBA image.
#[derive(Debug, Clone)]
pub struct Frame {
    /// Frames completed since the last reset.
    pub num: u32,
    /// Background pattern shift register, low bit plane.
    pub shift_lo: u16,
    /// Background pattern shift register, high bit plane.
    pub shift_hi: u16,
    /// Nametable address of the tile being fetched.
    pub tile_addr: u16,
    /// Latched low bit plane of the tile being fetched.
    pub tile_lo: u8,
    /// Latched high bit plane of the tile being fetched.
    pub tile_hi: u8,
    /// Palette selection for the previous tile.
    pub prev_palette: u8,
    /// Palette selection for the current tile.
    pub curr_palette: u8,
    /// Palette selection latched from the attribute fetch.
    pub palette: u8,
    /// The palette index of the pixel decoded just before the current one;
    /// the composite filter blends neighbouring pixels through it.
    pub prev_pixel: u32,
    /// Linear index of the pixel the PPU plotted last.
    pub last_updated_pixel: u32,
    /// The finished frame of palette indices, the one decoding reads.
    pub front_buffer: Vec<u16>,
    /// The frame of palette indices the PPU is currently plotting into.
    pub back_buffer: Vec<u16>,
    /// The decoded RGBA image.
    pub output_buffer: Vec<u8>,
}

impl Frame {
    /// The finished frame of palette indices, as a sequence.
    pub open spec fn front(&self) -> Seq<u16> {
        self.front_buffer@
    }

    /// The frame under construction, as a sequence.
    pub open spec fn back(&self) -> Seq<u16> {
        self.back_buffer@
    }

    /// The decoded RGBA image, as a sequence.
    pub open spec fn output(&self) -> Seq<u8> {
        self.output_buffer@
    }

    /// Both pixel buffers cover the full frame and hold palette indices,
    /// and the RGBA buffer has four bytes per pixel.
    pub open spec fn wf(&self) -> bool {
        &&& self.front().len() == RENDER_PIXELS
        &&& self.back().len() == RENDER_PIXELS
        &&& self.output().len() == RENDER_SIZE
        &&& forall|i: int|
            0 <= i < RENDER_PIXELS ==> #[trigger] self.front()[i] < SYSTEM_PALETTE_SIZE
        &&& forall|i: int|
            0 <= i < RENDER_PIXELS ==> #[trigger] self.back()[i] < SYSTEM_PALETTE_SIZE
    }
}

/// The tile-fetch registers of `a` and `b` agree.
pub open spec fn same_tile_state(a: Frame, b: Frame) -> bool {
    &&& b.shift_lo == a.shift_lo
    &&& b.shift_hi == a.shift_hi
    &&& b.tile_addr == a.tile_addr
    &&& b.tile_lo == a.tile_lo
    &&& b.tile_hi == a.tile_hi
    &&& b.prev_palette == a.prev_palette
    &&& b.curr_palette == a.curr_palette
    &&& b.palette == a.palette
}

/// The pixel-tracking registers of `a` and `b` agree.
pub open spec fn same_pixel_trackers(a: Frame, b: Frame) -> bool {
    &&& b.prev_pixel == a.prev_pixel
    &&& b.last_updated_pixel == a.last_updated_pixel
}

/// Pixel `i` of `front` has been decoded into bytes `4*i .. 4*i + 3` of
/// `out` through the system palette.
pub open spec fn decoded_pixel(front: Seq<u16>, out: Seq<u8>, i: int) -> bool {
    let rgb = system_palette(front[i] as int);
    &&& out[4 * i] == rgb.0
    &&& out[4 * i + 1] == rgb.1
    &&& out[4 * i + 2] == rgb.2
}

/// The packed RGB word the composite filter produces for pixel `i`:
/// the first pixel of every scanline is forced to black (it has no
/// in-scanline predecessor), every other pixel is looked up in the table
/// by color phase, the previous pixel's base color, and its own palette
/// index.
pub open spec fn ntsc_color(front: Seq<u16>, num: u32, lut: Seq<u32>, i: int) -> u32 {
    if i % 256 == 0 {
        0u32
    } else {
        let even_phase: int = if num % 2 == 1 { 0 } else { 1 };
        let phase = (2 + (i / 256) * 341 + (i % 256) + even_phase) % 3;
        lut[phase + (front[i - 1] % 64) * 3 + front[i] * 192]
    }
}

/// Pixel `i` of `front` has been filtered into bytes `4*i .. 4*i + 3` of
/// `out`: the packed word's red, green and blue octets, in that order.
pub open spec fn filtered_pixel(front: Seq<u16>, num: u32, lut: Seq<u32>, out: Seq<u8>, i: int) -> bool {
    let color = ntsc_color(front, num, lut, i);
    &&& out[4 * i] == ((color >> 16) & 0xFF) as u8
    &&& out[4 * i + 1] == ((color >> 8) & 0xFF) as u8
    &&& out[4 * i + 2] == (color & 0xFF) as u8
}

/// A vector of `len` copies of `value`.
fn filled<T: Copy>(value: T, len: usize) -> (v: Vec<T>)
    ensures
        v@.len() == len,
        forall|i: int| 0 <= i < len ==> #[trigger] v@[i] == value,
{
    let mut v: Vec<T> = Vec::new();
    while v.len() < len
        invariant
            v@.len() <= len,
            forall|i: int| 0 <= i < v@.len() ==> #[trigger] v@[i] == value,
        decreases len - v@.len(),
    {
        v.push(value);
    }
    v
}

impl Frame {
    /// A blank frame: counters and registers cleared, both pixel buffers
    /// black, and the RGBA buffer transparent black except for its alpha
    /// bytes, which stay at full opacity for the frame's whole life.
    pub fn new() -> (frame: Self)
        ensures
            frame.wf(),
            frame.num == 0,
            frame.shift_lo == 0,
            frame.shift_hi == 0,
            frame.tile_addr == 0,
            frame.tile_lo == 0,
            frame.tile_hi == 0,
            frame.prev_palette == 0,
            frame.curr_palette == 0,
            frame.palette == 0,
            frame.prev_pixel == 0xFFFF_FFFFu32,
            frame.last_updated_pixel == 0,
            forall|i: int|
                0 <= i < RENDER_PIXELS ==> #[trigger] frame.front()[i] == 0 && frame.back()[i] == 0,
            forall|i: int|
                0 <= i < RENDER_SIZE ==> #[trigger] frame.output()[i] == (
                if i % 4 == 3 {
                    255u8
                } else {
                    0u8
                }),
    {
        let mut frame = Self {
            num: 0,
            shift_lo: 0x0000,
            shift_hi: 0x0000,
            tile_addr: 0x0000,
            tile_lo: 0x00,
            tile_hi: 0x00,
            prev_palette: 0x00,
            curr_palette: 0x00,
            palette: 0x00,
            prev_pixel: 0xFFFF_FFFF,
            last_updated_pixel: 0x0000_0000,
            front_buffer: filled(0u16, RENDER_PIXELS),
            back_buffer: filled(0u16, RENDER_PIXELS),
            output_buffer: filled(0u8, RENDER_SIZE),
        };
        frame.reset(Kind::Hard);
        frame
    }

    /// Advance the frame counter after a completed frame.
    pub fn increment(&mut self)
        requires
            old(self).num < u32::MAX,
        ensures
            final(self).num == old(self).num + 1,
            same_tile_state(*old(self), *final(self)),
            same_pixel_trackers(*old(self), *final(self)),
            final(self).front() == old(self).front(),
            final(self).back() == old(self).back(),
            final(self).output() == old(self).output(),
    {
        self.num += 1;
    }

    /// Present the frame the PPU just finished: the back buffer becomes
    /// the front buffer and the old front buffer is recycled for plotting.
    pub fn swap_buffers(&mut self)
        ensures
            final(self).num == old(self).num,
            same_tile_state(*old(self), *final(self)),
            same_pixel_trackers(*old(self), *final(self)),
            final(self).front() == old(self).back(),
            final(self).back() == old(self).front(),
            final(self).output() == old(self).output(),
    {
        core::mem::swap(&mut self.front_buffer, &mut self.back_buffer);
    }

    /// Read back the palette index plotted at (`x`, `y`) of the frame
    /// under construction; the zapper's light sensor looks here.
    pub fn get_color(&self, x: u32, y: u32) -> (color: u16)
        requires
            self.wf(),
            x < RENDER_WIDTH,
            y < RENDER_HEIGHT,
        ensures
            color == self.back()[x + y * 256],
            color < SYSTEM_PALETTE_SIZE,
    {
        self.back_buffer[(x + y * 256) as usize]
    }

    /// Plot one pixel of the frame under construction.
    pub fn put_pixel(&mut self, x: u32, y: u32, color: u16)
        requires
            old(self).wf(),
            x < RENDER_WIDTH,
            y < RENDER_HEIGHT,
            color < SYSTEM_PALETTE_SIZE,
        ensures
            final(self).wf(),
            final(self).num == old(self).num,
            same_tile_state(*old(self), *final(self)),
            same_pixel_trackers(*old(self), *final(self)),
            final(self).front() == old(self).front(),
            final(self).output() == old(self).output(),
            final(self).back() == old(self).back().update(x + y * 256, color),
    {
        self.back_buffer.set((x + y * 256) as usize, color);
    }

    /// Decode the finished frame into RGBA bytes through the system
    /// palette. Only the red, green and blue bytes are written; the alpha
    /// bytes keep their standing value of full opacity.
    #[verifier::rlimit(100)]
    #[verifier::loop_isolation(false)]
    pub fn decode_buffer(&mut self) -> (buf: &[u8])
        requires
            old(self).wf(),
        ensures
            final(self).wf(),
            final(self).num == old(self).num,
            same_tile_state(*old(self), *final(self)),
            same_pixel_trackers(*old(self), *final(self)),
            final(self).front() == old(self).front(),
            final(self).back() == old(self).back(),
            forall|i: int|
                0 <= i < RENDER_PIXELS ==> decoded_pixel(old(self).front(), final(self).output(), i),
            forall|j: int|
                0 <= j < RENDER_SIZE && j % 4 == 3 ==> #[trigger] final(self).output()[j]
                    == old(self).output()[j],
            buf@ == final(self).output(),
    {
        let mut i: usize = 0;
        while i < RENDER_PIXELS
            invariant
                i <= RENDER_PIXELS,
                self.wf(),
                self.num == old(self).num,
                same_tile_state(*old(self), *self),
                same_pixel_trackers(*old(self), *self),
                self.front_buffer@ == old(self).front(),
                self.back_buffer@ == old(self).back(),
                forall|j: int| 0 <= j < i ==> decoded_pixel(self.front_buffer@, self.output_buffer@, j),
                forall|j: int|
                    0 <= j < RENDER_SIZE && (j % 4 == 3 || j >= 4 * i) ==> #[trigger] self
                        .output_buffer@[j] == old(self).output()[j],
            decreases RENDER_PIXELS - i,
        {
            let ghost out0 = self.output_buffer@;
            let pixel = self.front_buffer[i];
            let (red, green, blue) = palette_rgb(pixel % SYSTEM_PALETTE_SIZE);
            self.output_buffer.set(4 * i, red);
            self.output_buffer.set(4 * i + 1, green);
            self.output_buffer.set(4 * i + 2, blue);
            proof {
                assert forall|j: int| 0 <= j < i + 1 implies decoded_pixel(
                    self.front_buffer@,
                    self.output_buffer@,
                    j,
                ) by {
                    if j < i {
                        assert(decoded_pixel(self.front_buffer@, out0, j));
                    }
                }
            }
            i += 1;
        }
        self.output_buffer.as_slice()
    }

    /// Decode the finished frame into RGBA bytes through a composite-video
    /// lookup table, blending each pixel with its predecessor on the
    /// scanline the way an NTSC television would. The table is indexed by
    /// color phase, the previous pixel's base color and the current
    /// palette index; its generation is the host's business. Alpha bytes
    /// keep their standing value.
    #[verifier::rlimit(100)]
    #[verifier::loop_isolation(false)]
    pub fn apply_ntsc_filter(&mut self, ntsc_palette: &Vec<u32>) -> (buf: &[u8])
        requires
            old(self).wf(),
            ntsc_palette@.len() == NTSC_LUT_LEN,
        ensures
            final(self).wf(),
            final(self).num == old(self).num,
            same_tile_state(*old(self), *final(self)),
            final(self).last_updated_pixel == old(self).last_updated_pixel,
            final(self).prev_pixel == old(self).front()[RENDER_PIXELS as int - 1],
            final(self).front() == old(self).front(),
            final(self).back() == old(self).back(),
            forall|i: int|
                0 <= i < RENDER_PIXELS ==> filtered_pixel(
                    old(self).front(),
                    old(self).num,
                    ntsc_palette@,
                    final(self).output(),
                    i,
                ),
            forall|j: int|
                0 <= j < RENDER_SIZE && j % 4 == 3 ==> #[trigger] final(self).output()[j]
                    == old(self).output()[j],
            buf@ == final(self).output(),
    {
        let even_phase: usize = if self.num % 2 == 1 {
            0
        } else {
            1
        };
        let mut prev: u32 = self.prev_pixel;
        let mut i: usize = 0;
        while i < RENDER_PIXELS
            invariant
                i <= RENDER_PIXELS,
                self.wf(),
                self.num == old(self).num,
                same_tile_state(*old(self), *self),
                same_pixel_trackers(*old(self), *self),
                self.front_buffer@ == old(self).front(),
                self.back_buffer@ == old(self).back(),
                prev == if i == 0 {
                    old(self).prev_pixel
                } else {
                    self.front_buffer@[i - 1] as u32
                },
                forall|j: int|
                    0 <= j < i ==> filtered_pixel(
                        self.front_buffer@,
                        self.num,
                        ntsc_palette@,
                        self.output_buffer@,
                        j,
                    ),
                forall|j: int|
                    0 <= j < RENDER_SIZE && (j % 4 == 3 || j >= 4 * i) ==> #[trigger] self
                        .output_buffer@[j] == old(self).output()[j],
            decreases RENDER_PIXELS - i,
        {
            let pixel = self.front_buffer[i];
            let x = i % 256;
            let color: u32 = if x == 0 {
                // The first pixel of a scanline has no predecessor to blend with.
                0
            } else {
                let y = i / 256;
                let phase = (2 + y * 341 + x + even_phase) % 3;
                ntsc_palette[phase + (prev as usize % 64) * 3 + pixel as usize * 192]
            };
            prev = pixel as u32;
            let ghost out0 = self.output_buffer@;
            self.output_buffer.set(4 * i, ((color >> 16) & 0xFF) as u8);
            self.output_buffer.set(4 * i + 1, ((color >> 8) & 0xFF) as u8);
            self.output_buffer.set(4 * i + 2, (color & 0xFF) as u8);
            proof {
                assert(color == ntsc_color(self.front_buffer@, self.num, ntsc_palette@, i as int));
                assert forall|j: int| 0 <= j < i + 1 implies filtered_pixel(
                    self.front_buffer@,
                    self.num,
                    ntsc_palette@,
                    self.output_buffer@,
                    j,
                ) by {
                    if j < i {
                        assert(filtered_pixel(self.front_buffer@, self.num, ntsc_palette@, out0, j));
                    }
                }
            }
            i += 1;
        }
        self.prev_pixel = prev;
        self.output_buffer.as_slice()
    }
}

impl Reset for Frame {
    /// Start a fresh recording: clear the frame counter, black out both
    /// pixel buffers and re-arm the RGBA buffer with opaque alpha bytes.
    /// Soft and hard resets act alike on the frame state.
    fn reset(&mut self, _kind: Kind)
        ensures
            final(self).wf(),
            final(self).num == 0,
            same_tile_state(*old(self), *final(self)),
            same_pixel_trackers(*old(self), *final(self)),
            forall|i: int|
                0 <= i < RENDER_PIXELS ==> #[trigger] final(self).front()[i] == 0
                    && final(self).back()[i] == 0,
            forall|i: int|
                0 <= i < RENDER_SIZE ==> #[trigger] final(self).output()[i] == (
                if i % 4 == 3 {
                    255u8
                } else {
                    0u8
                }),
    {
        self.num = 0;
        self.front_buffer = filled(0u16, RENDER_PIXELS);
        self.back_buffer = filled(0u16, RENDER_PIXELS);
        let mut out: Vec<u8> = Vec::new();
        while out.len() < RENDER_SIZE
            invariant
                out@.len() <= RENDER_SIZE,
                forall|i: int|
                    0 <= i < out@.len() ==> #[trigger] out@[i] == (
                    if i % 4 == 3 {
                        255u8
                    } else {
                        0u8
                    }),
            decreases RENDER_SIZE - out@.len(),
        {
            if out.len() % 4 == 3 {
                out.push(255);
            } else {
                out.push(0);
            }
        }
        self.output_buffer = out;
    }
}

impl Default for Frame {
    /// The blank frame of [`Frame::new`].
    fn default() -> (frame: Self)
        ensures
            frame.wf(),
            frame.num == 0,
    {
        Self::new()
    }
}

} // verus!
