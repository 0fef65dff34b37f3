//! Graphics-adapter arithmetic: the packed pixel format and the banked
//! frame-buffer addressing. The adapter itself is driven over an
//! index/data port pair and a 64 KiB memory window; everything the port
//! writes need — which bank a pixel lives in, where inside the bank, how
//! many banks a mode occupies — is computed and proved here.

use vstd::prelude::*;

verus! {

/// Size in bytes of the adapter's bank window, and the divisor the bank
/// arithmetic uses: one less than 64 KiB, matching the adapter driver's
/// 16-bit register width.
pub const BANK_REGISTER_MAX: u16 = 0xffff;

/// Pixels per bank at 32 bits per pixel: the bank divisor over four.
pub const BANK_PIXELS: u32 = 16383;

/// One 32-bit frame-buffer pixel, stored byte-ordered as blue, green,
/// red, padding.
#[derive(Debug, Clone, Copy, PartialEq, Eq, Structural)]
pub struct Pixel {
    pub b: u8,
    pub g: u8,
    pub r: u8,
    pub pad: u8,
}

impl Pixel {
    pub fn new(r: u8, g: u8, b: u8) -> (p: Self)
        ensures
            p == (Pixel { b, g, r, pad: 0u8 }),
    {
        Self { r, g, b, pad: 0 }
    }

    /// Unpacks the low three bytes of a little-endian 32-bit value; the
    /// padding byte is discarded.
    pub fn from_u32(input: u32) -> (p: Self)
        ensures
            p.r == input & 0xff,
            p.g == (input >> 8) & 0xff,
            p.b == (input >> 16) & 0xff,
            p.pad == 0,
    {
        proof {
            assert(input & 0xff < 256 && (input >> 8) & 0xff < 256 && (input >> 16) & 0xff
                < 256) by (bit_vector);
        }
        Self {
            r: (input & 0xff) as u8,
            g: ((input >> 8) & 0xff) as u8,
            b: ((input >> 16) & 0xff) as u8,
            pad: 0,
        }
    }

    /// Packs the pixel into the 32-bit little-endian value the frame
    /// buffer stores.
    pub fn to_u32(self) -> (v: u32)
        ensures
            v == self.b as u32 | (self.g as u32) << 8 | (self.r as u32) << 16 | (
            self.pad as u32) << 24,
    {
        self.b as u32 | (self.g as u32) << 8 | (self.r as u32) << 16 | (self.pad as u32) << 24
    }
}

#[derive(Debug, Clone, Copy, PartialEq, Eq, Structural)]
pub enum VbaError {
    PixelOutOfBound,
}

/// How many banks a mode's frame buffer spans: the byte count of the mode
/// divided by the bank register width, capped at that register's range.
pub fn bank_count(x: u16, y: u16, depth: u16) -> (n: u16)
    ensures
        n == if (x * y * depth) / (BANK_REGISTER_MAX as int) <= BANK_REGISTER_MAX {
            (x * y * depth) / (BANK_REGISTER_MAX as int)
        } else {
            BANK_REGISTER_MAX as int
        },
{
    proof {
        assert((x as u64) * (y as u64) <= 0xffff * 0xffff && (x as u64) * (y as u64) * (
        depth as u64) <= 0xffff * 0xffff * 0xffff) by (nonlinear_arith)
            requires
                x <= 0xffff,
                y <= 0xffff,
                depth <= 0xffff,
        ;
    }
    let bytes: u64 = (x as u64) * (y as u64) * (depth as u64);
    let n: u64 = bytes / (BANK_REGISTER_MAX as u64);
    if n <= BANK_REGISTER_MAX as u64 {
        n as u16
    } else {
        BANK_REGISTER_MAX
    }
}

/// Where a pixel lives in the banked frame buffer: which bank to select
/// and the pixel's position inside it. Coordinates past the configured
/// resolution are refused — exactly when `x > res_x` or `y > res_y`.
pub fn pixel_location(x: u16, y: u16, res_x: u16, res_y: u16) -> (r: Result<(u32, u32), VbaError>)
    ensures
        r is Ok <==> x <= res_x && y <= res_y,
        r matches Ok(loc) ==> {
            let offset = x + (y as int) * res_x;
            &&& loc.0 == offset / (BANK_PIXELS as int)
            &&& loc.1 == offset % (BANK_PIXELS as int)
            &&& loc.1 < BANK_PIXELS
        },
        r is Err ==> r == Err::<(u32, u32), VbaError>(VbaError::PixelOutOfBound),
{
    if x > res_x {
        return Err(VbaError::PixelOutOfBound);
    }
    if y > res_y {
        return Err(VbaError::PixelOutOfBound);
    }
    proof {
        assert((y as u32) * (res_x as u32) <= 0xffff * 0xffff) by (nonlinear_arith)
            requires
                y <= 0xffff,
                res_x <= 0xffff,
        ;
    }
    let offset: u32 = x as u32 + (y as u32) * (res_x as u32);
    let bank: u32 = offset / BANK_PIXELS;
    let position: u32 = offset % BANK_PIXELS;
    Ok((bank, position))
}

/// The packed frame-buffer word carries blue in its low byte, then green,
/// then red: packing loses no channel.
pub proof fn lemma_pixel_pack_bytes(p: Pixel)
    requires
        p.pad == 0,
    ensures
        ({
            let v = p.b as u32 | (p.g as u32) << 8 | (p.r as u32) << 16 | (p.pad as u32) << 24;
            &&& v & 0xff == p.b
            &&& (v >> 8) & 0xff == p.g
            &&& (v >> 16) & 0xff == p.r
        }),
{
    let b = p.b as u32;
    let g = p.g as u32;
    let r = p.r as u32;
    assert(b < 256 && g < 256 && r < 256 ==> {
        let v = b | g << 8 | r << 16 | 0u32 << 24;
        &&& v & 0xff == b
        &&& (v >> 8) & 0xff == g
        &&& (v >> 16) & 0xff == r
    }) by (bit_vector);
}

} // verus!
