//! The pixel-format collaborator, modelled by its raw format code: format
//! identity, the planar-YUV predicate that triggers even-dimension
//! validation, and the byte-size rule for locked texture memory.

use vstd::prelude::*;

verus! {

/// Raw code of the planar YV12 format (fourcc "YV12").
pub const PIXEL_FORMAT_YV12: u32 = 0x32315659;

/// Raw code of the planar IYUV format (fourcc "IYUV").
pub const PIXEL_FORMAT_IYUV: u32 = 0x56555949;

/// A pixel format, identified by the native engine's raw format code.
#[derive(Copy, Clone, Eq, PartialEq, Hash, Debug, Structural)]
pub struct PixelFormat {
    pub raw: u32,
}

impl PixelFormat {
    /// The format stores luma and two half-resolution chroma planes, so
    /// positions, extents and pitches must be even.
    pub open spec fn is_planar_yuv(self) -> bool {
        self.raw == PIXEL_FORMAT_YV12 || self.raw == PIXEL_FORMAT_IYUV
    }

    /// The number of accessible bytes in a locked region of `height` rows
    /// of `pitch` bytes each: the planar formats append two chroma planes
    /// at half resolution in each dimension.
    pub open spec fn spec_byte_size(self, pitch: int, height: int) -> int {
        if self.is_planar_yuv() {
            pitch * height + 2 * ((pitch / 2) * (height / 2))
        } else {
            pitch * height
        }
    }

    pub fn from_ll(raw: u32) -> (r: PixelFormat)
        ensures
            r == (PixelFormat { raw }),
    {
        PixelFormat { raw }
    }

    pub fn to_ll(&self) -> (r: u32)
        ensures
            r == self.raw,
    {
        self.raw
    }

    pub fn planar_yuv(&self) -> (r: bool)
        ensures
            r == self.is_planar_yuv(),
    {
        self.raw == PIXEL_FORMAT_YV12 || self.raw == PIXEL_FORMAT_IYUV
    }

    pub fn byte_size_from_pitch_and_height(&self, pitch: usize, height: usize) -> (r: usize)
        requires
            self.spec_byte_size(pitch as int, height as int) <= usize::MAX,
        ensures
            r == self.spec_byte_size(pitch as int, height as int),
    {
        proof {
            assert(0 <= (pitch / 2) * (height / 2) && 4 * ((pitch / 2) * (height / 2)) <= pitch
                * height) by (nonlinear_arith);
        }
        if self.planar_yuv() {
            pitch * height + 2 * ((pitch / 2) * (height / 2))
        } else {
            pitch * height
        }
    }
}

} // verus!
