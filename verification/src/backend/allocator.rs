//! Formats of buffers.

use vstd::prelude::*;

verus! {

/// `AR24`: 32 bits with alpha, red, green and blue.
pub const FOURCC_ARGB8888: u32 = 0x3432_5241;

/// `XR24`: 32 bits with padding, red, green and blue.
pub const FOURCC_XRGB8888: u32 = 0x3432_5258;

/// `BA24`: 32 bits with blue, green, red and alpha.
pub const FOURCC_BGRA8888: u32 = 0x3432_4142;

/// `RA24`: 32 bits with red, green, blue and alpha.
pub const FOURCC_RGBA8888: u32 = 0x3432_4152;

/// `XB24`: 32 bits with padding, blue, green and red.
pub const FOURCC_XBGR8888: u32 = 0x3432_4258;

/// `AR30`: 2 bits of alpha, then 10 bits each of red, green and blue.
pub const FOURCC_ARGB2101010: u32 = 0x3033_5241;

/// `BA30`: 10 bits each of blue, green and red, then 2 bits of alpha.
pub const FOURCC_BGRA1010102: u32 = 0x3033_4142;

/// `RA30`: 10 bits each of red, green and blue, then 2 bits of alpha.
pub const FOURCC_RGBA1010102: u32 = 0x3033_4152;

/// `XR30`: 2 bits of padding, then 10 bits each of red, green and blue.
pub const FOURCC_XRGB2101010: u32 = 0x3033_5258;

/// A pixel format together with the layout of its pixels in memory.
#[derive(Debug, Clone, Copy, PartialEq, Eq)]
pub struct DrmFormat {
    /// The fourcc of the pixel format.
    pub code: u32,
    /// The modifier.
    pub modifier: u64,
}

/// The modifier that a number stands for, as a number.
///
/// This calls `DrmModifier::from` for `u64` of `drm_fourcc` and converts back with `u64::from`. A
/// number that is a known modifier becomes that modifier and any other is kept as it is, so that
/// the number comes back unchanged.
#[verifier::external_body]
pub(crate) fn drm_modifier(raw: u64) -> (r: u64)
    ensures
        r == raw,
{
    u64::from(drm_fourcc::DrmModifier::from(raw))
}

} // verus!
