//! Utilities for importing buffers into X11.
//!
//! Buffers imported into X11 are represented as X pixmaps which are then presented to the window.

use vstd::prelude::*;

use super::error::X11Error;

verus! {

/// The most planes that a pixmap can have.
pub const MAX_PLANES: usize = 4;

/// Stands for no plane, no region, no crtc or no fence.
pub const NONE: u32 = 0;

/// The bits of each pixel.
pub const BITS_PER_PIXEL: u8 = 32;

/// An error that may occur when a pixmap is created.
#[derive(Debug)]
pub enum CreatePixmapError {
    /// An X11 protocol error occurred.
    Protocol(X11Error),
    /// The buffer has too many planes.
    TooManyPlanes,
    /// Duplicating the file descriptors of the buffer failed.
    DupFailed(String),
}

impl CreatePixmapError {
    /// The text of the error.
    pub fn message(&self) -> (r: &'static str)
        ensures
            r@ == match self {
                CreatePixmapError::Protocol(_) => "An x11 protocol error occured"@,
                CreatePixmapError::TooManyPlanes => "The Dmabuf had too many planes"@,
                CreatePixmapError::DupFailed(_) =>
                    "Duplicating the file descriptors for the dmabuf handles failed"@,
            },
    {
        match self {
            CreatePixmapError::Protocol(_) => "An x11 protocol error occured",
            CreatePixmapError::TooManyPlanes => "The Dmabuf had too many planes",
            CreatePixmapError::DupFailed(_) =>
                "Duplicating the file descriptors for the dmabuf handles failed",
        }
    }
}

impl From<X11Error> for CreatePixmapError {
    fn from(error: X11Error) -> (r: Self) {
        CreatePixmapError::Protocol(error)
    }
}

impl vstd::std_specs::convert::FromSpecImpl<X11Error> for CreatePixmapError {
    open spec fn obeys_from_spec() -> bool {
        true
    }

    open spec fn from_spec(error: X11Error) -> Self {
        CreatePixmapError::Protocol(error)
    }
}

/// Where a plane of a buffer is in its memory.
#[derive(Debug, Clone, Copy, PartialEq, Eq)]
pub struct Plane {
    /// The number of bytes from one row to the next.
    pub stride: u32,
    /// The number of bytes before the first row.
    pub offset: u32,
}

/// What is known of a buffer.
pub struct DmabufInfo {
    /// The width.
    pub width: u32,
    /// The height.
    pub height: u32,
    /// The planes.
    pub planes: Vec<Plane>,
    /// The modifier.
    pub modifier: u64,
}

/// A request to make a pixmap of a buffer.
#[derive(Debug, Clone, Copy, PartialEq, Eq)]
pub enum PixmapRequest {
    /// The buffer has up to four planes and a modifier.
    FromBuffers {
        /// The window that the pixmap is for.
        window: u32,
        /// The width.
        width: u16,
        /// The height.
        height: u16,
        /// The planes; those that the buffer does not have are zero.
        planes: (Plane, Plane, Plane, Plane),
        /// The depth.
        depth: u8,
        /// The bits of each pixel.
        bpp: u8,
        /// The modifier.
        modifier: u64,
    },
    /// The buffer has one plane.
    FromBuffer {
        /// The window that the pixmap is for.
        window: u32,
        /// The size in bytes.
        size: u32,
        /// The width.
        width: u16,
        /// The height.
        height: u16,
        /// The number of bytes from one row to the next.
        stride: u16,
        /// The depth.
        depth: u8,
        /// The bits of each pixel.
        bpp: u8,
    },
}

/// The version of DRI3 can make pixmaps of several planes.
pub open spec fn has_multiple_planes(dri3: (u32, u32)) -> bool {
    dri3.0 > 1 || dri3.0 == 1 && dri3.1 >= 2
}

/// Plane `i` of a buffer, or zeros where the buffer does not have it.
pub open spec fn plane_or_none(planes: Seq<Plane>, i: int) -> Plane {
    if i < planes.len() {
        planes[i]
    } else {
        Plane { stride: NONE, offset: NONE }
    }
}

impl DmabufInfo {
    /// A pixmap can be asked for without a plane missing or the size getting out of range.
    pub open spec fn can_be_imported(&self, dri3: (u32, u32)) -> bool {
        if has_multiple_planes(dri3) {
            self.planes@.len() >= 1
        } else {
            self.planes@.len() == 1 ==> self.height * self.planes@[0].stride <= u32::MAX
        }
    }

    /// Whether a pixmap can be asked for: see `can_be_imported`.
    pub fn is_importable(&self, dri3: (u32, u32)) -> (r: bool)
        ensures
            r == self.can_be_imported(dri3),
    {
        if dri3.0 > 1 || dri3.0 == 1 && dri3.1 >= 2 {
            self.planes.len() >= 1
        } else if self.planes.len() == 1 {
            self.height.checked_mul(self.planes[0].stride).is_some()
        } else {
            true
        }
    }

    /// Plane `i`, or zeros where the buffer does not have it.
    fn plane(&self, i: usize) -> (r: Plane)
        ensures
            r == plane_or_none(self.planes@, i as int),
    {
        if i < self.planes.len() {
            self.planes[i]
        } else {
            Plane { stride: NONE, offset: NONE }
        }
    }
}

/// The request that makes a pixmap of a buffer, for a window of the given depth.
pub fn with_dmabuf(dmabuf: &DmabufInfo, window: u32, depth: u8, dri3: (u32, u32)) -> (r: Result<
    PixmapRequest,
    CreatePixmapError,
>)
    requires
        dmabuf.can_be_imported(dri3),
    ensures
        ({
            let planes = dmabuf.planes@;
            let refused = if has_multiple_planes(dri3) {
                planes.len() > MAX_PLANES
            } else {
                planes.len() != 1
            };
            match r {
                Err(error) => refused && error is TooManyPlanes,
                Ok(request) => !refused && request == if has_multiple_planes(dri3) {
                    PixmapRequest::FromBuffers {
                        window,
                        width: dmabuf.width as u16,
                        height: dmabuf.height as u16,
                        planes: (
                            plane_or_none(planes, 0),
                            plane_or_none(planes, 1),
                            plane_or_none(planes, 2),
                            plane_or_none(planes, 3),
                        ),
                        depth,
                        bpp: BITS_PER_PIXEL,
                        modifier: dmabuf.modifier,
                    }
                } else {
                    PixmapRequest::FromBuffer {
                        window,
                        size: (dmabuf.height * planes[0].stride) as u32,
                        width: dmabuf.width as u16,
                        height: dmabuf.height as u16,
                        stride: planes[0].stride as u16,
                        depth,
                        bpp: BITS_PER_PIXEL,
                    }
                },
            }
        }),
{
    let width: u16 = #[verifier::truncate]
    (dmabuf.width as u16);
    let height: u16 = #[verifier::truncate]
    (dmabuf.height as u16);
    if dri3.0 > 1 || dri3.0 == 1 && dri3.1 >= 2 {
        if dmabuf.planes.len() > MAX_PLANES {
            return Err(CreatePixmapError::TooManyPlanes);
        }
        Ok(
            PixmapRequest::FromBuffers {
                window,
                width,
                height,
                planes: (dmabuf.plane(0), dmabuf.plane(1), dmabuf.plane(2), dmabuf.plane(3)),
                depth,
                bpp: BITS_PER_PIXEL,
                modifier: dmabuf.modifier,
            },
        )
    } else {
        if dmabuf.planes.len() != 1 {
            return Err(CreatePixmapError::TooManyPlanes);
        }
        let stride: u32 = dmabuf.planes[0].stride;
        assert(0 <= dmabuf.height * stride) by (nonlinear_arith);
        Ok(
            PixmapRequest::FromBuffer {
                window,
                size: dmabuf.height * stride,
                width,
                height,
                stride: #[verifier::truncate]
                (stride as u16),
                depth,
                bpp: BITS_PER_PIXEL,
            },
        )
    }
}

/// The counters of the frames that a window was presented.
#[derive(Debug, Clone, Copy, PartialEq, Eq)]
pub struct PresentState {
    /// The serial of the next frame.
    pub next_serial: u32,
    /// The frame counter of the screen when the last frame was shown.
    pub last_msc: u64,
}

/// A request to present a pixmap: the whole of it, without offsets, on the crtc that the server
/// chooses, without fences or options.
#[derive(Debug, Clone, Copy, PartialEq, Eq)]
pub struct PresentRequest {
    /// The window.
    pub window: u32,
    /// The pixmap.
    pub pixmap: u32,
    /// The serial of the frame.
    pub serial: u32,
    /// The frame counter of the screen at which the pixmap is to be shown.
    pub target_msc: u64,
}

impl PresentState {
    /// The request that presents a pixmap at the next frame of the screen.
    pub fn present(&mut self, window: u32, pixmap: u32) -> (r: PresentRequest)
        requires
            old(self).last_msc < u64::MAX,
        ensures
            r == (PresentRequest {
                window,
                pixmap,
                serial: old(self).next_serial,
                target_msc: (old(self).last_msc + 1) as u64,
            }),
            final(self).last_msc == old(self).last_msc,
            final(self).next_serial == if old(self).next_serial == u32::MAX {
                0
            } else {
                old(self).next_serial + 1
            },
    {
        let serial: u32 = self.next_serial;
        self.next_serial = serial.wrapping_add(1);
        PresentRequest { window, pixmap, serial, target_msc: self.last_msc + 1 }
    }
}

} // verus!
