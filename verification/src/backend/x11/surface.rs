//! Surfaces that buffers are presented to.

use vstd::prelude::*;

use crate::backend::allocator::FOURCC_ARGB8888;
use crate::utils::Size;

verus! {

/// The two buffers of a surface: the one that is shown and the one that is drawn to.
#[derive(Debug, Clone, Copy, PartialEq, Eq)]
pub struct Buffers {
    /// The buffer that is presented.
    pub current: u64,
    /// The buffer that is presented next.
    pub next: u64,
}

impl Buffers {
    /// The buffers with their roles exchanged.
    pub open spec fn swapped(self) -> Buffers {
        Buffers { current: self.next, next: self.current }
    }

    /// Exchanges the roles of the buffers.
    pub fn swap(&mut self)
        ensures
            *final(self) == old(self).swapped(),
    {
        let current: u64 = self.current;
        self.current = self.next;
        self.next = current;
    }
}

/// How a buffer is allocated.
#[derive(Debug, Clone, Copy, PartialEq, Eq)]
pub struct BufferRequest {
    /// The width.
    pub width: u32,
    /// The height.
    pub height: u32,
    /// The fourcc of the format.
    pub format: u32,
}

impl BufferRequest {
    /// How a buffer of the given size is allocated.
    pub fn new(size: &Size<u16>, format: u32) -> (r: BufferRequest)
        ensures
            r == (BufferRequest { width: size.w as u32, height: size.h as u32, format }),
    {
        BufferRequest { width: size.w as u32, height: size.h as u32, format }
    }
}

/// What is to be presented to the window.
#[derive(Debug, Clone, Copy, PartialEq, Eq)]
pub struct Presented {
    /// The buffer.
    pub buffer: u64,
    /// The width.
    pub width: u16,
    /// The height.
    pub height: u16,
}

/// A surface that buffers are presented to.
#[derive(Debug, Clone, Copy)]
pub struct X11Surface {
    /// The fourcc of the format of the buffers.
    pub format: u32,
    /// The width.
    pub width: u16,
    /// The height.
    pub height: u16,
    /// The buffers.
    pub buffers: Buffers,
}

impl X11Surface {
    /// A surface of the given size, with the buffers that were allocated for it.
    pub fn new(size: &Size<u16>, format: u32, buffers: Buffers) -> (r: X11Surface)
        ensures
            r == (X11Surface { format, width: size.w, height: size.h, buffers }),
    {
        X11Surface { format, width: size.w, height: size.h, buffers }
    }

    /// Returns the format of the buffers the surface accepts.
    pub fn format(&self) -> (r: u32)
        ensures
            r == self.format,
    {
        self.format
    }

    /// Gets ready to present a buffer.
    ///
    /// `resizes` are the sizes that the window has had since the last time, the latest last. If
    /// there are any, the surface takes on the latest, and two buffers are to be allocated as
    /// returned and set with `set_buffers`.
    pub fn prepare_present(&mut self, resizes: &Vec<Size<u16>>) -> (r: Option<BufferRequest>)
        ensures
            if resizes@.len() == 0 {
                r is None && *final(self) == *old(self)
            } else {
                let size = resizes@.last();
                &&& r == Some(
                    BufferRequest {
                        width: size.w as u32,
                        height: size.h as u32,
                        format: old(self).format,
                    },
                )
                &&& *final(self) == (X11Surface { width: size.w, height: size.h, ..*old(self) })
            },
    {
        if resizes.len() == 0 {
            None
        } else {
            Some(self.resize(&resizes[resizes.len() - 1]))
        }
    }

    /// Takes on a size. Two buffers are to be allocated as returned and set with `set_buffers`; if
    /// that fails, the surface keeps its buffers.
    pub fn resize(&mut self, size: &Size<u16>) -> (r: BufferRequest)
        ensures
            r == (BufferRequest {
                width: size.w as u32,
                height: size.h as u32,
                format: old(self).format,
            }),
            *final(self) == (X11Surface { width: size.w, height: size.h, ..*old(self) }),
    {
        self.width = size.w;
        self.height = size.h;
        BufferRequest::new(size, self.format)
    }

    /// Sets the buffers that were allocated.
    pub fn set_buffers(&mut self, buffers: Buffers)
        ensures
            *final(self) == (X11Surface { buffers, ..*old(self) }),
    {
        self.buffers = buffers;
    }

    /// Returns a scoped object which provides the next buffer.
    ///
    /// When it is finished, the buffers are swapped and the next one is presented.
    pub fn present(&mut self) -> (r: Present<'_>)
        ensures
            *r.surface == *old(self),
            *final(self) == *final(r.surface),
    {
        Present { surface: self }
    }
}

/// The scope in which the next buffer is drawn to.
pub struct Present<'a> {
    /// The surface.
    pub surface: &'a mut X11Surface,
}

impl<'a> Present<'a> {
    /// Returns the next buffer that will be presented to the window.
    pub fn buffer(&self) -> (r: u64)
        ensures
            r == old(self.surface).buffers.next,
    {
        self.surface.buffers.next
    }

    /// Finishes presenting: the buffers are swapped, and the one that was drawn to is shown.
    ///
    /// Nothing is done once the connection is gone.
    pub fn finish(self, connected: bool) -> (r: Option<Presented>)
        ensures
            connected ==> {
                &&& r == Some(
                    Presented {
                        buffer: old(self.surface).buffers.next,
                        width: old(self.surface).width,
                        height: old(self.surface).height,
                    },
                )
                &&& *final(self.surface) == (X11Surface {
                    buffers: old(self.surface).buffers.swapped(),
                    ..*old(self.surface)
                })
            },
            !connected ==> r is None && *final(self.surface) == *old(self.surface),
    {
        let surface: &mut X11Surface = self.surface;
        if connected {
            surface.buffers.swap();
            Some(
                Presented {
                    buffer: surface.buffers.current,
                    width: surface.width,
                    height: surface.height,
                },
            )
        } else {
            None
        }
    }
}

/// Presenting twice brings the buffers back into their roles, and in between the roles are
/// exchanged: what is drawn to is never what is shown, unless it was so at first.
pub proof fn present_alternates(buffers: Buffers)
    ensures
        buffers.swapped().swapped() == buffers,
        buffers.swapped().current == buffers.next,
        buffers.swapped().next == buffers.current,
        buffers.current != buffers.next ==> buffers.swapped().current != buffers.swapped().next,
{
}

/// A surface that buffers of 32 bits with alpha are presented to.
#[derive(Debug, Clone, Copy)]
pub struct GbmBufferingX11Surface {
    /// The width.
    pub width: u16,
    /// The height.
    pub height: u16,
    /// The buffers.
    pub buffers: Buffers,
}

impl GbmBufferingX11Surface {
    /// A surface of the given size, with the buffers that were allocated for it.
    pub fn new(size: &Size<u16>, buffers: Buffers) -> (r: GbmBufferingX11Surface)
        ensures
            r == (GbmBufferingX11Surface { width: size.w, height: size.h, buffers }),
    {
        GbmBufferingX11Surface { width: size.w, height: size.h, buffers }
    }

    /// How the buffers of a surface are allocated.
    pub fn allocate_buffers(size: &Size<u16>) -> (r: BufferRequest)
        ensures
            r == (BufferRequest {
                width: size.w as u32,
                height: size.h as u32,
                format: FOURCC_ARGB8888,
            }),
    {
        BufferRequest::new(size, FOURCC_ARGB8888)
    }

    /// Resizes the surface to buffers that were allocated for the size.
    pub fn resize(&mut self, size: &Size<u16>, buffers: Buffers)
        ensures
            *final(self) == (GbmBufferingX11Surface { width: size.w, height: size.h, buffers }),
    {
        self.width = size.w;
        self.height = size.h;
        self.buffers = buffers;
    }

    /// Returns the next buffer that will be presented to the window.
    pub fn buffer(&self) -> (r: u64)
        ensures
            r == self.buffers.next,
    {
        self.buffers.next
    }

    /// Finishes presenting: the buffers are swapped, and the one that was drawn to is shown.
    pub fn finish_present(&mut self) -> (r: Presented)
        ensures
            r == (Presented {
                buffer: old(self).buffers.next,
                width: old(self).width,
                height: old(self).height,
            }),
            *final(self) == (GbmBufferingX11Surface {
                buffers: old(self).buffers.swapped(),
                ..*old(self)
            }),
    {
        self.buffers.swap();
        Presented { buffer: self.buffers.current, width: self.width, height: self.height }
    }
}

} // verus!
