//! Rendering functionality and abstractions.

use vstd::prelude::*;

use crate::wayland::protocol::output_transform;

pub mod laws;
pub mod vulkan;

verus! {

/// Possible transformations to two-dimensional planes.
#[derive(Debug, Clone, Copy, PartialEq, Eq, Structural, Hash)]
pub enum Transform {
    /// Identity transformation (plane is unaltered when applied).
    Normal,
    /// Plane is rotated by 90 degrees.
    _90,
    /// Plane is rotated by 180 degrees.
    _180,
    /// Plane is rotated by 270 degrees.
    _270,
    /// Plane is flipped vertically.
    Flipped,
    /// Plane is flipped vertically and rotated by 90 degrees.
    Flipped90,
    /// Plane is flipped vertically and rotated by 180 degrees.
    Flipped180,
    /// Plane is flipped vertically and rotated by 270 degrees.
    Flipped270,
}

/// A matrix of three columns, which maps a column vector to a column vector.
///
/// `x`, `y` and `z` are the columns, each from top to bottom.
#[derive(Debug, Clone, Copy, PartialEq, Eq)]
pub struct Matrix {
    /// What the first unit vector is mapped to.
    pub x: (i32, i32, i32),
    /// What the second unit vector is mapped to.
    pub y: (i32, i32, i32),
    /// What the third unit vector is mapped to.
    pub z: (i32, i32, i32),
}

impl Matrix {
    /// The matrix that maps `(x, y, 1)` to `(a * x + c * y, b * x + d * y, 1)`.
    pub open spec fn linear(a: int, b: int, c: int, d: int) -> Matrix {
        Matrix { x: (a as i32, b as i32, 0), y: (c as i32, d as i32, 0), z: (0, 0, 1) }
    }

    /// The matrix maps the plane `z == 1` to itself without a translation.
    pub open spec fn is_linear(self) -> bool {
        self.x.2 == 0 && self.y.2 == 0 && self.z == (0i32, 0i32, 1i32)
    }

    /// Where a linear matrix maps a point of the plane.
    pub open spec fn apply(self, x: int, y: int) -> (int, int) {
        (self.x.0 * x + self.y.0 * y, self.x.1 * x + self.y.1 * y)
    }
}

impl Transform {
    /// The number of quarter turns.
    pub open spec fn quarters(self) -> nat {
        match self {
            Transform::Normal | Transform::Flipped => 0,
            Transform::_90 | Transform::Flipped90 => 1,
            Transform::_180 | Transform::Flipped180 => 2,
            Transform::_270 | Transform::Flipped270 => 3,
        }
    }

    /// The plane is flipped.
    pub open spec fn is_flipped(self) -> bool {
        self is Flipped || self is Flipped90 || self is Flipped180 || self is Flipped270
    }

    /// The transformation with the given number of quarter turns, flipped or not.
    pub open spec fn with_quarters(quarters: nat, flipped: bool) -> Transform {
        if flipped {
            if quarters == 0 {
                Transform::Flipped
            } else if quarters == 1 {
                Transform::Flipped90
            } else if quarters == 2 {
                Transform::Flipped180
            } else {
                Transform::Flipped270
            }
        } else {
            if quarters == 0 {
                Transform::Normal
            } else if quarters == 1 {
                Transform::_90
            } else if quarters == 2 {
                Transform::_180
            } else {
                Transform::_270
            }
        }
    }

    /// The inverse: as many quarter turns the other way, flipped if the transformation is.
    pub open spec fn inverted(self) -> Transform {
        Self::with_quarters(((4 - self.quarters()) % 4) as nat, self.is_flipped())
    }

    /// The projection matrix: rotations, and for flipped transformations the mirror images of
    /// their horizontal axes.
    pub open spec fn projection(self) -> Matrix {
        let sign = if self.is_flipped() {
            -1
        } else {
            1int
        };
        if self.quarters() == 0 {
            Matrix::linear(sign, 0, 0, 1)
        } else if self.quarters() == 1 {
            Matrix::linear(0, -sign, 1, 0)
        } else if self.quarters() == 2 {
            Matrix::linear(-sign, 0, 0, -1)
        } else {
            Matrix::linear(0, sign, -1, 0)
        }
    }

    /// A size with width and height exchanged for an odd number of quarter turns.
    pub open spec fn transformed_size(self, width: u32, height: u32) -> (u32, u32) {
        if self.quarters() % 2 == 1 {
            (height, width)
        } else {
            (width, height)
        }
    }

    /// A projection matrix to apply this transformation.
    pub fn matrix(&self) -> (r: Matrix)
        ensures
            r == self.projection(),
    {
        match self {
            Transform::Normal => Matrix { x: (1, 0, 0), y: (0, 1, 0), z: (0, 0, 1) },
            Transform::_90 => Matrix { x: (0, -1, 0), y: (1, 0, 0), z: (0, 0, 1) },
            Transform::_180 => Matrix { x: (-1, 0, 0), y: (0, -1, 0), z: (0, 0, 1) },
            Transform::_270 => Matrix { x: (0, 1, 0), y: (-1, 0, 0), z: (0, 0, 1) },
            Transform::Flipped => Matrix { x: (-1, 0, 0), y: (0, 1, 0), z: (0, 0, 1) },
            Transform::Flipped90 => Matrix { x: (0, 1, 0), y: (1, 0, 0), z: (0, 0, 1) },
            Transform::Flipped180 => Matrix { x: (1, 0, 0), y: (0, -1, 0), z: (0, 0, 1) },
            Transform::Flipped270 => Matrix { x: (0, -1, 0), y: (-1, 0, 0), z: (0, 0, 1) },
        }
    }

    /// Inverts any 90-degree transformation into 270-degree transformations and vice versa.
    ///
    /// Flipping is preserved and 180/Normal transformations are unaffected.
    pub fn invert(&self) -> (r: Transform)
        ensures
            r == self.inverted(),
    {
        match self {
            Transform::Normal => Transform::Normal,
            Transform::Flipped => Transform::Flipped,
            Transform::_90 => Transform::_270,
            Transform::_180 => Transform::_180,
            Transform::_270 => Transform::_90,
            Transform::Flipped90 => Transform::Flipped270,
            Transform::Flipped180 => Transform::Flipped180,
            Transform::Flipped270 => Transform::Flipped90,
        }
    }

    /// Transformed size after applying this transformation.
    pub fn transform_size(&self, width: u32, height: u32) -> (r: (u32, u32))
        ensures
            r == self.transformed_size(width, height),
    {
        if *self == Transform::_90 || *self == Transform::_270 || *self == Transform::Flipped90
            || *self == Transform::Flipped270 {
            (height, width)
        } else {
            (width, height)
        }
    }

    /// The transformation that the protocol has under a number, if there is one: the four quarter
    /// turns, then the same flipped.
    pub fn from_protocol(code: u32) -> (r: Option<Transform>)
        ensures
            r == if code < 8 {
                Some(Self::with_quarters((code % 4) as nat, code >= 4))
            } else {
                None::<Transform>
            },
    {
        match output_transform(code) {
            Some(code) => Some(
                match code {
                    0 => Transform::Normal,
                    1 => Transform::_90,
                    2 => Transform::_180,
                    3 => Transform::_270,
                    4 => Transform::Flipped,
                    5 => Transform::Flipped90,
                    6 => Transform::Flipped180,
                    _ => Transform::Flipped270,
                },
            ),
            None => None,
        }
    }
}

/// Inverting twice gives the transformation back, and flipping is preserved.
pub proof fn invert_twice(transform: Transform)
    ensures
        transform.inverted().inverted() == transform,
        transform.inverted().is_flipped() == transform.is_flipped(),
{
}

/// A transformation and its inverse change a size in the same way, and one after the other gives
/// the size back.
pub proof fn inverse_restores_size(transform: Transform, width: u32, height: u32)
    ensures
        transform.inverted().transformed_size(width, height) == transform.transformed_size(
            width,
            height,
        ),
        ({
            let size = transform.transformed_size(width, height);
            transform.inverted().transformed_size(size.0, size.1) == (width, height)
        }),
{
}

/// The projection of a transformation maps the corners of an upright rectangle around the origin
/// to those of one whose size is the transformed size.
pub proof fn projection_agrees_with_size(transform: Transform, width: u32, height: u32)
    ensures
        ({
            let corner = transform.projection().apply(width as int, height as int);
            let size = transform.transformed_size(width, height);
            &&& transform.projection().is_linear()
            &&& corner.0 == size.0 || corner.0 == -size.0
            &&& corner.1 == size.1 || corner.1 == -size.1
        }),
{
    let m = transform.projection();
    let (w, h) = (width as int, height as int);
    assert(0 * w == 0 && 1 * w == w && -1 * w == -w);
    assert(0 * h == 0 && 1 * h == h && -1 * h == -h);
}

/// The projection of the inverse undoes the projection of a transformation.
///
/// A flipped quarter turn is left out: it is its own inverse as a mapping, while its inverse
/// transformation is the other flipped quarter turn.
pub proof fn inverse_undoes_projection(transform: Transform, x: int, y: int)
    requires
        transform !is Flipped90,
        transform !is Flipped270,
    ensures
        ({
            let moved = transform.projection().apply(x, y);
            transform.inverted().projection().apply(moved.0, moved.1) == (x, y)
        }),
{
    let moved = transform.projection().apply(x, y);
    assert(0 * x == 0 && 1 * x == x && -1 * x == -x);
    assert(0 * y == 0 && 1 * y == y && -1 * y == -y);
    assert(0 * moved.0 == 0 && 1 * moved.0 == moved.0 && -1 * moved.0 == -moved.0);
    assert(0 * moved.1 == 0 && 1 * moved.1 == moved.1 && -1 * moved.1 == -moved.1);
}

/// A two dimensional texture.
pub trait Texture {
    /// The width and the height of the texture plane.
    spec fn extent(&self) -> (u32, u32);

    /// Width of the texture plane.
    fn width(&self) -> (r: u32)
        ensures
            r == self.extent().0,
    ;

    /// Height of the texture plane.
    fn height(&self) -> (r: u32)
        ensures
            r == self.extent().1,
    ;

    /// Size of the texture plane (w x h).
    fn size(&self) -> (r: (u32, u32))
        ensures
            r == self.extent(),
    {
        (self.width(), self.height())
    }
}

/// The formats for shared memory buffers that every renderer supports, by their number in the
/// protocol: `argb8888` and `xrgb8888`.
pub fn mandatory_shm_formats() -> (r: Vec<u32>)
    ensures
        r@ == seq![vulkan::format::WL_SHM_ARGB8888, vulkan::format::WL_SHM_XRGB8888],
{
    vec![vulkan::format::WL_SHM_ARGB8888, vulkan::format::WL_SHM_XRGB8888]
}

/// What is known of a buffer of a client.
#[derive(Debug, Clone, Copy)]
pub struct BufferInfo {
    /// The width and height, if it is a dmabuf.
    pub dmabuf: Option<(u32, u32)>,
    /// The width and height, if an initialized EGL buffer reader knows the buffer.
    pub egl: Option<(i32, i32)>,
    /// The width and height, if it is in shared memory.
    pub shm: Option<(i32, i32)>,
}

/// Buffer type of a given buffer, if managed by this library.
#[non_exhaustive]
#[derive(Debug, Clone, Copy, PartialEq, Eq)]
pub enum BufferType {
    /// Buffer is managed by the shared memory global.
    Shm,
    /// Buffer is managed by a currently initialized EGL buffer reader.
    Egl,
    /// Buffer is managed by the dmabuf global.
    Dma,
}

/// How a buffer is imported.
#[derive(Debug, Clone, Copy, PartialEq, Eq)]
pub enum BufferImport {
    /// As a shared memory buffer.
    Shm,
    /// Through the EGL buffer reader.
    Egl,
}

impl BufferInfo {
    /// The type of the buffer: the first of a dmabuf, an EGL buffer and a shared memory buffer
    /// that it is.
    pub open spec fn kind(self) -> Option<BufferType> {
        if self.dmabuf is Some {
            Some(BufferType::Dma)
        } else if self.egl is Some {
            Some(BufferType::Egl)
        } else if self.shm is Some {
            Some(BufferType::Shm)
        } else {
            None
        }
    }

    /// The dimensions of the buffer as what it is.
    pub open spec fn dimensions(self) -> Option<(i32, i32)> {
        match (self.dmabuf, self.egl) {
            (Some((width, height)), _) => Some((width as i32, height as i32)),
            (None, Some(size)) => Some(size),
            (None, None) => self.shm,
        }
    }
}

/// Returns the *type* of a buffer.
///
/// Returns `None` if the type is not known or otherwise not supported.
pub fn buffer_type(buffer: &BufferInfo) -> (r: Option<BufferType>)
    ensures
        r == buffer.kind(),
{
    if buffer.dmabuf.is_some() {
        Some(BufferType::Dma)
    } else if buffer.egl.is_some() {
        Some(BufferType::Egl)
    } else if buffer.shm.is_some() {
        Some(BufferType::Shm)
    } else {
        None
    }
}

/// Returns the dimensions of a buffer.
///
/// *Note*: This will only return dimensions for buffer types that are known (see [`buffer_type`]).
pub fn buffer_dimensions(buffer: &BufferInfo) -> (r: Option<(i32, i32)>)
    ensures
        r == buffer.dimensions(),
{
    match buffer.dmabuf {
        Some((width, height)) => Some(
            (
                #[verifier::truncate]
                (width as i32),
                #[verifier::truncate]
                (height as i32),
            ),
        ),
        None => match buffer.egl {
            Some(size) => Some(size),
            None => buffer.shm,
        },
    }
}

/// How a renderer of shared memory and EGL buffers imports a buffer.
///
/// Returns `None` if the buffer is neither.
pub fn import_buffer(buffer: &BufferInfo) -> (r: Option<BufferImport>)
    ensures
        r == match buffer.kind() {
            Some(BufferType::Shm) => Some(BufferImport::Shm),
            Some(BufferType::Egl) => Some(BufferImport::Egl),
            _ => None::<BufferImport>,
        },
{
    match buffer_type(buffer) {
        Some(BufferType::Shm) => Some(BufferImport::Shm),
        Some(BufferType::Egl) => Some(BufferImport::Egl),
        _ => None,
    }
}

/// Exactly the buffers of a known type have dimensions.
pub proof fn known_buffers_have_dimensions(buffer: BufferInfo)
    ensures
        buffer.dimensions() is Some <==> buffer.kind() is Some,
{
}

} // verus!
