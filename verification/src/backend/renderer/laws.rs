//! What holds of every call of the functions for transformations and buffers.
//!
//! Each law speaks of what a call was given and what came of it.

use vstd::prelude::*;

use super::vulkan::VulkanImage;
use super::{
    buffer_dimensions, buffer_type, import_buffer, mandatory_shm_formats, BufferImport, BufferInfo,
    BufferType, Matrix, Texture, Transform,
};

verus! {

/// A matrix maps the point `(x, y)` to the point `(u, v)`, and the plane to itself.
pub open spec fn maps(matrix: Matrix, x: int, y: int, u: int, v: int) -> bool {
    &&& matrix.x.0 * x + matrix.y.0 * y + matrix.z.0 == u
    &&& matrix.x.1 * x + matrix.y.1 * y + matrix.z.1 == v
    &&& matrix.x.2 * x + matrix.y.2 * y + matrix.z.2 == 1
}

/// A quarter turn maps `(x, y)` to `(y, -x)`, and each further one turns by as much. A flipped
/// transformation first mirrors the horizontal axis and then turns.
pub proof fn planes_are_turned(transform: Transform, r: Matrix, x: int, y: int)
    requires
        call_ensures(Transform::matrix, (&transform,), r),
    ensures
        transform is Normal ==> maps(r, x, y, x, y),
        transform is _90 ==> maps(r, x, y, y, -x),
        transform is _180 ==> maps(r, x, y, -x, -y),
        transform is _270 ==> maps(r, x, y, -y, x),
        transform is Flipped ==> maps(r, x, y, -x, y),
        transform is Flipped90 ==> maps(r, x, y, y, x),
        transform is Flipped180 ==> maps(r, x, y, x, -y),
        transform is Flipped270 ==> maps(r, x, y, -y, -x),
{
    assert(0 * x == 0 && 1 * x == x && -1 * x == -x);
    assert(0 * y == 0 && 1 * y == y && -1 * y == -y);
}

/// Quarter turns the one way become quarter turns the other way, and all else is its own inverse.
/// Inverting twice changes nothing.
pub proof fn turns_are_inverted(transform: Transform, r: Transform, back: Transform)
    requires
        call_ensures(Transform::invert, (&transform,), r),
        call_ensures(Transform::invert, (&r,), back),
    ensures
        back == transform,
        transform is _90 <==> r is _270,
        transform is _270 <==> r is _90,
        transform is Flipped90 <==> r is Flipped270,
        transform is Flipped270 <==> r is Flipped90,
        transform is Normal || transform is _180 || transform is Flipped || transform is Flipped180
            ==> r == transform,
{
}

/// Exactly the quarter turns, flipped or not, exchange the width and the height.
pub proof fn quarter_turns_exchange_sides(
    transform: Transform,
    width: u32,
    height: u32,
    r: (u32, u32),
)
    requires
        call_ensures(Transform::transform_size, (&transform, width, height), r),
    ensures
        transform is _90 || transform is _270 || transform is Flipped90 || transform is Flipped270
            ==> r.0 == height && r.1 == width,
        transform is Normal || transform is _180 || transform is Flipped || transform is Flipped180
            ==> r.0 == width && r.1 == height,
{
}

/// The protocol numbers the quarter turns from zero on, and then the same flipped. No other number
/// is a transformation.
pub proof fn transforms_have_eight_numbers(code: u32, r: Option<Transform>)
    requires
        call_ensures(Transform::from_protocol, (code,), r),
    ensures
        r is Some <==> code < 8,
        code == 0 ==> r == Some(Transform::Normal),
        code == 1 ==> r == Some(Transform::_90),
        code == 2 ==> r == Some(Transform::_180),
        code == 3 ==> r == Some(Transform::_270),
        code == 4 ==> r == Some(Transform::Flipped),
        code == 5 ==> r == Some(Transform::Flipped90),
        code == 6 ==> r == Some(Transform::Flipped180),
        code == 7 ==> r == Some(Transform::Flipped270),
{
}

/// Every renderer supports the formats of `wl_shm` with the numbers 0 and 1, and no other.
pub proof fn two_formats_are_mandatory(r: Vec<u32>)
    requires
        call_ensures(mandatory_shm_formats, (), r),
    ensures
        r@.len() == 2 && r@[0] == 0 && r@[1] == 1,
{
}

/// A number of 32 bits as one with a sign: the upper half of the range is that of negative numbers.
pub open spec fn in_range(n: u32) -> int {
    if n <= 0x7fff_ffff {
        n as int
    } else {
        n - 0x1_0000_0000
    }
}

/// A buffer is what it is known as: a dmabuf before anything else, and an EGL buffer before one in
/// shared memory. It has the dimensions that it has as that, and is imported as that unless it is a
/// dmabuf or unknown.
pub proof fn buffers_are_what_they_are_known_as(
    buffer: BufferInfo,
    kind: Option<BufferType>,
    dimensions: Option<(i32, i32)>,
    import: Option<BufferImport>,
)
    requires
        call_ensures(buffer_type, (&buffer,), kind),
        call_ensures(buffer_dimensions, (&buffer,), dimensions),
        call_ensures(import_buffer, (&buffer,), import),
    ensures
        buffer.dmabuf is Some ==> kind == Some(BufferType::Dma) && import is None,
        buffer.dmabuf matches Some((w, h)) ==> (dimensions matches Some(size) && size.0 == in_range(
            w,
        ) && size.1 == in_range(h)),
        buffer.dmabuf is None && buffer.egl is Some ==> kind == Some(BufferType::Egl) && import
            == Some(BufferImport::Egl) && dimensions == buffer.egl,
        buffer.dmabuf is None && buffer.egl is None && buffer.shm is Some ==> kind == Some(
            BufferType::Shm,
        ) && import == Some(BufferImport::Shm) && dimensions == buffer.shm,
        buffer.dmabuf is None && buffer.egl is None && buffer.shm is None ==> kind is None
            && import is None && dimensions is None,
{
    match buffer.dmabuf {
        Some((w, h)) => {
            assert(w <= 0x7fff_ffff ==> (w as i32) == w) by (bit_vector);
            assert(w > 0x7fff_ffff ==> (w as i32) == w - 0x1_0000_0000) by (bit_vector);
            assert(h <= 0x7fff_ffff ==> (h as i32) == h) by (bit_vector);
            assert(h > 0x7fff_ffff ==> (h as i32) == h - 0x1_0000_0000) by (bit_vector);
        },
        None => {},
    }
}

/// An image has the extent that its handle tells.
pub proof fn images_have_their_extent(
    image: VulkanImage,
    width: u32,
    height: u32,
    size: (u32, u32),
    format: Option<u32>,
    vk_format: i32,
)
    requires
        call_ensures(<VulkanImage as Texture>::width, (&image,), width),
        call_ensures(<VulkanImage as Texture>::height, (&image,), height),
        call_ensures(<VulkanImage as Texture>::size, (&image,), size),
        call_ensures(VulkanImage::format, (&image,), format),
        call_ensures(VulkanImage::vk_format, (&image,), vk_format),
    ensures
        width == image.width && height == image.height,
        size.0 == image.width && size.1 == image.height,
        format == image.drm_format && vk_format == image.vk_format,
{
}

} // verus!
