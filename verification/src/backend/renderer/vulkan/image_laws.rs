//! What holds of every call of the functions that keep the books of a renderer.
//!
//! Each law speaks of what a call was given and what came of it.

use vstd::prelude::*;

use super::image::{
    allocation_scheme, common_image_validation, fits_creation_limits, plan_image_allocation,
    plan_mem_image, AllocationScheme, ImageCreateInfo, ImageFormatProperties,
};
use super::memory::memory_import_size;
use super::renderer::Error;
use super::setup::{
    candidate_mem_formats, graphics_queue_family, supported_formats, DevicePlan, DeviceReport,
    FormatReport,
};
use super::staging::{AllocationPlan, MemoryLocation, StagingPlan};
use super::{
    DestroyedImage, FinishedSubmission, ImageInfo, Limits, StagingBuffer, Teardown, Upload,
    VulkanImage, VulkanRenderer,
};
use crate::utils::{Rectangle, Size};

verus! {

broadcast use vstd::std_specs::hash::group_hash_axioms;

/// Memory is imported in eight formats: `AR24`, `BA24`, `RA24`, `XB24`, `AR30`, `BA30`, `RA30` and
/// `XR30`.
pub proof fn memory_is_imported_in_eight_formats(r: Vec<u32>)
    requires
        call_ensures(candidate_mem_formats, (), r),
    ensures
        r@.len() == 8,
        r@[0] == 0x3432_5241 && r@[1] == 0x3432_4142 && r@[2] == 0x3432_4152 && r@[3]
            == 0x3432_4258,
        r@[4] == 0x3033_5241 && r@[5] == 0x3033_4142 && r@[6] == 0x3033_4152 && r@[7]
            == 0x3033_5258,
{
}

/// A Vulkan format is supported exactly if some report on it says that its images are planes. Each
/// is named once.
pub proof fn planes_are_supported(reports: Vec<FormatReport>, format: i32, r: Vec<i32>)
    requires
        call_ensures(supported_formats, (&reports,), r),
    ensures
        r@.contains(format) <==> exists|i: int|
            0 <= i < reports@.len() && (#[trigger] reports@[i]).vk_format == Some(format)
                && reports@[i].max_depth == Some(1u32),
        r@.no_duplicates(),
{
    if exists|i: int|
        0 <= i < reports@.len() && (#[trigger] reports@[i]).vk_format == Some(format)
            && reports@[i].max_depth == Some(1u32) {
        let i = choose|i: int|
            0 <= i < reports@.len() && (#[trigger] reports@[i]).vk_format == Some(format)
                && reports@[i].max_depth == Some(1u32);
        assert(super::setup::reports_format(reports@[i], format));
        assert(super::setup::some_reports_format(reports@, format));
    }
    assert(r@.contains(format) <==> super::setup::some_reports_format(reports@, format));
}

proof fn lemma_graphics(flags: u32)
    ensures
        super::setup::is_graphics(flags) <==> flags % 2 == 1,
{
    assert((flags & 1 == 1) == (flags % 2 == 1)) by (bit_vector);
}

/// The first family whose first bit is set runs graphics, if there is one.
pub proof fn the_first_bit_is_for_graphics(flags: Vec<u32>, j: int, r: Option<usize>)
    requires
        call_ensures(graphics_queue_family, (&flags,), r),
        0 <= j < flags@.len(),
    ensures
        r matches Some(i) ==> i < flags@.len() && flags@[i as int] % 2 == 1,
        flags@[j] % 2 == 1 ==> (r matches Some(i) && i <= j),
{
    lemma_graphics(flags@[j]);
    match r {
        Some(i) => {
            lemma_graphics(flags@[i as int]);
        },
        None => {},
    }
}

/// A device can be used exactly if it supports dedicated allocations and some queue family of it
/// runs graphics; families are counted by 32 bits. A device that can be used can be planned for.
pub proof fn devices_are_usable_with_graphics(device: DeviceReport, j: int, r: bool)
    requires
        call_ensures(DeviceReport::is_usable, (&device,), r),
    ensures
        super::laws::is_listed(device.extensions@, "VK_KHR_dedicated_allocation"@)
            && device.queue_flags@.len() <= 0xffff_ffff && 0 <= j < device.queue_flags@.len()
            && device.queue_flags@[j] % 2 == 1 ==> r,
        r ==> super::laws::is_listed(device.extensions@, "VK_KHR_dedicated_allocation"@)
            && device.queue_flags@.len() <= 0xffff_ffff && exists|i: int|
            0 <= i < device.queue_flags@.len() && (#[trigger] device.queue_flags@[i]) % 2 == 1,
        r ==> call_requires(VulkanRenderer::plan, (&device,)),
{
    if 0 <= j < device.queue_flags@.len() {
        lemma_graphics(device.queue_flags@[j]);
    }
    if r {
        assert(device.usable());
        let i = choose|i: int|
            0 <= i < device.queue_flags@.len() && super::setup::is_graphics(
                #[trigger] device.queue_flags@[i],
            );
        lemma_graphics(device.queue_flags@[i]);
    }
}

/// A device is created with one queue of the first family that runs graphics and with dedicated
/// allocations alone. It keeps to the limits of the physical device; the size of buffers is
/// limited only where the device tells its limit. It has four command buffers, and staging buffers
/// of 4 MiB.
pub proof fn devices_are_planned_within_their_limits(device: DeviceReport, j: int, r: DevicePlan)
    requires
        call_ensures(VulkanRenderer::plan, (&device,), r),
    ensures
        r.queue_family_index < device.queue_flags@.len(),
        device.queue_flags@[r.queue_family_index as int] % 2 == 1,
        0 <= j < r.queue_family_index ==> device.queue_flags@[j] % 2 == 0,
        r.extensions@.len() == 1,
        r.extensions@[0]@ == "VK_KHR_dedicated_allocation"@,
        r.limits.max_framebuffer_width == device.max_framebuffer_width,
        r.limits.max_framebuffer_height == device.max_framebuffer_height,
        super::laws::is_listed(device.extensions@, "VK_KHR_maintenance4"@)
            ==> r.limits.max_buffer_size == device.max_buffer_size,
        !super::laws::is_listed(device.extensions@, "VK_KHR_maintenance4"@)
            ==> r.limits.max_buffer_size == 0xffff_ffff_ffff_ffff,
        r.command_buffer_count == 4,
        r.staging_buffer_size == 0x40_0000,
{
    lemma_graphics(device.queue_flags@[r.queue_family_index as int]);
    if 0 <= j < r.queue_family_index {
        lemma_graphics(device.queue_flags@[j]);
    }
}

/// A new renderer has no images and runs nothing. It has the command buffers and staging buffers
/// that it was given, in order, and the limits and formats.
pub proof fn new_renderers_have_what_they_were_given(
    limits: Limits,
    command_buffers: Vec<u64>,
    formats: Vec<i32>,
    staging_buffers: (StagingBuffer, StagingBuffer),
    id: u64,
    r: VulkanRenderer,
)
    requires
        call_ensures(VulkanRenderer::new, (limits, command_buffers, formats, staging_buffers), r),
    ensures
        !r.images@.contains_key(id),
        r.executing@.len() == 0 && r.staging is None,
        r.images_pending_destruction@.len() == 0,
        r.limits == limits && r.supported_formats == formats,
        r.command_buffers@ == command_buffers@,
        r.staging_buffers@.len() == 2,
        r.staging_buffers@[0] == staging_buffers.0 && r.staging_buffers@[1] == staging_buffers.1,
{
}

/// An image is valid exactly if its format has an equivalent and it is not empty either way.
pub proof fn valid_images_are_not_empty(vk_format: Option<i32>, size: Size<i32>, r: bool)
    requires
        call_ensures(common_image_validation, (vk_format, &size), r),
    ensures
        r <==> vk_format is Some && size.w >= 1 && size.h >= 1,
{
}

/// An image fits exactly if it is neither wider nor higher than the driver can create, and the
/// driver can create planes with one level, one layer and one sample per pixel.
pub proof fn images_fit_their_limits(size: Size<i32>, limits: ImageFormatProperties, r: bool)
    requires
        call_ensures(fits_creation_limits, (&size, &limits), r),
    ensures
        r <==> size.w <= limits.max_width && size.h <= limits.max_height && limits.max_depth > 0
            && limits.max_mip_levels > 0 && limits.max_array_layers > 0 && limits.sample_counts % 2
            == 1,
        size.w > 0 && size.h > 0 ==> call_requires(fits_creation_limits, (&size, &limits)),
{
    let counts = limits.sample_counts;
    assert((counts & 1 == 1) == (counts % 2 == 1)) by (bit_vector);
}

/// An image in memory has the format and the extent that were asked for. It is a plane with one
/// level, one layer and one sample per pixel, to transfer from and to it and to sample it, which
/// one queue uses at a time.
pub proof fn images_are_created_as_asked(
    vk_format: i32,
    size: Size<i32>,
    limits: ImageFormatProperties,
    fits: bool,
    r: ImageCreateInfo,
)
    requires
        call_ensures(fits_creation_limits, (&size, &limits), fits),
        call_ensures(plan_mem_image, (vk_format, &size, &limits), r),
        size.w > 0,
        size.h > 0,
    ensures
        fits ==> call_requires(plan_mem_image, (vk_format, &size, &limits)),
        r.format == vk_format,
        r.width == size.w && r.height == size.h && r.depth == 1,
        r.image_type == 1,
        r.mip_levels == 1 && r.array_layers == 1 && r.samples == 1,
        r.usage == 7,
        r.flags == 0 && r.tiling == 0 && r.sharing_mode == 0 && r.initial_layout == 0,
{
}

/// An image has its memory to itself exactly if the driver requires or prefers it. The memory is
/// the GPU's alone and is not laid out linearly.
pub proof fn images_are_allocated_as_the_driver_likes(
    image: u64,
    requires_dedicated: bool,
    prefers_dedicated: bool,
    scheme: AllocationScheme,
    r: AllocationPlan,
)
    requires
        call_ensures(allocation_scheme, (image, requires_dedicated, prefers_dedicated), scheme),
        call_ensures(plan_image_allocation, (image, requires_dedicated, prefers_dedicated), r),
    ensures
        requires_dedicated ==> scheme == AllocationScheme::DedicatedImage(image),
        prefers_dedicated ==> scheme == AllocationScheme::DedicatedImage(image),
        !requires_dedicated && !prefers_dedicated ==> scheme
            == AllocationScheme::GpuAllocatorManaged,
        r.scheme == scheme,
        r.location == MemoryLocation::GpuOnly && !r.linear,
{
}

/// An image gets an id that no image has had: one above the last. It is known with what it was
/// given and has one reference. All else stays.
pub proof fn new_images_get_new_ids(
    renderer: &mut VulkanRenderer,
    format: u32,
    info: ImageCreateInfo,
    image: u64,
    memory: u64,
    name: String,
    other: u64,
    r: VulkanImage,
)
    requires
        call_ensures(
            VulkanRenderer::create_mem_image,
            (renderer, format, &info, image, memory),
            r,
        ),
        call_ensures(VulkanRenderer::next_image_name, (&*old(renderer),), name),
        old(renderer).next_image_id < u64::MAX,
    ensures
        r.id == old(renderer).next_image_id,
        name@ == "Memory Image "@ + crate::utils::text::decimal(r.id as nat),
        final(renderer).next_image_id == r.id + 1,
        !old(renderer).images@.contains_key(r.id),
        r.width == info.width && r.height == info.height && r.vk_format == info.format
            && r.drm_format == Some(format),
        final(renderer).images@.contains_key(r.id),
        ({
            let known = final(renderer).images@[r.id];
            &&& known.id == r.id && known.image == image && known.refcount == 1
            &&& known.underlying_memory == Some(memory) && known.handles@ == 1
        }),
        other != r.id ==> final(renderer).images@.contains_key(other)
            == old(renderer).images@.contains_key(other) && final(renderer).images@[other]
            == old(renderer).images@[other],
        *final(renderer) == (VulkanRenderer {
            images: final(renderer).images,
            next_image_id: final(renderer).next_image_id,
            ..*old(renderer)
        }),
{
}

/// A copy of a handle is a handle to the same image, and giving it back leaves the image as it was
/// before. In between it has one reference and one handle more, and nothing else changes.
pub proof fn handles_are_counted(
    first: &mut VulkanRenderer,
    second: &mut VulkanRenderer,
    image: VulkanImage,
    other: u64,
    r: VulkanImage,
)
    requires
        call_ensures(VulkanRenderer::clone_image, (first, &image), r),
        call_ensures(VulkanRenderer::drop_image, (second, r), ()),
        *old(second) == *final(first),
        old(first).images@.contains_key(image.id),
        old(first).images@[image.id].refcount < usize::MAX,
    ensures
        r == image,
        final(first).images@[image.id].refcount == old(first).images@[image.id].refcount + 1,
        final(first).images@[image.id].handles@ == old(first).images@[image.id].handles@ + 1,
        final(first).images@[image.id].image == old(first).images@[image.id].image,
        final(first).images@[image.id].underlying_memory
            == old(first).images@[image.id].underlying_memory,
        final(second).images@ == old(first).images@,
        other != image.id ==> final(first).images@.contains_key(other)
            == old(first).images@.contains_key(other) && final(first).images@[other]
            == old(first).images@[other],
        final(first).images_pending_destruction == old(first).images_pending_destruction,
        final(second).images_pending_destruction == old(first).images_pending_destruction,
{
    let before = old(first).images@[image.id];
    let after = final(second).images@[image.id];
    assert(after.refcount == before.refcount);
    assert(after.handles@ == before.handles@);
    assert(after == before);
    assert(final(second).images@ =~= old(first).images@);
}

/// Giving back a handle takes one reference and one handle from its image, which stays known, and
/// nothing from any other. A handle to an image that is not known changes nothing.
pub proof fn handles_are_given_back(renderer: &mut VulkanRenderer, image: VulkanImage, other: u64)
    requires
        call_ensures(VulkanRenderer::drop_image, (renderer, image), ()),
        old(renderer).wf(),
        old(renderer).images@.contains_key(image.id) ==> old(renderer).images@[image.id].handles@ > 0,
    ensures
        final(renderer).images@.contains_key(other) == old(renderer).images@.contains_key(other),
        other != image.id ==> final(renderer).images@[other] == old(renderer).images@[other],
        old(renderer).images@.contains_key(image.id) ==> {
            let before = old(renderer).images@[image.id];
            let after = final(renderer).images@[image.id];
            &&& after.refcount == before.refcount - 1
            &&& after.handles@ == before.handles@ - 1
            &&& after.id == before.id && after.image == before.image
            &&& after.underlying_memory == before.underlying_memory
        },
        final(renderer).images_pending_destruction == old(renderer).images_pending_destruction,
{
}

/// Data can be uploaded exactly if the region does not start before the image, is no larger than it
/// and there is data for every pixel of the image; a part of a byte does not count.
pub proof fn uploads_fit_their_image(
    image: VulkanImage,
    size: usize,
    region: Rectangle<i32>,
    bits_per_pixel: usize,
    r: bool,
)
    requires
        call_ensures(
            VulkanRenderer::can_update_memory,
            (&image, size, &region, bits_per_pixel),
            r,
        ),
    ensures
        r <==> {
            &&& region.loc.x >= 0 && region.loc.y >= 0
            &&& region.size.w >= 0 && region.size.h >= 0
            &&& region.size.w <= image.width && region.size.h <= image.height
            &&& image.width * image.height * (bits_per_pixel as int / 8) <= size
        },
{
    let bytes = bits_per_pixel as int / 8;
    assert(bytes * image.width * image.height == image.width * image.height * bytes)
        by (nonlinear_arith);
}

/// Data can be imported exactly if the width and the height are in the range of 32 bits with a sign
/// and there is data for every pixel.
pub proof fn imports_fit_their_image(
    info: ImageCreateInfo,
    data_len: usize,
    bits_per_pixel: usize,
    r: bool,
)
    requires
        call_ensures(VulkanRenderer::can_import_memory, (&info, data_len, bits_per_pixel), r),
    ensures
        r <==> {
            &&& info.width <= 0x7fff_ffff && info.height <= 0x7fff_ffff
            &&& info.width * info.height * (bits_per_pixel as int / 8) <= data_len
        },
{
    let bytes = bits_per_pixel as int / 8;
    assert(bytes * info.width * info.height == info.width * info.height * bytes)
        by (nonlinear_arith);
}

/// Four bytes are imported for each pixel, and there have to be as many. A size that is negative is
/// an error.
pub proof fn four_bytes_are_imported_per_pixel(
    data_len: usize,
    size: Size<i32>,
    r: Result<usize, Error>,
)
    requires
        call_ensures(memory_import_size, (data_len, &size), r),
    ensures
        size.w >= 0 && size.h >= 0 && 4 * (size.w * size.h) <= data_len ==> (r matches Ok(needed)
            && needed == 4 * (size.w * size.h)),
        size.w < 0 || size.h < 0 || 4 * (size.w * size.h) > data_len ==> (r matches Err(error)
            && error == Error::UnsupportedFormat),
{
    let (w, h) = (size.w as int, size.h as int);
    assert(w * h * 4 == 4 * (w * h)) by (nonlinear_arith);
    if w >= 0 && h >= 0 {
        assert(w * h >= 0) by (nonlinear_arith)
            requires
                w >= 0,
                h >= 0,
        ;
    }
}

/// A staging buffer can be allocated exactly if it is not empty and not larger than a buffer may
/// be. Both of its sides have its size and are the source of transfers; the CPU writes to the first
/// and the GPU alone uses the second.
pub proof fn staging_buffers_have_two_sides(
    renderer: VulkanRenderer,
    size: u64,
    can: bool,
    r: StagingPlan,
)
    requires
        call_ensures(VulkanRenderer::can_allocate_staging_buffer, (&renderer, size), can),
        call_ensures(VulkanRenderer::allocate_staging_buffer, (&renderer, size), r),
    ensures
        can <==> size >= 1 && size <= renderer.limits.max_buffer_size,
        can ==> call_requires(VulkanRenderer::allocate_staging_buffer, (&renderer, size)),
        r.cpu.buffer.size == size && r.gpu.buffer.size == size,
        r.cpu.buffer.usage == 1 && r.gpu.buffer.usage == 1,
        r.cpu.buffer.sharing_mode == 0 && r.gpu.buffer.sharing_mode == 0,
        r.cpu.allocation.location == MemoryLocation::CpuToGpu,
        r.gpu.allocation.location == MemoryLocation::GpuOnly,
        r.cpu.allocation.linear && r.gpu.allocation.linear,
        r.cpu.allocation.scheme == AllocationScheme::GpuAllocatorManaged,
        r.gpu.allocation.scheme == AllocationScheme::GpuAllocatorManaged,
        r.cpu.allocation_name@ == "CPU side memory image staging buffer"@,
        r.cpu.object_name@ == "CPU side image staging buffer"@,
        r.gpu.allocation_name@ == "GPU side memory image staging buffer"@,
        r.gpu.object_name@ == "GPU side image staging buffer"@,
{
}

/// A new staging buffer has all of its space.
pub proof fn new_staging_buffers_are_empty(
    cpu: u64,
    cpu_allocation: u64,
    gpu: u64,
    gpu_allocation: u64,
    size: u64,
    r: StagingBuffer,
)
    requires
        call_ensures(StagingBuffer::new, (cpu, cpu_allocation, gpu, gpu_allocation, size), r),
    ensures
        r.cpu == cpu && r.cpu_allocation == cpu_allocation,
        r.gpu == gpu && r.gpu_allocation == gpu_allocation,
        r.size == size && r.remaining_space == size,
{
}

/// Once staging buffers were added that were needed, none is needed. They are taken in the order in
/// which they were added, and so are command buffers.
pub proof fn recording_takes_the_first_free_buffers(
    first: &mut VulkanRenderer,
    second: &mut VulkanRenderer,
    buffer: StagingBuffer,
    needed: bool,
    needed_still: bool,
    r: Option<u64>,
)
    requires
        call_ensures(VulkanRenderer::needs_staging_buffer, (&*old(first),), needed),
        call_ensures(VulkanRenderer::add_staging_buffer, (first, buffer), ()),
        *old(second) == *final(first),
        call_ensures(VulkanRenderer::needs_staging_buffer, (&*old(second),), needed_still),
        call_ensures(VulkanRenderer::init_staging, (second,), r),
    ensures
        needed <==> old(first).staging is None && old(first).staging_buffers@.len() == 0,
        !needed_still,
        final(first).staging_buffers@ == old(first).staging_buffers@.push(buffer),
        old(first).staging is Some ==> r is None && *final(second) == *final(first),
        old(first).staging is None && old(first).command_buffers@.len() > 0 ==> {
            &&& r == Some(old(first).command_buffers@[0])
            &&& final(second).staging matches Some(staging)
            &&& staging.command_buffer == old(first).command_buffers@[0]
            &&& staging.upload_buffer == (if needed {
                buffer
            } else {
                old(first).staging_buffers@[0]
            })
            &&& staging.uploads@.len() == 0 && staging.upload_overflow@.len() == 0
            &&& final(second).command_buffers@ == old(first).command_buffers@.skip(1)
            &&& final(second).staging_buffers@ == final(first).staging_buffers@.skip(1)
        },
        final(second).images@ == old(first).images@,
        final(second).executing@ == old(first).executing@,
{
    assert(old(first).command_buffers@.len() > 0 ==> old(first).command_buffers@.drop_first()
        =~= old(first).command_buffers@.skip(1));
    assert(final(first).staging_buffers@.drop_first() =~= final(first).staging_buffers@.skip(1));
}

/// An upload to an image is recorded behind those that were, and the image gets one reference more
/// that is no handle. All other images stay. Recording begins, with the first free buffers, unless
/// it has begun.
pub proof fn uploads_keep_their_image(
    renderer: &mut VulkanRenderer,
    image: VulkanImage,
    size: usize,
    region: Rectangle<i32>,
    bits_per_pixel: usize,
    other: u64,
    can: bool,
    r: Option<u64>,
)
    requires
        call_ensures(
            VulkanRenderer::update_memory,
            (renderer, &image, size, &region, bits_per_pixel),
            r,
        ),
        old(renderer).images@.contains_key(image.id),
        old(renderer).images@[image.id].refcount < usize::MAX,
        old(renderer).staging is None ==> old(renderer).command_buffers@.len() > 0
            && old(renderer).staging_buffers@.len() > 0,
        call_ensures(
            VulkanRenderer::can_update_memory,
            (&image, size, &region, bits_per_pixel),
            can,
        ),
    ensures
        can && old(renderer).wf() && old(renderer).images@[image.id].handles@ > 0 ==> call_requires(
            VulkanRenderer::update_memory,
            (renderer, &image, size, &region, bits_per_pixel),
        ),
        ({
            let before = old(renderer).images@[image.id];
            let after = final(renderer).images@[image.id];
            &&& after.refcount == before.refcount + 1
            &&& after.handles == before.handles
            &&& after.id == before.id && after.image == before.image
            &&& after.underlying_memory == before.underlying_memory
        }),
        final(renderer).images@.contains_key(other) == old(renderer).images@.contains_key(other),
        other != image.id ==> final(renderer).images@[other] == old(renderer).images@[other],
        final(renderer).staging matches Some(staging) && {
            &&& staging.uploads@.len() > 0 && staging.uploads@.last().image_id == image.id
            &&& staging.uploads@.drop_last() == (match old(renderer).staging {
                Some(staging) => staging.uploads@,
                None => Seq::empty(),
            })
            &&& old(renderer).staging matches Some(before) ==> {
                &&& r is None
                &&& staging.command_buffer == before.command_buffer
                &&& staging.upload_buffer == before.upload_buffer
                &&& staging.upload_overflow == before.upload_overflow
                &&& final(renderer).command_buffers == old(renderer).command_buffers
                &&& final(renderer).staging_buffers == old(renderer).staging_buffers
            }
            &&& old(renderer).staging is None ==> {
                &&& r == Some(old(renderer).command_buffers@[0])
                &&& staging.command_buffer == old(renderer).command_buffers@[0]
                &&& staging.upload_buffer == old(renderer).staging_buffers@[0]
                &&& staging.upload_overflow@.len() == 0
                &&& final(renderer).command_buffers@ == old(renderer).command_buffers@.skip(1)
                &&& final(renderer).staging_buffers@ == old(renderer).staging_buffers@.skip(1)
            }
        },
        final(renderer).executing == old(renderer).executing
            && final(renderer).images_pending_destruction
            == old(renderer).images_pending_destruction,
{
    assert(old(renderer).command_buffers@.len() > 0 ==> old(renderer).command_buffers@.drop_first()
        =~= old(renderer).command_buffers@.skip(1));
    assert(old(renderer).staging_buffers@.len() > 0 ==> old(renderer).staging_buffers@.drop_first()
        =~= old(renderer).staging_buffers@.skip(1));
    match old(renderer).staging {
        Some(staging) => {
            assert(final(renderer).staging->0.uploads@.drop_last() =~= staging.uploads@);
        },
        None => {
            assert(final(renderer).staging->0.uploads@.drop_last() =~= Seq::<Upload>::empty());
        },
    }
}

/// What was recorded is executing, behind all that was, until it has finished: nothing of it is
/// lost, and nothing is recorded any more.
pub proof fn what_was_recorded_executes(renderer: &mut VulkanRenderer, r: Option<u64>)
    requires
        call_ensures(VulkanRenderer::submit_staging_buffers, (renderer,), r),
    ensures
        final(renderer).staging is None,
        old(renderer).staging is None ==> r is None && final(renderer).executing@
            == old(renderer).executing@,
        old(renderer).staging matches Some(staging) ==> {
            &&& r == Some(staging.command_buffer)
            &&& final(renderer).executing@.len() == old(renderer).executing@.len() + 1
            &&& final(renderer).executing@.drop_last() == old(renderer).executing@
            &&& final(renderer).executing@.last().command_buffer == staging.command_buffer
            &&& final(renderer).executing@.last().uploads == staging.uploads
            &&& final(renderer).executing@.last().upload_buffer == staging.upload_buffer
            &&& final(renderer).executing@.last().upload_overflow == staging.upload_overflow
        },
        final(renderer).images == old(renderer).images,
        final(renderer).command_buffers == old(renderer).command_buffers,
        final(renderer).staging_buffers == old(renderer).staging_buffers,
{
}

/// How many of a list of uploads are to an image.
pub open spec fn uploads_to(uploads: Seq<Upload>, id: u64) -> int {
    uploads.filter(|upload: Upload| upload.image_id == id).len() as int
}

proof fn lemma_uploads_to(uploads: Seq<Upload>, id: u64)
    ensures
        uploads_to(uploads, id) == super::count_uploads(uploads, id),
    decreases uploads.len(),
{
    reveal(Seq::filter);
    if uploads.len() > 0 {
        lemma_uploads_to(uploads.drop_last(), id);
    }
}

proof fn lemma_released(images: Map<u64, ImageInfo>, uploads: Seq<Upload>)
    requires
        forall|id: u64| #[trigger]
            images.contains_key(id) ==> images[id].refcount >= super::count_uploads(uploads, id),
    ensures
        super::released_images(images, uploads).no_duplicates(),
        forall|id: u64| #[trigger]
            super::released_images(images, uploads).contains(id) <==> images.contains_key(id)
                && images[id].refcount == super::count_uploads(uploads, id) && super::count_uploads(
                uploads,
                id,
            ) > 0,
    decreases uploads.len(),
{
    let released = super::released_images(images, uploads);
    if uploads.len() > 0 {
        let front = uploads.drop_last();
        let last = uploads.last().image_id;
        assert forall|id: u64| #[trigger] images.contains_key(id) implies images[id].refcount
            >= super::count_uploads(front, id) by {}
        lemma_released(images, front);
        let before = super::released_images(images, front);
        assert(!before.contains(last));
        assert forall|id: u64| #[trigger] released.contains(id) <==> images.contains_key(id)
            && images[id].refcount == super::count_uploads(uploads, id) && super::count_uploads(
            uploads,
            id,
        ) > 0 by {
            if before.contains(id) {
                let k = choose|k: int| 0 <= k < before.len() && before[k] == id;
                assert(released[k] == id);
            }
            if released.contains(id) && id != last {
                let k = choose|k: int| 0 <= k < released.len() && released[k] == id;
                assert(before[k] == id);
            }
            if released.len() > before.len() {
                assert(released[before.len() as int] == last);
            }
        }
    }
}

/// When the oldest commands have finished, each upload of them gives back one reference to its
/// image and none of its handles. The images whose last reference that was, and only those, are
/// queued for destruction, once each. The command buffer and the staging buffer are free again,
/// with all space, behind those that are. Everything else that executes stays.
pub proof fn finished_commands_give_back_what_they_used(
    renderer: &mut VulkanRenderer,
    id: u64,
    r: Option<FinishedSubmission>,
)
    requires
        call_ensures(VulkanRenderer::cleanup_submission, (renderer,), r),
        old(renderer).wf(),
        old(renderer).executing@.len() > 0,
    ensures
        ({
            let done = old(renderer).executing@[0];
            let pending = old(renderer).images_pending_destruction@;
            let queued = final(renderer).images_pending_destruction@.skip(pending.len() as int);
            &&& r matches Some(finished)
            &&& finished.command_buffer == done.command_buffer
            &&& finished.upload_overflow == done.upload_overflow
            &&& final(renderer).executing@ == old(renderer).executing@.skip(1)
            &&& final(renderer).command_buffers@ == old(renderer).command_buffers@.push(
                done.command_buffer,
            )
            &&& final(renderer).staging_buffers@.len() == old(renderer).staging_buffers@.len() + 1
            &&& final(renderer).staging_buffers@.drop_last() == old(renderer).staging_buffers@
            &&& ({
                let free = final(renderer).staging_buffers@.last();
                &&& free.cpu == done.upload_buffer.cpu && free.gpu == done.upload_buffer.gpu
                &&& free.cpu_allocation == done.upload_buffer.cpu_allocation
                &&& free.gpu_allocation == done.upload_buffer.gpu_allocation
                &&& free.size == done.upload_buffer.size
                &&& free.remaining_space == done.upload_buffer.size
            })
            &&& final(renderer).images@.contains_key(id) == old(renderer).images@.contains_key(id)
            &&& old(renderer).images@.contains_key(id) ==> {
                let before = old(renderer).images@[id];
                let after = final(renderer).images@[id];
                &&& after.refcount == before.refcount - uploads_to(done.uploads@, id)
                &&& after.handles == before.handles
                &&& after.id == before.id && after.image == before.image
                &&& after.underlying_memory == before.underlying_memory
            }
            &&& final(renderer).images_pending_destruction@.take(pending.len() as int) == pending
            &&& queued.no_duplicates()
            &&& queued.contains(id) <==> {
                &&& old(renderer).images@.contains_key(id)
                &&& uploads_to(done.uploads@, id) > 0
                &&& final(renderer).images@[id].refcount == 0
            }
            &&& final(renderer).staging == old(renderer).staging
        }),
{
    let done = old(renderer).executing@[0];
    let pending = old(renderer).images_pending_destruction@;
    let images = old(renderer).images@;
    let released = super::released_images(images, done.uploads@);
    assert(old(renderer).executing@.drop_first() =~= old(renderer).executing@.skip(1));
    assert forall|other: u64| #[trigger] images.contains_key(other) implies images[other].refcount
        >= super::count_uploads(done.uploads@, other) by {
        assert(old(renderer).uses(other) >= super::count_uploads(done.uploads@, other));
    }
    lemma_released(images, done.uploads@);
    lemma_uploads_to(done.uploads@, id);
    assert(final(renderer).images_pending_destruction@ == pending + released);
    assert(final(renderer).images_pending_destruction@.skip(pending.len() as int) =~= released);
    assert(final(renderer).images_pending_destruction@.take(pending.len() as int) =~= pending);
    assert(final(renderer).images@.contains_key(id) == final(renderer).images@.dom().contains(id));
    if images.contains_key(id) {
        assert(final(renderer).images@.contains_key(id));
    }
}

/// An image that is to be destroyed is one that was known, with its resource and its memory.
pub open spec fn is_image(destroyed: DestroyedImage, images: Map<u64, ImageInfo>) -> bool {
    &&& images.contains_key(destroyed.id)
    &&& destroyed.image == images[destroyed.id].image
    &&& destroyed.underlying_memory == images[destroyed.id].underlying_memory
}

/// No two of a list have the same id.
pub open spec fn are_distinct(list: Seq<DestroyedImage>) -> bool {
    forall|i: int, j: int|
        0 <= i < j < list.len() ==> (#[trigger] list[i]).id != (#[trigger] list[j]).id
}

/// One of a list has the given id.
pub open spec fn is_among(list: Seq<DestroyedImage>, id: u64) -> bool {
    exists|i: int| 0 <= i < list.len() && (#[trigger] list[i]).id == id
}

proof fn lemma_destroyed(images: Map<u64, ImageInfo>, ids: Seq<u64>)
    requires
        forall|id: u64| #[trigger] images.contains_key(id) ==> images[id].id == id,
    ensures
        ({
            let list = super::destroyed_images(images, ids);
            &&& are_distinct(list)
            &&& forall|i: int| 0 <= i < list.len() ==> is_image(#[trigger] list[i], images)
            &&& forall|id: u64| #[trigger]
                is_among(list, id) <==> images.contains_key(id) && ids.contains(id)
        }),
    decreases ids.len(),
{
    let list = super::destroyed_images(images, ids);
    if ids.len() > 0 {
        let front = ids.drop_last();
        let last = ids.last();
        lemma_destroyed(images, front);
        let before = super::destroyed_images(images, front);
        assert(is_among(before, last) <==> images.contains_key(last) && front.contains(last));
        assert forall|id: u64| #[trigger] is_among(list, id) <==> images.contains_key(id)
            && ids.contains(id) by {
            assert(is_among(before, id) <==> images.contains_key(id) && front.contains(id));
            if front.contains(id) {
                let k = choose|k: int| 0 <= k < front.len() && front[k] == id;
                assert(ids[k] == id);
            }
            if ids.contains(id) && id != last {
                let k = choose|k: int| 0 <= k < ids.len() && ids[k] == id;
                assert(front[k] == id);
            }
            assert(ids[ids.len() - 1] == last);
            if is_among(before, id) {
                let k = choose|k: int| 0 <= k < before.len() && (#[trigger] before[k]).id == id;
                assert(list[k].id == id);
            }
            if is_among(list, id) && id != last {
                let k = choose|k: int| 0 <= k < list.len() && (#[trigger] list[k]).id == id;
                assert(before[k].id == id);
            }
            if list.len() > before.len() {
                assert(list[before.len() as int].id == last);
            }
        }
        assert(are_distinct(list)) by {
            if list.len() > before.len() {
                assert(!is_among(before, last));
                assert forall|i: int, j: int| 0 <= i < j < list.len() implies (
                #[trigger] list[i]).id != (#[trigger] list[j]).id by {
                    if j == before.len() {
                        assert(before[i].id == list[i].id);
                    } else {
                        assert(before[i].id != before[j].id);
                    }
                }
            }
        }
    }
}

/// The images that are queued for destruction, and that are known, are forgotten and handed out,
/// once each. All other images stay, and nothing is queued any more.
pub proof fn queued_images_are_destroyed(
    renderer: &mut VulkanRenderer,
    id: u64,
    i: int,
    r: Vec<DestroyedImage>,
)
    requires
        call_ensures(VulkanRenderer::destroy_images, (renderer,), r),
        old(renderer).wf(),
    ensures
        is_among(r@, id) <==> old(renderer).images@.contains_key(id)
            && old(renderer).images_pending_destruction@.contains(id),
        are_distinct(r@),
        0 <= i < r@.len() ==> is_image(r@[i], old(renderer).images@),
        final(renderer).images@.contains_key(id) <==> old(renderer).images@.contains_key(id)
            && !old(renderer).images_pending_destruction@.contains(id),
        final(renderer).images@.contains_key(id) ==> final(renderer).images@[id]
            == old(renderer).images@[id],
        final(renderer).images_pending_destruction@.len() == 0,
        final(renderer).executing == old(renderer).executing && final(renderer).staging
            == old(renderer).staging,
{
    lemma_destroyed(old(renderer).images@, old(renderer).images_pending_destruction@);
}

/// The images to which nothing refers, or all images, are forgotten and handed out, once each. All
/// others stay.
pub proof fn unused_images_are_destroyed(
    renderer: &mut VulkanRenderer,
    destroy: bool,
    id: u64,
    i: int,
    r: Vec<DestroyedImage>,
)
    requires
        call_ensures(VulkanRenderer::cleanup_images, (renderer, destroy), r),
        old(renderer).wf(),
    ensures
        is_among(r@, id) <==> old(renderer).images@.contains_key(id) && (destroy
            || old(renderer).images@[id].refcount == 0),
        are_distinct(r@),
        0 <= i < r@.len() ==> is_image(r@[i], old(renderer).images@),
        final(renderer).images@.contains_key(id) <==> old(renderer).images@.contains_key(id)
            && !destroy && old(renderer).images@[id].refcount > 0,
        final(renderer).images@.contains_key(id) ==> final(renderer).images@[id]
            == old(renderer).images@[id],
        final(renderer).images_pending_destruction == old(renderer).images_pending_destruction,
        final(renderer).executing == old(renderer).executing && final(renderer).staging
            == old(renderer).staging,
{
    let images = old(renderer).images@;
    if images.contains_key(id) && (destroy || images[id].refcount == 0) {
        let wanted = super::destroyed_image(images[id]);
        assert(r@.contains(wanted));
        let k = choose|k: int| 0 <= k < r@.len() && r@[k] == wanted;
        assert(r@[k].id == id);
    }
    if is_among(r@, id) {
        let k = choose|k: int| 0 <= k < r@.len() && (#[trigger] r@[k]).id == id;
        assert(r@[k] == super::destroyed_image(images[id]));
    }
    if 0 <= i < r@.len() {
        assert(r@[i] == super::destroyed_image(images[r@[i].id]));
    }
}

/// When a renderer is taken apart, every command that was submitted has finished, in order, every
/// image is handed out once, and so is every staging buffer that was free or in use by them.
pub proof fn everything_is_taken_apart(
    renderer: VulkanRenderer,
    id: u64,
    i: int,
    r: Teardown,
)
    requires
        call_ensures(VulkanRenderer::teardown, (renderer,), r),
        renderer.wf(),
    ensures
        is_among(r.images@, id) <==> renderer.images@.contains_key(id),
        are_distinct(r.images@),
        0 <= i < r.images@.len() ==> is_image(r.images@[i], renderer.images@),
        r.finished@.len() == renderer.executing@.len(),
        r.staging_buffers@.len() == renderer.staging_buffers@.len() + renderer.executing@.len(),
        0 <= i < renderer.executing@.len() ==> {
            let done = renderer.executing@[i];
            let buffer = r.staging_buffers@[renderer.staging_buffers@.len() + i];
            &&& r.finished@[i].command_buffer == done.command_buffer
            &&& r.finished@[i].upload_overflow == done.upload_overflow
            &&& buffer.cpu == done.upload_buffer.cpu && buffer.gpu == done.upload_buffer.gpu
            &&& buffer.cpu_allocation == done.upload_buffer.cpu_allocation
            &&& buffer.gpu_allocation == done.upload_buffer.gpu_allocation
            &&& buffer.size == done.upload_buffer.size
        },
        0 <= i < renderer.staging_buffers@.len() ==> r.staging_buffers@[i]
            == renderer.staging_buffers@[i],
{
    let images = renderer.images@;
    if images.contains_key(id) {
        let wanted = super::destroyed_image(images[id]);
        assert(r.images@.contains(wanted));
        let k = choose|k: int| 0 <= k < r.images@.len() && r.images@[k] == wanted;
        assert(r.images@[k].id == id);
    }
    if is_among(r.images@, id) {
        let k = choose|k: int| 0 <= k < r.images@.len() && (#[trigger] r.images@[k]).id == id;
        assert(r.images@[k] == super::destroyed_image(images[id]));
    }
    if 0 <= i < r.images@.len() {
        assert(r.images@[i] == super::destroyed_image(images[r.images@[i].id]));
    }
}

/// Importing memory adds one image, with one handle and one reference of the upload that fills it,
/// which is the last that is recorded.
pub proof fn imported_images_are_uploaded(
    renderer: &mut VulkanRenderer,
    format: u32,
    info: ImageCreateInfo,
    image: u64,
    memory: u64,
    data_len: usize,
    bits_per_pixel: usize,
    other: u64,
    r: (VulkanImage, Option<u64>),
)
    requires
        call_ensures(
            VulkanRenderer::import_memory,
            (renderer, format, &info, image, memory, data_len, bits_per_pixel),
            r,
        ),
        old(renderer).staging is None ==> old(renderer).command_buffers@.len() > 0
            && old(renderer).staging_buffers@.len() > 0,
    ensures
        r.0.id == old(renderer).next_image_id,
        final(renderer).next_image_id == old(renderer).next_image_id + 1,
        r.0.width == info.width && r.0.height == info.height && r.0.vk_format == info.format
            && r.0.drm_format == Some(format),
        r.1 is None <==> old(renderer).staging is Some,
        r.1 matches Some(begun) ==> begun == old(renderer).command_buffers@[0],
        !old(renderer).images@.contains_key(r.0.id) && final(renderer).images@.contains_key(r.0.id),
        ({
            let known = final(renderer).images@[r.0.id];
            &&& known.id == r.0.id && known.image == image
            &&& known.underlying_memory == Some(memory)
            &&& known.refcount == 2 && known.handles@ == 1
        }),
        other != r.0.id ==> final(renderer).images@.contains_key(other)
            == old(renderer).images@.contains_key(other) && final(renderer).images@[other]
            == old(renderer).images@[other],
        final(renderer).staging matches Some(staging) && {
            &&& staging.uploads@.len() > 0 && staging.uploads@.last().image_id == r.0.id
            &&& staging.uploads@.drop_last() == (match old(renderer).staging {
                Some(staging) => staging.uploads@,
                None => Seq::empty(),
            })
        },
        final(renderer).executing == old(renderer).executing,
{
    match old(renderer).staging {
        Some(staging) => {
            assert(final(renderer).staging->0.uploads@.drop_last() =~= staging.uploads@);
        },
        None => {
            assert(final(renderer).staging->0.uploads@.drop_last() =~= Seq::<Upload>::empty());
        },
    }
}

} // verus!
