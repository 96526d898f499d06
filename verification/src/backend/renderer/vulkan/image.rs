//! Images in memory of the device.

use vstd::prelude::*;
use vstd::string::*;

use super::staging::{AllocationPlan, MemoryLocation};
use super::{ImageInfo, VulkanImage, VulkanRenderer};
use crate::utils::text::push_decimal;
use crate::utils::Size;

verus! {

/// An image may be the source of a transfer.
pub const IMAGE_USAGE_TRANSFER_SRC: u32 = 1;

/// An image may be the destination of a transfer.
pub const IMAGE_USAGE_TRANSFER_DST: u32 = 2;

/// An image may be sampled by a shader.
pub const IMAGE_USAGE_SAMPLED: u32 = 4;

/// What every image in memory is used for: to transfer from and to it, and to sample it.
pub const MEM_IMAGE_USAGE: u32 = IMAGE_USAGE_TRANSFER_SRC + IMAGE_USAGE_TRANSFER_DST
    + IMAGE_USAGE_SAMPLED;

/// One sample per pixel.
pub const SAMPLE_COUNT_1: u32 = 1;

/// The image has two dimensions.
pub const IMAGE_TYPE_2D: i32 = 1;

/// The driver chooses how the image is laid out in memory.
pub const IMAGE_TILING_OPTIMAL: i32 = 0;

/// The content of the image is undefined.
pub const IMAGE_LAYOUT_UNDEFINED: i32 = 0;

/// What a driver can do with images of one format, tiling and usage.
#[derive(Debug, Clone, Copy, PartialEq, Eq)]
pub struct ImageFormatProperties {
    /// The largest width.
    pub max_width: u32,
    /// The largest height.
    pub max_height: u32,
    /// The largest depth.
    pub max_depth: u32,
    /// The most mip levels.
    pub max_mip_levels: u32,
    /// The most array layers.
    pub max_array_layers: u32,
    /// The possible sample counts, a set of Vulkan sample count bits.
    pub sample_counts: u32,
}

/// How an image is created.
#[derive(Debug, Clone, Copy, PartialEq, Eq)]
pub struct ImageCreateInfo {
    /// Vulkan image creation bits.
    pub flags: u32,
    /// The number of dimensions.
    pub image_type: i32,
    /// The Vulkan format.
    pub format: i32,
    /// The width.
    pub width: u32,
    /// The height.
    pub height: u32,
    /// The depth.
    pub depth: u32,
    /// The number of mip levels.
    pub mip_levels: u32,
    /// The number of array layers.
    pub array_layers: u32,
    /// The number of samples per pixel.
    pub samples: u32,
    /// How the image is laid out.
    pub tiling: i32,
    /// What the image is used for.
    pub usage: u32,
    /// The sharing mode.
    pub sharing_mode: i32,
    /// The layout that the image starts in.
    pub initial_layout: i32,
}

/// Where the memory of an image comes from.
#[derive(Debug, Clone, Copy, PartialEq, Eq)]
pub enum AllocationScheme {
    /// The image has its memory to itself.
    DedicatedImage(u64),
    /// The memory is part of a block that the allocator manages.
    GpuAllocatorManaged,
}

/// An image is valid in itself: its format has an equivalent in Vulkan and it is not empty.
pub open spec fn common_image_valid(vk_format: Option<i32>, size: Size<i32>) -> bool {
    vk_format is Some && size.w > 0 && size.h > 0
}

/// An image of this size is within what the driver can create.
pub open spec fn within_creation_limits(size: Size<i32>, limits: ImageFormatProperties) -> bool {
    &&& size.w <= limits.max_width
    &&& size.h <= limits.max_height
    &&& 1 <= limits.max_depth
    &&& 1 <= limits.max_mip_levels
    &&& 1 <= limits.max_array_layers
    &&& limits.sample_counts & SAMPLE_COUNT_1 == SAMPLE_COUNT_1
}

/// How an image in memory is created.
pub open spec fn mem_image_info(vk_format: i32, size: Size<i32>) -> ImageCreateInfo {
    ImageCreateInfo {
        flags: 0,
        image_type: IMAGE_TYPE_2D,
        format: vk_format,
        width: size.w as u32,
        height: size.h as u32,
        depth: 1,
        mip_levels: 1,
        array_layers: 1,
        samples: SAMPLE_COUNT_1,
        tiling: IMAGE_TILING_OPTIMAL,
        usage: MEM_IMAGE_USAGE,
        sharing_mode: super::staging::SHARING_MODE_EXCLUSIVE,
        initial_layout: IMAGE_LAYOUT_UNDEFINED,
    }
}

/// Whether an image is valid in itself: see `common_image_valid`.
///
/// The width and height must also be within the image creation limits before an image is created.
pub fn common_image_validation(vk_format: Option<i32>, size: &Size<i32>) -> (r: bool)
    ensures
        r == common_image_valid(vk_format, *size),
{
    vk_format.is_some() && size.w > 0 && size.h > 0
}

/// Whether the driver can create an image of this size: see `within_creation_limits`.
pub fn fits_creation_limits(size: &Size<i32>, limits: &ImageFormatProperties) -> (r: bool)
    requires
        size.w > 0,
        size.h > 0,
    ensures
        r == within_creation_limits(*size, *limits),
{
    size.w as u32 <= limits.max_width && size.h as u32 <= limits.max_height && 1 <= limits.max_depth
        && limits.max_mip_levels >= 1 && limits.max_array_layers >= 1 && limits.sample_counts
        & SAMPLE_COUNT_1 == SAMPLE_COUNT_1
}

/// How an image in memory is created: a plane with one sample per pixel that can be transferred
/// from and to and sampled.
pub fn plan_mem_image(vk_format: i32, size: &Size<i32>, limits: &ImageFormatProperties) -> (r:
    ImageCreateInfo)
    requires
        common_image_valid(Some(vk_format), *size),
        within_creation_limits(*size, *limits),
    ensures
        r == mem_image_info(vk_format, *size),
{
    ImageCreateInfo {
        flags: 0,
        image_type: IMAGE_TYPE_2D,
        format: vk_format,
        width: size.w as u32,
        height: size.h as u32,
        depth: 1,
        mip_levels: 1,
        array_layers: 1,
        samples: SAMPLE_COUNT_1,
        tiling: IMAGE_TILING_OPTIMAL,
        usage: MEM_IMAGE_USAGE,
        sharing_mode: super::staging::SHARING_MODE_EXCLUSIVE,
        initial_layout: IMAGE_LAYOUT_UNDEFINED,
    }
}

/// Where the memory of an image comes from.
///
/// A driver that requires or prefers a dedicated allocation gets one.
pub fn allocation_scheme(image: u64, requires_dedicated: bool, prefers_dedicated: bool) -> (r:
    AllocationScheme)
    ensures
        r == if requires_dedicated || prefers_dedicated {
            AllocationScheme::DedicatedImage(image)
        } else {
            AllocationScheme::GpuAllocatorManaged
        },
{
    if requires_dedicated || prefers_dedicated {
        AllocationScheme::DedicatedImage(image)
    } else {
        AllocationScheme::GpuAllocatorManaged
    }
}

/// How the memory of an image is allocated: memory of the GPU alone that is not laid out linearly.
pub fn plan_image_allocation(image: u64, requires_dedicated: bool, prefers_dedicated: bool) -> (r:
    AllocationPlan)
    ensures
        r == (AllocationPlan {
            location: MemoryLocation::GpuOnly,
            linear: false,
            scheme: if requires_dedicated || prefers_dedicated {
                AllocationScheme::DedicatedImage(image)
            } else {
                AllocationScheme::GpuAllocatorManaged
            },
        }),
{
    AllocationPlan {
        location: MemoryLocation::GpuOnly,
        linear: false,
        scheme: allocation_scheme(image, requires_dedicated, prefers_dedicated),
    }
}

impl VulkanRenderer {
    /// The name that the next image has in the allocator and in debugging tools.
    pub fn next_image_name(&self) -> (r: String)
        ensures
            r@ == "Memory Image "@ + crate::utils::text::decimal(self.next_image_id as nat),
    {
        let mut name: String = "Memory Image ".to_owned();
        push_decimal(&mut name, self.next_image_id);
        name
    }

    /// Adds an image that was created, with the memory that is bound to it, and returns the first
    /// handle to it.
    pub fn create_mem_image(
        &mut self,
        format: u32,
        info: &ImageCreateInfo,
        image: u64,
        memory: u64,
    ) -> (r: VulkanImage)
        requires
            old(self).wf(),
            old(self).next_image_id < u64::MAX,
        ensures
            final(self).wf(),
            r == (VulkanImage {
                id: old(self).next_image_id,
                width: info.width,
                height: info.height,
                vk_format: info.format,
                drm_format: Some(format),
            }),
            !old(self).images@.contains_key(r.id),
            final(self).images@ == old(self).images@.insert(
                r.id,
                ImageInfo {
                    id: r.id,
                    refcount: 1,
                    image,
                    underlying_memory: Some(memory),
                    handles: Ghost(1),
                },
            ),
            *final(self) == (VulkanRenderer {
                images: final(self).images,
                next_image_id: (old(self).next_image_id + 1) as u64,
                ..*old(self)
            }),
    {
        broadcast use vstd::std_specs::hash::group_hash_axioms;

        let id: u64 = self.next_image_id;
        assert(!self.images@.contains_key(id));
        assert(self.uses(id) == 0);
        self.next_image_id = id + 1;
        self.images.insert(
            id,
            ImageInfo {
                id,
                refcount: 1,
                image,
                underlying_memory: Some(memory),
                handles: Ghost(1),
            },
        );
        assert(forall|other: u64| #[trigger] self.uses(other) == old(self).uses(other));
        VulkanImage {
            id,
            width: info.width,
            height: info.height,
            vk_format: info.format,
            drm_format: Some(format),
        }
    }
}

} // verus!
