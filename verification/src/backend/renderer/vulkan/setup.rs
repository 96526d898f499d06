//! Selection of what a renderer uses of a device.

use std::collections::{HashMap, VecDeque};

use vstd::prelude::*;

use super::names::{khr_dedicated_allocation, khr_maintenance4};
use super::staging::STAGING_BUFFER_SIZE;
use super::{Limits, StagingBuffer, VulkanRenderer};
use crate::backend::allocator::{
    FOURCC_ARGB2101010, FOURCC_ARGB8888, FOURCC_BGRA1010102, FOURCC_BGRA8888, FOURCC_RGBA1010102,
    FOURCC_RGBA8888, FOURCC_XBGR8888, FOURCC_XRGB2101010,
};
use crate::utils::text::contains_name;

verus! {

/// A queue that can run graphics commands.
pub const QUEUE_GRAPHICS: u32 = 1;

/// How many command buffers a renderer has.
pub const COMMAND_BUFFER_COUNT: u32 = 4;

/// What a renderer has to know of a physical device.
pub struct DeviceReport {
    /// The extensions that the device supports.
    pub extensions: Vec<String>,
    /// The capabilities of each queue family, a set of Vulkan queue bits.
    pub queue_flags: Vec<u32>,
    /// The widest framebuffer.
    pub max_framebuffer_width: u32,
    /// The highest framebuffer.
    pub max_framebuffer_height: u32,
    /// The largest buffer. The value counts only where `VK_KHR_maintenance4` is supported.
    pub max_buffer_size: u64,
}

/// How the device of a renderer is created.
pub struct DevicePlan {
    /// The queue family to create one queue of.
    pub queue_family_index: u32,
    /// The extensions to enable.
    pub extensions: Vec<String>,
    /// The limits that the renderer keeps to.
    pub limits: Limits,
    /// How many command buffers to allocate.
    pub command_buffer_count: u32,
    /// The size of each of the two staging buffers to allocate.
    pub staging_buffer_size: u64,
}

/// What a driver says of a format that memory may be imported in.
#[derive(Debug, Clone, Copy)]
pub struct FormatReport {
    /// The equivalent Vulkan format, if there is one.
    pub vk_format: Option<i32>,
    /// The largest depth of an image of that format, if the format is supported.
    pub max_depth: Option<u32>,
}

/// A queue family can run graphics commands.
pub open spec fn is_graphics(flags: u32) -> bool {
    flags & QUEUE_GRAPHICS == QUEUE_GRAPHICS
}

/// Index `i` is the first queue family that can run graphics commands.
pub open spec fn first_graphics_family(flags: Seq<u32>, i: int) -> bool {
    &&& 0 <= i < flags.len()
    &&& is_graphics(flags[i])
    &&& forall|j: int| 0 <= j < i ==> !is_graphics(#[trigger] flags[j])
}

/// None of the queue families can run graphics commands.
pub open spec fn no_graphics_family(flags: Seq<u32>) -> bool {
    forall|j: int| 0 <= j < flags.len() ==> !is_graphics(#[trigger] flags[j])
}

/// The first queue family that can run graphics commands.
pub fn graphics_queue_family(flags: &Vec<u32>) -> (r: Option<usize>)
    ensures
        match r {
            Some(i) => first_graphics_family(flags@, i as int),
            None => no_graphics_family(flags@),
        },
{
    let mut i: usize = 0;
    while i < flags.len()
        invariant
            i <= flags@.len(),
            forall|j: int| 0 <= j < i ==> !is_graphics(#[trigger] flags@[j]),
        decreases flags@.len() - i,
    {
        if flags[i] & QUEUE_GRAPHICS == QUEUE_GRAPHICS {
            return Some(i);
        }
        i = i + 1;
    }
    None
}

/// The formats that memory is imported in, where the device supports them.
pub open spec fn mem_formats_spec() -> Seq<u32> {
    seq![
        FOURCC_ARGB8888,
        FOURCC_BGRA8888,
        FOURCC_RGBA8888,
        FOURCC_XBGR8888,
        FOURCC_ARGB2101010,
        FOURCC_BGRA1010102,
        FOURCC_RGBA1010102,
        FOURCC_XRGB2101010,
    ]
}

/// The formats that memory is imported in, where the device supports them.
pub fn candidate_mem_formats() -> (r: Vec<u32>)
    ensures
        r@ == mem_formats_spec(),
{
    vec![
        FOURCC_ARGB8888,
        FOURCC_BGRA8888,
        FOURCC_RGBA8888,
        FOURCC_XBGR8888,
        FOURCC_ARGB2101010,
        FOURCC_BGRA1010102,
        FOURCC_RGBA1010102,
        FOURCC_XRGB2101010,
    ]
}

/// A report says that images of the format can be created as planes.
pub open spec fn reports_format(report: FormatReport, format: i32) -> bool {
    report.vk_format == Some(format) && report.max_depth == Some(1u32)
}

/// Some report says that images of the format can be created as planes.
pub open spec fn some_reports_format(reports: Seq<FormatReport>, format: i32) -> bool {
    exists|i: int| 0 <= i < reports.len() && reports_format(#[trigger] reports[i], format)
}

/// The Vulkan formats that memory can be imported in, each once.
pub fn supported_formats(reports: &Vec<FormatReport>) -> (r: Vec<i32>)
    ensures
        r@.no_duplicates(),
        forall|format: i32| #[trigger]
            r@.contains(format) <==> some_reports_format(reports@, format),
{
    let mut formats: Vec<i32> = Vec::new();
    let mut i: usize = 0;
    while i < reports.len()
        invariant
            i <= reports@.len(),
            formats@.no_duplicates(),
            forall|format: i32| #[trigger]
                formats@.contains(format) <==> some_reports_format(reports@.take(i as int), format),
        decreases reports@.len() - i,
    {
        let ghost before = formats@;
        let ghost done = reports@.take(i as int);
        let ghost next = reports@.take(i + 1);
        let report: FormatReport = reports[i];
        proof {
            assert forall|format: i32| #[trigger] some_reports_format(next, format) <==> (
            some_reports_format(done, format) || reports_format(report, format)) by {
                if reports_format(report, format) {
                    assert(next[i as int] == report);
                }
                if some_reports_format(done, format) {
                    let k = choose|k: int|
                        0 <= k < done.len() && reports_format(#[trigger] done[k], format);
                    assert(next[k] == done[k]);
                }
                if some_reports_format(next, format) {
                    let k = choose|k: int|
                        0 <= k < next.len() && reports_format(#[trigger] next[k], format);
                    if k < i {
                        assert(done[k] == next[k]);
                    }
                }
            }
        }
        match report.vk_format {
            Some(format) => match report.max_depth {
                Some(depth) => {
                    if depth == 1 && !contains_format(&formats, format) {
                        formats.push(format);
                        proof {
                            assert forall|other: i32| #[trigger] formats@.contains(other) <==> (
                            before.contains(other) || other == format) by {
                                if other == format {
                                    assert(formats@[before.len() as int] == format);
                                } else if before.contains(other) {
                                    let k = choose|k: int|
                                        0 <= k < before.len() && before[k] == other;
                                    assert(formats@[k] == other);
                                }
                            }
                        }
                    }
                },
                None => {},
            },
            None => {},
        }
        i = i + 1;
    }
    assert(reports@.take(i as int) =~= reports@);
    formats
}

/// Whether a list of Vulkan formats has the given one.
fn contains_format(formats: &Vec<i32>, format: i32) -> (r: bool)
    ensures
        r == formats@.contains(format),
{
    let mut i: usize = 0;
    while i < formats.len()
        invariant
            i <= formats@.len(),
            forall|j: int| 0 <= j < i ==> formats@[j] != format,
        decreases formats@.len() - i,
    {
        if formats[i] == format {
            return true;
        }
        i = i + 1;
    }
    false
}

impl DeviceReport {
    /// The device has what a renderer needs: `VK_KHR_dedicated_allocation` and a queue for
    /// graphics.
    pub open spec fn usable(&self) -> bool {
        &&& crate::utils::text::has_name(self.extensions@, "VK_KHR_dedicated_allocation"@)
        &&& self.queue_flags@.len() <= u32::MAX
        &&& exists|i: int| 0 <= i < self.queue_flags@.len() && is_graphics(
            #[trigger] self.queue_flags@[i],
        )
    }

    /// Whether the device has what a renderer needs: see `usable`.
    pub fn is_usable(&self) -> (r: bool)
        ensures
            r == self.usable(),
    {
        let required: String = khr_dedicated_allocation();
        if !contains_name(&self.extensions, &required) {
            return false;
        }
        if self.queue_flags.len() as u64 > u32::MAX as u64 {
            return false;
        }
        graphics_queue_family(&self.queue_flags).is_some()
    }
}

impl VulkanRenderer {
    /// How the device of a renderer is created.
    ///
    /// Where the largest size of a buffer is not known, sizes are not limited.
    pub fn plan(device: &DeviceReport) -> (r: DevicePlan)
        requires
            device.usable(),
        ensures
            first_graphics_family(device.queue_flags@, r.queue_family_index as int),
            r.extensions@.len() == 1,
            r.extensions@[0]@ == "VK_KHR_dedicated_allocation"@,
            r.limits == (Limits {
                max_framebuffer_width: device.max_framebuffer_width,
                max_framebuffer_height: device.max_framebuffer_height,
                max_buffer_size: if crate::utils::text::has_name(
                    device.extensions@,
                    "VK_KHR_maintenance4"@,
                ) {
                    device.max_buffer_size
                } else {
                    u64::MAX
                },
            }),
            r.command_buffer_count == COMMAND_BUFFER_COUNT,
            r.staging_buffer_size == STAGING_BUFFER_SIZE,
    {
        let index: usize = match graphics_queue_family(&device.queue_flags) {
            Some(index) => index,
            None => 0,
        };
        let maintenance4: String = khr_maintenance4();
        let max_buffer_size: u64 = if contains_name(&device.extensions, &maintenance4) {
            device.max_buffer_size
        } else {
            u64::MAX
        };
        DevicePlan {
            queue_family_index: index as u32,
            extensions: vec![khr_dedicated_allocation()],
            limits: Limits {
                max_framebuffer_width: device.max_framebuffer_width,
                max_framebuffer_height: device.max_framebuffer_height,
                max_buffer_size,
            },
            command_buffer_count: COMMAND_BUFFER_COUNT,
            staging_buffer_size: STAGING_BUFFER_SIZE,
        }
    }

    /// A renderer without images, with the command buffers that were allocated for it and two
    /// staging buffers.
    pub fn new(
        limits: Limits,
        command_buffers: Vec<u64>,
        supported_formats: Vec<i32>,
        staging_buffers: (StagingBuffer, StagingBuffer),
    ) -> (r: VulkanRenderer)
        ensures
            r.wf(),
            r.images@ == Map::<u64, super::ImageInfo>::empty(),
            r.next_image_id == 0,
            r.limits == limits,
            r.staging is None,
            r.command_buffers@ == command_buffers@,
            r.executing@.len() == 0,
            r.staging_buffers@ == seq![staging_buffers.0, staging_buffers.1],
            r.images_pending_destruction@.len() == 0,
            r.supported_formats == supported_formats,
            r.all_command_buffers() == command_buffers@.to_multiset(),
    {
        let mut free: VecDeque<u64> = VecDeque::new();
        let mut i: usize = 0;
        while i < command_buffers.len()
            invariant
                i <= command_buffers@.len(),
                free@ == command_buffers@.take(i as int),
            decreases command_buffers@.len() - i,
        {
            free.push_back(command_buffers[i]);
            i = i + 1;
            assert(free@ =~= command_buffers@.take(i as int));
        }
        assert(free@ =~= command_buffers@);
        let mut buffers: VecDeque<StagingBuffer> = VecDeque::new();
        buffers.push_back(staging_buffers.0);
        buffers.push_back(staging_buffers.1);
        assert(buffers@ =~= seq![staging_buffers.0, staging_buffers.1]);
        let renderer = VulkanRenderer {
            images: HashMap::new(),
            next_image_id: 0,
            limits,
            staging: None,
            command_buffers: free,
            executing: VecDeque::new(),
            staging_buffers: buffers,
            images_pending_destruction: Vec::new(),
            supported_formats,
        };
        assert(renderer.all_command_buffers() =~= command_buffers@.to_multiset());
        renderer
    }
}

} // verus!
