//! Staging buffers, and the commands that copy through them.

use vstd::prelude::*;

use super::image::AllocationScheme;
use super::{Staging, StagingBuffer, Upload, VulkanImage, VulkanRenderer};
use crate::utils::Rectangle;

verus! {

/// A buffer may be the source of a transfer.
pub const BUFFER_USAGE_TRANSFER_SRC: u32 = 1;

/// Access to an object is exclusive to one queue family at a time.
pub const SHARING_MODE_EXCLUSIVE: i32 = 0;

/// The default size for a staging buffer in bytes.
///
/// This allows a 1024 x 1024 image in a 32-bit color format to be uploaded before any overflow
/// buffers are used.
pub const STAGING_BUFFER_SIZE: u64 = 1024 * 1024 * 4;

/// How a buffer is created.
#[derive(Debug, Clone, Copy, PartialEq, Eq)]
pub struct BufferCreateInfo {
    /// The size in bytes.
    pub size: u64,
    /// What the buffer is used for, a set of Vulkan buffer usage bits.
    pub usage: u32,
    /// The Vulkan sharing mode.
    pub sharing_mode: i32,
}

/// Where memory is to be.
#[derive(Debug, Clone, Copy, PartialEq, Eq)]
pub enum MemoryLocation {
    /// Memory that the CPU writes and the GPU reads.
    CpuToGpu,
    /// Memory that the GPU alone uses.
    GpuOnly,
}

/// How memory is allocated.
#[derive(Debug, Clone, Copy, PartialEq, Eq)]
pub struct AllocationPlan {
    /// Where the memory is to be.
    pub location: MemoryLocation,
    /// Whether what the memory is for is laid out linearly.
    pub linear: bool,
    /// Where the memory comes from.
    pub scheme: AllocationScheme,
}

/// How one of the buffers of a staging buffer is made and named.
#[derive(Debug, Clone, Copy)]
pub struct StagingPart {
    /// How the buffer is created.
    pub buffer: BufferCreateInfo,
    /// The name of the allocation.
    pub allocation_name: &'static str,
    /// How the memory is allocated.
    pub allocation: AllocationPlan,
    /// The name of the buffer in debugging tools.
    pub object_name: &'static str,
}

/// How a staging buffer is made: the CPU side first, then the GPU side.
#[derive(Debug, Clone, Copy)]
pub struct StagingPlan {
    /// The CPU side.
    pub cpu: StagingPart,
    /// The GPU side.
    pub gpu: StagingPart,
}

impl StagingBuffer {
    /// A staging buffer that is empty.
    pub fn new(cpu: u64, cpu_allocation: u64, gpu: u64, gpu_allocation: u64, size: u64) -> (r: Self)
        ensures
            r == (StagingBuffer {
                cpu,
                cpu_allocation,
                gpu,
                gpu_allocation,
                size,
                remaining_space: size,
            }),
    {
        StagingBuffer { cpu, cpu_allocation, gpu, gpu_allocation, size, remaining_space: size }
    }
}

impl VulkanRenderer {
    /// Whether a staging buffer of this size is within the limits of the device.
    pub fn can_allocate_staging_buffer(&self, size: u64) -> (r: bool)
        ensures
            r <==> 0 < size <= self.limits.max_buffer_size,
    {
        size > 0 && size <= self.limits.max_buffer_size
    }

    /// How a staging buffer of the given size is made.
    pub fn allocate_staging_buffer(&self, size: u64) -> (r: StagingPlan)
        requires
            0 < size <= self.limits.max_buffer_size,
        ensures
            r.cpu.buffer == (BufferCreateInfo {
                size,
                usage: BUFFER_USAGE_TRANSFER_SRC,
                sharing_mode: SHARING_MODE_EXCLUSIVE,
            }),
            r.cpu.allocation_name@ == "CPU side memory image staging buffer"@,
            r.cpu.allocation == (AllocationPlan {
                location: MemoryLocation::CpuToGpu,
                linear: true,
                scheme: AllocationScheme::GpuAllocatorManaged,
            }),
            r.cpu.object_name@ == "CPU side image staging buffer"@,
            r.gpu.buffer == r.cpu.buffer,
            r.gpu.allocation_name@ == "GPU side memory image staging buffer"@,
            r.gpu.allocation == (AllocationPlan {
                location: MemoryLocation::GpuOnly,
                linear: true,
                scheme: AllocationScheme::GpuAllocatorManaged,
            }),
            r.gpu.object_name@ == "GPU side image staging buffer"@,
    {
        let buffer = BufferCreateInfo {
            size,
            usage: BUFFER_USAGE_TRANSFER_SRC,
            sharing_mode: SHARING_MODE_EXCLUSIVE,
        };
        StagingPlan {
            cpu: StagingPart {
                buffer,
                allocation_name: "CPU side memory image staging buffer",
                allocation: AllocationPlan {
                    location: MemoryLocation::CpuToGpu,
                    linear: true,
                    scheme: AllocationScheme::GpuAllocatorManaged,
                },
                object_name: "CPU side image staging buffer",
            },
            gpu: StagingPart {
                buffer,
                allocation_name: "GPU side memory image staging buffer",
                allocation: AllocationPlan {
                    location: MemoryLocation::GpuOnly,
                    linear: true,
                    scheme: AllocationScheme::GpuAllocatorManaged,
                },
                object_name: "GPU side image staging buffer",
            },
        }
    }

    /// Whether a staging buffer has to be allocated and added before commands can be recorded.
    pub fn needs_staging_buffer(&self) -> (r: bool)
        ensures
            r <==> self.staging is None && self.staging_buffers@.len() == 0,
    {
        self.staging.is_none() && self.staging_buffers.len() == 0
    }

    /// Adds a staging buffer that is free.
    pub fn add_staging_buffer(&mut self, buffer: StagingBuffer)
        requires
            old(self).wf(),
        ensures
            final(self).wf(),
            final(self).staging_buffers@ == old(self).staging_buffers@.push(buffer),
            *final(self) == (VulkanRenderer {
                staging_buffers: final(self).staging_buffers,
                ..*old(self)
            }),
    {
        self.staging_buffers.push_back(buffer);
        assert(forall|id: u64| self.uses(id) == old(self).uses(id));
    }

    /// Prepares for commands to be recorded, unless some are being recorded already.
    ///
    /// Takes the first free command buffer and the first free staging buffer. Returns the command
    /// buffer whose recording is to be begun.
    pub fn init_staging(&mut self) -> (r: Option<u64>)
        requires
            old(self).wf(),
            old(self).staging is None ==> old(self).command_buffers@.len() > 0 && old(
                self,
            ).staging_buffers@.len() > 0,
        ensures
            final(self).wf(),
            final(self).all_command_buffers() == old(self).all_command_buffers(),
            forall|id: u64| #[trigger] final(self).uses(id) == old(self).uses(id),
            final(self).staging is Some,
            old(self).staging is Some ==> r is None && *final(self) == *old(self),
            old(self).staging is None ==> {
                &&& r == Some(old(self).command_buffers@[0])
                &&& final(self).staging->0.command_buffer == old(self).command_buffers@[0]
                &&& final(self).staging->0.uploads@.len() == 0
                &&& final(self).staging->0.upload_buffer == old(self).staging_buffers@[0]
                &&& final(self).staging->0.upload_overflow@.len() == 0
                &&& final(self).command_buffers@ == old(self).command_buffers@.drop_first()
                &&& final(self).staging_buffers@ == old(self).staging_buffers@.drop_first()
                &&& *final(self) == (VulkanRenderer {
                    staging: final(self).staging,
                    command_buffers: final(self).command_buffers,
                    staging_buffers: final(self).staging_buffers,
                    ..*old(self)
                })
            },
    {
        if self.staging.is_some() {
            return None;
        }
        let command_buffer: u64 = self.command_buffers.pop_front().unwrap();
        let upload_buffer: StagingBuffer = self.staging_buffers.pop_front().unwrap();
        self.staging = Some(
            Staging {
                command_buffer,
                uploads: Vec::new(),
                upload_buffer,
                upload_overflow: Vec::new(),
            },
        );
        proof {
            broadcast use vstd::seq_lib::group_to_multiset_ensures;

            assert(self.command_buffers@ =~= old(self).command_buffers@.drop_first());
            assert(self.staging_buffers@ =~= old(self).staging_buffers@.drop_first());
            assert(old(self).command_buffers@ =~= seq![command_buffer] + self.command_buffers@);
            assert(old(self).command_buffers@.remove(0) =~= self.command_buffers@);
            assert(self.all_command_buffers() =~= old(self).all_command_buffers());
            assert forall|id: u64| #[trigger] self.uses(id) == old(self).uses(id) by {}
        }
        Some(command_buffer)
    }

    /// Records an upload of `size` bytes to a region of an image.
    ///
    /// The image stays alive until the commands have been executed. Returns the command buffer
    /// whose recording is to be begun, if none was being recorded.
    pub fn update_memory(
        &mut self,
        image: &VulkanImage,
        size: usize,
        region: &Rectangle<i32>,
        bits_per_pixel: usize,
    ) -> (r: Option<u64>)
        requires
            old(self).wf(),
            Self::upload_fits(*image, size, *region, bits_per_pixel),
            old(self).images@.contains_key(image.id),
            old(self).images@[image.id].handles@ > 0,
            old(self).images@[image.id].refcount < usize::MAX,
            old(self).staging is None ==> old(self).command_buffers@.len() > 0 && old(
                self,
            ).staging_buffers@.len() > 0,
        ensures
            final(self).wf(),
            final(self).all_command_buffers() == old(self).all_command_buffers(),
            final(self).images@ == old(self).images@.insert(
                image.id,
                super::ImageInfo {
                    refcount: (old(self).images@[image.id].refcount + 1) as usize,
                    ..old(self).images@[image.id]
                },
            ),
            final(self).staging is Some,
            match old(self).staging {
                Some(staging) => {
                    &&& r is None
                    &&& final(self).staging->0.uploads@ == staging.uploads@.push(
                        Upload { image_id: image.id },
                    )
                    &&& final(self).staging->0 == (Staging {
                        uploads: final(self).staging->0.uploads,
                        ..staging
                    })
                    &&& *final(self) == (VulkanRenderer {
                        images: final(self).images,
                        staging: final(self).staging,
                        ..*old(self)
                    })
                },
                None => {
                    &&& r == Some(old(self).command_buffers@[0])
                    &&& final(self).staging->0.command_buffer == old(self).command_buffers@[0]
                    &&& final(self).staging->0.uploads@ == seq![Upload { image_id: image.id }]
                    &&& final(self).staging->0.upload_buffer == old(self).staging_buffers@[0]
                    &&& final(self).staging->0.upload_overflow@.len() == 0
                    &&& final(self).command_buffers@ == old(self).command_buffers@.drop_first()
                    &&& final(self).staging_buffers@ == old(self).staging_buffers@.drop_first()
                    &&& *final(self) == (VulkanRenderer {
                        images: final(self).images,
                        staging: final(self).staging,
                        command_buffers: final(self).command_buffers,
                        staging_buffers: final(self).staging_buffers,
                        ..*old(self)
                    })
                },
            },
    {
        broadcast use vstd::std_specs::hash::group_hash_axioms;

        let begun: Option<u64> = self.init_staging();
        let ghost ready = *self;
        match self.images.remove(&image.id) {
            Some(info) => {
                let used = super::ImageInfo {
                    id: info.id,
                    refcount: info.refcount + 1,
                    image: info.image,
                    underlying_memory: info.underlying_memory,
                    handles: info.handles,
                };
                self.images.insert(image.id, used);
                assert(self.images@ =~= old(self).images@.insert(image.id, used));
            },
            None => {
                assert(false);
            },
        }
        let upload = Upload { image_id: image.id };
        match self.staging.take() {
            Some(staging) => {
                let mut staging: Staging = staging;
                staging.uploads.push(upload);
                self.staging = Some(staging);
            },
            None => {
                assert(false);
            },
        }
        proof {
            let uploads = ready.staging->0.uploads@;
            assert(self.staging->0.uploads@ == uploads.push(upload));
            if old(self).staging is None {
                assert(self.staging->0.uploads@ =~= seq![upload]);
            }
            assert forall|id: u64| #[trigger]
                self.uses(id) == old(self).uses(id) + if id == image.id {
                    1nat
                } else {
                    0nat
                } by {
                super::lemma_count_push(uploads, upload, id);
                assert(ready.uses(id) == old(self).uses(id));
            }
            assert forall|id: u64| #[trigger] self.images@.contains_key(id) implies {
                &&& id < self.next_image_id
                &&& self.images@[id].id == id
                &&& self.images@[id].refcount == self.images@[id].handles@ + self.uses(id)
            } by {
                assert(old(self).images@.contains_key(id));
                assert(self.uses(id) == old(self).uses(id) + if id == image.id {
                    1nat
                } else {
                    0nat
                });
            }
            assert forall|id: u64| #[trigger] self.uses(id) > 0 implies self.images@.contains_key(
                id,
            ) by {
                assert(self.uses(id) == old(self).uses(id) + if id == image.id {
                    1nat
                } else {
                    0nat
                });
            }
        }
        begun
    }
}

} // verus!
