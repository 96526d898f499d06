//! A renderer whose commands signal a timeline semaphore when they have finished.

use std::collections::VecDeque;

use vstd::prelude::*;

use super::extension::{ExtensionFns, MaybePromoted, Version, version_1_2, version_1_3};
use super::format::{init_formats, Asked, FormatReply, Formats};
use super::names::ext_4444_formats;
use super::setup::graphics_queue_family;
use crate::utils::text::contains_name;

verus! {

/// The memory properties that the renderer knows: device local, host visible, host coherent, host
/// cached and lazily allocated.
pub const KNOWN_MEMORY_FLAGS: u32 = 0x1f;

/// The most memory types that a device has.
pub const MAX_MEMORY_TYPES: usize = 32;

/// An error of the renderer.
#[derive(Debug, Clone, Copy, PartialEq, Eq)]
pub enum Error {
    /// The device has no queue for graphics.
    NoQueue,
    /// The format, or the size of the data in that format, is not supported.
    UnsupportedFormat,
    /// A Vulkan error.
    Vulkan(i32),
}

/// A type of memory that a device has.
#[derive(Debug, Clone, Copy, PartialEq, Eq)]
pub struct MemoryType {
    /// The properties, a set of Vulkan memory property bits.
    pub property_flags: u32,
    /// The heap that the memory comes from.
    pub heap_index: u32,
}

impl MemoryType {
    /// The properties that the allocator knows, and the heap.
    pub open spec fn for_allocator(&self) -> (u8, u32) {
        (self.property_flags as u8 & 0x3f, self.heap_index)
    }
}

/// A type of memory, as the allocator knows it.
#[derive(Debug, Clone, Copy, PartialEq, Eq)]
pub struct AllocatorMemoryType {
    /// The properties that the allocator knows.
    pub props: u8,
    /// The heap that the memory comes from.
    pub heap: u32,
}

/// `GpuAllocator` of `gpu_alloc`, which hands out memory of a device.
#[verifier::external_type_specification]
#[verifier::external_body]
#[verifier::reject_recursive_types(M)]
pub struct ExGpuAllocator<M>(gpu_alloc::GpuAllocator<M>);

/// What the allocator has to know of a device.
pub struct AllocatorProperties {
    /// The types of memory.
    pub memory_types: Vec<AllocatorMemoryType>,
    /// The size of each heap.
    pub memory_heaps: Vec<u64>,
    /// The most allocations that there can be at a time.
    pub max_memory_allocation_count: u32,
    /// The largest allocation.
    pub max_memory_allocation_size: u64,
    /// The alignment of accesses to memory that is not coherent.
    pub non_coherent_atom_size: u64,
    /// Whether buffers can have an address on the device.
    pub buffer_device_address: bool,
}

/// How a renderer is created on a device.
#[derive(Debug, Clone, Copy)]
pub struct RendererCreateInfo {
    /// The family of the queue.
    pub queue_family_index: u32,
    /// The index of the queue in its family.
    pub queue_index: u32,
    /// The most allocations that there can be at a time.
    pub max_memory_allocation_count: u32,
    /// The alignment of accesses to memory that is not coherent.
    pub non_coherent_atom_size: u64,
    /// The largest allocation.
    pub max_memory_size_allocation_size: u64,
}

/// Which features of a device are asked about.
#[derive(Debug, Clone, Copy, PartialEq, Eq)]
pub struct FeatureQuery {
    /// Whether timeline semaphores are asked about.
    pub timeline_semaphore: bool,
    /// Whether the formats of `VK_EXT_4444_formats` are asked about.
    pub formats_4444: bool,
}

/// The features of a device.
#[derive(Debug, Clone, Copy, PartialEq, Eq)]
pub struct PhysicalDeviceFeatures {
    /// Whether timeline semaphores are supported.
    pub timeline_semaphore: bool,
    /// Whether the formats of `VK_EXT_4444_formats` are supported, if that was asked.
    pub formats_4444: Option<bool>,
}

/// Commands that were submitted.
pub struct CommandSubmission {
    /// The value of the semaphore once the commands have finished.
    pub counter_value: u64,
    /// The resources that the commands use.
    pub alive: Vec<u64>,
}

/// A resource of the device that is destroyed once nothing refers to it.
#[derive(Debug, Clone, Copy, PartialEq, Eq)]
pub struct Resource {
    /// The number by which handles and commands refer to the resource.
    pub token: u64,
    /// The Vulkan object.
    pub object: u64,
    /// The memory of the object.
    pub memory: u64,
}

/// A renderer.
pub struct TimelineRenderer {
    /// The formats that are supported.
    pub formats: Formats,
    /// The types of memory that can be used, one bit for each.
    pub valid_memory_types: u32,
    /// The allocator of memory, which knows memory by its Vulkan handle.
    pub mem_allocator: gpu_alloc::GpuAllocator<u64>,
    /// The images that exist.
    pub images: Vec<Resource>,
    /// The staging buffers that exist.
    pub staging_buffers: Vec<Resource>,
    /// How many times commands were submitted.
    pub submit_count: u64,
    /// Commands that were submitted and may not have finished.
    pub command_submissions: VecDeque<CommandSubmission>,
    /// The family of the queue.
    pub queue_family_index: u32,
    /// The extension functions that are used.
    pub extensions: ExtensionFns,
    /// The extensions that are enabled.
    pub enabled_extensions: Vec<String>,
}

/// What is to be destroyed, in this order.
pub struct Cleanup {
    /// The images to destroy, then their memory to free, one after the other.
    pub images: Vec<Resource>,
    /// The staging buffers to destroy, then their memory to free, one after the other.
    pub staging_buffers: Vec<Resource>,
}

/// The memory properties that the allocator knows of a set of them.
///
/// This calls `MemoryPropertyFlags::from_bits_truncate` of `gpu_alloc`, which drops the bits that
/// are none of its six flags, and takes the bits.
#[verifier::external_body]
fn allocator_memory_properties(bits: u8) -> (r: u8)
    ensures
        r == bits & 0x3f,
{
    gpu_alloc::MemoryPropertyFlags::from_bits_truncate(bits).bits()
}

/// What an allocator was made for: the properties and the heap of each type of memory, the size of
/// each heap, the most allocations, the largest allocation, the size of an atom of memory that is
/// not coherent, and whether buffers have device addresses.
pub uninterp spec fn allocator_device(allocator: gpu_alloc::GpuAllocator<u64>) -> (
    Seq<(u8, u32)>,
    Seq<u64>,
    u32,
    u64,
    u64,
    bool,
);

impl AllocatorProperties {
    /// What an allocator with these properties is made for.
    pub open spec fn device(&self) -> (Seq<(u8, u32)>, Seq<u64>, u32, u64, u64, bool) {
        (
            self.memory_types@.map_values(|t: AllocatorMemoryType| (t.props, t.heap)),
            self.memory_heaps@,
            self.max_memory_allocation_count,
            self.max_memory_allocation_size,
            self.non_coherent_atom_size,
            self.buffer_device_address,
        )
    }

    /// An allocator can be made for a device with these properties: there are no more types of
    /// memory than it can have, it knows their properties, and atoms have a size that addresses can
    /// be aligned to.
    pub open spec fn usable(&self) -> bool {
        &&& self.memory_types@.len() <= MAX_MEMORY_TYPES
        &&& forall|i: int|
            0 <= i < self.memory_types@.len() ==> (#[trigger] self.memory_types@[i]).props <= 0x3f
        &&& is_atom_size(self.non_coherent_atom_size)
    }
}

/// An allocator for a device.
///
/// This calls `GpuAllocator::new` of `gpu_alloc` with `Config::i_am_prototyping`. The allocator
/// keeps what it is told of the device. What it does with it later is left unsaid here.
#[verifier::external_body]
fn gpu_allocator(device: &AllocatorProperties) -> (r: gpu_alloc::GpuAllocator<u64>)
    requires
        device.usable(),
    ensures
        allocator_device(r) == device.device(),
{
    let memory_type = |t: &AllocatorMemoryType| gpu_alloc::MemoryType {
        props: gpu_alloc::MemoryPropertyFlags::from_bits_truncate(t.props),
        heap: t.heap,
    };
    let properties = gpu_alloc::DeviceProperties {
        memory_types: device.memory_types.iter().map(memory_type).collect(),
        memory_heaps: device.memory_heaps.iter().map(|&size| gpu_alloc::MemoryHeap { size }).collect(),
        max_memory_allocation_count: device.max_memory_allocation_count,
        max_memory_allocation_size: device.max_memory_allocation_size,
        non_coherent_atom_size: device.non_coherent_atom_size,
        buffer_device_address: device.buffer_device_address,
    };
    gpu_alloc::GpuAllocator::new(gpu_alloc::Config::i_am_prototyping(), properties)
}

/// An atom of memory can have the size: it is a power of two and addresses can have it.
pub open spec fn is_atom_size(size: u64) -> bool {
    vstd::arithmetic::power2::is_pow2(size as int) && size <= isize::MAX
}

impl RendererCreateInfo {
    /// Whether an allocator can work with the size of an atom that the device has: see
    /// `is_atom_size`.
    pub fn has_valid_atom_size(&self) -> (r: bool)
        ensures
            r == is_atom_size(self.non_coherent_atom_size),
    {
        let mut left: u64 = self.non_coherent_atom_size;
        while left > 1 && left % 2 == 0
            invariant
                left <= self.non_coherent_atom_size,
                vstd::arithmetic::power2::is_pow2(left as int)
                    == vstd::arithmetic::power2::is_pow2(self.non_coherent_atom_size as int),
            decreases left,
        {
            proof {
                reveal(vstd::arithmetic::power2::is_pow2);
            }
            left = left / 2;
        }
        proof {
            reveal(vstd::arithmetic::power2::is_pow2);
        }
        left == 1 && self.non_coherent_atom_size <= isize::MAX as u64
    }
}

/// The renderer knows all the properties of a type of memory.
pub open spec fn knows_memory(memory: MemoryType) -> bool {
    KNOWN_MEMORY_FLAGS & memory.property_flags == memory.property_flags
}

/// Bit `i` of a set.
pub open spec fn has_bit(set: u32, i: u32) -> bool {
    (set >> i) & 1 == 1
}

/// The types of memory that can be used, one bit for each.
pub fn valid_memory_types(memory_types: &Vec<MemoryType>) -> (r: u32)
    requires
        memory_types@.len() <= MAX_MEMORY_TYPES,
    ensures
        forall|i: u32|
            i < 32 ==> (#[trigger] has_bit(r, i) <==> i < memory_types@.len() && knows_memory(
                memory_types@[i as int],
            )),
{
    let mut types: u32 = 0;
    let mut i: usize = 0;
    assert forall|j: u32| j < 32 implies !#[trigger] has_bit(0, j) by {
        assert(j < 32 ==> (0u32 >> j) & 1 == 0) by (bit_vector);
    }
    while i < memory_types.len()
        invariant
            i <= memory_types@.len() <= MAX_MEMORY_TYPES,
            forall|j: u32|
                j < 32 ==> (#[trigger] has_bit(types, j) <==> j < i && knows_memory(
                    memory_types@[j as int],
                )),
        decreases memory_types@.len() - i,
    {
        let flags: u32 = memory_types[i].property_flags;
        if KNOWN_MEMORY_FLAGS & flags == flags {
            let bit: u32 = i as u32;
            let ghost before = types;
            types = types | (1u32 << bit);
            assert forall|j: u32| j < 32 implies (#[trigger] has_bit(types, j) <==> has_bit(
                before,
                j,
            ) || j == bit) by {
                assert(j < 32 && bit < 32 ==> ((((before | (1u32 << bit)) >> j) & 1 == 1) <==> ((
                before >> j) & 1 == 1) || j == bit)) by (bit_vector);
            }
        }
        i = i + 1;
    }
    types
}

/// What the allocator has to know of a device.
pub fn allocator_properties(
    memory_types: &Vec<MemoryType>,
    memory_heaps: Vec<u64>,
    create_info: &RendererCreateInfo,
) -> (r: AllocatorProperties)
    ensures
        r.memory_types@.len() == memory_types@.len(),
        forall|i: int|
            0 <= i < memory_types@.len() ==> #[trigger] r.memory_types@[i] == (
            AllocatorMemoryType {
                props: memory_types@[i].property_flags as u8 & 0x3f,
                heap: memory_types@[i].heap_index,
            }),
        r.memory_heaps == memory_heaps,
        r.max_memory_allocation_count == create_info.max_memory_allocation_count,
        r.max_memory_allocation_size == create_info.max_memory_size_allocation_size,
        r.non_coherent_atom_size == create_info.non_coherent_atom_size,
        !r.buffer_device_address,
{
    let mut types: Vec<AllocatorMemoryType> = Vec::new();
    let mut i: usize = 0;
    while i < memory_types.len()
        invariant
            i <= memory_types@.len(),
            types@.len() == i,
            forall|j: int|
                0 <= j < i ==> #[trigger] types@[j] == (AllocatorMemoryType {
                    props: memory_types@[j].property_flags as u8 & 0x3f,
                    heap: memory_types@[j].heap_index,
                }),
        decreases memory_types@.len() - i,
    {
        let memory: MemoryType = memory_types[i];
        let props: u8 = allocator_memory_properties(
            #[verifier::truncate]
            (memory.property_flags as u8),
        );
        types.push(AllocatorMemoryType { props, heap: memory.heap_index });
        i = i + 1;
    }
    AllocatorProperties {
        memory_types: types,
        memory_heaps,
        max_memory_allocation_count: create_info.max_memory_allocation_count,
        max_memory_allocation_size: create_info.max_memory_size_allocation_size,
        non_coherent_atom_size: create_info.non_coherent_atom_size,
        buffer_device_address: false,
    }
}

impl FeatureQuery {
    /// Which features to ask a device about.
    ///
    /// The formats of `VK_EXT_4444_formats` are part of Vulkan 1.3, so that there is nothing to ask
    /// about from then on.
    pub fn from_extensions(api_version: &Version, enabled_extensions: &Vec<String>) -> (r: Self)
        ensures
            r.timeline_semaphore,
            r.formats_4444 <==> !api_version.at_least_spec(version_1_3())
                && crate::utils::text::has_name(enabled_extensions@, "VK_EXT_4444_formats"@),
    {
        let name: String = ext_4444_formats();
        FeatureQuery {
            timeline_semaphore: true,
            formats_4444: !api_version.at_least(&version_1_3()) && contains_name(
                enabled_extensions,
                &name,
            ),
        }
    }
}

impl PhysicalDeviceFeatures {
    /// The features of a device, by what it says of those that it was asked about.
    pub fn from_extensions_and_features(
        query: &FeatureQuery,
        timeline_semaphore: bool,
        formats_4444: bool,
    ) -> (r: Self)
        ensures
            r.timeline_semaphore == (query.timeline_semaphore && timeline_semaphore),
            r.formats_4444 == if query.formats_4444 {
                Some(formats_4444)
            } else {
                None::<bool>
            },
    {
        PhysicalDeviceFeatures {
            timeline_semaphore: query.timeline_semaphore && timeline_semaphore,
            formats_4444: if query.formats_4444 {
                Some(formats_4444)
            } else {
                None
            },
        }
    }

    /// Whether the device properties support the minimum requirements.
    pub fn is_supported(&self) -> (r: bool)
        ensures
            r == self.timeline_semaphore,
    {
        // Timeline semaphores
        self.timeline_semaphore
    }
}

/// The resources of a list for which `kept` has the token, in order.
pub open spec fn kept_resources(list: Seq<Resource>, kept: spec_fn(u64) -> bool) -> Seq<Resource> {
    list.filter(|resource: Resource| kept(resource.token))
}

/// Some of the commands use the resource with the token.
pub open spec fn commands_use(submissions: Seq<CommandSubmission>, token: u64) -> bool {
    exists|i: int|
        0 <= i < submissions.len() && (#[trigger] submissions[i]).alive@.contains(token)
}

/// The commands that have not finished, in order.
pub open spec fn unfinished(submissions: Seq<CommandSubmission>, value: u64) -> Seq<
    CommandSubmission,
> {
    submissions.filter(|submission: CommandSubmission| value < submission.counter_value)
}

/// Whether a list of tokens has the given one.
fn contains_token(tokens: &Vec<u64>, token: u64) -> (r: bool)
    ensures
        r == tokens@.contains(token),
{
    let mut i: usize = 0;
    while i < tokens.len()
        invariant
            i <= tokens@.len(),
            forall|j: int| 0 <= j < i ==> tokens@[j] != token,
        decreases tokens@.len() - i,
    {
        if tokens[i] == token {
            return true;
        }
        i = i + 1;
    }
    false
}

/// Whether some of the commands use the resource with the token.
fn is_used_by_commands(submissions: &VecDeque<CommandSubmission>, token: u64) -> (r: bool)
    ensures
        r == commands_use(submissions@, token),
{
    let mut i: usize = 0;
    while i < submissions.len()
        invariant
            i <= submissions@.len(),
            forall|j: int| 0 <= j < i ==> !(#[trigger] submissions@[j]).alive@.contains(token),
        decreases submissions@.len() - i,
    {
        if contains_token(&submissions[i].alive, token) {
            return true;
        }
        i = i + 1;
    }
    false
}

/// Splits a list of resources into those that are referred to and those that are not.
fn split_resources(
    list: &Vec<Resource>,
    handles: &Vec<u64>,
    submissions: &VecDeque<CommandSubmission>,
) -> (r: (Vec<Resource>, Vec<Resource>))
    ensures
        r.0@ == kept_resources(
            list@,
            |token: u64| handles@.contains(token) || commands_use(submissions@, token),
        ),
        r.1@ == kept_resources(
            list@,
            |token: u64| !(handles@.contains(token) || commands_use(submissions@, token)),
        ),
{
    reveal(Seq::filter);
    let ghost alive = |token: u64| handles@.contains(token) || commands_use(submissions@, token);
    let ghost dead = |token: u64| !(handles@.contains(token) || commands_use(submissions@, token));
    let mut kept: Vec<Resource> = Vec::new();
    let mut dropped: Vec<Resource> = Vec::new();
    let mut i: usize = 0;
    while i < list.len()
        invariant
            i <= list@.len(),
            alive == (|token: u64| handles@.contains(token) || commands_use(submissions@, token)),
            dead == (|token: u64|
                !(handles@.contains(token) || commands_use(submissions@, token))),
            kept@ == kept_resources(list@.take(i as int), alive),
            dropped@ == kept_resources(list@.take(i as int), dead),
        decreases list@.len() - i,
    {
        reveal(Seq::filter);
        let resource: Resource = list[i];
        assert(list@.take(i + 1).drop_last() =~= list@.take(i as int));
        assert(list@.take(i + 1).last() == resource);
        if contains_token(handles, resource.token) || is_used_by_commands(
            submissions,
            resource.token,
        ) {
            kept.push(resource);
        } else {
            dropped.push(resource);
        }
        i = i + 1;
    }
    assert(list@.take(i as int) =~= list@);
    (kept, dropped)
}

impl TimelineRenderer {
    /// The queue family that the queue of the renderer is to be of.
    pub fn select_queue(queue_flags: &Vec<u32>) -> (r: Result<usize, Error>)
        ensures
            match r {
                Ok(i) => super::setup::first_graphics_family(queue_flags@, i as int),
                Err(error) => error == Error::NoQueue && super::setup::no_graphics_family(
                    queue_flags@,
                ),
            },
    {
        match graphics_queue_family(queue_flags) {
            Some(index) => Ok(index),
            None => Err(Error::NoQueue),
        }
    }

    /// A renderer on a device, by what the device says of its formats.
    ///
    /// The first error of a format is returned.
    pub fn from_raw_device(
        api_version: &Version,
        enabled_extensions: Vec<String>,
        create_info: &RendererCreateInfo,
        memory_types: &Vec<MemoryType>,
        memory_heaps: Vec<u64>,
        replies: &Vec<FormatReply>,
    ) -> (r: Result<TimelineRenderer, Error>)
        requires
            memory_types@.len() <= MAX_MEMORY_TYPES,
            is_atom_size(create_info.non_coherent_atom_size),
        ensures
            ({
                let asked = super::format::Asked {
                    api_version: *api_version,
                    enabled_extensions,
                    dmabuf: super::extension::dmabuf_usable(*api_version, enabled_extensions@),
                };
                match r {
                    Err(error) => {
                        &&& error is Vulkan
                        &&& super::format::first_error(asked, replies@) == Some(error->Vulkan_0)
                    },
                    Ok(renderer) => {
                        &&& super::format::first_error(asked, replies@) is None
                        &&& renderer.formats.come_from(asked, replies@)
                        &&& forall|i: u32|
                            i < 32 ==> (#[trigger] has_bit(renderer.valid_memory_types, i) <==> i
                                < memory_types@.len() && knows_memory(memory_types@[i as int]))
                        &&& allocator_device(renderer.mem_allocator) == (
                            memory_types@.map_values(|t: MemoryType| t.for_allocator()),
                            memory_heaps@,
                            create_info.max_memory_allocation_count,
                            create_info.max_memory_size_allocation_size,
                            create_info.non_coherent_atom_size,
                            false,
                        )
                        &&& renderer.images@.len() == 0
                        &&& renderer.staging_buffers@.len() == 0
                        &&& renderer.submit_count == 0
                        &&& renderer.command_submissions@.len() == 0
                        &&& renderer.queue_family_index == create_info.queue_family_index
                        &&& (renderer.extensions.khr_timeline_semaphore
                            == MaybePromoted::Promoted) == api_version.at_least_spec(version_1_2())
                        &&& renderer.extensions.dmabuf_external_memory is Some == asked.dmabuf
                        &&& renderer.enabled_extensions == enabled_extensions
                    },
                }
            }),
    {
        let extensions: ExtensionFns = ExtensionFns::load(api_version, &enabled_extensions);
        let types: u32 = valid_memory_types(memory_types);
        let properties: AllocatorProperties = allocator_properties(
            memory_types,
            memory_heaps,
            create_info,
        );
        proof {
            assert forall|i: int| 0 <= i < properties.memory_types@.len() implies (
            #[trigger] properties.memory_types@[i]).props <= 0x3f by {
                let bits = memory_types@[i].property_flags as u8;
                assert(bits & 0x3f <= 0x3f) by (bit_vector);
            }
            assert(properties.device().0 =~= memory_types@.map_values(
                |t: MemoryType| t.for_allocator(),
            ));
        }
        let mem_allocator = gpu_allocator(&properties);
        let dmabuf: bool = extensions.dmabuf_external_memory.is_some();
        let asked = Asked { api_version: *api_version, enabled_extensions, dmabuf };
        match init_formats(&asked, replies) {
            Err(error) => Err(Error::Vulkan(error)),
            Ok(formats) => Ok(
                TimelineRenderer {
                    formats,
                    valid_memory_types: types,
                    mem_allocator,
                    images: Vec::new(),
                    staging_buffers: Vec::new(),
                    submit_count: 0,
                    command_submissions: VecDeque::new(),
                    queue_family_index: create_info.queue_family_index,
                    extensions,
                    enabled_extensions: asked.enabled_extensions,
                },
            ),
        }
    }

    /// Where the functions of timeline semaphores come from.
    pub fn semaphore_functions(&self) -> (r: MaybePromoted)
        ensures
            r == self.extensions.khr_timeline_semaphore,
    {
        self.extensions.khr_timeline_semaphore
    }

    /// A resource is referred to: by a handle, or by commands that have not finished when the
    /// semaphore has the given value.
    pub open spec fn is_alive(&self, token: u64, value: u64, handles: Seq<u64>) -> bool {
        handles.contains(token) || commands_use(unfinished(self.command_submissions@, value), token)
    }

    /// Cleans up what commands used that have finished.
    ///
    /// `value` is the value of the semaphore and `handles` are the tokens of the resources that
    /// there are handles to. Returns the resources that nothing refers to any more, which are to be
    /// destroyed.
    pub fn cleanup(&mut self, value: u64, handles: &Vec<u64>) -> (r: Cleanup)
        ensures
            final(self).command_submissions@ == unfinished(old(self).command_submissions@, value),
            final(self).images@ == kept_resources(
                old(self).images@,
                |token: u64| old(self).is_alive(token, value, handles@),
            ),
            r.images@ == kept_resources(
                old(self).images@,
                |token: u64| !old(self).is_alive(token, value, handles@),
            ),
            final(self).staging_buffers@ == kept_resources(
                old(self).staging_buffers@,
                |token: u64| old(self).is_alive(token, value, handles@),
            ),
            r.staging_buffers@ == kept_resources(
                old(self).staging_buffers@,
                |token: u64| !old(self).is_alive(token, value, handles@),
            ),
            *final(self) == (TimelineRenderer {
                command_submissions: final(self).command_submissions,
                images: final(self).images,
                staging_buffers: final(self).staging_buffers,
                ..*old(self)
            }),
    {
        self.drop_finished(value);
        let (images, dead_images): (Vec<Resource>, Vec<Resource>) = split_resources(
            &self.images,
            handles,
            &self.command_submissions,
        );
        let (buffers, dead_buffers): (Vec<Resource>, Vec<Resource>) = split_resources(
            &self.staging_buffers,
            handles,
            &self.command_submissions,
        );
        proof {
            let submissions = self.command_submissions@;
            let before = *old(self);
            assert((|token: u64| handles@.contains(token) || commands_use(submissions, token))
                =~= (|token: u64| before.is_alive(token, value, handles@)));
            assert((|token: u64| !(handles@.contains(token) || commands_use(submissions, token)))
                =~= (|token: u64| !before.is_alive(token, value, handles@)));
        }
        self.images = images;
        self.staging_buffers = buffers;
        Cleanup { images: dead_images, staging_buffers: dead_buffers }
    }

    /// Forgets the commands that have finished when the semaphore has the given value.
    fn drop_finished(&mut self, value: u64)
        ensures
            final(self).command_submissions@ == unfinished(old(self).command_submissions@, value),
            *final(self) == (TimelineRenderer {
                command_submissions: final(self).command_submissions,
                ..*old(self)
            }),
    {
        reveal(Seq::filter);
        let ghost all = self.command_submissions@;
        let count: usize = self.command_submissions.len();
        let mut i: usize = 0;
        let mut left: VecDeque<CommandSubmission> = VecDeque::new();
        while i < count
            invariant
                i <= count,
                count == all.len(),
                all == old(self).command_submissions@,
                self.command_submissions@ == all.skip(i as int),
                left@ == unfinished(all.take(i as int), value),
                *self == (TimelineRenderer {
                    command_submissions: self.command_submissions,
                    ..*old(self)
                }),
            decreases count - i,
        {
            reveal(Seq::filter);
            let submission: CommandSubmission = self.command_submissions.pop_front().unwrap();
            assert(submission == all[i as int]);
            assert(self.command_submissions@ =~= all.skip(i + 1));
            assert(all.take(i + 1).drop_last() =~= all.take(i as int));
            assert(all.take(i + 1).last() == submission);
            if value < submission.counter_value {
                left.push_back(submission);
            }
            i = i + 1;
        }
        assert(all.take(i as int) =~= all);
        self.command_submissions = left;
    }

    /// Everything that is left to destroy when the renderer goes away, and the allocator that their
    /// memory goes back to.
    pub fn teardown(self) -> (r: (Cleanup, gpu_alloc::GpuAllocator<u64>))
        ensures
            r.0.images == self.images,
            r.0.staging_buffers == self.staging_buffers,
            r.1 == self.mem_allocator,
    {
        let left = Cleanup { images: self.images, staging_buffers: self.staging_buffers };
        (left, self.mem_allocator)
    }
}

/// No resource that is referred to is ever handed out to be destroyed, and each that is not is.
pub proof fn cleanup_destroys_the_dead(
    before: Seq<Resource>,
    alive: spec_fn(u64) -> bool,
    resource: Resource,
)
    requires
        before.contains(resource),
    ensures
        alive(resource.token) ==> kept_resources(before, alive).contains(resource)
            && !kept_resources(before, |token: u64| !alive(token)).contains(resource),
        !alive(resource.token) ==> !kept_resources(before, alive).contains(resource)
            && kept_resources(before, |token: u64| !alive(token)).contains(resource),
{
    let kept = |r: Resource| alive(r.token);
    let dead = |token: u64| !alive(token);
    let dropped = |r: Resource| dead(r.token);
    let i = choose|i: int| 0 <= i < before.len() && before[i] == resource;
    assert(before[i] == resource);
    if alive(resource.token) {
        before.lemma_filter_contains(kept, i);
        if before.filter(dropped).contains(resource) {
            let j = choose|j: int|
                0 <= j < before.filter(dropped).len() && before.filter(dropped)[j] == resource;
            before.lemma_filter_pred(dropped, j);
        }
    } else {
        before.lemma_filter_contains(dropped, i);
        if before.filter(kept).contains(resource) {
            let j = choose|j: int|
                0 <= j < before.filter(kept).len() && before.filter(kept)[j] == resource;
            before.lemma_filter_pred(kept, j);
        }
    }
}

} // verus!
