//! What holds of every call of the functions that create instances, devices and renderers.
//!
//! Each law speaks of what a call was given and what came of it.

use vstd::prelude::*;

use super::device::{Device, DeviceError};
use super::extension::{ExtensionFns, MaybePromoted, Version};
use super::format::{init_formats, Asked, FormatReply, Formats};
use super::instance::{Instance, InstanceCreateInfo, InstanceError};
use super::liveness::{all_released, Alive, Liveness};
use super::physical_device::{DrmNode, PhysicalDevice};
use super::renderer::{
    allocator_properties, valid_memory_types, AllocatorProperties, Cleanup, Error, FeatureQuery,
    MemoryType, PhysicalDeviceFeatures, RendererCreateInfo, TimelineRenderer,
};
use crate::backend::allocator::DrmFormat;
use crate::utils::text::{c_string, push_joined};

verus! {

/// The names of extensions are given to Vulkan as C strings, one for each. If some name has a zero,
/// the first such name is refused, with the place of its first zero.
pub proof fn names_of_extensions_have_no_zero(
    extensions: Vec<String>,
    i: int,
    alone: Result<Vec<u8>, usize>,
    r: Result<Vec<Vec<u8>>, DeviceError>,
)
    requires
        call_ensures(Device::validate_extensions, (&extensions,), r),
        0 <= i < extensions@.len(),
        call_ensures(c_string, (&extensions@[i],), alone),
    ensures
        r matches Ok(names) ==> names@.len() == extensions@.len() && (alone matches Ok(string)
            && names@[i]@ == string@),
        alone is Err && (forall|j: int|
            0 <= j < i ==> crate::utils::text::no_nul((#[trigger] extensions@[j])@)) ==> (
        r matches Err(DeviceError::InvalidExtension(name, position)) && name@ == extensions@[i]@
            && position == alone->Err_0),
        (forall|j: int|
            0 <= j < extensions@.len() ==> crate::utils::text::no_nul((#[trigger] extensions@[j])@))
            ==> r is Ok,
{
    match r {
        Ok(names) => {
            assert(crate::utils::text::no_nul(extensions@[i]@));
            match alone {
                Ok(_) => {},
                Err(p) => {
                    assert(vstd::utf8::encode_utf8(extensions@[i]@)[p as int] == 0u8);
                },
            }
        },
        Err(DeviceError::InvalidExtension(name, position)) => {
            let k = choose|k: int| #[trigger]
                crate::utils::text::first_with_nul(extensions@, k, position as int)
                    && extensions@[k]@ == name@;
            let bytes = vstd::utf8::encode_utf8(extensions@[k]@);
            assert(bytes[position as int] == 0u8);
            assert(!crate::utils::text::no_nul(extensions@[k]@));
            match alone {
                Ok(_) => {},
                Err(p) => {
                    let own = vstd::utf8::encode_utf8(extensions@[i]@);
                    assert(own[p as int] == 0u8);
                    assert(!crate::utils::text::no_nul(extensions@[i]@));
                    if i == k {
                        if p < position {
                            assert(own.take(position as int)[p as int] == 0u8);
                        } else if position < p {
                            assert(own.take(p as int)[position as int] == 0u8);
                        }
                    } else if i < k {
                        assert(crate::utils::text::no_nul(extensions@[i]@));
                    }
                },
            }
        },
        Err(_) => {},
    }
}

/// An instance is of Vulkan 1.1 and has the names of the extensions and layers as C strings, one
/// for each. It is created as it is validated; without layers, none is enabled.
pub proof fn instances_have_their_extensions_and_layers(
    extensions: Vec<String>,
    layers: Vec<String>,
    none: Vec<String>,
    i: int,
    j: int,
    extension: Result<Vec<u8>, usize>,
    layer: Result<Vec<u8>, usize>,
    r: Result<InstanceCreateInfo, InstanceError>,
    bare: Result<InstanceCreateInfo, InstanceError>,
)
    requires
        call_ensures(Instance::with_extensions_and_layers, (&extensions, &layers), r),
        call_ensures(Instance::with_extensions, (&extensions,), bare),
        0 <= i < extensions@.len(),
        call_ensures(c_string, (&extensions@[i],), extension),
        0 <= j < layers@.len(),
        call_ensures(c_string, (&layers@[j],), layer),
    ensures
        r matches Ok(info) ==> {
            &&& info.api_version == 0x40_1000
            &&& info.extensions@.len() == extensions@.len()
            &&& extension matches Ok(string)
            &&& info.extensions@[i]@ == string@
            &&& info.layers@.len() == layers@.len()
            &&& layer matches Ok(named)
            &&& info.layers@[j]@ == named@
        },
        bare matches Ok(info) ==> {
            &&& info.api_version == 0x40_1000
            &&& info.extensions@.len() == extensions@.len()
            &&& extension matches Ok(string)
            &&& info.extensions@[i]@ == string@
            &&& info.layers@.len() == 0
        },
        extension is Err ==> (r matches Err(InstanceError::InvalidExtension(_, _))) && (
        bare matches Err(InstanceError::InvalidExtension(_, _))),
        extension is Err && (forall|k: int|
            0 <= k < i ==> crate::utils::text::no_nul((#[trigger] extensions@[k])@)) ==> (
        r matches Err(InstanceError::InvalidExtension(name, position)) && name@ == extensions@[i]@
            && position == extension->Err_0),
        (forall|k: int|
            0 <= k < extensions@.len() ==> crate::utils::text::no_nul((#[trigger] extensions@[k])@))
            ==> bare is Ok && !(r matches Err(InstanceError::InvalidExtension(_, _))) && (layer
            is Err ==> (r matches Err(InstanceError::InvalidLayer(_, _)))),
{
    let own = vstd::utf8::encode_utf8(extensions@[i]@);
    match extension {
        Ok(_) => {},
        Err(p) => {
            assert(own[p as int] == 0u8);
            assert(!crate::utils::text::no_nul(extensions@[i]@));
        },
    }
    match layer {
        Ok(_) => {},
        Err(p) => {
            assert(vstd::utf8::encode_utf8(layers@[j]@)[p as int] == 0u8);
            assert(!crate::utils::text::no_nul(layers@[j]@));
        },
    }
    match r {
        Ok(_) => {
            assert(crate::utils::text::no_nul(extensions@[i]@));
            assert(crate::utils::text::no_nul(layers@[j]@));
        },
        Err(InstanceError::InvalidExtension(name, position)) => {
            lemma_refused(extensions@, name@, position as int);
            let k = choose|k: int| #[trigger]
                crate::utils::text::first_with_nul(extensions@, k, position as int)
                    && extensions@[k]@ == name@;
            assert(vstd::utf8::encode_utf8(extensions@[k]@)[position as int] == 0u8);
            assert(!crate::utils::text::no_nul(extensions@[k]@));
            match extension {
                Ok(_) => {},
                Err(p) => {
                    if i == k {
                        if p < position {
                            assert(own.take(position as int)[p as int] == 0u8);
                        } else if position < p {
                            assert(own.take(p as int)[position as int] == 0u8);
                        }
                    } else if i < k {
                        assert(crate::utils::text::no_nul(extensions@[i]@));
                    }
                },
            }
        },
        Err(InstanceError::InvalidLayer(_, _)) => {
            assert(crate::utils::text::none_has_nul(extensions@));
            assert(crate::utils::text::no_nul(extensions@[i]@));
        },
        Err(_) => {},
    }
    match bare {
        Ok(_) => {
            assert(crate::utils::text::no_nul(extensions@[i]@));
        },
        Err(InstanceError::InvalidExtension(name, position)) => {
            lemma_refused(extensions@, name@, position as int);
        },
        Err(_) => {},
    }
}

proof fn lemma_refused(names: Seq<String>, name: Seq<char>, position: int)
    requires
        crate::utils::text::refused_name(names, name, position),
    ensures
        exists|k: int| 0 <= k < names.len() && !crate::utils::text::no_nul((#[trigger] names[k])@),
{
    let k = choose|k: int| #[trigger]
        crate::utils::text::first_with_nul(names, k, position) && names[k]@ == name;
    assert(vstd::utf8::encode_utf8(names[k]@)[position] == 0u8);
    assert(!crate::utils::text::no_nul(names[k]@));
}

/// What goes wrong with names is told with the names, or with the name and the place of its zero.
pub proof fn errors_tell_the_names(
    names: Vec<String>,
    name: String,
    position: usize,
    list: &mut String,
    missing: String,
    missing_layers: String,
    missing_on_device: String,
    invalid: String,
    invalid_layer: String,
    invalid_on_device: String,
)
    requires
        old(list)@.len() == 0,
        call_ensures(push_joined, (list, &names), ()),
        call_ensures(InstanceError::message, (&InstanceError::MissingExtensions(names),), missing),
        call_ensures(InstanceError::message, (&InstanceError::MissingLayers(names),), missing_layers),
        call_ensures(DeviceError::message, (&DeviceError::MissingExtensions(names),), missing_on_device),
        call_ensures(
            InstanceError::message,
            (&InstanceError::InvalidExtension(name, position),),
            invalid,
        ),
        call_ensures(
            InstanceError::message,
            (&InstanceError::InvalidLayer(name, position),),
            invalid_layer,
        ),
        call_ensures(
            DeviceError::message,
            (&DeviceError::InvalidExtension(name, position),),
            invalid_on_device,
        ),
    ensures
        missing@ == "The following extensions instance extensions were missing: "@ + final(list)@,
        missing_layers@ == "The following extensions instance layers were missing: "@
            + final(list)@,
        missing_on_device@ == "The following extensions device extensions were missing: "@
            + final(list)@,
        invalid@ == "The extension string \""@ + name@ + "\" contains a null terminator at "@
            + crate::utils::text::decimal(position as nat),
        invalid_layer@ == "The layer string \""@ + name@ + "\" contains a null terminator at "@
            + crate::utils::text::decimal(position as nat),
        invalid_on_device@ == invalid@,
{
    assert(final(list)@ =~= crate::utils::text::joined(names@));
}

/// A device has its own handle and its own instance.
pub proof fn handles_are_their_own(
    device: Device,
    instance: &Instance,
    handle: u64,
    instance_handle: u64,
)
    requires
        call_ensures(Device::instance, (&device,), instance),
        call_ensures(Device::raw_handle, (&device,), handle),
        call_ensures(Instance::raw_handle, (instance,), instance_handle),
    ensures
        handle == device.handle,
        instance_handle == device.instance.handle,
{
}

/// A device is supported exactly if it was asked about timeline semaphores and supports them. What
/// it says of a feature counts where it was asked about it.
pub proof fn features_count_where_asked_about(
    query: FeatureQuery,
    timeline_semaphore: bool,
    formats_4444: bool,
    features: PhysicalDeviceFeatures,
    supported: bool,
)
    requires
        call_ensures(
            PhysicalDeviceFeatures::from_extensions_and_features,
            (&query, timeline_semaphore, formats_4444),
            features,
        ),
        call_ensures(PhysicalDeviceFeatures::is_supported, (&features,), supported),
    ensures
        supported <==> query.timeline_semaphore && timeline_semaphore,
        query.formats_4444 ==> features.formats_4444 == Some(formats_4444),
        !query.formats_4444 ==> features.formats_4444 is None,
{
}

/// An atom of memory has a valid size exactly if it is a power of two: 1 is one, 0 is none, no
/// other odd number is one, and doubling a number changes nothing about it.
pub proof fn atoms_have_a_power_of_two(
    info: RendererCreateInfo,
    double: RendererCreateInfo,
    r: bool,
    s: bool,
)
    requires
        call_ensures(RendererCreateInfo::has_valid_atom_size, (&info,), r),
        call_ensures(RendererCreateInfo::has_valid_atom_size, (&double,), s),
        info.non_coherent_atom_size <= isize::MAX,
    ensures
        info.non_coherent_atom_size == 0 ==> !r,
        info.non_coherent_atom_size == 1 ==> r,
        info.non_coherent_atom_size % 2 == 1 && info.non_coherent_atom_size > 1 ==> !r,
        double.non_coherent_atom_size == 2 * info.non_coherent_atom_size
            && double.non_coherent_atom_size <= isize::MAX ==> r == s,
        double.non_coherent_atom_size > isize::MAX ==> !s,
{
    reveal(vstd::arithmetic::power2::is_pow2);
    reveal_with_fuel(vstd::arithmetic::power2::is_pow2, 2);
}

/// The allocator is told of every type of memory its heap and those properties that it knows, which
/// are the lower six, and of the heaps and limits as they are.
pub proof fn the_allocator_is_told_of_all_memory(
    memory_types: Vec<MemoryType>,
    memory_heaps: Vec<u64>,
    info: RendererCreateInfo,
    i: int,
    r: AllocatorProperties,
)
    requires
        call_ensures(allocator_properties, (&memory_types, memory_heaps, &info), r),
    ensures
        r.memory_types@.len() == memory_types@.len(),
        0 <= i < memory_types@.len() ==> r.memory_types@[i].props
            == memory_types@[i].property_flags % 64 && r.memory_types@[i].heap
            == memory_types@[i].heap_index,
        r.memory_heaps == memory_heaps,
        r.max_memory_allocation_count == info.max_memory_allocation_count,
        r.max_memory_allocation_size == info.max_memory_size_allocation_size,
        r.non_coherent_atom_size == info.non_coherent_atom_size,
        !r.buffer_device_address,
{
    if 0 <= i < memory_types@.len() {
        let flags = memory_types@[i].property_flags;
        assert((flags as u8) & 0x3f == flags % 64) by (bit_vector);
        assert(r.memory_types@[i].heap == memory_types@[i].heap_index);
    }
}

/// A renderer has the formats that the device is said to have, asked with the version and the
/// extensions, and with dmabufs where their functions are loaded. Where those formats are an error,
/// so is the renderer. It can use the memory whose properties it knows, has its queue and its
/// extensions, and has no resources and has submitted nothing yet.
pub proof fn renderers_have_the_formats_of_the_device(
    version: Version,
    enabled: Vec<String>,
    info: RendererCreateInfo,
    memory_types: Vec<MemoryType>,
    memory_heaps: Vec<u64>,
    replies: Vec<FormatReply>,
    functions: ExtensionFns,
    dmabuf: bool,
    formats: Result<Formats, i32>,
    format: i32,
    r: Result<TimelineRenderer, Error>,
)
    requires
        call_ensures(
            TimelineRenderer::from_raw_device,
            (&version, enabled, &info, &memory_types, memory_heaps, &replies),
            r,
        ),
        call_ensures(ExtensionFns::load, (&version, &enabled), functions),
        dmabuf == functions.dmabuf_external_memory is Some,
        call_ensures(
            init_formats,
            (&(Asked { api_version: version, enabled_extensions: enabled, dmabuf }), &replies),
            formats,
        ),
    ensures
        formats matches Err(error) ==> (r matches Err(Error::Vulkan(same)) && same == error),
        formats matches Ok(known) ==> {
            &&& r matches Ok(renderer)
            &&& renderer.formats.wl_shm@ == known.wl_shm@
            &&& renderer.formats.shm_formats@ == known.shm_formats@
            &&& renderer.formats.drm_importable@ == known.drm_importable@
            &&& renderer.formats.drm_modifiers@.contains_key(format)
                == known.drm_modifiers@.contains_key(format)
            &&& known.drm_modifiers@.contains_key(format)
                ==> renderer.formats.drm_modifiers@[format]@ == known.drm_modifiers@[format]@
            &&& renderer.formats.drm_properties@.contains_key(format)
                == known.drm_properties@.contains_key(format)
            &&& known.drm_properties@.contains_key(format)
                ==> renderer.formats.drm_properties@[format].texture@
                == known.drm_properties@[format].texture@
            &&& renderer.images@.len() == 0 && renderer.staging_buffers@.len() == 0
            &&& renderer.submit_count == 0 && renderer.command_submissions@.len() == 0
            &&& renderer.queue_family_index == info.queue_family_index
            &&& renderer.extensions.khr_timeline_semaphore == functions.khr_timeline_semaphore
            &&& renderer.extensions.dmabuf_external_memory is Some == dmabuf
            &&& renderer.enabled_extensions == enabled
        },
{
    let asked = Asked { api_version: version, enabled_extensions: enabled, dmabuf };
    match (formats, r) {
        (Ok(known), Ok(renderer)) => {
            assert(renderer.formats.drm_modifiers@.contains_key(format)
                == renderer.formats.drm_modifiers@.dom().contains(format));
            assert(known.drm_modifiers@.contains_key(format) == known.drm_modifiers@.dom().contains(
                format,
            ));
            assert(renderer.formats.drm_properties@.contains_key(format)
                == renderer.formats.drm_properties@.dom().contains(format));
            assert(known.drm_properties@.contains_key(format)
                == known.drm_properties@.dom().contains(format));
        },
        _ => {},
    }
}

/// The types of memory that a renderer can use are those of the device, as a set of bits.
pub proof fn renderers_use_the_valid_memory(
    version: Version,
    enabled: Vec<String>,
    info: RendererCreateInfo,
    memory_types: Vec<MemoryType>,
    memory_heaps: Vec<u64>,
    replies: Vec<FormatReply>,
    types: u32,
    i: u32,
    r: Result<TimelineRenderer, Error>,
)
    requires
        call_ensures(
            TimelineRenderer::from_raw_device,
            (&version, enabled, &info, &memory_types, memory_heaps, &replies),
            r,
        ),
        call_ensures(valid_memory_types, (&memory_types,), types),
        i < 32,
    ensures
        r matches Ok(renderer) ==> ((renderer.valid_memory_types >> i) & 1 == 1 <==> (types >> i)
            & 1 == 1),
{
    assert(super::renderer::has_bit(types, i) == ((types >> i) & 1 == 1));
    match r {
        Ok(renderer) => {
            assert(super::renderer::has_bit(renderer.valid_memory_types, i) == ((
            renderer.valid_memory_types >> i) & 1 == 1));
        },
        Err(_) => {},
    }
}

/// What is left when a renderer goes away is all that it has.
pub proof fn renderers_leave_what_they_have(
    renderer: TimelineRenderer,
    functions: MaybePromoted,
    r: (Cleanup, gpu_alloc::GpuAllocator<u64>),
)
    requires
        call_ensures(TimelineRenderer::semaphore_functions, (&renderer,), functions),
        call_ensures(TimelineRenderer::teardown, (renderer,), r),
    ensures
        functions == renderer.extensions.khr_timeline_semaphore,
        r.0.images == renderer.images,
        r.0.staging_buffers == renderer.staging_buffers,
        r.1 == renderer.mem_allocator,
{
}

/// All handles are released exactly if the one reference is left that is no handle. A copy of a
/// handle counts for the same tracker as the handle.
pub proof fn trackers_count_their_handles(
    references: usize,
    released: bool,
    tracker: (Liveness, Alive),
    copy: Alive,
)
    requires
        call_ensures(all_released, (references,), released),
        call_ensures(Liveness::new, (), tracker),
        call_ensures(<Alive as Clone>::clone, (&tracker.1,), copy),
    ensures
        references == 1 ==> released,
        references > 1 ==> !released,
        copy.kept() == tracker.0.counted(),
{
}

/// A tracker says that all handles have been dropped exactly if its own reference is counted alone.
pub proof fn trackers_tell_by_the_count(tracker: Liveness, r: bool)
    requires
        call_ensures(Liveness::is_dropped, (&tracker,), r),
    ensures
        (forall|references: usize| #[trigger] tracker.can_count(references) ==> references == 1)
            ==> r,
        (forall|references: usize| #[trigger] tracker.can_count(references) ==> references > 1)
            ==> !r,
{
}

/// A list of formats starts empty, and what is told of it is what it has.
pub proof fn formats_tell_what_they_have(
    empty: Formats,
    formats: Formats,
    format: i32,
    shm: &Vec<u32>,
    dmabuf: &Vec<DrmFormat>,
)
    requires
        call_ensures(Formats::empty, (), empty),
        call_ensures(Formats::shm_formats, (&formats,), shm),
        call_ensures(Formats::dmabuf_formats, (&formats,), dmabuf),
    ensures
        empty.wl_shm@.len() == 0 && empty.drm_importable@.len() == 0,
        !empty.shm_formats@.contains_key(format),
        !empty.drm_modifiers@.contains_key(format),
        !empty.drm_properties@.contains_key(format),
        shm@ == formats.wl_shm@,
        dmabuf@ == formats.drm_importable@,
{
}

/// A physical device tells what it has, and is found by the numbers of a node as by the node.
pub proof fn physical_devices_tell_what_they_have<'inst>(
    device: PhysicalDevice<'inst>,
    devices: Vec<PhysicalDevice<'inst>>,
    node: DrmNode,
    instance: &'inst Instance,
    handle: u64,
    extensions: &Vec<String>,
    name: &str,
    by_numbers: Option<usize>,
    by_node: Option<usize>,
)
    requires
        call_ensures(PhysicalDevice::instance, (&device,), instance),
        call_ensures(PhysicalDevice::raw_handle, (&device,), handle),
        call_ensures(PhysicalDevice::extensions, (&device,), extensions),
        call_ensures(PhysicalDevice::name, (&device,), name),
        call_ensures(
            PhysicalDevice::with_major_and_minor,
            (&devices, node.major, node.minor, node.ty),
            by_numbers,
        ),
        call_ensures(PhysicalDevice::with_drm_node, (&devices, &node), by_node),
    ensures
        *instance == *device.instance && handle == device.handle,
        *extensions == device.extensions && name@ == device.name@,
        by_numbers == by_node,
{
    match (by_numbers, by_node) {
        (Some(i), Some(j)) => {
            assert(devices@[i as int].has_node(node.major, node.minor, node.ty));
            assert(devices@[j as int].has_node(node.major, node.minor, node.ty));
            assert(i < j ==> !devices@[i as int].has_node(node.major, node.minor, node.ty));
            assert(j < i ==> !devices@[j as int].has_node(node.major, node.minor, node.ty));
        },
        (Some(i), None) => {
            assert(devices@[i as int].has_node(node.major, node.minor, node.ty));
        },
        (None, Some(j)) => {
            assert(devices@[j as int].has_node(node.major, node.minor, node.ty));
        },
        (None, None) => {},
    }
}

/// The names that an instance is validated with are those that it is created with.
pub proof fn instances_are_created_as_validated(
    extensions: Vec<String>,
    layers: Vec<String>,
    i: int,
    valid: Result<(Vec<Vec<u8>>, Vec<Vec<u8>>), InstanceError>,
    r: Result<InstanceCreateInfo, InstanceError>,
)
    requires
        call_ensures(Instance::validate_extensions_and_layers, (&extensions, &layers), valid),
        call_ensures(Instance::with_extensions_and_layers, (&extensions, &layers), r),
    ensures
        valid is Ok <==> r is Ok,
        valid matches Ok((names, layer_names)) ==> (r matches Ok(info) && {
            &&& names@.len() == extensions@.len() && layer_names@.len() == layers@.len()
            &&& 0 <= i < names@.len() ==> names@[i]@ == info.extensions@[i]@
            &&& 0 <= i < layer_names@.len() ==> layer_names@[i]@ == info.layers@[i]@
        }),
{
    match (valid, r) {
        (Ok((names, layer_names)), Ok(info)) => {
            if 0 <= i < extensions@.len() {
                assert(crate::utils::text::no_nul(extensions@[i]@));
            }
            if 0 <= i < layers@.len() {
                assert(crate::utils::text::no_nul(layers@[i]@));
            }
        },
        (Ok(_), Err(InstanceError::InvalidExtension(name, position))) => {
            lemma_refused(extensions@, name@, position as int);
        },
        (Ok(_), Err(InstanceError::InvalidLayer(name, position))) => {
            lemma_refused(layers@, name@, position as int);
        },
        (Err(InstanceError::InvalidExtension(name, position)), Ok(_)) => {
            lemma_refused(extensions@, name@, position as int);
        },
        (Err(InstanceError::InvalidLayer(name, position)), Ok(_)) => {
            lemma_refused(layers@, name@, position as int);
        },
        _ => {},
    }
}

/// The allocator of a renderer is made for the memory that the device has, as the allocator is told
/// of it.
pub proof fn renderers_allocate_the_memory_of_the_device(
    version: Version,
    enabled: Vec<String>,
    info: RendererCreateInfo,
    memory_types: Vec<MemoryType>,
    memory_heaps: Vec<u64>,
    replies: Vec<FormatReply>,
    told: AllocatorProperties,
    i: int,
    r: Result<TimelineRenderer, Error>,
)
    requires
        call_ensures(
            TimelineRenderer::from_raw_device,
            (&version, enabled, &info, &memory_types, memory_heaps, &replies),
            r,
        ),
        call_ensures(allocator_properties, (&memory_types, memory_heaps, &info), told),
    ensures
        r matches Ok(renderer) ==> {
            let device = super::renderer::allocator_device(renderer.mem_allocator);
            &&& device.0.len() == told.memory_types@.len()
            &&& 0 <= i < device.0.len() ==> device.0[i].0 == told.memory_types@[i].props
                && device.0[i].1 == told.memory_types@[i].heap
            &&& device.1 == memory_heaps@
            &&& device.2 == info.max_memory_allocation_count
            &&& device.3 == info.max_memory_size_allocation_size
            &&& device.4 == info.non_coherent_atom_size
            &&& !device.5
        },
{
    if 0 <= i < memory_types@.len() {
        assert(told.memory_types@[i].heap == memory_types@[i].heap_index);
    }
}

} // verus!
