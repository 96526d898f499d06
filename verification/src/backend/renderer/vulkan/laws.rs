//! What holds of every call of the functions of the renderers.
//!
//! Each law speaks of what a call was given and what came of it.

use vstd::prelude::*;

use super::extension::{DmabufMemoryFns, ExtensionFns, MaybePromoted, Version};
use super::physical_device::{DrmNode, NodeType, PhysicalDevice};
use super::renderer::{
    Cleanup, CommandSubmission, Error, FeatureQuery, MemoryType, Resource, TimelineRenderer,
};

verus! {

proof fn lemma_filter_is_membership<A>(list: Seq<A>, keep: spec_fn(A) -> bool)
    ensures
        forall|a: A| #[trigger] list.filter(keep).contains(a) <==> list.contains(a) && keep(a),
        list.filter(keep).len() + list.filter(|a: A| !keep(a)).len() == list.len(),
    decreases list.len(),
{
    reveal(Seq::filter);
    let drop = |a: A| !keep(a);
    if list.len() > 0 {
        let front = list.drop_last();
        lemma_filter_is_membership(front, keep);
        assert(list =~= front.push(list.last()));
        let kept = list.filter(keep);
        assert forall|a: A| #[trigger] kept.contains(a) <==> list.contains(a) && keep(a) by {
            if front.filter(keep).contains(a) {
                let k = choose|k: int|
                    0 <= k < front.filter(keep).len() && front.filter(keep)[k] == a;
                assert(kept[k] == a);
                let l = choose|l: int| 0 <= l < front.len() && front[l] == a;
                assert(list[l] == a);
            }
            if a == list.last() && keep(a) {
                assert(kept[kept.len() - 1] == a);
                assert(list[list.len() - 1] == a);
            }
            if list.contains(a) && keep(a) && a != list.last() {
                let l = choose|l: int| 0 <= l < list.len() && list[l] == a;
                assert(front[l] == a);
            }
            if kept.contains(a) {
                let k = choose|k: int| 0 <= k < kept.len() && kept[k] == a;
                if k < front.filter(keep).len() {
                    assert(front.filter(keep)[k] == a);
                }
            }
        }
    }
}

/// After a cleanup at value `v` of the semaphore, the commands that are left are exactly those that
/// signal a value above `v`: all others have finished.
pub proof fn finished_commands_are_forgotten(
    renderer: &mut TimelineRenderer,
    value: u64,
    handles: Vec<u64>,
    r: Cleanup,
)
    requires
        call_ensures(TimelineRenderer::cleanup, (renderer, value, &handles), r),
    ensures
        forall|submission: CommandSubmission| #[trigger]
            final(renderer).command_submissions@.contains(submission) <==> {
                &&& old(renderer).command_submissions@.contains(submission)
                &&& submission.counter_value > value
            },
        final(renderer).valid_memory_types == old(renderer).valid_memory_types,
        final(renderer).mem_allocator == old(renderer).mem_allocator,
        final(renderer).formats == old(renderer).formats,
        final(renderer).submit_count == old(renderer).submit_count,
        final(renderer).queue_family_index == old(renderer).queue_family_index,
        final(renderer).extensions == old(renderer).extensions,
        final(renderer).enabled_extensions == old(renderer).enabled_extensions,
{
    let submissions = old(renderer).command_submissions@;
    let keep = |submission: CommandSubmission| value < submission.counter_value;
    lemma_filter_is_membership(submissions, keep);
    assert(super::renderer::unfinished(submissions, value) == submissions.filter(keep));
}

/// Nobody needs a resource at value `v` of the semaphore: there is no handle to it, and all commands
/// that use it signal `v` or less.
pub open spec fn is_unneeded(
    submissions: Seq<CommandSubmission>,
    value: u64,
    handles: Seq<u64>,
    resource: Resource,
) -> bool {
    &&& !handles.contains(resource.token)
    &&& forall|i: int|
        0 <= i < submissions.len() && (#[trigger] submissions[i]).alive@.contains(resource.token)
            ==> submissions[i].counter_value <= value
}

/// A cleanup returns exactly the images and staging buffers that nobody needs, and keeps exactly the
/// others. None is lost and none appears.
pub proof fn unneeded_resources_are_destroyed(
    renderer: &mut TimelineRenderer,
    value: u64,
    handles: Vec<u64>,
    r: Cleanup,
)
    requires
        call_ensures(TimelineRenderer::cleanup, (renderer, value, &handles), r),
    ensures
        ({
            let submissions = old(renderer).command_submissions@;
            &&& forall|image: Resource| #[trigger]
                r.images@.contains(image) <==> old(renderer).images@.contains(image)
                    && is_unneeded(submissions, value, handles@, image)
            &&& forall|image: Resource| #[trigger]
                final(renderer).images@.contains(image) <==> old(renderer).images@.contains(image)
                    && !is_unneeded(submissions, value, handles@, image)
            &&& forall|buffer: Resource| #[trigger]
                r.staging_buffers@.contains(buffer) <==> old(renderer).staging_buffers@.contains(
                    buffer,
                ) && is_unneeded(submissions, value, handles@, buffer)
            &&& forall|buffer: Resource| #[trigger]
                final(renderer).staging_buffers@.contains(buffer) <==> old(
                    renderer,
                ).staging_buffers@.contains(buffer) && !is_unneeded(
                    submissions,
                    value,
                    handles@,
                    buffer,
                )
            &&& r.images@.len() + final(renderer).images@.len() == old(renderer).images@.len()
            &&& r.staging_buffers@.len() + final(renderer).staging_buffers@.len() == old(
                renderer,
            ).staging_buffers@.len()
        }),
{
    let before = *old(renderer);
    let submissions = before.command_submissions@;
    let finished = |submission: CommandSubmission| value < submission.counter_value;
    let left = super::renderer::unfinished(submissions, value);
    lemma_filter_is_membership(submissions, finished);
    assert(left == submissions.filter(finished));
    assert forall|resource: Resource|
        before.is_alive(resource.token, value, handles@) <==> !#[trigger] is_unneeded(
            submissions,
            value,
            handles@,
            resource,
        ) by {
        let token = resource.token;
        if super::renderer::commands_use(left, token) {
            let i = choose|i: int| 0 <= i < left.len() && (#[trigger] left[i]).alive@.contains(token);
            assert(left.contains(left[i]));
            let j = choose|j: int| 0 <= j < submissions.len() && submissions[j] == left[i];
            assert(submissions[j].alive@.contains(token));
        }
        if !is_unneeded(submissions, value, handles@, resource) && !handles@.contains(token) {
            let j = choose|j: int|
                0 <= j < submissions.len() && (#[trigger] submissions[j]).alive@.contains(token)
                    && submissions[j].counter_value > value;
            assert(left.contains(submissions[j]));
            let i = choose|i: int| 0 <= i < left.len() && left[i] == submissions[j];
            assert(left[i].alive@.contains(token));
        }
    }
    let alive = |token: u64| before.is_alive(token, value, handles@);
    let dead = |token: u64| !before.is_alive(token, value, handles@);
    let keep = |resource: Resource| alive(resource.token);
    let drop = |resource: Resource| dead(resource.token);
    assert(drop =~= (|resource: Resource| !keep(resource)));
    lemma_filter_is_membership(before.images@, keep);
    lemma_filter_is_membership(before.images@, drop);
    lemma_filter_is_membership(before.staging_buffers@, keep);
    lemma_filter_is_membership(before.staging_buffers@, drop);
    assert(super::renderer::kept_resources(before.images@, alive) == before.images@.filter(keep));
    assert(super::renderer::kept_resources(before.images@, dead) == before.images@.filter(drop));
    assert(super::renderer::kept_resources(before.staging_buffers@, alive)
        == before.staging_buffers@.filter(keep));
    assert(super::renderer::kept_resources(before.staging_buffers@, dead)
        == before.staging_buffers@.filter(drop));
}

/// A device that is found for a render node has a render node with exactly those numbers, and one
/// that is found for a primary node a primary node. None is found for a control node, nor without
/// the extension that tells of nodes.
pub proof fn devices_have_the_node<'inst>(
    device: PhysicalDevice<'inst>,
    major: u64,
    minor: u64,
    ty: NodeType,
    r: bool,
)
    requires
        call_ensures(PhysicalDevice::is_node, (&device, major, minor, ty), r),
        major <= i64::MAX,
        minor <= i64::MAX,
    ensures
        ({
            let known = exists|i: int|
                0 <= i < device.extensions@.len() && (#[trigger] device.extensions@[i])@
                    == "VK_EXT_physical_device_drm"@;
            &&& ty == NodeType::Render ==> (r <==> known && device.drm.has_render
                && device.drm.render_major == major && device.drm.render_minor == minor)
            &&& ty == NodeType::Primary ==> (r <==> known && device.drm.has_primary
                && device.drm.primary_major == major && device.drm.primary_minor == minor)
            &&& ty == NodeType::Control ==> !r
        }),
{
}

/// Two devices whose render nodes differ are never both found for the same render node, and the same
/// holds of primary nodes.
pub proof fn nodes_tell_devices_apart<'inst>(
    first: PhysicalDevice<'inst>,
    second: PhysicalDevice<'inst>,
    major: u64,
    minor: u64,
    ty: NodeType,
)
    requires
        call_ensures(PhysicalDevice::is_node, (&first, major, minor, ty), true),
        call_ensures(PhysicalDevice::is_node, (&second, major, minor, ty), true),
    ensures
        ty == NodeType::Render ==> first.drm.render_major == second.drm.render_major
            && first.drm.render_minor == second.drm.render_minor,
        ty == NodeType::Primary ==> first.drm.primary_major == second.drm.primary_major
            && first.drm.primary_minor == second.drm.primary_minor,
{
}

/// The number of a node that is out of the range of numbers with a sign stands for the negative
/// number with the same bits.
pub proof fn large_numbers_are_negative<'inst>(
    device: PhysicalDevice<'inst>,
    major: u64,
    minor: u64,
    render: bool,
    primary: bool,
)
    requires
        call_ensures(PhysicalDevice::is_node, (&device, major, minor, NodeType::Render), render),
        call_ensures(PhysicalDevice::is_node, (&device, major, minor, NodeType::Primary), primary),
        major > i64::MAX,
        minor > i64::MAX,
    ensures
        ({
            let (high, low) = (
                major - 0x1_0000_0000_0000_0000,
                minor - 0x1_0000_0000_0000_0000,
            );
            let known = is_listed(device.extensions@, "VK_EXT_physical_device_drm"@);
            &&& render <==> known && device.drm.has_render && device.drm.render_major == high
                && device.drm.render_minor == low
            &&& primary <==> known && device.drm.has_primary && device.drm.primary_major == high
                && device.drm.primary_minor == low
        }),
{
    assert(major > 0x7fff_ffff_ffff_ffff ==> (major as i64) == major - 0x1_0000_0000_0000_0000)
        by (bit_vector);
    assert(minor > 0x7fff_ffff_ffff_ffff ==> (minor as i64) == minor - 0x1_0000_0000_0000_0000)
        by (bit_vector);
}

/// A device tells of a node, by the extension for it, and the node has the given numbers.
pub open spec fn carries<'inst>(device: PhysicalDevice<'inst>, node: DrmNode) -> bool {
    &&& is_listed(device.extensions@, "VK_EXT_physical_device_drm"@)
    &&& node.ty != NodeType::Control
    &&& node.ty == NodeType::Render ==> {
        device.drm.has_render && device.drm.render_major == node.major && device.drm.render_minor
            == node.minor
    }
    &&& node.ty == NodeType::Primary ==> {
        device.drm.has_primary && device.drm.primary_major == node.major
            && device.drm.primary_minor == node.minor
    }
}

/// The device that is found for a node carries it. Where device `j` carries it, one is found that
/// stands no later in the list. A DRM device is looked for by its primary node.
pub proof fn the_first_device_with_the_node_is_found<'inst>(
    devices: Vec<PhysicalDevice<'inst>>,
    node: DrmNode,
    j: int,
    found: Option<usize>,
    primary: Option<usize>,
)
    requires
        call_ensures(PhysicalDevice::with_drm_node, (&devices, &node), found),
        call_ensures(PhysicalDevice::with_drm_device, (&devices, node.major, node.minor), primary),
        node.major <= i64::MAX,
        node.minor <= i64::MAX,
        0 <= j < devices@.len(),
    ensures
        found matches Some(i) ==> i < devices@.len() && carries(devices@[i as int], node),
        carries(devices@[j], node) ==> (found matches Some(i) && i <= j),
        primary matches Some(i) ==> i < devices@.len() && carries(
            devices@[i as int],
            DrmNode { ty: NodeType::Primary, ..node },
        ),
        carries(devices@[j], DrmNode { ty: NodeType::Primary, ..node }) ==> (primary matches Some(
            i,
        ) && i <= j),
{
    assert forall|k: int| 0 <= k < devices@.len() implies (#[trigger] devices@[k]).has_node(
        node.major,
        node.minor,
        node.ty,
    ) == carries(devices@[k], node) by {}
    let other = DrmNode { ty: NodeType::Primary, ..node };
    assert forall|k: int| 0 <= k < devices@.len() implies (#[trigger] devices@[k]).has_node(
        node.major,
        node.minor,
        NodeType::Primary,
    ) == carries(devices@[k], other) by {}
    assert(devices@[j].has_node(node.major, node.minor, node.ty) == carries(devices@[j], node));
    match found {
        Some(i) => {
            assert(devices@[i as int].has_node(node.major, node.minor, node.ty));
            assert(j < i ==> !devices@[j].has_node(node.major, node.minor, node.ty));
        },
        None => {
            assert(!devices@[j].has_node(node.major, node.minor, node.ty));
        },
    }
    match primary {
        Some(i) => {
            assert(devices@[i as int].has_node(node.major, node.minor, NodeType::Primary));
            assert(j < i ==> !devices@[j].has_node(node.major, node.minor, NodeType::Primary));
        },
        None => {
            assert(!devices@[j].has_node(node.major, node.minor, NodeType::Primary));
        },
    }
}

/// A version is at least another exactly if it is not an earlier one, and versions are compared by
/// the major number first, then by the minor number and then by the patch.
pub proof fn versions_compare_by_their_numbers(a: Version, b: Version, r: bool)
    requires
        call_ensures(Version::at_least, (&a, &b), r),
    ensures
        a.major > b.major ==> r,
        a.major < b.major ==> !r,
        a.major == b.major && a.minor > b.minor ==> r,
        a.major == b.major && a.minor < b.minor ==> !r,
        a.major == b.major && a.minor == b.minor ==> r == (a.patch >= b.patch),
{
}

/// Timeline semaphores are part of Vulkan from 1.2 on. Dmabufs need three extensions, and before 1.2
/// a fourth one.
pub proof fn extensions_are_promoted(
    version: Version,
    enabled: Vec<String>,
    functions: ExtensionFns,
    dmabuf: Option<DmabufMemoryFns>,
)
    requires
        call_ensures(ExtensionFns::load, (&version, &enabled), functions),
        call_ensures(DmabufMemoryFns::load, (&version, &enabled), dmabuf),
    ensures
        ({
            let promoted = version.major > 1 || (version.major == 1 && version.minor >= 2);
            &&& functions.khr_timeline_semaphore == MaybePromoted::Promoted <==> promoted
            &&& functions.dmabuf_external_memory == dmabuf
            &&& dmabuf is Some <==> {
                &&& is_listed(enabled@, "VK_EXT_image_drm_format_modifier"@)
                &&& is_listed(enabled@, "VK_EXT_external_memory_dma_buf"@)
                &&& is_listed(enabled@, "VK_KHR_external_memory_fd"@)
                &&& promoted || is_listed(enabled@, "VK_KHR_image_format_list"@)
            }
        }),
{
}

/// Some name of a list is the given one.
pub open spec fn is_listed(names: Seq<String>, name: Seq<char>) -> bool {
    exists|i: int| 0 <= i < names.len() && (#[trigger] names[i])@ == name
}

/// A name is found in a list exactly if one of its names is that name.
pub proof fn names_are_found_as_a_whole(names: Vec<String>, name: String, r: bool)
    requires
        call_ensures(crate::utils::text::contains_name, (&names, &name), r),
    ensures
        r == is_listed(names@, name@),
{
}

/// The formats of `VK_EXT_4444_formats` are asked about as a feature exactly where the extension is
/// enabled and not yet part of Vulkan, which it is from 1.3 on.
pub proof fn promoted_features_are_not_asked_for(
    version: Version,
    enabled: Vec<String>,
    r: FeatureQuery,
)
    requires
        call_ensures(FeatureQuery::from_extensions, (&version, &enabled), r),
    ensures
        r.timeline_semaphore,
        r.formats_4444 <==> {
            &&& is_listed(enabled@, "VK_EXT_4444_formats"@)
            &&& version.major < 1 || (version.major == 1 && version.minor < 3)
        },
{
}

/// A type of memory can be used exactly if it has no property but the five that are known.
pub proof fn known_memory_is_usable(types: Vec<MemoryType>, r: u32, i: u32)
    requires
        call_ensures(super::renderer::valid_memory_types, (&types,), r),
        i < 32,
    ensures
        (r >> i) & 1 == 1 <==> i < types@.len() && types@[i as int].property_flags <= 31,
{
    assert(super::renderer::has_bit(r, i) == ((r >> i) & 1 == 1));
    if i < types@.len() {
        let flags = types@[i as int].property_flags;
        assert((0x1fu32 & flags == flags) == (flags <= 31)) by (bit_vector);
    }
}

/// The queue is of the first family that has the bit for graphics, and there is an error exactly if
/// none has it.
pub proof fn queues_run_graphics(flags: Vec<u32>, j: int, r: Result<usize, Error>)
    requires
        call_ensures(TimelineRenderer::select_queue, (&flags,), r),
        0 <= j < flags@.len(),
    ensures
        r matches Ok(i) ==> i < flags@.len() && flags@[i as int] % 2 == 1,
        flags@[j] % 2 == 1 ==> (r matches Ok(i) && i <= j),
        r matches Err(error) ==> error == Error::NoQueue,
{
    assert forall|j: int| 0 <= j < flags@.len() implies (#[trigger] super::setup::is_graphics(
        flags@[j],
    ) <==> flags@[j] % 2 == 1) by {
        let f = flags@[j];
        assert((f & 1 == 1) == (f % 2 == 1)) by (bit_vector);
    }
    assert(super::setup::is_graphics(flags@[j]) <==> flags@[j] % 2 == 1);
    match r {
        Ok(i) => {
            assert(super::setup::is_graphics(flags@[i as int]));
            assert(j < i ==> !super::setup::is_graphics(flags@[j]));
        },
        Err(_) => {
            assert(!super::setup::is_graphics(flags@[j]));
        },
    }
}

} // verus!
