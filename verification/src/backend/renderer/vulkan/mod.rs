//! Bookkeeping of a Vulkan renderer: which images exist and who uses them, which command buffers
//! are free, recording or executing, and which staging buffers can be written to.
//!
//! Vulkan objects are known by their raw handles. Whoever drives the renderer performs the Vulkan
//! commands and reports the handles that were created.

use std::collections::{HashMap, VecDeque};

use vstd::multiset::Multiset;
use vstd::prelude::*;

use crate::backend::renderer::Texture;
use crate::utils::Rectangle;

pub mod device;
pub mod device_laws;
pub mod extension;
pub mod format;
pub mod format_laws;
pub mod image;
pub mod image_laws;
pub mod instance;
pub mod laws;
pub mod liveness;
pub mod memory;
mod names;
pub mod physical_device;
pub mod renderer;
pub mod setup;
pub mod staging;

verus! {

broadcast use vstd::std_specs::hash::group_hash_axioms;

/// Limits of the device that the renderer has to keep to.
#[derive(Debug, Clone, Copy)]
pub struct Limits {
    /// The widest framebuffer.
    pub max_framebuffer_width: u32,
    /// The highest framebuffer.
    pub max_framebuffer_height: u32,
    /// The largest buffer, in bytes.
    pub max_buffer_size: u64,
}

/// An image that the renderer knows.
pub struct ImageInfo {
    /// The internal id of the image.
    pub id: u64,
    /// Number of references to the underlying image resource.
    ///
    /// The image resource is not freed while handles exist or the image is used by a command
    /// buffer.
    pub refcount: usize,
    /// The underlying image resource.
    pub image: u64,
    /// The underlying memory of the image. `None` if the renderer does not own the image.
    pub underlying_memory: Option<u64>,
    /// How many handles to the image there are.
    pub handles: Ghost<nat>,
}

/// An upload into an image, which keeps the image alive until the commands have been executed.
#[derive(Debug, Clone, Copy, PartialEq, Eq)]
pub struct Upload {
    /// The id of the image that is uploaded to.
    pub image_id: u64,
}

/// A pair of buffers through which data goes to the device.
#[derive(Debug, Clone, Copy)]
pub struct StagingBuffer {
    /// The CPU side buffer.
    pub cpu: u64,
    /// The CPU side buffer allocation.
    pub cpu_allocation: u64,
    /// The GPU side buffer.
    pub gpu: u64,
    /// The GPU side buffer allocation.
    pub gpu_allocation: u64,
    /// The size of either buffer, in bytes.
    pub size: u64,
    /// Space remaining in the buffers, in bytes.
    pub remaining_space: u64,
}

/// Commands that are being recorded.
pub struct Staging {
    /// The staging command buffer.
    pub command_buffer: u64,
    /// Pending upload commands.
    pub uploads: Vec<Upload>,
    /// The staging buffer that uploads are written to.
    pub upload_buffer: StagingBuffer,
    /// Overflow staging buffers for upload.
    pub upload_overflow: Vec<StagingBuffer>,
}

/// Commands that are executing.
///
/// This keeps objects alive that cannot be destroyed until command execution has finished.
pub struct Submission {
    /// The command buffer that executes.
    pub command_buffer: u64,
    /// Upload commands that are executing.
    pub uploads: Vec<Upload>,
    /// The staging buffer that the commands read.
    pub upload_buffer: StagingBuffer,
    /// Overflow staging buffers that the commands read.
    pub upload_overflow: Vec<StagingBuffer>,
}

/// A handle to an image of the renderer.
#[derive(Debug)]
pub struct VulkanImage {
    /// The id of the image.
    pub id: u64,
    /// The width of the image.
    pub width: u32,
    /// The height of the image.
    pub height: u32,
    /// The Vulkan format of the image.
    pub vk_format: i32,
    /// The DRM format of the image, where it has one.
    pub drm_format: Option<u32>,
}

impl Texture for VulkanImage {
    open spec fn extent(&self) -> (u32, u32) {
        (self.width, self.height)
    }

    fn width(&self) -> u32 {
        self.width
    }

    fn height(&self) -> u32 {
        self.height
    }
}

impl VulkanImage {
    /// The DRM format of the image, where it has one.
    pub fn format(&self) -> (r: Option<u32>)
        ensures
            r == self.drm_format,
    {
        self.drm_format
    }

    /// The Vulkan format of the image.
    pub fn vk_format(&self) -> (r: i32)
        ensures
            r == self.vk_format,
    {
        self.vk_format
    }
}

/// A texture that is mapped into memory.
#[derive(Debug)]
pub struct VulkanTextureMapping {}

/// An error of the renderer.
#[derive(Debug, Clone, Copy, PartialEq, Eq)]
pub enum VulkanError {
    /// A Vulkan command failed with this result.
    Vulkan(i32),
}

/// A frame that is being rendered.
#[derive(Debug)]
pub struct VulkanFrame<'frame> {
    _marker: std::marker::PhantomData<&'frame ()>,
}

/// An image that is no longer known to the renderer and has to be destroyed.
#[derive(Debug, Clone, Copy)]
pub struct DestroyedImage {
    /// The id that the image had.
    pub id: u64,
    /// The image resource to destroy.
    pub image: u64,
    /// The memory to free, if the renderer owned it.
    pub underlying_memory: Option<u64>,
}

/// What is to be done for a submission whose commands have finished.
pub struct FinishedSubmission {
    /// The command buffer to reset.
    pub command_buffer: u64,
    /// The overflow buffers to destroy, in this order.
    pub upload_overflow: Vec<StagingBuffer>,
}

/// What is left to destroy when the renderer goes away, in this order.
pub struct Teardown {
    /// The submissions whose commands have finished, the oldest first.
    pub finished: Vec<FinishedSubmission>,
    /// The images to destroy.
    pub images: Vec<DestroyedImage>,
    /// The staging buffers to destroy.
    pub staging_buffers: Vec<StagingBuffer>,
}

/// A renderer.
pub struct VulkanRenderer {
    /// The images by their id.
    pub images: HashMap<u64, ImageInfo>,
    /// The id of the next image.
    pub next_image_id: u64,
    /// The limits of the device.
    pub limits: Limits,
    /// The commands that are being recorded, from the first upload until they are submitted.
    pub staging: Option<Staging>,
    /// Command buffers that are free.
    pub command_buffers: VecDeque<u64>,
    /// Commands that are executing, the oldest first.
    pub executing: VecDeque<Submission>,
    /// Staging buffers that are free.
    pub staging_buffers: VecDeque<StagingBuffer>,
    /// Ids of images pending destruction.
    pub images_pending_destruction: Vec<u64>,
    /// The Vulkan formats that memory can be imported in.
    pub supported_formats: Vec<i32>,
}

/// How often an image is uploaded to.
pub open spec fn count_uploads(uploads: Seq<Upload>, id: u64) -> nat
    decreases uploads.len(),
{
    if uploads.len() == 0 {
        0
    } else {
        count_uploads(uploads.drop_last(), id) + if uploads.last().image_id == id {
            1nat
        } else {
            0nat
        }
    }
}

/// How often an image is uploaded to by a list of submissions.
pub open spec fn count_submitted(submissions: Seq<Submission>, id: u64) -> nat
    decreases submissions.len(),
{
    if submissions.len() == 0 {
        0
    } else {
        count_uploads(submissions[0].uploads@, id) + count_submitted(submissions.drop_first(), id)
    }
}

/// The command buffers of a list of submissions.
pub open spec fn submitted_command_buffers(submissions: Seq<Submission>) -> Multiset<u64>
    decreases submissions.len(),
{
    if submissions.len() == 0 {
        Multiset::empty()
    } else {
        submitted_command_buffers(submissions.drop_first()).insert(submissions[0].command_buffer)
    }
}

/// The ids that are queued for destruction when the uploads are over, in order: an image is queued
/// by the upload that gives back its last reference.
pub open spec fn released_images(images: Map<u64, ImageInfo>, uploads: Seq<Upload>) -> Seq<u64>
    decreases uploads.len(),
{
    if uploads.len() == 0 {
        Seq::empty()
    } else {
        let id = uploads.last().image_id;
        let before = released_images(images, uploads.drop_last());
        if images.contains_key(id) && images[id].refcount == count_uploads(uploads, id) {
            before.push(id)
        } else {
            before
        }
    }
}

/// An image that differs from `before` in its number of references by at most the uploads that
/// were given back.
pub open spec fn image_after_uploads(before: ImageInfo, after: ImageInfo, uploads: Seq<Upload>) -> bool {
    &&& after.id == before.id
    &&& after.image == before.image
    &&& after.underlying_memory == before.underlying_memory
    &&& after.handles == before.handles
    &&& after.refcount == before.refcount - count_uploads(uploads, before.id)
}

/// What is to be destroyed of an image.
pub open spec fn destroyed_image(info: ImageInfo) -> DestroyedImage {
    DestroyedImage { id: info.id, image: info.image, underlying_memory: info.underlying_memory }
}

/// The images to destroy for a list of ids, in order. An id that is not known, or that was already
/// in the list, has nothing to destroy.
pub open spec fn destroyed_images(images: Map<u64, ImageInfo>, ids: Seq<u64>) -> Seq<DestroyedImage>
    decreases ids.len(),
{
    if ids.len() == 0 {
        Seq::empty()
    } else {
        let before = destroyed_images(images, ids.drop_last());
        if images.contains_key(ids.last()) && !ids.drop_last().contains(ids.last()) {
            before.push(destroyed_image(images[ids.last()]))
        } else {
            before
        }
    }
}

/// A list that has each image for which `gone` holds exactly once, in any order.
pub open spec fn destroys_exactly(
    list: Seq<DestroyedImage>,
    images: Map<u64, ImageInfo>,
    gone: spec_fn(u64) -> bool,
) -> bool {
    &&& forall|i: int|
        0 <= i < list.len() ==> {
            let id = (#[trigger] list[i]).id;
            images.contains_key(id) && gone(id) && list[i] == destroyed_image(images[id])
        }
    &&& forall|i: int, j: int|
        0 <= i < j < list.len() ==> (#[trigger] list[i]).id != (#[trigger] list[j]).id
    &&& forall|id: u64| #[trigger]
        images.contains_key(id) && gone(id) ==> list.contains(destroyed_image(images[id]))
}

proof fn lemma_count_push(uploads: Seq<Upload>, upload: Upload, id: u64)
    ensures
        count_uploads(uploads.push(upload), id) == count_uploads(uploads, id) + if upload.image_id
            == id {
            1nat
        } else {
            0nat
        },
{
    assert(uploads.push(upload).drop_last() =~= uploads);
}

proof fn lemma_count_prefix(uploads: Seq<Upload>, n: int, id: u64)
    requires
        0 <= n <= uploads.len(),
    ensures
        count_uploads(uploads.take(n), id) <= count_uploads(uploads, id),
    decreases uploads.len() - n,
{
    if n == uploads.len() {
        assert(uploads.take(n) =~= uploads);
    } else {
        lemma_count_prefix(uploads, n + 1, id);
        assert(uploads.take(n + 1).drop_last() =~= uploads.take(n));
    }
}

proof fn lemma_submitted_push(submissions: Seq<Submission>, last: Submission, id: u64)
    ensures
        count_submitted(submissions.push(last), id) == count_submitted(submissions, id)
            + count_uploads(last.uploads@, id),
    decreases submissions.len(),
{
    let pushed = submissions.push(last);
    if submissions.len() == 0 {
        assert(pushed.drop_first() =~= Seq::<Submission>::empty());
        assert(count_submitted(pushed.drop_first(), id) == 0);
    } else {
        assert(pushed.drop_first() =~= submissions.drop_first().push(last));
        assert(pushed[0] == submissions[0]);
        lemma_submitted_push(submissions.drop_first(), last, id);
    }
}

proof fn lemma_submitted_buffers_push(submissions: Seq<Submission>, last: Submission)
    ensures
        submitted_command_buffers(submissions.push(last)) == submitted_command_buffers(
            submissions,
        ).insert(last.command_buffer),
    decreases submissions.len(),
{
    let pushed = submissions.push(last);
    if submissions.len() == 0 {
        assert(pushed.drop_first() =~= submissions);
    } else {
        assert(pushed.drop_first() =~= submissions.drop_first().push(last));
        assert(pushed[0] == submissions[0]);
        lemma_submitted_buffers_push(submissions.drop_first(), last);
        assert(submitted_command_buffers(pushed) =~= submitted_command_buffers(submissions).insert(
            last.command_buffer,
        ));
    }
}

/// The ids of the known images, in any order.
fn known_ids(images: &HashMap<u64, ImageInfo>) -> (r: Vec<u64>)
    ensures
        r@.no_duplicates(),
        r@.to_set() == images@.dom(),
{
    let mut ids: Vec<u64> = Vec::new();
    for id in it: images.keys()
        invariant
            it.seq().no_duplicates(),
            it.seq().unref().to_set() == images@.dom(),
            ids@ == it.seq().unref().take(it.index() as int),
            it.index() == it.seq().len() ==> ids@ == it.seq().unref(),
            ids@.no_duplicates(),
    {
        ids.push(*id);
        assert(ids@ =~= it.seq().unref().take(it.index() + 1));
        assert(it.index() + 1 == it.seq().len() ==> ids@ =~= it.seq().unref());
    }
    ids
}

/// The images that a table holds, in any order.
fn drain_images(images: HashMap<u64, ImageInfo>) -> (r: Vec<DestroyedImage>)
    requires
        forall|id: u64| #[trigger] images@.contains_key(id) ==> images@[id].id == id,
    ensures
        destroys_exactly(r@, images@, |id: u64| true),
{
    let keys: Vec<u64> = known_ids(&images);
    let mut destroyed: Vec<DestroyedImage> = Vec::new();
    let mut i: usize = 0;
    while i < keys.len()
        invariant
            i <= keys@.len(),
            keys@.no_duplicates(),
            keys@.to_set() == images@.dom(),
            forall|id: u64| #[trigger] images@.contains_key(id) ==> images@[id].id == id,
            destroyed@.len() == i,
            forall|j: int|
                0 <= j < i ==> images@.contains_key(keys@[j]) && #[trigger] destroyed@[j]
                    == destroyed_image(images@[keys@[j]]),
        decreases keys@.len() - i,
    {
        let id: u64 = keys[i];
        assert(keys@.to_set().contains(id));
        match images.get(&id) {
            Some(info) => {
                destroyed.push(
                    DestroyedImage {
                        id: info.id,
                        image: info.image,
                        underlying_memory: info.underlying_memory,
                    },
                );
            },
            None => {
                assert(false);
            },
        }
        i = i + 1;
    }
    proof {
        assert forall|id: u64| #[trigger] images@.contains_key(id) implies destroyed@.contains(
            destroyed_image(images@[id]),
        ) by {
            assert(keys@.to_set().contains(id));
            let k = choose|k: int| 0 <= k < keys@.len() && keys@[k] == id;
            assert(destroyed@[k] == destroyed_image(images@[id]));
        }
    }
    destroyed
}

impl VulkanRenderer {
    /// How often an image is uploaded to by commands that are recorded or executing.
    pub open spec fn uses(&self, id: u64) -> nat {
        count_submitted(self.executing@, id) + match self.staging {
            Some(staging) => count_uploads(staging.uploads@, id),
            None => 0nat,
        }
    }

    /// All the command buffers: those that are free, recording and executing.
    pub open spec fn all_command_buffers(&self) -> Multiset<u64> {
        let kept = self.command_buffers@.to_multiset().add(
            submitted_command_buffers(self.executing@),
        );
        match self.staging {
            Some(staging) => kept.insert(staging.command_buffer),
            None => kept,
        }
    }

    /// The books are right: an image has as many references as it has handles and uses by
    /// commands, commands use known images only, and an image is queued for destruction only once
    /// nothing refers to it.
    pub open spec fn wf(&self) -> bool {
        &&& forall|id: u64| #[trigger]
            self.images@.contains_key(id) ==> {
                &&& id < self.next_image_id
                &&& self.images@[id].id == id
                &&& self.images@[id].refcount == self.images@[id].handles@ + self.uses(id)
            }
        &&& forall|id: u64| #[trigger] self.uses(id) > 0 ==> self.images@.contains_key(id)
        &&& forall|i: int|
            0 <= i < self.images_pending_destruction@.len() ==> {
                let id = #[trigger] self.images_pending_destruction@[i];
                id < self.next_image_id && (self.images@.contains_key(id)
                    ==> self.images@[id].refcount == 0)
            }
    }

    /// Makes a further handle to an image.
    pub fn clone_image(&mut self, image: &VulkanImage) -> (r: VulkanImage)
        requires
            old(self).wf(),
            old(self).images@.contains_key(image.id),
            old(self).images@[image.id].handles@ > 0,
            old(self).images@[image.id].refcount < usize::MAX,
        ensures
            final(self).wf(),
            r == *image,
            ({
                let before = old(self).images@[image.id];
                final(self).images@ == old(self).images@.insert(
                    image.id,
                    ImageInfo {
                        refcount: (before.refcount + 1) as usize,
                        handles: Ghost(before.handles@ + 1),
                        ..before
                    },
                )
            }),
            *final(self) == (VulkanRenderer { images: final(self).images, ..*old(self) }),
    {
        match self.images.remove(&image.id) {
            Some(info) => {
                let added = ImageInfo {
                    id: info.id,
                    refcount: info.refcount + 1,
                    image: info.image,
                    underlying_memory: info.underlying_memory,
                    handles: Ghost(info.handles@ + 1),
                };
                self.images.insert(image.id, added);
            },
            None => {},
        }
        assert(forall|id: u64| self.uses(id) == old(self).uses(id));
        assert(self.images@ =~= old(self).images@.insert(image.id, self.images@[image.id]));
        VulkanImage {
            id: image.id,
            width: image.width,
            height: image.height,
            vk_format: image.vk_format,
            drm_format: image.drm_format,
        }
    }

    /// Gives back a handle to an image.
    ///
    /// The image stays known. It can be cleaned up once nothing refers to it any more.
    pub fn drop_image(&mut self, image: VulkanImage)
        requires
            old(self).wf(),
            old(self).images@.contains_key(image.id) ==> old(self).images@[image.id].handles@ > 0,
        ensures
            final(self).wf(),
            final(self).images@ == if old(self).images@.contains_key(image.id) {
                let before = old(self).images@[image.id];
                old(self).images@.insert(
                    image.id,
                    ImageInfo {
                        refcount: (before.refcount - 1) as usize,
                        handles: Ghost((before.handles@ - 1) as nat),
                        ..before
                    },
                )
            } else {
                old(self).images@
            },
            *final(self) == (VulkanRenderer { images: final(self).images, ..*old(self) }),
    {
        match self.images.remove(&image.id) {
            Some(info) => {
                let left = ImageInfo {
                    id: info.id,
                    refcount: info.refcount - 1,
                    image: info.image,
                    underlying_memory: info.underlying_memory,
                    handles: Ghost((info.handles@ - 1) as nat),
                };
                self.images.insert(image.id, left);
                assert(self.images@ =~= old(self).images@.insert(image.id, left));
            },
            None => {
                assert(self.images@ =~= old(self).images@);
            },
        }
        assert(forall|id: u64| self.uses(id) == old(self).uses(id));
    }

    /// Whether `size` bytes can be uploaded to `region` of an image whose pixels have
    /// `bits_per_pixel` bits.
    ///
    /// The region must not start at a negative position and must not be larger than the image, and
    /// there must be data for the whole image.
    pub open spec fn upload_fits(
        image: VulkanImage,
        size: usize,
        region: Rectangle<i32>,
        bits_per_pixel: usize,
    ) -> bool {
        &&& region.loc.x >= 0
        &&& region.loc.y >= 0
        &&& 0 <= region.size.w <= image.width
        &&& 0 <= region.size.h <= image.height
        &&& (bits_per_pixel as int / 8) * image.width * image.height <= size
    }

    /// Whether an upload is possible: see `upload_fits`.
    pub fn can_update_memory(
        image: &VulkanImage,
        size: usize,
        region: &Rectangle<i32>,
        bits_per_pixel: usize,
    ) -> (r: bool)
        ensures
            r == Self::upload_fits(*image, size, *region, bits_per_pixel),
    {
        if region.loc.x < 0 || region.loc.y < 0 || region.size.w < 0 || region.size.h < 0
            || region.size.w as u32 > image.width || region.size.h as u32 > image.height {
            return false;
        }
        let bytes_per_pixel: u128 = (bits_per_pixel / 8) as u128;
        let pixels: u128 = {
            assert((image.width as u128) * (image.height as u128) <= 0xffff_ffff * 0xffff_ffff)
                by (nonlinear_arith)
                requires
                    image.width <= 0xffff_ffff,
                    image.height <= 0xffff_ffff,
            ;
            (image.width as u128) * (image.height as u128)
        };
        assert(bytes_per_pixel * pixels <= 0x1fff_ffff_ffff_ffff * 0xffff_ffff_ffff_ffff)
            by (nonlinear_arith)
            requires
                bytes_per_pixel <= 0x1fff_ffff_ffff_ffff,
                pixels <= 0xffff_ffff_ffff_ffff,
        ;
        assert((bits_per_pixel as int / 8) * image.width * image.height == bytes_per_pixel * pixels)
            by (nonlinear_arith)
            requires
                bytes_per_pixel == bits_per_pixel as int / 8,
                pixels == image.width * image.height,
        ;
        bytes_per_pixel * pixels <= size as u128
    }

    /// Finishes the recording of commands, if there are any, and counts them as executing.
    ///
    /// Returns the command buffer whose recording is to be ended and which is to be submitted.
    pub fn submit_staging_buffers(&mut self) -> (r: Option<u64>)
        requires
            old(self).wf(),
        ensures
            final(self).wf(),
            final(self).all_command_buffers() == old(self).all_command_buffers(),
            final(self).staging is None,
            match old(self).staging {
                None => r is None && *final(self) == *old(self),
                Some(staging) => {
                    &&& r == Some(staging.command_buffer)
                    &&& final(self).executing@ == old(self).executing@.push(
                        Submission {
                            command_buffer: staging.command_buffer,
                            uploads: staging.uploads,
                            upload_buffer: staging.upload_buffer,
                            upload_overflow: staging.upload_overflow,
                        },
                    )
                    &&& *final(self) == (VulkanRenderer {
                        staging: None,
                        executing: final(self).executing,
                        ..*old(self)
                    })
                },
            },
    {
        match self.staging.take() {
            None => None,
            Some(staging) => {
                let command_buffer: u64 = staging.command_buffer;
                let submission = Submission {
                    command_buffer,
                    uploads: staging.uploads,
                    upload_buffer: staging.upload_buffer,
                    upload_overflow: staging.upload_overflow,
                };
                self.executing.push_back(submission);
                proof {
                    assert forall|id: u64| self.uses(id) == old(self).uses(id) by {
                        lemma_submitted_push(old(self).executing@, submission, id);
                    }
                    lemma_submitted_buffers_push(old(self).executing@, submission);
                    assert(self.all_command_buffers() =~= old(self).all_command_buffers());
                }
                Some(command_buffer)
            },
        }
    }

    /// Gives back what the oldest submission used, once its commands have finished.
    ///
    /// Each upload gives back a reference to its image, and an image to which nothing refers any
    /// more is queued for destruction. The command buffer and the staging buffer are free again,
    /// the latter with all of its space.
    pub fn cleanup_submission(&mut self) -> (r: Option<FinishedSubmission>)
        requires
            old(self).wf(),
        ensures
            final(self).wf(),
            final(self).all_command_buffers() == old(self).all_command_buffers(),
            old(self).executing@.len() == 0 ==> r is None && *final(self) == *old(self),
            old(self).executing@.len() > 0 ==> {
                let submission = old(self).executing@[0];
                &&& r is Some
                &&& r->0.command_buffer == submission.command_buffer
                &&& r->0.upload_overflow == submission.upload_overflow
                &&& final(self).executing@ == old(self).executing@.drop_first()
                &&& final(self).command_buffers@ == old(self).command_buffers@.push(
                    submission.command_buffer,
                )
                &&& final(self).staging_buffers@ == old(self).staging_buffers@.push(
                    StagingBuffer {
                        remaining_space: submission.upload_buffer.size,
                        ..submission.upload_buffer
                    },
                )
                &&& final(self).images@.dom() == old(self).images@.dom()
                &&& forall|id: u64| #[trigger]
                    final(self).images@.contains_key(id) ==> image_after_uploads(
                        old(self).images@[id],
                        final(self).images@[id],
                        submission.uploads@,
                    )
                &&& final(self).images_pending_destruction@ == old(
                    self,
                ).images_pending_destruction@ + released_images(
                    old(self).images@,
                    submission.uploads@,
                )
                &&& final(self).staging == old(self).staging
                &&& final(self).next_image_id == old(self).next_image_id
                &&& final(self).limits == old(self).limits
                &&& final(self).supported_formats == old(self).supported_formats
            },
    {
        if self.executing.len() == 0 {
            return None;
        }
        let submission: Submission = self.executing.pop_front().unwrap();
        let ghost executing = old(self).executing@;
        let ghost uploads = submission.uploads@;
        assert(executing[0] == submission);
        assert(self.executing@ =~= executing.drop_first());
        assert(forall|id: u64|
            old(self).uses(id) == self.uses(id) + #[trigger] count_uploads(uploads, id));
        let mut i: usize = 0;
        while i < submission.uploads.len()
            invariant
                i <= uploads.len(),
                uploads == submission.uploads@,
                old(self).wf(),
                forall|id: u64|
                    old(self).uses(id) == self.uses(id) + #[trigger] count_uploads(uploads, id),
                self.executing@ == old(self).executing@.drop_first(),
                self.staging == old(self).staging,
                self.command_buffers == old(self).command_buffers,
                self.staging_buffers == old(self).staging_buffers,
                self.next_image_id == old(self).next_image_id,
                self.limits == old(self).limits,
                self.supported_formats == old(self).supported_formats,
                self.images@.dom() == old(self).images@.dom(),
                forall|id: u64| #[trigger]
                    self.images@.contains_key(id) ==> image_after_uploads(
                        old(self).images@[id],
                        self.images@[id],
                        uploads.take(i as int),
                    ),
                self.images_pending_destruction@ == old(self).images_pending_destruction@
                    + released_images(old(self).images@, uploads.take(i as int)),
                forall|j: int|
                    0 <= j < self.images_pending_destruction@.len() ==> {
                        let id = #[trigger] self.images_pending_destruction@[j];
                        id < self.next_image_id && (self.images@.contains_key(id)
                            ==> self.images@[id].refcount == 0)
                    },
            decreases uploads.len() - i,
        {
            let id: u64 = submission.uploads[i].image_id;
            let ghost before = self.images@;
            let ghost pending = self.images_pending_destruction@;
            let ghost done = uploads.take(i as int);
            let ghost next = uploads.take(i + 1);
            proof {
                assert(next.drop_last() =~= done);
                assert(next.last() == uploads[i as int]);
                lemma_count_prefix(uploads, i + 1, id);
                assert(count_uploads(next, id) == count_uploads(done, id) + 1);
                assert(old(self).uses(id) > 0);
                assert(self.images@.contains_key(id));
            }
            match self.images.remove(&id) {
                Some(info) => {
                    let refcount: usize = info.refcount - 1;
                    let left = ImageInfo {
                        id: info.id,
                        refcount,
                        image: info.image,
                        underlying_memory: info.underlying_memory,
                        handles: info.handles,
                    };
                    self.images.insert(id, left);
                    if refcount == 0 {
                        self.images_pending_destruction.push(id);
                    }
                    proof {
                        assert(self.images@ =~= before.insert(id, left));
                        assert(self.images@.dom() =~= before.dom());
                        assert(old(self).images@[id].refcount == count_uploads(next, id)
                            <==> refcount == 0);
                    }
                },
                None => {
                    assert(false);
                },
            }
            proof {
                assert(self.images_pending_destruction@ =~= old(self).images_pending_destruction@
                    + released_images(old(self).images@, next));
                assert forall|other: u64| #[trigger] self.images@.contains_key(other) implies
                    image_after_uploads(old(self).images@[other], self.images@[other], next) by {
                    assert(before.contains_key(other));
                    assert(old(self).images@[other].id == other);
                }
                assert forall|j: int| 0 <= j < self.images_pending_destruction@.len() implies {
                    let queued = #[trigger] self.images_pending_destruction@[j];
                    queued < self.next_image_id && (self.images@.contains_key(queued)
                        ==> self.images@[queued].refcount == 0)
                } by {
                    let queued = self.images_pending_destruction@[j];
                    if j < pending.len() {
                        assert(queued == pending[j]);
                    }
                }
            }
            i = i + 1;
        }
        assert(uploads.take(i as int) =~= uploads);
        let command_buffer: u64 = submission.command_buffer;
        let mut upload_buffer: StagingBuffer = submission.upload_buffer;
        upload_buffer.remaining_space = upload_buffer.size;
        self.staging_buffers.push_back(upload_buffer);
        self.command_buffers.push_back(command_buffer);
        proof {
            broadcast use vstd::seq_lib::group_to_multiset_ensures;

            assert(self.all_command_buffers() =~= old(self).all_command_buffers());
            assert forall|id: u64| #[trigger] self.images@.contains_key(id) implies {
                &&& id < self.next_image_id
                &&& self.images@[id].id == id
                &&& self.images@[id].refcount == self.images@[id].handles@ + self.uses(id)
            } by {
                assert(old(self).images@.contains_key(id));
                assert(old(self).uses(id) == self.uses(id) + count_uploads(uploads, id));
            }
            assert forall|id: u64| #[trigger] self.uses(id) > 0 implies self.images@.contains_key(
                id,
            ) by {
                assert(old(self).uses(id) == self.uses(id) + count_uploads(uploads, id));
            }
        }
        Some(FinishedSubmission { command_buffer, upload_overflow: submission.upload_overflow })
    }

    /// Forgets the images that are queued for destruction and returns them.
    pub fn destroy_images(&mut self) -> (r: Vec<DestroyedImage>)
        requires
            old(self).wf(),
        ensures
            final(self).wf(),
            r@ == destroyed_images(old(self).images@, old(self).images_pending_destruction@),
            final(self).images@ == old(self).images@.remove_keys(
                old(self).images_pending_destruction@.to_set(),
            ),
            final(self).images_pending_destruction@.len() == 0,
            *final(self) == (VulkanRenderer {
                images: final(self).images,
                images_pending_destruction: final(self).images_pending_destruction,
                ..*old(self)
            }),
    {
        let mut destroyed: Vec<DestroyedImage> = Vec::new();
        let ghost ids = self.images_pending_destruction@;
        let mut i: usize = 0;
        while i < self.images_pending_destruction.len()
            invariant
                i <= ids.len(),
                ids == old(self).images_pending_destruction@,
                old(self).wf(),
                destroyed@ == destroyed_images(old(self).images@, ids.take(i as int)),
                self.images@ == old(self).images@.remove_keys(ids.take(i as int).to_set()),
                *self == (VulkanRenderer { images: self.images, ..*old(self) }),
            decreases ids.len() - i,
        {
            let id: u64 = self.images_pending_destruction[i];
            let ghost before = self.images@;
            let ghost next = ids.take(i + 1);
            proof {
                assert(next.drop_last() =~= ids.take(i as int));
                assert(next.last() == id);
                assert(next.to_set() =~= ids.take(i as int).to_set().insert(id)) by {
                    assert(next =~= ids.take(i as int).push(id));
                    assert forall|x: u64| next.to_set().contains(x) == ids.take(
                        i as int,
                    ).to_set().insert(id).contains(x) by {
                        if x == id {
                            assert(next[i as int] == id);
                        } else if ids.take(i as int).contains(x) {
                            let k = choose|k: int|
                                0 <= k < ids.take(i as int).len() && ids.take(i as int)[k] == x;
                            assert(next[k] == x);
                        }
                    }
                }
                assert(before.remove(id) =~= old(self).images@.remove_keys(next.to_set()));
            }
            match self.images.remove(&id) {
                Some(info) => {
                    destroyed.push(
                        DestroyedImage {
                            id: info.id,
                            image: info.image,
                            underlying_memory: info.underlying_memory,
                        },
                    );
                },
                None => {},
            }
            i = i + 1;
        }
        assert(ids.take(i as int) =~= ids);
        self.images_pending_destruction = Vec::new();
        proof {
            assert forall|id: u64| #[trigger] self.uses(id) > 0 implies self.images@.contains_key(
                id,
            ) by {
                assert(old(self).uses(id) > 0);
                if ids.to_set().contains(id) {
                    let k = choose|k: int| 0 <= k < ids.len() && ids[k] == id;
                    assert(old(self).images_pending_destruction@[k] == id);
                }
            }
            assert forall|id: u64| #[trigger] self.images@.contains_key(id) implies {
                &&& id < self.next_image_id
                &&& self.images@[id].id == id
                &&& self.images@[id].refcount == self.images@[id].handles@ + self.uses(id)
            } by {
                assert(old(self).images@.contains_key(id));
                assert(self.uses(id) == old(self).uses(id));
            }
        }
        destroyed
    }

    /// Forgets the images to which nothing refers any more, or every image if `destroy` is set, and
    /// returns them.
    ///
    /// Every image may only be asked for once no command uses an image any more.
    pub fn cleanup_images(&mut self, destroy: bool) -> (r: Vec<DestroyedImage>)
        requires
            old(self).wf(),
            destroy ==> forall|id: u64| #[trigger] old(self).uses(id) == 0,
        ensures
            final(self).wf(),
            destroys_exactly(
                r@,
                old(self).images@,
                |id: u64| destroy || old(self).images@[id].refcount == 0,
            ),
            forall|id: u64| #[trigger]
                final(self).images@.contains_key(id) <==> (old(self).images@.contains_key(id)
                    && !(destroy || old(self).images@[id].refcount == 0)),
            forall|id: u64| #[trigger]
                final(self).images@.contains_key(id) ==> final(self).images@[id] == old(
                    self,
                ).images@[id],
            *final(self) == (VulkanRenderer { images: final(self).images, ..*old(self) }),
    {
        let keys: Vec<u64> = known_ids(&self.images);
        let mut destroyed: Vec<DestroyedImage> = Vec::new();
        let ghost gone = |id: u64| destroy || old(self).images@[id].refcount == 0;
        let mut i: usize = 0;
        while i < keys.len()
            invariant
                i <= keys@.len(),
                keys@.no_duplicates(),
                keys@.to_set() == old(self).images@.dom(),
                gone == (|id: u64| destroy || old(self).images@[id].refcount == 0),
                old(self).wf(),
                *self == (VulkanRenderer { images: self.images, ..*old(self) }),
                forall|id: u64| #[trigger]
                    self.images@.contains_key(id) <==> (old(self).images@.contains_key(id) && !(
                    keys@.take(i as int).contains(id) && gone(id))),
                forall|id: u64| #[trigger]
                    self.images@.contains_key(id) ==> self.images@[id] == old(self).images@[id],
                destroys_exactly(
                    destroyed@,
                    old(self).images@,
                    |id: u64| keys@.take(i as int).contains(id) && gone(id),
                ),
            decreases keys@.len() - i,
        {
            let id: u64 = keys[i];
            let ghost before = self.images@;
            let ghost listed = destroyed@;
            let ghost done = keys@.take(i as int);
            let ghost next = keys@.take(i + 1);
            proof {
                assert(keys@.to_set().contains(id));
                assert(next =~= done.push(id));
                assert(!done.contains(id)) by {
                    if done.contains(id) {
                        let k = choose|k: int| 0 <= k < done.len() && done[k] == id;
                        assert(keys@[k] == keys@[i as int]);
                    }
                }
                assert forall|other: u64| next.contains(other) <==> (done.contains(other) || other
                    == id) by {
                    if other == id {
                        assert(next[i as int] == id);
                    } else if done.contains(other) {
                        let k = choose|k: int| 0 <= k < done.len() && done[k] == other;
                        assert(next[k] == other);
                    }
                }
                assert(self.images@.contains_key(id));
            }
            let unused: bool = match self.images.get(&id) {
                Some(info) => info.refcount == 0,
                None => false,
            };
            if destroy || unused {
                match self.images.remove(&id) {
                    Some(info) => {
                        destroyed.push(
                            DestroyedImage {
                                id: info.id,
                                image: info.image,
                                underlying_memory: info.underlying_memory,
                            },
                        );
                    },
                    None => {},
                }
                proof {
                    assert(self.images@ =~= before.remove(id));
                    assert(destroyed@ == listed.push(destroyed_image(old(self).images@[id])));
                }
            }
            proof {
                let selected = |other: u64| next.contains(other) && gone(other);
                assert forall|other: u64| #[trigger]
                    old(self).images@.contains_key(other) && selected(
                        other,
                    ) implies destroyed@.contains(destroyed_image(old(self).images@[other])) by {
                    let wanted = destroyed_image(old(self).images@[other]);
                    if other == id {
                        assert(destroyed@[listed.len() as int] == wanted);
                    } else {
                        assert(listed.contains(wanted));
                        let k = choose|k: int| 0 <= k < listed.len() && listed[k] == wanted;
                        assert(destroyed@[k] == wanted);
                    }
                }
                assert(destroys_exactly(destroyed@, old(self).images@, selected));
            }
            i = i + 1;
        }
        proof {
            assert(keys@.take(i as int) =~= keys@);
            assert forall|id: u64| old(self).images@.contains_key(id) implies keys@.contains(
                id,
            ) by {
                assert(keys@.to_set().contains(id));
            }
            assert forall|id: u64| self.uses(id) == old(self).uses(id) by {}
        }
        destroyed
    }

    /// Takes the renderer apart, once the device has become idle.
    ///
    /// Everything that was submitted has finished by then. Every image and every free staging
    /// buffer is to be destroyed.
    pub fn teardown(self) -> (r: Teardown)
        requires
            self.wf(),
        ensures
            r.finished@.len() == self.executing@.len(),
            forall|i: int|
                0 <= i < self.executing@.len() ==> {
                    &&& (#[trigger] r.finished@[i]).command_buffer
                        == self.executing@[i].command_buffer
                    &&& r.finished@[i].upload_overflow == self.executing@[i].upload_overflow
                },
            destroys_exactly(r.images@, self.images@, |id: u64| true),
            r.staging_buffers@.len() == self.staging_buffers@.len() + self.executing@.len(),
            forall|i: int|
                0 <= i < self.staging_buffers@.len() ==> #[trigger] r.staging_buffers@[i]
                    == self.staging_buffers@[i],
            forall|i: int|
                0 <= i < self.executing@.len() ==> #[trigger] r.staging_buffers@[self.staging_buffers@.len()
                    + i] == (StagingBuffer {
                    remaining_space: self.executing@[i].upload_buffer.size,
                    ..self.executing@[i].upload_buffer
                }),
    {
        let mut renderer: VulkanRenderer = self;
        let mut finished: Vec<FinishedSubmission> = Vec::new();
        let ghost total = self.executing@.len();
        let ghost free = self.staging_buffers@.len();
        while renderer.executing.len() > 0
            invariant
                renderer.wf(),
                total == self.executing@.len(),
                free == self.staging_buffers@.len(),
                finished@.len() <= total,
                renderer.executing@ == self.executing@.skip(finished@.len() as int),
                renderer.staging_buffers@.len() == free + finished@.len(),
                renderer.images@.dom() == self.images@.dom(),
                forall|id: u64| #[trigger]
                    self.images@.contains_key(id) ==> destroyed_image(renderer.images@[id])
                        == destroyed_image(self.images@[id]),
                forall|i: int|
                    0 <= i < finished@.len() ==> {
                        &&& (#[trigger] finished@[i]).command_buffer
                            == self.executing@[i].command_buffer
                        &&& finished@[i].upload_overflow == self.executing@[i].upload_overflow
                    },
                forall|i: int|
                    0 <= i < free ==> #[trigger] renderer.staging_buffers@[i]
                        == self.staging_buffers@[i],
                forall|i: int|
                    0 <= i < finished@.len() ==> #[trigger] renderer.staging_buffers@[free + i] == (
                    StagingBuffer {
                        remaining_space: self.executing@[i].upload_buffer.size,
                        ..self.executing@[i].upload_buffer
                    }),
            decreases renderer.executing@.len(),
        {
            let ghost before = renderer;
            let ghost n = finished@.len() as int;
            match renderer.cleanup_submission() {
                Some(submission) => {
                    finished.push(submission);
                },
                None => {
                    assert(false);
                },
            }
            proof {
                assert(before.executing@[0] == self.executing@[n]);
                assert(before.executing@.drop_first() =~= self.executing@.skip(n + 1));
                assert forall|id: u64| #[trigger] self.images@.contains_key(id) implies
                    destroyed_image(renderer.images@[id]) == destroyed_image(self.images@[id]) by {
                    assert(renderer.images@.contains_key(id));
                }
                assert forall|i: int| 0 <= i < finished@.len() implies
                    #[trigger] renderer.staging_buffers@[free + i] == (StagingBuffer {
                    remaining_space: self.executing@[i].upload_buffer.size,
                    ..self.executing@[i].upload_buffer
                }) by {
                    if i < n {
                        assert(renderer.staging_buffers@[free + i]
                            == before.staging_buffers@[free + i]);
                    }
                }
            }
        }
        let mut staging_buffers: Vec<StagingBuffer> = Vec::new();
        let ghost buffers = renderer.staging_buffers@;
        let ghost left = renderer.images@;
        while renderer.staging_buffers.len() > 0
            invariant
                renderer.images@ == left,
                staging_buffers@.len() <= buffers.len(),
                renderer.staging_buffers@ == buffers.skip(staging_buffers@.len() as int),
                staging_buffers@ == buffers.take(staging_buffers@.len() as int),
            decreases renderer.staging_buffers@.len(),
        {
            let buffer: StagingBuffer = renderer.staging_buffers.pop_front().unwrap();
            let ghost n = staging_buffers@.len() as int;
            staging_buffers.push(buffer);
            assert(renderer.staging_buffers@ =~= buffers.skip(n + 1));
            assert(staging_buffers@ =~= buffers.take(n + 1));
        }
        assert(staging_buffers@ =~= buffers);
        let images: Vec<DestroyedImage> = drain_images(renderer.images);
        proof {
            assert forall|id: u64| #[trigger] self.images@.contains_key(id) implies images@.contains(
                destroyed_image(self.images@[id]),
            ) by {
                assert(left.contains_key(id));
            }
        }
        Teardown { finished, images, staging_buffers }
    }
}

/// An image that there is a handle to, or that commands use, is referred to, and it is not queued
/// for destruction.
pub proof fn images_in_use_are_kept(renderer: VulkanRenderer, id: u64)
    requires
        renderer.wf(),
        renderer.images@.contains_key(id),
        renderer.images@[id].handles@ > 0 || renderer.uses(id) > 0,
    ensures
        renderer.images@[id].refcount > 0,
        !renderer.images_pending_destruction@.contains(id),
{
    let pending = renderer.images_pending_destruction@;
    if pending.contains(id) {
        let i = choose|i: int| 0 <= i < pending.len() && pending[i] == id;
        assert(renderer.images@[pending[i]].refcount == 0);
    }
}

/// An image that there is no handle to, and that no commands use, is not referred to any more and
/// can be cleaned up.
pub proof fn unused_images_can_be_freed(renderer: VulkanRenderer, id: u64)
    requires
        renderer.wf(),
        renderer.images@.contains_key(id),
        renderer.images@[id].handles@ == 0,
        renderer.uses(id) == 0,
    ensures
        renderer.images@[id].refcount == 0,
{
}

} // verus!
