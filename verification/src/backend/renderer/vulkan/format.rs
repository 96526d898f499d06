//! The formats that a device supports.

use std::collections::HashMap;

use vstd::prelude::*;

use super::extension::{Version, version_1_3};
use super::image::ImageFormatProperties;
use super::names::ext_4444_formats;
use crate::backend::allocator::{drm_modifier, DrmFormat, FOURCC_ARGB8888, FOURCC_XRGB8888};
use crate::utils::text::contains_name;
use crate::wayland::protocol::shm_format;

verus! {

broadcast use vstd::std_specs::hash::group_hash_axioms;

/// The Vulkan result that says that a format is not supported.
pub const ERROR_FORMAT_NOT_SUPPORTED: i32 = -11;

/// The Vulkan format `A4R4G4B4_UNORM_PACK16`.
pub const VK_FORMAT_A4R4G4B4_UNORM_PACK16: i32 = 1_000_340_000;

/// The Vulkan format `B4G4R4A4_UNORM_PACK16`.
pub const VK_FORMAT_B4G4R4A4_UNORM_PACK16: i32 = 3;

/// The number of `argb8888` in `wl_shm`.
pub const WL_SHM_ARGB8888: u32 = 0;

/// The number of `xrgb8888` in `wl_shm`.
pub const WL_SHM_XRGB8888: u32 = 1;

/// What a device can do with images of a format that come from memory.
#[derive(Debug, Clone, Copy, PartialEq, Eq)]
pub struct ShmFormatProperties {
    /// What images with a linear tiling can be used for, a set of Vulkan format feature bits.
    pub linear_tiling_features: u32,
    /// What images with an optimal tiling can be used for.
    pub optimal_tiling_features: u32,
    /// What buffers can be used for.
    pub buffer_features: u32,
    /// The limits of images.
    pub image: ImageFormatProperties,
}

/// A format that images can have which come from memory.
#[derive(Debug, Clone, Copy, PartialEq, Eq)]
pub struct ShmFormat {
    /// What textures can be used for.
    pub texture: ShmFormatProperties,
    /// What textures can be used for that are downloaded, if they can be.
    pub download: Option<ShmFormatProperties>,
}

/// What a device can do with a modifier of a format.
#[derive(Debug, Clone, Copy, PartialEq, Eq)]
pub struct ModifierProperties {
    /// The modifier.
    pub drm_format_modifier: u64,
    /// The number of memory planes.
    pub plane_count: u32,
    /// What images can be used for, a set of Vulkan format feature bits.
    pub tiling_features: u32,
}

/// What a device can do with a format and a modifier.
#[derive(Debug, Clone, Copy, PartialEq, Eq)]
pub struct FormatModifierProperties {
    /// The limits of images.
    pub image_properties: ImageFormatProperties,
    /// What the device can do with the modifier.
    pub modifier_properties: ModifierProperties,
}

/// The modifiers of a format that textures can have.
pub struct DrmFormatInfo {
    /// What a device can do with each modifier.
    pub texture: HashMap<u64, FormatModifierProperties>,
}

/// The formats that a renderer supports.
pub struct Formats {
    /// The formats that images can have which come from memory, by their Vulkan format.
    pub shm_formats: HashMap<i32, ShmFormat>,
    /// The formats that dmabufs can have which are imported.
    pub drm_importable: Vec<DrmFormat>,
    /// The modifiers that a device knows, by the Vulkan format.
    pub drm_modifiers: HashMap<i32, Vec<u64>>,
    /// What a device can do with formats and their modifiers, by the Vulkan format.
    pub drm_properties: HashMap<i32, DrmFormatInfo>,
    /// The formats of `wl_shm` that can be imported, by their number in the protocol.
    pub wl_shm: Vec<u32>,
}

/// What a device says of a modifier of a format.
#[derive(Debug, Clone, Copy)]
pub struct ModifierReply {
    /// What the device can do with the modifier.
    pub properties: ModifierProperties,
    /// The limits of textures, if textures can have the modifier, or a Vulkan error.
    pub texture: Result<Option<ImageFormatProperties>, i32>,
}

/// What a device says of a format.
pub struct FormatReply {
    /// The fourcc of the format.
    pub fourcc: u32,
    /// The equivalent Vulkan format, if there is one.
    pub vk_format: Option<i32>,
    /// Whether textures can have the format, or a Vulkan error.
    pub texture: Result<Option<ShmFormatProperties>, i32>,
    /// Whether textures that are downloaded can have the format, or a Vulkan error.
    pub download: Result<Option<ShmFormatProperties>, i32>,
    /// The modifiers that the device knows of the format.
    pub modifiers: Vec<ModifierReply>,
}

/// A format may be asked for: formats that `VK_EXT_4444_formats` added only if that extension is
/// enabled, or from Vulkan 1.3 on, which it is a part of.
pub open spec fn may_query(api_version: Version, enabled: Seq<String>, vk_format: i32) -> bool {
    vk_format != VK_FORMAT_A4R4G4B4_UNORM_PACK16 && vk_format != VK_FORMAT_B4G4R4A4_UNORM_PACK16
        || crate::utils::text::has_name(enabled, "VK_EXT_4444_formats"@)
        || api_version.at_least_spec(version_1_3())
}

/// The format of `wl_shm` that a fourcc is known by, if there is one.
pub open spec fn wl_shm_of(fourcc: u32) -> Option<u32> {
    if fourcc == FOURCC_ARGB8888 {
        Some(WL_SHM_ARGB8888)
    } else if fourcc == FOURCC_XRGB8888 {
        Some(WL_SHM_XRGB8888)
    } else if crate::wayland::protocol::is_shm_format(fourcc) {
        Some(fourcc)
    } else {
        None
    }
}

/// The modifiers of a list of replies.
pub open spec fn modifiers_of(replies: Seq<ModifierReply>) -> Seq<u64> {
    replies.map_values(|reply: ModifierReply| reply.properties.drm_format_modifier)
}

/// The formats that can be imported of a list of replies.
pub open spec fn importable_of(fourcc: u32, replies: Seq<ModifierReply>) -> Seq<DrmFormat>
    decreases replies.len(),
{
    if replies.len() == 0 {
        Seq::empty()
    } else {
        let before = importable_of(fourcc, replies.drop_last());
        match replies.last().texture {
            Ok(Some(_)) => before.push(
                DrmFormat {
                    code: fourcc,
                    modifier: replies.last().properties.drm_format_modifier,
                },
            ),
            _ => before,
        }
    }
}

/// What is known of modifiers after a list of replies, of which the last for a modifier counts.
pub open spec fn textures_after(
    known: Map<u64, FormatModifierProperties>,
    replies: Seq<ModifierReply>,
) -> Map<u64, FormatModifierProperties>
    decreases replies.len(),
{
    if replies.len() == 0 {
        known
    } else {
        let before = textures_after(known, replies.drop_last());
        let properties = replies.last().properties;
        match replies.last().texture {
            Ok(Some(image)) => before.insert(
                properties.drm_format_modifier,
                FormatModifierProperties {
                    image_properties: image,
                    modifier_properties: properties,
                },
            ),
            _ => before,
        }
    }
}

/// The first error of a list of replies on modifiers.
pub open spec fn modifier_error(replies: Seq<ModifierReply>) -> Option<i32>
    decreases replies.len(),
{
    if replies.len() == 0 {
        None
    } else {
        match modifier_error(replies.drop_last()) {
            Some(error) => Some(error),
            None => match replies.last().texture {
                Err(error) => Some(error),
                Ok(_) => None,
            },
        }
    }
}

/// What counts for the replies of a device.
pub struct Asked {
    /// The version of the API.
    pub api_version: Version,
    /// The extensions that are enabled.
    pub enabled_extensions: Vec<String>,
    /// Whether dmabufs can be used.
    pub dmabuf: bool,
}

/// The Vulkan format that a reply is about, if it counts.
pub open spec fn counted(asked: Asked, reply: FormatReply) -> Option<i32> {
    match reply.vk_format {
        Some(format) => if may_query(asked.api_version, asked.enabled_extensions@, format) {
            Some(format)
        } else {
            None
        },
        None => None,
    }
}

/// The error of a reply, if it has one that counts: of the texture, of the download if textures
/// can have the format, and of the modifiers if dmabufs can be used.
pub open spec fn reply_error(asked: Asked, reply: FormatReply) -> Option<i32> {
    if counted(asked, reply) is None {
        None
    } else {
        match reply.texture {
            Err(error) => Some(error),
            Ok(texture) => match (texture, reply.download) {
                (Some(_), Err(error)) => Some(error),
                _ => if asked.dmabuf {
                    modifier_error(reply.modifiers@)
                } else {
                    None
                },
            },
        }
    }
}

/// The first error of a list of replies.
pub open spec fn first_error(asked: Asked, replies: Seq<FormatReply>) -> Option<i32>
    decreases replies.len(),
{
    if replies.len() == 0 {
        None
    } else {
        match first_error(asked, replies.drop_last()) {
            Some(error) => Some(error),
            None => reply_error(asked, replies.last()),
        }
    }
}

/// The formats for memory after a list of replies.
pub open spec fn shm_formats_after(asked: Asked, replies: Seq<FormatReply>) -> Map<i32, ShmFormat>
    decreases replies.len(),
{
    if replies.len() == 0 {
        Map::empty()
    } else {
        let before = shm_formats_after(asked, replies.drop_last());
        let reply = replies.last();
        match (counted(asked, reply), reply.texture) {
            (Some(format), Ok(Some(texture))) => before.insert(
                format,
                ShmFormat { texture, download: reply.download->Ok_0 },
            ),
            _ => before,
        }
    }
}

/// The formats of `wl_shm` after a list of replies.
pub open spec fn wl_shm_after(asked: Asked, replies: Seq<FormatReply>) -> Seq<u32>
    decreases replies.len(),
{
    if replies.len() == 0 {
        Seq::empty()
    } else {
        let before = wl_shm_after(asked, replies.drop_last());
        let reply = replies.last();
        match (counted(asked, reply), reply.texture, wl_shm_of(reply.fourcc)) {
            (Some(_), Ok(Some(_)), Some(code)) => before.push(code),
            _ => before,
        }
    }
}

/// The modifiers of formats after a list of replies.
pub open spec fn modifiers_after(asked: Asked, replies: Seq<FormatReply>) -> Map<i32, Seq<u64>>
    decreases replies.len(),
{
    if replies.len() == 0 {
        Map::empty()
    } else {
        let before = modifiers_after(asked, replies.drop_last());
        let reply = replies.last();
        match counted(asked, reply) {
            Some(format) if asked.dmabuf && reply.modifiers@.len() > 0 => before.insert(
                format,
                modifiers_of(reply.modifiers@),
            ),
            _ => before,
        }
    }
}

/// The formats that can be imported after a list of replies.
pub open spec fn importable_after(asked: Asked, replies: Seq<FormatReply>) -> Seq<DrmFormat>
    decreases replies.len(),
{
    if replies.len() == 0 {
        Seq::empty()
    } else {
        let before = importable_after(asked, replies.drop_last());
        let reply = replies.last();
        if counted(asked, reply) is Some && asked.dmabuf {
            before + importable_of(reply.fourcc, reply.modifiers@)
        } else {
            before
        }
    }
}

/// What is known of formats and their modifiers after a list of replies.
pub open spec fn properties_after(asked: Asked, replies: Seq<FormatReply>) -> Map<
    i32,
    Map<u64, FormatModifierProperties>,
>
    decreases replies.len(),
{
    if replies.len() == 0 {
        Map::empty()
    } else {
        let before = properties_after(asked, replies.drop_last());
        let reply = replies.last();
        match counted(asked, reply) {
            Some(format) if asked.dmabuf && importable_of(reply.fourcc, reply.modifiers@).len()
                > 0 => {
                let known = if before.contains_key(format) {
                    before[format]
                } else {
                    Map::empty()
                };
                before.insert(format, textures_after(known, reply.modifiers@))
            },
            _ => before,
        }
    }
}

impl Formats {
    /// The formats are those of a list of replies.
    pub open spec fn come_from(&self, asked: Asked, replies: Seq<FormatReply>) -> bool {
        &&& self.shm_formats@ == shm_formats_after(asked, replies)
        &&& self.wl_shm@ == wl_shm_after(asked, replies)
        &&& self.drm_importable@ == importable_after(asked, replies)
        &&& self.drm_modifiers@.dom() == modifiers_after(asked, replies).dom()
        &&& forall|format: i32| #[trigger]
            self.drm_modifiers@.contains_key(format) ==> self.drm_modifiers@[format]@
                == modifiers_after(asked, replies)[format]
        &&& self.drm_properties@.dom() == properties_after(asked, replies).dom()
        &&& forall|format: i32| #[trigger]
            self.drm_properties@.contains_key(format) ==> self.drm_properties@[format].texture@
                == properties_after(asked, replies)[format]
    }

    /// No formats.
    pub fn empty() -> (r: Formats)
        ensures
            r.shm_formats@ == Map::<i32, ShmFormat>::empty(),
            r.drm_importable@.len() == 0,
            r.drm_modifiers@ == Map::<i32, Vec<u64>>::empty(),
            r.drm_properties@ == Map::<i32, DrmFormatInfo>::empty(),
            r.wl_shm@.len() == 0,
    {
        Formats {
            shm_formats: HashMap::new(),
            drm_importable: Vec::new(),
            drm_modifiers: HashMap::new(),
            drm_properties: HashMap::new(),
            wl_shm: Vec::new(),
        }
    }

    /// The formats of `wl_shm` that can be imported.
    pub fn shm_formats(&self) -> (r: &Vec<u32>)
        ensures
            *r == self.wl_shm,
    {
        &self.wl_shm
    }

    /// The formats that dmabufs can have which are imported.
    pub fn dmabuf_formats(&self) -> (r: &Vec<DrmFormat>)
        ensures
            *r == self.drm_importable,
    {
        &self.drm_importable
    }
}

/// The tiling of images whose layout is that of a DRM modifier.
pub const IMAGE_TILING_DRM_FORMAT_MODIFIER: i32 = 1_000_158_000;

/// A question to a device: what it can do with images.
#[derive(Debug, Clone, Copy, PartialEq, Eq)]
pub struct ImageFormatQuery {
    /// The Vulkan format.
    pub format: i32,
    /// The number of dimensions.
    pub image_type: i32,
    /// How the images are laid out.
    pub tiling: i32,
    /// What the images are used for.
    pub usage: u32,
    /// Vulkan image creation bits.
    pub flags: u32,
    /// The modifier, and how images of it are shared, where the layout is that of a modifier.
    pub modifier: Option<(u64, i32)>,
}

/// The question what a device can do with images of a format that come from memory.
pub fn shm_format_query(vk_format: i32, usage: u32) -> (r: ImageFormatQuery)
    ensures
        r == (ImageFormatQuery {
            format: vk_format,
            image_type: super::image::IMAGE_TYPE_2D,
            tiling: super::image::IMAGE_TILING_OPTIMAL,
            usage,
            flags: 0,
            modifier: None,
        }),
{
    ImageFormatQuery {
        format: vk_format,
        image_type: super::image::IMAGE_TYPE_2D,
        tiling: super::image::IMAGE_TILING_OPTIMAL,
        usage,
        flags: 0,
        modifier: None,
    }
}

/// The question what a device can do with images of a format and a modifier.
pub fn drm_format_query(vk_format: i32, modifier: u64, usage: u32) -> (r: ImageFormatQuery)
    ensures
        r == (ImageFormatQuery {
            format: vk_format,
            image_type: super::image::IMAGE_TYPE_2D,
            tiling: IMAGE_TILING_DRM_FORMAT_MODIFIER,
            usage,
            flags: 0,
            modifier: Some((modifier, super::staging::SHARING_MODE_EXCLUSIVE)),
        }),
{
    ImageFormatQuery {
        format: vk_format,
        image_type: super::image::IMAGE_TYPE_2D,
        tiling: IMAGE_TILING_DRM_FORMAT_MODIFIER,
        usage,
        flags: 0,
        modifier: Some((drm_modifier(modifier), super::staging::SHARING_MODE_EXCLUSIVE)),
    }
}

/// What the result of a query says: a format that is not supported is no error.
pub fn classify_format_query<T>(result: Result<T, i32>) -> (r: Result<Option<T>, i32>)
    ensures
        r == match result {
            Ok(properties) => Ok::<Option<T>, i32>(Some(properties)),
            Err(error) => if error == ERROR_FORMAT_NOT_SUPPORTED {
                Ok::<Option<T>, i32>(None)
            } else {
                Err::<Option<T>, i32>(error)
            },
        },
{
    match result {
        Ok(properties) => Ok(Some(properties)),
        Err(error) => {
            if error == ERROR_FORMAT_NOT_SUPPORTED {
                Ok(None)
            } else {
                Err(error)
            }
        },
    }
}

/// Whether a format may be asked for: see `may_query`.
pub fn queries_format(api_version: &Version, enabled_extensions: &Vec<String>, vk_format: i32) -> (r:
    bool)
    ensures
        r == may_query(*api_version, enabled_extensions@, vk_format),
{
    if vk_format == VK_FORMAT_A4R4G4B4_UNORM_PACK16 || vk_format == VK_FORMAT_B4G4R4A4_UNORM_PACK16 {
        let name: String = ext_4444_formats();
        contains_name(enabled_extensions, &name) || api_version.at_least(&version_1_3())
    } else {
        true
    }
}

/// The format of `wl_shm` that a fourcc is known by, if there is one: see `wl_shm_of`.
pub fn wl_shm_format(fourcc: u32) -> (r: Option<u32>)
    ensures
        r == wl_shm_of(fourcc),
{
    if fourcc == FOURCC_ARGB8888 {
        Some(WL_SHM_ARGB8888)
    } else if fourcc == FOURCC_XRGB8888 {
        Some(WL_SHM_XRGB8888)
    } else {
        shm_format(fourcc)
    }
}

proof fn lemma_modifier_error_prefix(replies: Seq<ModifierReply>, n: int)
    requires
        0 <= n <= replies.len(),
        modifier_error(replies.take(n)) is Some,
    ensures
        modifier_error(replies) == modifier_error(replies.take(n)),
    decreases replies.len() - n,
{
    if n == replies.len() {
        assert(replies.take(n) =~= replies);
    } else {
        assert(replies.take(n + 1).drop_last() =~= replies.take(n));
        lemma_modifier_error_prefix(replies, n + 1);
    }
}

proof fn lemma_first_error_prefix(asked: Asked, replies: Seq<FormatReply>, n: int)
    requires
        0 <= n <= replies.len(),
        first_error(asked, replies.take(n)) is Some,
    ensures
        first_error(asked, replies) == first_error(asked, replies.take(n)),
    decreases replies.len() - n,
{
    if n == replies.len() {
        assert(replies.take(n) =~= replies);
    } else {
        assert(replies.take(n + 1).drop_last() =~= replies.take(n));
        lemma_first_error_prefix(asked, replies, n + 1);
    }
}

/// The modifiers of a list of replies.
fn collect_modifiers(replies: &Vec<ModifierReply>) -> (r: Vec<u64>)
    ensures
        r@ == modifiers_of(replies@),
{
    let mut modifiers: Vec<u64> = Vec::new();
    let mut i: usize = 0;
    while i < replies.len()
        invariant
            i <= replies@.len(),
            modifiers@ == modifiers_of(replies@.take(i as int)),
        decreases replies@.len() - i,
    {
        modifiers.push(replies[i].properties.drm_format_modifier);
        i = i + 1;
        assert(modifiers@ =~= modifiers_of(replies@.take(i as int)));
    }
    assert(replies@.take(i as int) =~= replies@);
    modifiers
}

/// Adds the formats of a list of replies that can be imported, and what is known of them.
fn import_modifiers(
    fourcc: u32,
    replies: &Vec<ModifierReply>,
    importable: &mut Vec<DrmFormat>,
    known: HashMap<u64, FormatModifierProperties>,
) -> (r: Result<HashMap<u64, FormatModifierProperties>, i32>)
    ensures
        match r {
            Ok(textures) => {
                &&& modifier_error(replies@) is None
                &&& textures@ == textures_after(known@, replies@)
                &&& final(importable)@ == old(importable)@ + importable_of(fourcc, replies@)
            },
            Err(error) => modifier_error(replies@) == Some(error),
        },
{
    let ghost before = known@;
    let mut textures: HashMap<u64, FormatModifierProperties> = known;
    let mut i: usize = 0;
    assert(importable@ =~= old(importable)@ + importable_of(fourcc, replies@.take(0)));
    while i < replies.len()
        invariant
            i <= replies@.len(),
            modifier_error(replies@.take(i as int)) is None,
            textures@ == textures_after(before, replies@.take(i as int)),
            importable@ == old(importable)@ + importable_of(fourcc, replies@.take(i as int)),
        decreases replies@.len() - i,
    {
        let reply: ModifierReply = replies[i];
        assert(replies@.take(i + 1).drop_last() =~= replies@.take(i as int));
        assert(replies@.take(i + 1).last() == reply);
        let modifier: u64 = drm_modifier(reply.properties.drm_format_modifier);
        match reply.texture {
            Err(error) => {
                proof {
                    lemma_modifier_error_prefix(replies@, i + 1);
                }
                return Err(error);
            },
            Ok(None) => {},
            Ok(Some(image_properties)) => {
                // Properties were returned, add the format to the importable list.
                importable.push(DrmFormat { code: fourcc, modifier });
                textures.insert(
                    modifier,
                    FormatModifierProperties {
                        image_properties,
                        modifier_properties: reply.properties,
                    },
                );
            },
        }
        i = i + 1;
        assert(importable@ =~= old(importable)@ + importable_of(fourcc, replies@.take(i as int)));
    }
    assert(replies@.take(i as int) =~= replies@);
    Ok(textures)
}

/// The formats that a renderer supports, by what the device says of each known format.
///
/// The replies are in the order in which the formats are known. Where one holds an error, the
/// first error is returned. Replies on formats that may not be asked for do not count, and neither
/// do modifiers where dmabufs cannot be used.
pub fn init_formats(asked: &Asked, replies: &Vec<FormatReply>) -> (r: Result<Formats, i32>)
    ensures
        match r {
            Ok(formats) => {
                &&& first_error(*asked, replies@) is None
                &&& formats.come_from(*asked, replies@)
            },
            Err(error) => first_error(*asked, replies@) == Some(error),
        },
{
    let mut formats: Formats = Formats::empty();
    assert(replies@.take(0) =~= Seq::<FormatReply>::empty());
    proof {
        assert(formats.wl_shm@ =~= Seq::<u32>::empty());
        assert(formats.drm_importable@ =~= Seq::<DrmFormat>::empty());
        assert(formats.drm_modifiers@.dom() =~= Set::<i32>::empty());
        assert(formats.drm_properties@.dom() =~= Set::<i32>::empty());
        assert(formats.come_from(*asked, replies@.take(0)));
    }
    let mut i: usize = 0;
    while i < replies.len()
        invariant
            i <= replies@.len(),
            first_error(*asked, replies@.take(i as int)) is None,
            formats.come_from(*asked, replies@.take(i as int)),
        decreases replies@.len() - i,
    {
        let reply: &FormatReply = &replies[i];
        let ghost done = replies@.take(i as int);
        let ghost next = replies@.take(i + 1);
        assert(next.drop_last() =~= done);
        assert(next.last() == *reply);
        match reply.vk_format {
            Some(vk_format) if queries_format(
                &asked.api_version,
                &asked.enabled_extensions,
                vk_format,
            ) => {
                match reply.texture {
                    Err(error) => {
                        proof {
                            lemma_first_error_prefix(*asked, replies@, i + 1);
                        }
                        return Err(error);
                    },
                    Ok(None) => {},
                    Ok(Some(texture)) => {
                        // If the required usages are supported, then test for download usages
                        match reply.download {
                            Err(error) => {
                                proof {
                                    lemma_first_error_prefix(*asked, replies@, i + 1);
                                }
                                return Err(error);
                            },
                            Ok(download) => {
                                formats.shm_formats.insert(vk_format, ShmFormat { texture, download });
                            },
                        }
                        match wl_shm_format(reply.fourcc) {
                            Some(code) => {
                                formats.wl_shm.push(code);
                            },
                            None => {},
                        }
                    },
                }
                if asked.dmabuf {
                    if reply.modifiers.len() > 0 {
                        let modifiers: Vec<u64> = collect_modifiers(&reply.modifiers);
                        formats.drm_modifiers.insert(vk_format, modifiers);
                    }
                    let count: usize = formats.drm_importable.len();
                    let ghost properties = formats.drm_properties@;
                    let (had, known): (bool, HashMap<u64, FormatModifierProperties>) =
                        match formats.drm_properties.remove(&vk_format) {
                        Some(info) => (true, info.texture),
                        None => (false, HashMap::new()),
                    };
                    match import_modifiers(
                        reply.fourcc,
                        &reply.modifiers,
                        &mut formats.drm_importable,
                        known,
                    ) {
                        Err(error) => {
                            proof {
                                lemma_first_error_prefix(*asked, replies@, i + 1);
                            }
                            return Err(error);
                        },
                        Ok(texture) => {
                            if had || formats.drm_importable.len() > count {
                                formats.drm_properties.insert(vk_format, DrmFormatInfo { texture });
                            }
                            proof {
                                lemma_nothing_imported(reply.fourcc, known@, reply.modifiers@);
                                assert(formats.drm_properties@.dom() =~= properties_after(
                                    *asked,
                                    next,
                                ).dom());
                            }
                        },
                    }
                }
            },
            _ => {},
        }
        proof {
            assert(formats.drm_modifiers@.dom() =~= modifiers_after(*asked, next).dom());
            assert(formats.drm_importable@ =~= importable_after(*asked, next));
        }
        i = i + 1;
    }
    assert(replies@.take(i as int) =~= replies@);
    Ok(formats)
}

proof fn lemma_nothing_imported(
    fourcc: u32,
    known: Map<u64, FormatModifierProperties>,
    replies: Seq<ModifierReply>,
)
    ensures
        importable_of(fourcc, replies).len() == 0 ==> textures_after(known, replies) == known,
    decreases replies.len(),
{
    if replies.len() > 0 {
        lemma_nothing_imported(fourcc, known, replies.drop_last());
    }
}

/// What a list of replies on modifiers adds is there afterwards: a modifier that textures can have
/// is importable, and its properties are known.
proof fn lemma_modifier_is_added(
    fourcc: u32,
    known: Map<u64, FormatModifierProperties>,
    replies: Seq<ModifierReply>,
    j: int,
)
    requires
        0 <= j < replies.len(),
        replies[j].texture matches Ok(Some(_)),
    ensures
        importable_of(fourcc, replies).contains(
            DrmFormat { code: fourcc, modifier: replies[j].properties.drm_format_modifier },
        ),
        textures_after(known, replies).contains_key(replies[j].properties.drm_format_modifier),
    decreases replies.len(),
{
    let format = DrmFormat { code: fourcc, modifier: replies[j].properties.drm_format_modifier };
    let before = importable_of(fourcc, replies.drop_last());
    let after = importable_of(fourcc, replies);
    if j == replies.len() - 1 {
        assert(after.last() == format);
    } else {
        lemma_modifier_is_added(fourcc, known, replies.drop_last(), j);
        let k = choose|k: int| 0 <= k < before.len() && before[k] == format;
        assert(after[k] == format);
    }
}

proof fn lemma_known_modifiers_stay(
    known: Map<u64, FormatModifierProperties>,
    replies: Seq<ModifierReply>,
    modifier: u64,
)
    requires
        known.contains_key(modifier),
    ensures
        textures_after(known, replies).contains_key(modifier),
    decreases replies.len(),
{
    if replies.len() > 0 {
        lemma_known_modifiers_stay(known, replies.drop_last(), modifier);
    }
}

/// If dmabufs can be used, every modifier that a device says textures of a format can have is
/// importable under the fourcc of the format, and its properties are known.
pub proof fn usable_modifiers_are_importable(
    asked: Asked,
    replies: Seq<FormatReply>,
    i: int,
    j: int,
)
    requires
        asked.dmabuf,
        0 <= i < replies.len(),
        counted(asked, replies[i]) is Some,
        0 <= j < replies[i].modifiers@.len(),
        replies[i].modifiers@[j].texture matches Ok(Some(_)),
    ensures
        ({
            let format = counted(asked, replies[i])->0;
            let modifier = replies[i].modifiers@[j].properties.drm_format_modifier;
            &&& importable_after(asked, replies).contains(
                DrmFormat { code: replies[i].fourcc, modifier },
            )
            &&& properties_after(asked, replies).contains_key(format)
            &&& properties_after(asked, replies)[format].contains_key(modifier)
        }),
    decreases replies.len(),
{
    let format = counted(asked, replies[i])->0;
    let modifier = replies[i].modifiers@[j].properties.drm_format_modifier;
    let wanted = DrmFormat { code: replies[i].fourcc, modifier };
    let list = importable_after(asked, replies.drop_last());
    let known = properties_after(asked, replies.drop_last());
    let last = replies.last();
    let added = importable_of(last.fourcc, last.modifiers@);
    if i == replies.len() - 1 {
        let start = if known.contains_key(format) {
            known[format]
        } else {
            Map::empty()
        };
        lemma_modifier_is_added(last.fourcc, start, last.modifiers@, j);
        let k = choose|k: int| 0 <= k < added.len() && added[k] == wanted;
        assert((list + added)[list.len() + k] == wanted);
    } else {
        usable_modifiers_are_importable(asked, replies.drop_last(), i, j);
        let k = choose|k: int| 0 <= k < list.len() && list[k] == wanted;
        assert(importable_after(asked, replies)[k] == wanted);
        if counted(asked, last) == Some(format) && added.len() > 0 {
            lemma_known_modifiers_stay(known[format], last.modifiers@, modifier);
        }
    }
}

/// If dmabufs cannot be used, no format is importable and nothing is known of modifiers.
pub proof fn nothing_is_importable_without_dmabufs(asked: Asked, replies: Seq<FormatReply>)
    requires
        !asked.dmabuf,
    ensures
        importable_after(asked, replies) == Seq::<DrmFormat>::empty(),
        modifiers_after(asked, replies) == Map::<i32, Seq<u64>>::empty(),
        properties_after(asked, replies) == Map::<i32, Map<u64, FormatModifierProperties>>::empty(),
    decreases replies.len(),
{
    if replies.len() > 0 {
        nothing_is_importable_without_dmabufs(asked, replies.drop_last());
    }
}

} // verus!
