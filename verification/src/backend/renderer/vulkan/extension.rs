//! Selection of the entry points of extensions.

use vstd::prelude::*;

use super::names::{
    ext_external_memory_dma_buf, ext_image_drm_format_modifier, khr_external_memory_fd,
    khr_image_format_list,
};
use crate::utils::text::contains_name;

verus! {

/// A version of the Vulkan API.
#[derive(Debug, Clone, Copy, PartialEq, Eq)]
pub struct Version {
    /// The major version.
    pub major: u32,
    /// The minor version.
    pub minor: u32,
    /// The patch version.
    pub patch: u32,
}

/// Vulkan 1.2.
#[verifier::allow_in_spec]
pub fn version_1_2() -> Version
    returns
        (Version { major: 1, minor: 2, patch: 0 }),
{
    Version { major: 1, minor: 2, patch: 0 }
}

/// Vulkan 1.3.
#[verifier::allow_in_spec]
pub fn version_1_3() -> Version
    returns
        (Version { major: 1, minor: 3, patch: 0 }),
{
    Version { major: 1, minor: 3, patch: 0 }
}

impl Version {
    /// The version is the other one or a later one.
    pub open spec fn at_least_spec(self, other: Version) -> bool {
        ||| self.major > other.major
        ||| self.major == other.major && self.minor > other.minor
        ||| self.major == other.major && self.minor == other.minor && self.patch >= other.patch
    }

    /// Whether the version is the other one or a later one.
    pub fn at_least(&self, other: &Version) -> (r: bool)
        ensures
            r == self.at_least_spec(*other),
    {
        if self.major != other.major {
            self.major > other.major
        } else if self.minor != other.minor {
            self.minor > other.minor
        } else {
            self.patch >= other.patch
        }
    }
}

/// Of any two versions one is at least the other, both only if they are the same, and the order
/// carries on.
pub proof fn versions_are_ordered(a: Version, b: Version, c: Version)
    ensures
        a.at_least_spec(b) || b.at_least_spec(a),
        a.at_least_spec(b) && b.at_least_spec(a) ==> a == b,
        a.at_least_spec(b) && b.at_least_spec(c) ==> a.at_least_spec(c),
{
}

/// Where the functions of an extension come from.
#[derive(Debug, Clone, Copy, PartialEq, Eq)]
pub enum MaybePromoted {
    /// The extension was promoted to core: the device has the functions.
    Promoted,
    /// The functions are those of the extension.
    Extension,
}

/// The functions for memory that is shared as a dmabuf: those of `VK_EXT_image_drm_format_modifier`
/// and of `VK_KHR_external_memory_fd`.
#[derive(Debug, Clone, Copy, PartialEq, Eq)]
pub struct DmabufMemoryFns;

/// The extension functions to load.
#[derive(Debug, Clone, Copy, PartialEq, Eq)]
pub struct ExtensionFns {
    /// Where the functions of `VK_KHR_timeline_semaphore` come from.
    pub khr_timeline_semaphore: MaybePromoted,
    /// The functions for dmabufs, where they can be used.
    pub dmabuf_external_memory: Option<DmabufMemoryFns>,
}

/// Dmabufs can be used: the three extensions are enabled, and `VK_KHR_image_format_list` is either
/// enabled or part of the version.
pub open spec fn dmabuf_usable(api_version: Version, enabled: Seq<String>) -> bool {
    &&& crate::utils::text::has_name(enabled, "VK_EXT_image_drm_format_modifier"@)
    &&& crate::utils::text::has_name(enabled, "VK_EXT_external_memory_dma_buf"@)
    &&& crate::utils::text::has_name(enabled, "VK_KHR_external_memory_fd"@)
    &&& (api_version.at_least_spec(version_1_2()) || crate::utils::text::has_name(
        enabled,
        "VK_KHR_image_format_list"@,
    ))
}

impl ExtensionFns {
    /// The extension functions to load.
    ///
    /// The device must support Vulkan 1.2 or `VK_KHR_timeline_semaphore`.
    pub fn load(api_version: &Version, enabled_extensions: &Vec<String>) -> (r: ExtensionFns)
        ensures
            r.khr_timeline_semaphore == if api_version.at_least_spec(version_1_2()) {
                MaybePromoted::Promoted
            } else {
                MaybePromoted::Extension
            },
            r.dmabuf_external_memory == if dmabuf_usable(*api_version, enabled_extensions@) {
                Some(DmabufMemoryFns)
            } else {
                None::<DmabufMemoryFns>
            },
    {
        let khr_timeline_semaphore = if api_version.at_least(&version_1_2()) {
            MaybePromoted::Promoted
        } else {
            MaybePromoted::Extension
        };
        ExtensionFns {
            khr_timeline_semaphore,
            dmabuf_external_memory: DmabufMemoryFns::load(api_version, enabled_extensions),
        }
    }
}

impl DmabufMemoryFns {
    /// The functions for dmabufs, where they can be used: see `dmabuf_usable`.
    pub fn load(api_version: &Version, enabled_extensions: &Vec<String>) -> (r: Option<
        DmabufMemoryFns,
    >)
        ensures
            r == if dmabuf_usable(*api_version, enabled_extensions@) {
                Some(DmabufMemoryFns)
            } else {
                None::<DmabufMemoryFns>
            },
    {
        let modifier: String = ext_image_drm_format_modifier();
        let dma_buf: String = ext_external_memory_dma_buf();
        let fd: String = khr_external_memory_fd();
        let format_list: String = khr_image_format_list();
        // If the device uses Vulkan 1.1, then VK_KHR_image_format_list must be supported.
        let supports_image_format_list = api_version.at_least(&version_1_2()) || contains_name(
            enabled_extensions,
            &format_list,
        );
        if contains_name(enabled_extensions, &modifier) && contains_name(
            enabled_extensions,
            &dma_buf,
        ) && contains_name(enabled_extensions, &fd) && supports_image_format_list {
            Some(DmabufMemoryFns)
        } else {
            None
        }
    }
}

} // verus!
