//! Physical devices and how one is found.

use vstd::prelude::*;
use vstd::string::*;

use super::instance::Instance;
use super::names::vulkan_result;
use crate::utils::text::contains_name;

verus! {

/// An error that may occur when enumerating physical devices.
#[derive(Debug, Clone, Copy)]
pub enum EnumerateDevicesError {
    /// Some Vulkan error occurred while enumerating devices.
    Vulkan(i32),
}

impl EnumerateDevicesError {
    /// The text of the error.
    pub fn message(&self) -> (r: String)
        ensures
            r@ == match self {
                EnumerateDevicesError::Vulkan(code) => super::names::vulkan_result_text(*code),
            },
    {
        match self {
            EnumerateDevicesError::Vulkan(code) => vulkan_result(*code),
        }
    }
}

/// The kind of a DRM node.
#[derive(Debug, Clone, Copy, PartialEq, Eq)]
pub enum NodeType {
    /// A primary node, which can set modes.
    Primary,
    /// A control node.
    Control,
    /// A render node.
    Render,
}

/// A DRM node.
#[derive(Debug, Clone, Copy, PartialEq, Eq)]
pub struct DrmNode {
    /// The major number.
    pub major: u64,
    /// The minor number.
    pub minor: u64,
    /// The kind.
    pub ty: NodeType,
}

/// The DRM nodes of a physical device, by what `VK_EXT_physical_device_drm` says.
#[derive(Debug, Clone, Copy)]
pub struct DrmProperties {
    /// Whether the device has a primary node.
    pub has_primary: bool,
    /// Whether the device has a render node.
    pub has_render: bool,
    /// The major number of the primary node.
    pub primary_major: i64,
    /// The minor number of the primary node.
    pub primary_minor: i64,
    /// The major number of the render node.
    pub render_major: i64,
    /// The minor number of the render node.
    pub render_minor: i64,
}

/// A Vulkan physical device.
///
/// A physical device in a loose sense refers to some software or hardware implementation of the
/// Vulkan APIs. Multiple physical devices may exist for one real device in the case that there are
/// multiple installable client drivers.
pub struct PhysicalDevice<'inst> {
    /// The Vulkan handle.
    pub handle: u64,
    /// The instance that owns the device.
    pub instance: &'inst Instance,
    /// The extensions that the device supports.
    pub extensions: Vec<String>,
    /// The name of the device.
    pub name: String,
    /// The DRM nodes of the device. They count only where the device supports
    /// `VK_EXT_physical_device_drm`.
    pub drm: DrmProperties,
}

/// None of the devices is associated with the node.
pub open spec fn no_device_has_node<'inst>(
    devices: Seq<PhysicalDevice<'inst>>,
    major: u64,
    minor: u64,
    ty: NodeType,
) -> bool {
    forall|j: int|
        0 <= j < devices.len() ==> !(#[trigger] devices[j]).has_node(major, minor, ty)
}

impl<'inst> PhysicalDevice<'inst> {
    /// The device has the node with the given numbers.
    ///
    /// There is no information about control nodes, and none at all where the extension is not
    /// supported.
    pub open spec fn has_node(&self, major: u64, minor: u64, ty: NodeType) -> bool {
        &&& crate::utils::text::has_name(self.extensions@, "VK_EXT_physical_device_drm"@)
        &&& match ty {
            NodeType::Primary => self.drm.has_primary && self.drm.primary_major == major as i64
                && self.drm.primary_minor == minor as i64,
            NodeType::Render => self.drm.has_render && self.drm.render_major == major as i64
                && self.drm.render_minor == minor as i64,
            NodeType::Control => false,
        }
    }

    /// Whether the device has the node with the given numbers: see `has_node`.
    pub fn is_node(&self, major: u64, minor: u64, ty: NodeType) -> (r: bool)
        ensures
            r == self.has_node(major, minor, ty),
    {
        let drm: String = "VK_EXT_physical_device_drm".to_owned();
        if !contains_name(&self.extensions, &drm) {
            return false;
        }
        let wanted_major: i64 = #[verifier::truncate]
        (major as i64);
        let wanted_minor: i64 = #[verifier::truncate]
        (minor as i64);
        match ty {
            NodeType::Primary => self.drm.has_primary && self.drm.primary_major == wanted_major
                && self.drm.primary_minor == wanted_minor,
            NodeType::Render => self.drm.has_render && self.drm.render_major == wanted_major
                && self.drm.render_minor == wanted_minor,
            NodeType::Control => false,
        }
    }

    /// The index of the first device that has the node with the given numbers.
    pub fn with_major_and_minor(
        devices: &Vec<PhysicalDevice<'inst>>,
        major: u64,
        minor: u64,
        ty: NodeType,
    ) -> (r: Option<usize>)
        ensures
            match r {
                Some(i) => {
                    &&& i < devices@.len()
                    &&& devices@[i as int].has_node(major, minor, ty)
                    &&& forall|j: int|
                        0 <= j < i ==> !(#[trigger] devices@[j]).has_node(major, minor, ty)
                },
                None => no_device_has_node(devices@, major, minor, ty),
            },
    {
        let mut i: usize = 0;
        while i < devices.len()
            invariant
                i <= devices@.len(),
                forall|j: int| 0 <= j < i ==> !(#[trigger] devices@[j]).has_node(major, minor, ty),
            decreases devices@.len() - i,
        {
            if devices[i].is_node(major, minor, ty) {
                return Some(i);
            }
            i = i + 1;
        }
        None
    }

    /// The index of the first device that is associated with a DRM device.
    ///
    /// Since a DRM device is capable of modesetting, it must be a primary node.
    pub fn with_drm_device(devices: &Vec<PhysicalDevice<'inst>>, major: u64, minor: u64) -> (r: Option<
        usize,
    >)
        ensures
            match r {
                Some(i) => {
                    &&& i < devices@.len()
                    &&& devices@[i as int].has_node(major, minor, NodeType::Primary)
                    &&& forall|j: int|
                        0 <= j < i ==> !(#[trigger] devices@[j]).has_node(
                            major,
                            minor,
                            NodeType::Primary,
                        )
                },
                None => no_device_has_node(devices@, major, minor, NodeType::Primary),
            },
    {
        Self::with_major_and_minor(devices, major, minor, NodeType::Primary)
    }

    /// The index of the first device that is associated with a DRM node.
    pub fn with_drm_node(devices: &Vec<PhysicalDevice<'inst>>, node: &DrmNode) -> (r: Option<usize>)
        ensures
            match r {
                Some(i) => {
                    &&& i < devices@.len()
                    &&& devices@[i as int].has_node(node.major, node.minor, node.ty)
                    &&& forall|j: int|
                        0 <= j < i ==> !(#[trigger] devices@[j]).has_node(
                            node.major,
                            node.minor,
                            node.ty,
                        )
                },
                None => no_device_has_node(devices@, node.major, node.minor, node.ty),
            },
    {
        Self::with_major_and_minor(devices, node.major, node.minor, node.ty)
    }

    /// Returns the instance that owns this physical device.
    pub fn instance(&self) -> (r: &'inst Instance)
        ensures
            *r == *self.instance,
    {
        self.instance
    }

    /// Returns the handle.
    pub fn raw_handle(&self) -> (r: u64)
        ensures
            r == self.handle,
    {
        self.handle
    }

    /// Returns all the extensions this device supports.
    pub fn extensions(&self) -> (r: &Vec<String>)
        ensures
            *r == self.extensions,
    {
        &self.extensions
    }

    /// Returns the name of this device.
    pub fn name(&self) -> (r: &str)
        ensures
            r@ == self.name@,
    {
        self.name.as_str()
    }
}

} // verus!
