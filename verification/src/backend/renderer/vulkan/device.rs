//! Creation of a Vulkan device.

use vstd::prelude::*;
use vstd::string::*;

use super::instance::Instance;
use super::names::vulkan_result;
use crate::utils::text::{c_strings, copy, push_decimal, push_joined};

verus! {

/// An error that may occur when creating a device.
#[derive(Debug)]
pub enum DeviceError {
    /// Some extensions were missing when creating a device.
    MissingExtensions(Vec<String>),
    /// An extension has an invalid name: it has a zero at the position.
    InvalidExtension(String, usize),
    /// Some Vulkan error occurred while creating a device.
    Vulkan(i32),
}

impl DeviceError {
    /// The text of the error.
    pub open spec fn text(&self) -> Seq<char> {
        match self {
            DeviceError::MissingExtensions(names) =>
                "The following extensions device extensions were missing: "@
                + crate::utils::text::joined(names@),
            DeviceError::InvalidExtension(name, position) => "The extension string \""@ + name@
                + "\" contains a null terminator at "@ + crate::utils::text::decimal(
                *position as nat,
            ),
            DeviceError::Vulkan(code) => super::names::vulkan_result_text(*code),
        }
    }

    /// The text of the error.
    pub fn message(&self) -> (r: String)
        ensures
            r@ == self.text(),
    {
        match self {
            DeviceError::MissingExtensions(names) => {
                let mut text: String =
                    "The following extensions device extensions were missing: ".to_owned();
                push_joined(&mut text, names);
                text
            },
            DeviceError::InvalidExtension(name, position) => {
                let mut text: String = "The extension string \"".to_owned();
                text.append(name.as_str());
                text.append("\" contains a null terminator at ");
                push_decimal(&mut text, *position as u64);
                text
            },
            DeviceError::Vulkan(code) => vulkan_result(*code),
        }
    }
}

/// A Vulkan device.
#[derive(Debug, Clone, Copy, PartialEq, Eq)]
pub struct Device {
    /// The Vulkan handle.
    pub handle: u64,
    /// The instance that owns the device.
    pub instance: Instance,
}

impl Device {
    /// Returns the instance that owns this device.
    pub fn instance(&self) -> (r: &Instance)
        ensures
            *r == self.instance,
    {
        &self.instance
    }

    /// Returns the handle.
    pub fn raw_handle(&self) -> (r: u64)
        ensures
            r == self.handle,
    {
        self.handle
    }

    /// The names of the extensions to enable on a device, each ended by a zero.
    ///
    /// The first name that has a zero is refused.
    pub fn validate_extensions(extensions: &Vec<String>) -> (r: Result<Vec<Vec<u8>>, DeviceError>)
        ensures
            match r {
                Ok(names) => crate::utils::text::are_c_strings(extensions@, names@),
                Err(DeviceError::InvalidExtension(name, position)) => crate::utils::text::refused_name(
                    extensions@,
                    name@,
                    position as int,
                ),
                Err(_) => false,
            },
    {
        match c_strings(extensions) {
            Ok(names) => Ok(names),
            Err((i, position)) => {
                let name: String = copy(&extensions[i]);
                assert(crate::utils::text::first_with_nul(extensions@, i as int, position as int));
                Err(DeviceError::InvalidExtension(name, position))
            },
        }
    }
}

} // verus!
