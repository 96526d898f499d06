//! Creation of a Vulkan instance.

use vstd::prelude::*;
use vstd::string::*;

use super::names::vulkan_result;
use crate::utils::text::{c_strings, copy, push_decimal, push_joined};

verus! {

/// Vulkan 1.1, as Vulkan packs versions into a number.
pub const API_VERSION_1_1: u32 = 0x40_1000;

/// An error that may occur when creating an instance.
#[derive(Debug)]
pub enum InstanceError {
    /// Some extensions were missing when creating an instance.
    MissingExtensions(Vec<String>),
    /// An extension has an invalid name: it has a zero at the position.
    InvalidExtension(String, usize),
    /// Some layers were missing when creating an instance.
    MissingLayers(Vec<String>),
    /// A layer has an invalid name: it has a zero at the position.
    InvalidLayer(String, usize),
    /// Some Vulkan error occurred while creating an instance.
    Vulkan(i32),
}

/// How an instance is created.
pub struct InstanceCreateInfo {
    /// The version of the API, packed into a number.
    pub api_version: u32,
    /// The names of the extensions to enable, each ended by a zero.
    pub extensions: Vec<Vec<u8>>,
    /// The names of the layers to enable, each ended by a zero.
    pub layers: Vec<Vec<u8>>,
}

/// A Vulkan instance.
#[derive(Debug, Clone, Copy, PartialEq, Eq)]
pub struct Instance {
    /// The Vulkan handle.
    pub handle: u64,
}

impl InstanceError {
    /// The text of the error.
    pub open spec fn text(&self) -> Seq<char> {
        match self {
            InstanceError::MissingExtensions(names) =>
                "The following extensions instance extensions were missing: "@
                + crate::utils::text::joined(names@),
            InstanceError::InvalidExtension(name, position) => "The extension string \""@ + name@
                + "\" contains a null terminator at "@ + crate::utils::text::decimal(
                *position as nat,
            ),
            InstanceError::MissingLayers(names) =>
                "The following extensions instance layers were missing: "@
                + crate::utils::text::joined(names@),
            InstanceError::InvalidLayer(name, position) => "The layer string \""@ + name@
                + "\" contains a null terminator at "@ + crate::utils::text::decimal(
                *position as nat,
            ),
            InstanceError::Vulkan(code) => super::names::vulkan_result_text(*code),
        }
    }

    /// The text of the error.
    pub fn message(&self) -> (r: String)
        ensures
            r@ == self.text(),
    {
        match self {
            InstanceError::MissingExtensions(names) => {
                let mut text: String =
                    "The following extensions instance extensions were missing: ".to_owned();
                push_joined(&mut text, names);
                text
            },
            InstanceError::InvalidExtension(name, position) => {
                let mut text: String = "The extension string \"".to_owned();
                text.append(name.as_str());
                text.append("\" contains a null terminator at ");
                push_decimal(&mut text, *position as u64);
                text
            },
            InstanceError::MissingLayers(names) => {
                let mut text: String =
                    "The following extensions instance layers were missing: ".to_owned();
                push_joined(&mut text, names);
                text
            },
            InstanceError::InvalidLayer(name, position) => {
                let mut text: String = "The layer string \"".to_owned();
                text.append(name.as_str());
                text.append("\" contains a null terminator at ");
                push_decimal(&mut text, *position as u64);
                text
            },
            InstanceError::Vulkan(code) => vulkan_result(*code),
        }
    }
}

impl Instance {
    /// Returns the handle.
    pub fn raw_handle(&self) -> (r: u64)
        ensures
            r == self.handle,
    {
        self.handle
    }

    /// The names of extensions and of layers as C strings.
    ///
    /// A name that has a zero is refused; the first one of the extensions before any of the layers.
    pub fn validate_extensions_and_layers(extensions: &Vec<String>, layers: &Vec<String>) -> (r: Result<
        (Vec<Vec<u8>>, Vec<Vec<u8>>),
        InstanceError,
    >)
        ensures
            match r {
                Ok((extension_names, layer_names)) => {
                    &&& crate::utils::text::are_c_strings(extensions@, extension_names@)
                    &&& crate::utils::text::are_c_strings(layers@, layer_names@)
                },
                Err(InstanceError::InvalidExtension(name, position)) => crate::utils::text::refused_name(
                    extensions@,
                    name@,
                    position as int,
                ),
                Err(InstanceError::InvalidLayer(name, position)) => {
                    &&& crate::utils::text::none_has_nul(extensions@)
                    &&& crate::utils::text::refused_name(layers@, name@, position as int)
                },
                Err(_) => false,
            },
    {
        let extension_names: Vec<Vec<u8>> = match c_strings(extensions) {
            Ok(names) => names,
            Err((i, position)) => {
                let name: String = copy(&extensions[i]);
                assert(crate::utils::text::first_with_nul(extensions@, i as int, position as int));
                return Err(InstanceError::InvalidExtension(name, position));
            },
        };
        let layer_names: Vec<Vec<u8>> = match c_strings(layers) {
            Ok(names) => names,
            Err((i, position)) => {
                let name: String = copy(&layers[i]);
                assert(crate::utils::text::first_with_nul(layers@, i as int, position as int));
                return Err(InstanceError::InvalidLayer(name, position));
            },
        };
        Ok((extension_names, layer_names))
    }

    /// How an instance with the given extensions and layers is created: see
    /// `validate_extensions_and_layers` for the names that are refused.
    pub fn with_extensions_and_layers(extensions: &Vec<String>, layers: &Vec<String>) -> (r: Result<
        InstanceCreateInfo,
        InstanceError,
    >)
        ensures
            match r {
                Ok(info) => {
                    &&& info.api_version == API_VERSION_1_1
                    &&& crate::utils::text::are_c_strings(extensions@, info.extensions@)
                    &&& crate::utils::text::are_c_strings(layers@, info.layers@)
                },
                Err(InstanceError::InvalidExtension(name, position)) => crate::utils::text::refused_name(
                    extensions@,
                    name@,
                    position as int,
                ),
                Err(InstanceError::InvalidLayer(name, position)) => {
                    &&& crate::utils::text::none_has_nul(extensions@)
                    &&& crate::utils::text::refused_name(layers@, name@, position as int)
                },
                Err(_) => false,
            },
    {
        match Self::validate_extensions_and_layers(extensions, layers) {
            Ok((extensions, layers)) => Ok(
                InstanceCreateInfo { api_version: API_VERSION_1_1, extensions, layers },
            ),
            Err(error) => Err(error),
        }
    }

    /// How an instance with the given extensions and no layers is created.
    pub fn with_extensions(extensions: &Vec<String>) -> (r: Result<InstanceCreateInfo, InstanceError>)
        ensures
            match r {
                Ok(info) => {
                    &&& info.api_version == API_VERSION_1_1
                    &&& crate::utils::text::are_c_strings(extensions@, info.extensions@)
                    &&& info.layers@.len() == 0
                },
                Err(InstanceError::InvalidExtension(name, position)) => crate::utils::text::refused_name(
                    extensions@,
                    name@,
                    position as int,
                ),
                Err(_) => false,
            },
    {
        let layers: Vec<String> = Vec::new();
        Self::with_extensions_and_layers(extensions, &layers)
    }
}

} // verus!
