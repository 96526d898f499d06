//! Names of Vulkan extensions.

use vstd::prelude::*;

verus! {

/// The name of `VK_KHR_dedicated_allocation`, from `KhrDedicatedAllocationFn::name` of `ash`.
#[verifier::external_body]
pub(crate) fn khr_dedicated_allocation() -> (r: String)
    ensures
        r@ == "VK_KHR_dedicated_allocation"@,
{
    ash::vk::KhrDedicatedAllocationFn::name().to_string_lossy().into_owned()
}

/// The name of `VK_KHR_maintenance4`, from `KhrMaintenance4Fn::name` of `ash`.
#[verifier::external_body]
pub(crate) fn khr_maintenance4() -> (r: String)
    ensures
        r@ == "VK_KHR_maintenance4"@,
{
    ash::vk::KhrMaintenance4Fn::name().to_string_lossy().into_owned()
}

/// The name of `VK_EXT_image_drm_format_modifier`, from `ExtImageDrmFormatModifierFn::name` of
/// `ash`.
#[verifier::external_body]
pub(crate) fn ext_image_drm_format_modifier() -> (r: String)
    ensures
        r@ == "VK_EXT_image_drm_format_modifier"@,
{
    ash::vk::ExtImageDrmFormatModifierFn::name().to_string_lossy().into_owned()
}

/// The name of `VK_EXT_external_memory_dma_buf`, from `ExtExternalMemoryDmaBufFn::name` of `ash`.
#[verifier::external_body]
pub(crate) fn ext_external_memory_dma_buf() -> (r: String)
    ensures
        r@ == "VK_EXT_external_memory_dma_buf"@,
{
    ash::vk::ExtExternalMemoryDmaBufFn::name().to_string_lossy().into_owned()
}

/// The name of `VK_KHR_external_memory_fd`, from `KhrExternalMemoryFdFn::name` of `ash`.
#[verifier::external_body]
pub(crate) fn khr_external_memory_fd() -> (r: String)
    ensures
        r@ == "VK_KHR_external_memory_fd"@,
{
    ash::vk::KhrExternalMemoryFdFn::name().to_string_lossy().into_owned()
}

/// The name of `VK_KHR_image_format_list`, from `KhrImageFormatListFn::name` of `ash`.
#[verifier::external_body]
pub(crate) fn khr_image_format_list() -> (r: String)
    ensures
        r@ == "VK_KHR_image_format_list"@,
{
    ash::vk::KhrImageFormatListFn::name().to_string_lossy().into_owned()
}

/// The name of `VK_EXT_4444_formats`, from `Ext4444FormatsFn::name` of `ash`.
#[verifier::external_body]
pub(crate) fn ext_4444_formats() -> (r: String)
    ensures
        r@ == "VK_EXT_4444_formats"@,
{
    ash::vk::Ext4444FormatsFn::name().to_string_lossy().into_owned()
}

/// The text of a Vulkan result.
pub uninterp spec fn vulkan_result_text(code: i32) -> Seq<char>;

/// The text of a Vulkan result, from the `Display` of `ash::vk::Result`.
///
/// It depends on the number alone. What it is for each number is not stated.
#[verifier::external_body]
pub(crate) fn vulkan_result(code: i32) -> (r: String)
    ensures
        r@ == vulkan_result_text(code),
{
    ash::vk::Result::from_raw(code).to_string()
}

} // verus!
