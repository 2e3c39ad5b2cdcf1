//! What the renderer takes from the `ash` bindings: the numbers and names that
//! the device reports are compared with.
//!
//! Every function here calls into `ash`; its contract is the value that the
//! bindings define, stated and not proved.

use vstd::prelude::*;

verus! {

/// Bit of a queue family's flags that stands for graphics support.
pub open spec fn queue_graphics_bit() -> u32 {
    0x1
}

/// Number of the 8-bit BGRA format with sRGB encoding.
pub open spec fn format_b8g8r8a8_srgb() -> i32 {
    50
}

/// Number of the standard nonlinear sRGB colour space.
pub open spec fn color_space_srgb_nonlinear() -> i32 {
    0
}

/// Number of the present mode in which a waiting image is replaced by a newer one.
pub open spec fn present_mode_mailbox() -> i32 {
    1
}

/// Number of the first-in-first-out present mode, which every surface offers.
pub open spec fn present_mode_fifo() -> i32 {
    2
}

/// Severity value of an error message of the debug messenger.
pub open spec fn severity_error() -> u32 {
    0x1000
}

/// Severity value of a warning.
pub open spec fn severity_warning() -> u32 {
    0x100
}

/// Severity value of an informational message.
pub open spec fn severity_info() -> u32 {
    0x10
}

/// Result code with which the device reports that the surface has changed
/// so that the swapchain can no longer present to it.
pub open spec fn error_out_of_date() -> i32 {
    -1_000_001_004i32
}

/// Result code of an object that could not be set up.
pub open spec fn error_initialization_failed() -> i32 {
    -3i32
}

/// The version number that Vulkan packs from a variant and three components.
pub open spec fn packed_api_version(variant: u32, major: u32, minor: u32, patch: u32) -> u32 {
    (variant << 29) | (major << 22) | (minor << 12) | patch
}

/// `ash::vk::QueueFlags::contains`, asked for `QueueFlags::GRAPHICS`: whether
/// the graphics bit is set in the flags.
#[verifier::external_body]
pub(crate) fn supports_graphics(queue_flags: u32) -> (r: bool)
    ensures
        r == (queue_flags & queue_graphics_bit() == queue_graphics_bit()),
{
    ash::vk::QueueFlags::from_raw(queue_flags).contains(ash::vk::QueueFlags::GRAPHICS)
}

/// `ash::vk::Format::B8G8R8A8_SRGB`, as the number that the bindings give it.
#[verifier::external_body]
pub(crate) fn preferred_format() -> (r: i32)
    ensures
        r == format_b8g8r8a8_srgb(),
{
    ash::vk::Format::B8G8R8A8_SRGB.as_raw()
}

/// `ash::vk::ColorSpaceKHR::SRGB_NONLINEAR`, as its number.
#[verifier::external_body]
pub(crate) fn preferred_color_space() -> (r: i32)
    ensures
        r == color_space_srgb_nonlinear(),
{
    ash::vk::ColorSpaceKHR::SRGB_NONLINEAR.as_raw()
}

/// `ash::vk::PresentModeKHR::MAILBOX`, as its number.
#[verifier::external_body]
pub(crate) fn mailbox_present_mode() -> (r: i32)
    ensures
        r == present_mode_mailbox(),
{
    ash::vk::PresentModeKHR::MAILBOX.as_raw()
}

/// `ash::vk::PresentModeKHR::FIFO`, as its number.
#[verifier::external_body]
pub(crate) fn fifo_present_mode() -> (r: i32)
    ensures
        r == present_mode_fifo(),
{
    ash::vk::PresentModeKHR::FIFO.as_raw()
}

/// `ash::vk::Handle::is_null` of a fence: a handle is null when its raw value is 0.
#[verifier::external_body]
pub(crate) fn fence_is_null(fence: u64) -> (r: bool)
    ensures
        r == (fence == 0),
{
    ash::vk::Handle::is_null(<ash::vk::Fence as ash::vk::Handle>::from_raw(fence))
}

/// `ash::vk::Fence::null`, as its raw value.
#[verifier::external_body]
pub(crate) fn null_fence() -> (r: u64)
    ensures
        r == 0,
{
    ash::vk::Handle::as_raw(ash::vk::Fence::null())
}

/// `ash::vk::DebugUtilsMessageSeverityFlagsEXT::ERROR`, as its raw value.
#[verifier::external_body]
pub(crate) fn error_severity() -> (r: u32)
    ensures
        r == severity_error(),
{
    ash::vk::DebugUtilsMessageSeverityFlagsEXT::ERROR.as_raw()
}

/// `ash::vk::DebugUtilsMessageSeverityFlagsEXT::WARNING`, as its raw value.
#[verifier::external_body]
pub(crate) fn warning_severity() -> (r: u32)
    ensures
        r == severity_warning(),
{
    ash::vk::DebugUtilsMessageSeverityFlagsEXT::WARNING.as_raw()
}

/// `ash::vk::DebugUtilsMessageSeverityFlagsEXT::INFO`, as its raw value.
#[verifier::external_body]
pub(crate) fn info_severity() -> (r: u32)
    ensures
        r == severity_info(),
{
    ash::vk::DebugUtilsMessageSeverityFlagsEXT::INFO.as_raw()
}

/// `ash::vk::Result::ERROR_OUT_OF_DATE_KHR`, as its raw value.
#[verifier::external_body]
pub(crate) fn out_of_date_code() -> (r: i32)
    ensures
        r == error_out_of_date(),
{
    ash::vk::Result::ERROR_OUT_OF_DATE_KHR.as_raw()
}

/// `ash::vk::Result::ERROR_INITIALIZATION_FAILED`, as its raw value.
#[verifier::external_body]
pub(crate) fn initialization_failed_code() -> (r: i32)
    ensures
        r == error_initialization_failed(),
{
    ash::vk::Result::ERROR_INITIALIZATION_FAILED.as_raw()
}

/// `ash::vk::make_api_version`: the variant shifted left by 29 bits, the major
/// number by 22 and the minor number by 12, joined with the patch number.
#[verifier::external_body]
pub(crate) fn api_version(variant: u32, major: u32, minor: u32, patch: u32) -> (r: u32)
    ensures
        r == packed_api_version(variant, major, minor, patch),
{
    ash::vk::make_api_version(variant, major, minor, patch)
}

/// `ash::khr::swapchain::NAME`: the name of the device extension that
/// provides swapchains.
#[verifier::external_body]
pub(crate) fn swapchain_extension_name() -> (r: String)
    ensures
        r@ == "VK_KHR_swapchain"@,
{
    ash::khr::swapchain::NAME.to_string_lossy().into_owned()
}

/// `ash::khr::portability_subset::NAME`: the device extension that a
/// non-conformant (portability) implementation has to be asked for.
#[verifier::external_body]
pub(crate) fn portability_subset_extension_name() -> (r: String)
    ensures
        r@ == "VK_KHR_portability_subset"@,
{
    ash::khr::portability_subset::NAME.to_string_lossy().into_owned()
}

/// `ash::ext::debug_utils::NAME`: the instance extension of the debug messenger.
#[verifier::external_body]
pub(crate) fn debug_utils_extension_name() -> (r: String)
    ensures
        r@ == "VK_EXT_debug_utils"@,
{
    ash::ext::debug_utils::NAME.to_string_lossy().into_owned()
}

/// `ash::khr::portability_enumeration::NAME`: the instance extension that
/// lets portability implementations be enumerated.
#[verifier::external_body]
pub(crate) fn portability_enumeration_extension_name() -> (r: String)
    ensures
        r@ == "VK_KHR_portability_enumeration"@,
{
    ash::khr::portability_enumeration::NAME.to_string_lossy().into_owned()
}

/// `ash::khr::get_physical_device_properties2::NAME`: the instance extension
/// that the portability subset depends on.
#[verifier::external_body]
pub(crate) fn physical_device_properties2_extension_name() -> (r: String)
    ensures
        r@ == "VK_KHR_get_physical_device_properties2"@,
{
    ash::khr::get_physical_device_properties2::NAME.to_string_lossy().into_owned()
}

} // verus!
