//! The values that this crate takes from the `ash` bindings.
//!
//! Every function here is trusted: its body reads one constant of `ash` or
//! makes one call into it, and its contract repeats what the source of `ash`
//! shows. Verus does not look into these bodies; the rest of the crate is
//! proved against the contracts.

use vstd::prelude::*;

verus! {

/// The bits that `ash::vk::SurfaceTransformFlagsKHR` knows. Its constructor
/// `from_flags_truncate` clears every other bit.
pub const SURFACE_TRANSFORM_KNOWN_BITS: u32 = 0x1ff;

/// `ash::vk::SurfaceTransformFlagsKHR::subset`, called on the two flag sets
/// that `from_flags_truncate` makes of `supported` and `wanted`. It answers
/// whether every known bit of `wanted` is set in `supported`.
#[verifier::external_body]
pub(crate) fn surface_transform_subset(supported: u32, wanted: u32) -> (within: bool)
    ensures
        within == ((supported & SURFACE_TRANSFORM_KNOWN_BITS) & (wanted
            & SURFACE_TRANSFORM_KNOWN_BITS) == (wanted & SURFACE_TRANSFORM_KNOWN_BITS)),
{
    let supported = ash::vk::SurfaceTransformFlagsKHR::from_flags_truncate(supported);
    supported.subset(ash::vk::SurfaceTransformFlagsKHR::from_flags_truncate(wanted))
}

/// The bits of `ash::vk::SURFACE_TRANSFORM_IDENTITY_BIT_KHR`: bit 0 alone.
#[verifier::external_body]
pub(crate) fn surface_transform_identity_bits() -> (bits: u32)
    ensures
        bits == 0x1,
{
    ash::vk::SURFACE_TRANSFORM_IDENTITY_BIT_KHR.flags()
}

/// The bits of `ash::vk::COMPOSITE_ALPHA_OPAQUE_BIT_KHR`: bit 0 alone.
#[verifier::external_body]
pub(crate) fn composite_alpha_opaque_bits() -> (bits: u32)
    ensures
        bits == 0x1,
{
    ash::vk::COMPOSITE_ALPHA_OPAQUE_BIT_KHR.flags()
}

/// The bits of `ash::vk::IMAGE_USAGE_COLOR_ATTACHMENT_BIT`: bit 4 alone.
#[verifier::external_body]
pub(crate) fn image_usage_color_attachment_bits() -> (bits: u32)
    ensures
        bits == 0x10,
{
    ash::vk::IMAGE_USAGE_COLOR_ATTACHMENT_BIT.flags()
}

/// The bits of `ash::vk::DEBUG_REPORT_WARNING_BIT_EXT`: bit 1 alone.
#[verifier::external_body]
pub(crate) fn debug_report_warning_bits() -> (bits: u32)
    ensures
        bits == 0x2,
{
    ash::vk::DEBUG_REPORT_WARNING_BIT_EXT.flags()
}

/// The bits of `ash::vk::DEBUG_REPORT_PERFORMANCE_WARNING_BIT_EXT`: bit 2
/// alone.
#[verifier::external_body]
pub(crate) fn debug_report_performance_warning_bits() -> (bits: u32)
    ensures
        bits == 0x4,
{
    ash::vk::DEBUG_REPORT_PERFORMANCE_WARNING_BIT_EXT.flags()
}

/// The bits of `ash::vk::DEBUG_REPORT_ERROR_BIT_EXT`: bit 3 alone.
#[verifier::external_body]
pub(crate) fn debug_report_error_bits() -> (bits: u32)
    ensures
        bits == 0x8,
{
    ash::vk::DEBUG_REPORT_ERROR_BIT_EXT.flags()
}

/// `ash::extensions::Surface::name`, as an owned string: the name of the base
/// surface extension.
#[verifier::external_body]
pub(crate) fn surface_extension_name() -> (name: String)
    ensures
        name@ == "VK_KHR_surface"@,
{
    ash::extensions::Surface::name().to_string_lossy().into_owned()
}

/// `ash::extensions::XlibSurface::name`, as an owned string: the name of the
/// extension that binds an Xlib window to a surface.
#[verifier::external_body]
pub(crate) fn xlib_surface_extension_name() -> (name: String)
    ensures
        name@ == "VK_KHR_xlib_surface"@,
{
    ash::extensions::XlibSurface::name().to_string_lossy().into_owned()
}

/// `ash::extensions::DebugReport::name`, as an owned string: the name of the
/// extension through which the driver reports diagnostics.
#[verifier::external_body]
pub(crate) fn debug_report_extension_name() -> (name: String)
    ensures
        name@ == "VK_EXT_debug_report"@,
{
    ash::extensions::DebugReport::name().to_string_lossy().into_owned()
}

/// `ash::extensions::Swapchain::name`, as an owned string: the name of the
/// device extension that provides swapchains.
#[verifier::external_body]
pub(crate) fn swapchain_extension_name() -> (name: String)
    ensures
        name@ == "VK_KHR_swapchain"@,
{
    ash::extensions::Swapchain::name().to_string_lossy().into_owned()
}

} // verus!
