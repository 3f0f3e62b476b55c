//! Negotiation of the swapchain parameters against what a surface reports.
//!
//! The caller queries the driver for the surface's formats, capabilities and
//! present modes and hands them over as the plain values below.
//! [`negotiate_swapchain`] answers with the complete set of parameters to build
//! the swapchain with; the single choices are available on their own too.

use crate::bindings::{
    composite_alpha_opaque_bits, image_usage_color_attachment_bits,
    surface_transform_identity_bits, surface_transform_subset,
};
use crate::error::BringUpError;
use vstd::prelude::*;

verus! {

/// The width that a surface reports when it leaves the size of its images to
/// the swapchain.
pub const UNDEFINED_EXTENT_WIDTH: u32 = 0xffff_ffff;

/// The width of the window that the application opens by default.
pub const DEFAULT_WINDOW_WIDTH: u32 = 800;

/// The height of the window that the application opens by default.
pub const DEFAULT_WINDOW_HEIGHT: u32 = 600;

/// The transform bit that stands for "no transform".
pub const TRANSFORM_IDENTITY: u32 = 0x1;

/// The composite-alpha bit that stands for "ignore the alpha channel".
pub const COMPOSITE_ALPHA_OPAQUE: u32 = 0x1;

/// The image-usage bit that stands for "rendered to as a color attachment".
pub const IMAGE_USAGE_COLOR_ATTACHMENT: u32 = 0x10;

/// A size in pixels.
#[derive(Clone, Copy, Debug, PartialEq, Eq, Structural)]
pub struct Extent2D {
    pub width: u32,
    pub height: u32,
}

/// A pixel format, as far as the negotiation tells formats apart.
#[derive(Clone, Copy, Debug, PartialEq, Eq, Structural)]
pub enum PixelFormat {
    /// The sentinel by which a surface says that it has no preference.
    Undefined,
    /// Blue, green, red, eight bits each, unsigned normalized.
    B8g8r8Unorm,
    /// Any other format, by the driver's numeric code for it.
    Other(u32),
}

/// A color space.
#[derive(Clone, Copy, Debug, PartialEq, Eq, Structural)]
pub enum ColorSpace {
    /// sRGB with its nonlinear transfer function.
    SrgbNonlinear,
    /// Any other color space, by the driver's numeric code for it.
    Other(u32),
}

/// One entry of the list of formats that a surface supports.
#[derive(Clone, Copy, Debug, PartialEq, Eq, Structural)]
pub struct SurfaceFormat {
    pub format: PixelFormat,
    pub color_space: ColorSpace,
}

/// The policy by which presented images reach the screen.
#[derive(Clone, Copy, Debug, PartialEq, Eq, Structural)]
pub enum PresentMode {
    Immediate,
    /// A single-entry queue whose waiting image is replaced by a newer one.
    Mailbox,
    /// A queue that is emptied one image per vertical blank.
    Fifo,
    FifoRelaxed,
}

/// How the images of a swapchain are shared between queue families.
#[derive(Clone, Copy, Debug, PartialEq, Eq, Structural)]
pub enum SharingMode {
    /// One queue family at a time owns an image.
    Exclusive,
    Concurrent,
}

/// The part of a surface's capabilities that the negotiation reads.
#[derive(Clone, Copy, Debug, PartialEq, Eq, Structural)]
pub struct SurfaceCapabilities {
    pub min_image_count: u32,
    /// Zero where the surface sets no upper bound.
    pub max_image_count: u32,
    /// Its width is [`UNDEFINED_EXTENT_WIDTH`] where the surface leaves the
    /// size to the swapchain.
    pub current_extent: Extent2D,
    /// The transform bits that the surface can apply.
    pub supported_transforms: u32,
    /// The transform bit that the surface applies at present.
    pub current_transform: u32,
}

/// Everything that the creation of a swapchain is parameterized with, apart
/// from the surface itself.
#[derive(Clone, Copy, Debug, PartialEq, Eq, Structural)]
pub struct SwapchainConfig {
    pub min_image_count: u32,
    pub image_format: PixelFormat,
    pub image_color_space: ColorSpace,
    pub image_extent: Extent2D,
    pub image_array_layers: u32,
    pub image_usage: u32,
    pub image_sharing_mode: SharingMode,
    /// The number of queue families listed for sharing.
    pub queue_family_index_count: u32,
    pub pre_transform: u32,
    pub composite_alpha: u32,
    pub present_mode: PresentMode,
    pub clipped: bool,
    /// Whether the new swapchain takes the place of an earlier one.
    pub replaces_old_swapchain: bool,
}

/// The format to render in: the first that the surface lists. Where that entry
/// is the "no preference" sentinel, the fixed fallback format takes its place
/// and the entry's color space is kept. A surface that lists nothing cannot be
/// given a swapchain.
pub open spec fn spec_choose_surface_format(formats: Seq<SurfaceFormat>) -> Result<
    SurfaceFormat,
    BringUpError,
> {
    if formats.len() == 0 {
        Err(BringUpError::SwapchainCreation)
    } else if formats[0].format == PixelFormat::Undefined {
        Ok(SurfaceFormat { format: PixelFormat::B8g8r8Unorm, color_space: formats[0].color_space })
    } else {
        Ok(formats[0])
    }
}

/// Computes [`spec_choose_surface_format`].
pub fn choose_surface_format(formats: &Vec<SurfaceFormat>) -> (chosen: Result<
    SurfaceFormat,
    BringUpError,
>)
    ensures
        chosen == spec_choose_surface_format(formats@),
        chosen is Err <==> formats@.len() == 0,
{
    if formats.len() == 0 {
        return Err(BringUpError::SwapchainCreation);
    }
    let first = formats[0];
    match first.format {
        PixelFormat::Undefined => Ok(
            SurfaceFormat { format: PixelFormat::B8g8r8Unorm, color_space: first.color_space },
        ),
        _ => Ok(first),
    }
}

/// The number of images to ask for: one more than the surface's minimum,
/// brought down to the surface's maximum where that maximum is a bound
/// (a maximum of zero means that the surface sets none).
pub open spec fn spec_desired_image_count(min_image_count: int, max_image_count: int) -> int {
    if max_image_count > 0 && min_image_count + 1 > max_image_count {
        max_image_count
    } else {
        min_image_count + 1
    }
}

/// Computes [`spec_desired_image_count`].
///
/// An unbounded surface whose minimum is already `u32::MAX` leaves no
/// representable answer, and is excluded.
pub fn desired_image_count(min_image_count: u32, max_image_count: u32) -> (count: u32)
    requires
        max_image_count == 0 ==> min_image_count < u32::MAX,
    ensures
        count == spec_desired_image_count(min_image_count as int, max_image_count as int),
{
    if max_image_count > 0 && min_image_count >= max_image_count {
        max_image_count
    } else {
        min_image_count + 1
    }
}

/// The desired image count never exceeds a maximum that the surface sets. It
/// is at least the surface's minimum unless the surface contradicts itself by
/// a maximum below its minimum. Among consistent surfaces that need an image
/// at all, only the one that forces a single image gets a single image; every
/// other gets at least two.
pub proof fn lemma_desired_image_count_bounds(min_image_count: int, max_image_count: int)
    requires
        0 <= min_image_count,
        0 <= max_image_count,
    ensures
        max_image_count == 0 ==> spec_desired_image_count(min_image_count, max_image_count)
            == min_image_count + 1,
        max_image_count > 0 ==> spec_desired_image_count(min_image_count, max_image_count)
            == vstd::math::min(min_image_count + 1, max_image_count),
        max_image_count > 0 ==> spec_desired_image_count(min_image_count, max_image_count)
            <= max_image_count,
        max_image_count == 0 || min_image_count <= max_image_count ==> min_image_count
            <= spec_desired_image_count(min_image_count, max_image_count),
        1 <= min_image_count && (max_image_count == 0 || min_image_count <= max_image_count) ==> (
        spec_desired_image_count(min_image_count, max_image_count) == 1 <==> min_image_count == 1
            && max_image_count == 1),
{
}

/// The size of the images: what the surface reports, unless it reports the
/// "undefined" width, in which case the size of the window is taken.
pub open spec fn spec_resolve_extent(current: Extent2D, window: Extent2D) -> Extent2D {
    if current.width == UNDEFINED_EXTENT_WIDTH {
        window
    } else {
        current
    }
}

/// Computes [`spec_resolve_extent`]. A reported size is taken as it is: it is
/// not clamped to the surface's smallest and largest extent.
pub fn resolve_extent(current: Extent2D, window: Extent2D) -> (extent: Extent2D)
    ensures
        extent == spec_resolve_extent(current, window),
{
    if current.width == UNDEFINED_EXTENT_WIDTH {
        window
    } else {
        current
    }
}

/// The size of the window that the application opens by default.
pub fn default_window_extent() -> (extent: Extent2D)
    ensures
        extent == (Extent2D { width: DEFAULT_WINDOW_WIDTH, height: DEFAULT_WINDOW_HEIGHT }),
{
    Extent2D { width: DEFAULT_WINDOW_WIDTH, height: DEFAULT_WINDOW_HEIGHT }
}

/// The transform to apply before presenting: none at all where the surface
/// supports that, else whatever the surface applies at present.
pub open spec fn spec_choose_pre_transform(supported: u32, current: u32) -> u32 {
    if supported & TRANSFORM_IDENTITY == TRANSFORM_IDENTITY {
        TRANSFORM_IDENTITY
    } else {
        current
    }
}

/// Computes [`spec_choose_pre_transform`].
pub fn choose_pre_transform(supported: u32, current: u32) -> (transform: u32)
    ensures
        transform == spec_choose_pre_transform(supported, current),
{
    let identity = surface_transform_identity_bits();
    let within = surface_transform_subset(supported, identity);
    assert(((supported & 0x1ff) & (1u32 & 0x1ff) == (1u32 & 0x1ff)) == (supported & 1 == 1))
        by (bit_vector);
    if within {
        identity
    } else {
        current
    }
}

/// The present mode: the mailbox mode wherever the surface offers it, else the
/// first-in-first-out mode, which every surface supports.
pub open spec fn spec_choose_present_mode(supported: Seq<PresentMode>) -> PresentMode {
    if supported.contains(PresentMode::Mailbox) {
        PresentMode::Mailbox
    } else {
        PresentMode::Fifo
    }
}

/// Computes [`spec_choose_present_mode`].
pub fn choose_present_mode(supported: &Vec<PresentMode>) -> (mode: PresentMode)
    ensures
        mode == spec_choose_present_mode(supported@),
{
    let mut i: usize = 0;
    while i < supported.len()
        invariant
            i <= supported.len(),
            forall|j: int| 0 <= j < i ==> supported@[j] != PresentMode::Mailbox,
        decreases supported.len() - i,
    {
        if supported[i] == PresentMode::Mailbox {
            return PresentMode::Mailbox;
        }
        i += 1;
    }
    PresentMode::Fifo
}

/// The chosen present mode depends on which modes the surface offers, not on
/// the order in which it lists them: two lists that are permutations of each
/// other give the same choice.
pub proof fn lemma_present_mode_ignores_order(a: Seq<PresentMode>, b: Seq<PresentMode>)
    requires
        a.to_multiset() == b.to_multiset(),
    ensures
        spec_choose_present_mode(a) == spec_choose_present_mode(b),
{
    a.to_multiset_ensures();
    b.to_multiset_ensures();
    assert(a.contains(PresentMode::Mailbox) <==> a.to_multiset().count(PresentMode::Mailbox) > 0);
    assert(b.contains(PresentMode::Mailbox) <==> b.to_multiset().count(PresentMode::Mailbox) > 0);
}

/// The parameters of the swapchain for a surface with the given capabilities,
/// formats and present modes, under a window of the given size. Besides the
/// negotiated values they fix: one array layer, use as a color attachment,
/// exclusive ownership with no queue family listed, opaque composition,
/// clipping of hidden pixels, and no earlier swapchain to replace.
pub open spec fn spec_negotiate_swapchain(
    capabilities: SurfaceCapabilities,
    formats: Seq<SurfaceFormat>,
    present_modes: Seq<PresentMode>,
    window: Extent2D,
) -> Result<SwapchainConfig, BringUpError> {
    match spec_choose_surface_format(formats) {
        Err(e) => Err(e),
        Ok(surface_format) => Ok(
            SwapchainConfig {
                min_image_count: spec_desired_image_count(
                    capabilities.min_image_count as int,
                    capabilities.max_image_count as int,
                ) as u32,
                image_format: surface_format.format,
                image_color_space: surface_format.color_space,
                image_extent: spec_resolve_extent(capabilities.current_extent, window),
                image_array_layers: 1,
                image_usage: IMAGE_USAGE_COLOR_ATTACHMENT,
                image_sharing_mode: SharingMode::Exclusive,
                queue_family_index_count: 0,
                pre_transform: spec_choose_pre_transform(
                    capabilities.supported_transforms,
                    capabilities.current_transform,
                ),
                composite_alpha: COMPOSITE_ALPHA_OPAQUE,
                present_mode: spec_choose_present_mode(present_modes),
                clipped: true,
                replaces_old_swapchain: false,
            },
        ),
    }
}

/// Computes [`spec_negotiate_swapchain`]. It fails, with
/// [`BringUpError::SwapchainCreation`], exactly when the surface lists no
/// format.
///
/// An unbounded surface whose minimum image count is already `u32::MAX` is
/// excluded, as in [`desired_image_count`].
pub fn negotiate_swapchain(
    capabilities: &SurfaceCapabilities,
    formats: &Vec<SurfaceFormat>,
    present_modes: &Vec<PresentMode>,
    window: Extent2D,
) -> (config: Result<SwapchainConfig, BringUpError>)
    requires
        capabilities.max_image_count == 0 ==> capabilities.min_image_count < u32::MAX,
    ensures
        config == spec_negotiate_swapchain(*capabilities, formats@, present_modes@, window),
        config is Err <==> formats@.len() == 0,
        config is Err ==> config == Err::<SwapchainConfig, BringUpError>(
            BringUpError::SwapchainCreation,
        ),
{
    let surface_format = match choose_surface_format(formats) {
        Ok(surface_format) => surface_format,
        Err(e) => {
            return Err(e);
        },
    };
    let min_image_count = desired_image_count(
        capabilities.min_image_count,
        capabilities.max_image_count,
    );
    let image_extent = resolve_extent(capabilities.current_extent, window);
    let pre_transform = choose_pre_transform(
        capabilities.supported_transforms,
        capabilities.current_transform,
    );
    let present_mode = choose_present_mode(present_modes);
    Ok(
        SwapchainConfig {
            min_image_count,
            image_format: surface_format.format,
            image_color_space: surface_format.color_space,
            image_extent,
            image_array_layers: 1,
            image_usage: image_usage_color_attachment_bits(),
            image_sharing_mode: SharingMode::Exclusive,
            queue_family_index_count: 0,
            pre_transform,
            composite_alpha: composite_alpha_opaque_bits(),
            present_mode,
            clipped: true,
            replaces_old_swapchain: false,
        },
    )
}

} // verus!
