use niagara::error::BringUpError;
use niagara::swapchain::{
    choose_pre_transform, choose_present_mode, choose_surface_format, default_window_extent,
    desired_image_count, negotiate_swapchain, resolve_extent, ColorSpace, Extent2D, PixelFormat,
    PresentMode, SharingMode, SurfaceCapabilities, SurfaceFormat, SwapchainConfig,
    COMPOSITE_ALPHA_OPAQUE, DEFAULT_WINDOW_HEIGHT, DEFAULT_WINDOW_WIDTH,
    IMAGE_USAGE_COLOR_ATTACHMENT, TRANSFORM_IDENTITY, UNDEFINED_EXTENT_WIDTH,
};

fn srgb(format: PixelFormat) -> SurfaceFormat {
    SurfaceFormat { format, color_space: ColorSpace::SrgbNonlinear }
}

#[test]
fn unbounded_surface_gets_minimum_plus_one() {
    assert_eq!(desired_image_count(1, 0), 2);
}

#[test]
fn image_count_is_clamped_to_the_maximum() {
    assert_eq!(desired_image_count(2, 2), 2);
}

#[test]
fn image_count_formula() {
    assert_eq!(desired_image_count(0, 0), 1);
    assert_eq!(desired_image_count(2, 8), 3);
    assert_eq!(desired_image_count(3, 3), 3);
    assert_eq!(desired_image_count(7, 8), 8);
    assert_eq!(desired_image_count(1, 1), 1);
    assert_eq!(desired_image_count(u32::MAX - 1, 0), u32::MAX);
    assert_eq!(desired_image_count(u32::MAX, 5), 5);
    assert_eq!(desired_image_count(u32::MAX, u32::MAX), u32::MAX);
}

#[test]
fn image_count_below_minimum_only_for_a_contradictory_surface() {
    assert_eq!(desired_image_count(5, 3), 3);
}

#[test]
fn image_count_stays_within_the_bounds() {
    for min in 0..12u32 {
        for max in 0..12u32 {
            let count = desired_image_count(min, max);
            if max == 0 {
                assert_eq!(count, min + 1);
            } else {
                assert_eq!(count, std::cmp::min(min + 1, max));
                assert!(count <= max);
            }
            if max == 0 || min <= max {
                assert!(count >= min);
            }
        }
    }
}

#[test]
fn undefined_extent_falls_back_to_the_window() {
    let current = Extent2D { width: UNDEFINED_EXTENT_WIDTH, height: UNDEFINED_EXTENT_WIDTH };
    let extent = resolve_extent(current, default_window_extent());
    assert_eq!(extent, Extent2D { width: 800, height: 600 });
    let extent = resolve_extent(
        Extent2D { width: u32::MAX, height: 7 },
        Extent2D { width: 320, height: 200 },
    );
    assert_eq!(extent, Extent2D { width: 320, height: 200 });
}

#[test]
fn reported_extent_is_taken_unchanged() {
    let current = Extent2D { width: 1024, height: 768 };
    assert_eq!(resolve_extent(current, default_window_extent()), current);
    let current = Extent2D { width: 0, height: 0 };
    assert_eq!(resolve_extent(current, default_window_extent()), current);
    let current = Extent2D { width: 5, height: u32::MAX };
    assert_eq!(resolve_extent(current, default_window_extent()), current);
    let current = Extent2D { width: u32::MAX - 1, height: 1 };
    assert_eq!(resolve_extent(current, default_window_extent()), current);
}

#[test]
fn default_window_is_800_by_600() {
    assert_eq!(DEFAULT_WINDOW_WIDTH, 800);
    assert_eq!(DEFAULT_WINDOW_HEIGHT, 600);
    assert_eq!(default_window_extent(), Extent2D { width: 800, height: 600 });
}

#[test]
fn undefined_format_falls_back_and_keeps_the_color_space() {
    let formats = vec![
        SurfaceFormat { format: PixelFormat::Undefined, color_space: ColorSpace::Other(1000104001) },
        srgb(PixelFormat::Other(44)),
    ];
    assert_eq!(
        choose_surface_format(&formats),
        Ok(SurfaceFormat {
            format: PixelFormat::B8g8r8Unorm,
            color_space: ColorSpace::Other(1000104001),
        })
    );
    let formats = vec![srgb(PixelFormat::Undefined)];
    assert_eq!(choose_surface_format(&formats), Ok(srgb(PixelFormat::B8g8r8Unorm)));
}

#[test]
fn first_listed_format_is_taken_unchanged() {
    let formats = vec![srgb(PixelFormat::Other(44)), srgb(PixelFormat::Other(50))];
    assert_eq!(choose_surface_format(&formats), Ok(formats[0]));
    let formats = vec![
        SurfaceFormat { format: PixelFormat::Other(37), color_space: ColorSpace::Other(3) },
        srgb(PixelFormat::Undefined),
    ];
    assert_eq!(choose_surface_format(&formats), Ok(formats[0]));
    let formats = vec![srgb(PixelFormat::B8g8r8Unorm)];
    assert_eq!(choose_surface_format(&formats), Ok(formats[0]));
}

#[test]
fn no_format_is_an_error() {
    assert_eq!(choose_surface_format(&Vec::new()), Err(BringUpError::SwapchainCreation));
}

#[test]
fn mailbox_is_selected_wherever_it_is_listed() {
    let modes = [
        PresentMode::Immediate,
        PresentMode::Mailbox,
        PresentMode::Fifo,
        PresentMode::FifoRelaxed,
    ];
    for a in 0..4 {
        for b in 0..4 {
            for c in 0..4 {
                for d in 0..4 {
                    let list = vec![modes[a], modes[b], modes[c], modes[d]];
                    let expected = if list.contains(&PresentMode::Mailbox) {
                        PresentMode::Mailbox
                    } else {
                        PresentMode::Fifo
                    };
                    assert_eq!(choose_present_mode(&list), expected);
                }
            }
        }
    }
}

#[test]
fn fifo_is_the_fallback() {
    assert_eq!(choose_present_mode(&Vec::new()), PresentMode::Fifo);
    assert_eq!(choose_present_mode(&vec![PresentMode::Immediate]), PresentMode::Fifo);
    assert_eq!(
        choose_present_mode(&vec![PresentMode::FifoRelaxed, PresentMode::Fifo]),
        PresentMode::Fifo
    );
}

#[test]
fn present_mode_is_the_same_for_every_order() {
    let a = vec![PresentMode::Fifo, PresentMode::Immediate, PresentMode::Mailbox];
    let b = vec![PresentMode::Mailbox, PresentMode::Fifo, PresentMode::Immediate];
    let c = vec![PresentMode::Immediate, PresentMode::Mailbox, PresentMode::Fifo];
    assert_eq!(choose_present_mode(&a), PresentMode::Mailbox);
    assert_eq!(choose_present_mode(&b), PresentMode::Mailbox);
    assert_eq!(choose_present_mode(&c), PresentMode::Mailbox);
}

#[test]
fn identity_transform_is_preferred_when_supported() {
    assert_eq!(TRANSFORM_IDENTITY, 1);
    assert_eq!(choose_pre_transform(0x1, 0x2), 0x1);
    assert_eq!(choose_pre_transform(0x1ff, 0x100), 0x1);
    assert_eq!(choose_pre_transform(0x3, 0x2), 0x1);
    assert_eq!(choose_pre_transform(0xffff_ffff, 0x4), 0x1);
}

#[test]
fn current_transform_is_kept_without_identity() {
    assert_eq!(choose_pre_transform(0x2, 0x2), 0x2);
    assert_eq!(choose_pre_transform(0x0, 0x8), 0x8);
    assert_eq!(choose_pre_transform(0x1fe, 0x100), 0x100);
    assert_eq!(choose_pre_transform(0xffff_fffe, 0x10), 0x10);
    assert_eq!(choose_pre_transform(0x6, 0x0), 0x0);
}

#[test]
fn negotiation_puts_the_choices_together() {
    let capabilities = SurfaceCapabilities {
        min_image_count: 2,
        max_image_count: 8,
        current_extent: Extent2D { width: 1280, height: 720 },
        supported_transforms: 0x1 | 0x2,
        current_transform: 0x2,
    };
    let formats = vec![srgb(PixelFormat::Other(44))];
    let modes = vec![PresentMode::Fifo, PresentMode::Mailbox];
    let config = negotiate_swapchain(&capabilities, &formats, &modes, default_window_extent());
    assert_eq!(
        config,
        Ok(SwapchainConfig {
            min_image_count: 3,
            image_format: PixelFormat::Other(44),
            image_color_space: ColorSpace::SrgbNonlinear,
            image_extent: Extent2D { width: 1280, height: 720 },
            image_array_layers: 1,
            image_usage: 0x10,
            image_sharing_mode: SharingMode::Exclusive,
            queue_family_index_count: 0,
            pre_transform: 0x1,
            composite_alpha: 0x1,
            present_mode: PresentMode::Mailbox,
            clipped: true,
            replaces_old_swapchain: false,
        })
    );
    assert_eq!(IMAGE_USAGE_COLOR_ATTACHMENT, 0x10);
    assert_eq!(COMPOSITE_ALPHA_OPAQUE, 0x1);
}

#[test]
fn negotiation_applies_every_fallback() {
    let capabilities = SurfaceCapabilities {
        min_image_count: 1,
        max_image_count: 1,
        current_extent: Extent2D { width: u32::MAX, height: u32::MAX },
        supported_transforms: 0x4,
        current_transform: 0x4,
    };
    let formats = vec![srgb(PixelFormat::Undefined)];
    let modes = vec![PresentMode::Immediate];
    let config = negotiate_swapchain(&capabilities, &formats, &modes, default_window_extent())
        .unwrap();
    assert_eq!(config.min_image_count, 1);
    assert_eq!(config.image_format, PixelFormat::B8g8r8Unorm);
    assert_eq!(config.image_color_space, ColorSpace::SrgbNonlinear);
    assert_eq!(config.image_extent, Extent2D { width: 800, height: 600 });
    assert_eq!(config.pre_transform, 0x4);
    assert_eq!(config.present_mode, PresentMode::Fifo);
}

#[test]
fn negotiation_fails_without_a_format() {
    let capabilities = SurfaceCapabilities {
        min_image_count: 1,
        max_image_count: 0,
        current_extent: Extent2D { width: 640, height: 480 },
        supported_transforms: 0x1,
        current_transform: 0x1,
    };
    let config = negotiate_swapchain(
        &capabilities,
        &Vec::new(),
        &vec![PresentMode::Mailbox],
        default_window_extent(),
    );
    assert_eq!(config, Err(BringUpError::SwapchainCreation));
}
