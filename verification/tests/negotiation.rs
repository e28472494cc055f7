use vkboot::swapchain::{
    choose_extent, choose_format, choose_image_count, choose_present_mode, clamp_u32,
    plan_swapchain, Extent2D, SharingMode, SurfaceCapabilities, SurfaceFormat,
    COLOR_SPACE_SRGB_NONLINEAR, FORMAT_B8G8R8A8_SRGB, PRESENT_MODE_FIFO, PRESENT_MODE_MAILBOX,
};

fn caps_with_sentinel() -> SurfaceCapabilities {
    SurfaceCapabilities {
        min_image_count: 2,
        max_image_count: 0,
        current_extent: Extent2D { width: 0xffff_ffff, height: 0xffff_ffff },
        min_extent: Extent2D { width: 1, height: 1 },
        max_extent: Extent2D { width: 1000, height: 1000 },
    }
}

#[test]
fn format_prefers_srgb_8bit() {
    let plain = SurfaceFormat { format: 44, color_space: 0 };
    let srgb = SurfaceFormat { format: FORMAT_B8G8R8A8_SRGB, color_space: COLOR_SPACE_SRGB_NONLINEAR };
    assert_eq!(choose_format(&vec![plain, srgb]), srgb);
}

#[test]
fn format_falls_back_to_first_supported() {
    let plain = SurfaceFormat { format: 44, color_space: 0 };
    assert_eq!(choose_format(&vec![plain]), plain);
    let second = SurfaceFormat { format: 37, color_space: 1 };
    assert_eq!(choose_format(&vec![plain, second]), plain);
}

#[test]
fn format_needs_both_format_and_color_space() {
    let srgb_format_wrong_space = SurfaceFormat { format: FORMAT_B8G8R8A8_SRGB, color_space: 7 };
    let fallback = SurfaceFormat { format: 44, color_space: 0 };
    assert_eq!(choose_format(&vec![fallback, srgb_format_wrong_space]), fallback);
}

#[test]
fn present_mode_fifo_only_yields_fifo() {
    assert_eq!(choose_present_mode(&vec![PRESENT_MODE_FIFO]), PRESENT_MODE_FIFO);
}

#[test]
fn present_mode_prefers_mailbox() {
    assert_eq!(
        choose_present_mode(&vec![PRESENT_MODE_FIFO, PRESENT_MODE_MAILBOX]),
        PRESENT_MODE_MAILBOX
    );
}

#[test]
fn present_mode_fallback_never_fails() {
    assert_eq!(choose_present_mode(&Vec::new()), PRESENT_MODE_FIFO);
    assert_eq!(choose_present_mode(&vec![0, 3]), PRESENT_MODE_FIFO);
}

#[test]
fn extent_clamps_window_size_under_sentinel() {
    let extent = choose_extent(&caps_with_sentinel(), Extent2D { width: 500, height: 2000 });
    assert_eq!(extent, Extent2D { width: 500, height: 1000 });
}

#[test]
fn extent_uses_fixed_surface_extent_verbatim() {
    let mut caps = caps_with_sentinel();
    caps.current_extent = Extent2D { width: 640, height: 480 };
    let extent = choose_extent(&caps, Extent2D { width: 500, height: 2000 });
    assert_eq!(extent, Extent2D { width: 640, height: 480 });
}

#[test]
fn extent_clamps_up_to_minimum() {
    let extent = choose_extent(&caps_with_sentinel(), Extent2D { width: 0, height: 0 });
    assert_eq!(extent, Extent2D { width: 1, height: 1 });
}

#[test]
fn clamp_prefers_lower_bound() {
    assert_eq!(clamp_u32(5, 1, 10), 5);
    assert_eq!(clamp_u32(0, 1, 10), 1);
    assert_eq!(clamp_u32(11, 1, 10), 10);
}

#[test]
fn image_count_is_min_plus_one_when_unbounded() {
    let caps = caps_with_sentinel();
    assert_eq!(choose_image_count(&caps), 3);
}

#[test]
fn image_count_capped_at_nonzero_maximum() {
    let mut caps = caps_with_sentinel();
    caps.min_image_count = 2;
    caps.max_image_count = 2;
    assert_eq!(choose_image_count(&caps), 2);
}

#[test]
fn image_count_below_nonzero_maximum_not_capped() {
    let mut caps = caps_with_sentinel();
    caps.max_image_count = 5;
    assert_eq!(choose_image_count(&caps), 3);
}

#[test]
fn swapchain_plan_combines_all_choices() {
    let srgb = SurfaceFormat { format: FORMAT_B8G8R8A8_SRGB, color_space: COLOR_SPACE_SRGB_NONLINEAR };
    let plain = SurfaceFormat { format: 44, color_space: 0 };
    let plan = plan_swapchain(
        &caps_with_sentinel(),
        &vec![plain, srgb],
        &vec![PRESENT_MODE_FIFO, PRESENT_MODE_MAILBOX],
        Extent2D { width: 500, height: 2000 },
        0,
        0,
    );
    assert_eq!(plan.format, srgb);
    assert_eq!(plan.present_mode, PRESENT_MODE_MAILBOX);
    assert_eq!(plan.extent, Extent2D { width: 500, height: 1000 });
    assert_eq!(plan.image_count, 3);
    assert_eq!(plan.sharing, SharingMode::Exclusive);
    assert!(plan.queue_family_indices.is_empty());
    assert_eq!(plan.image_array_layers, 1);
}

#[test]
fn swapchain_plan_concurrent_across_distinct_families() {
    let plain = SurfaceFormat { format: 44, color_space: 0 };
    let plan = plan_swapchain(
        &caps_with_sentinel(),
        &vec![plain],
        &vec![PRESENT_MODE_FIFO],
        Extent2D { width: 100, height: 100 },
        0,
        1,
    );
    assert_eq!(plan.sharing, SharingMode::Concurrent);
    assert_eq!(plan.queue_family_indices, vec![0, 1]);
}
