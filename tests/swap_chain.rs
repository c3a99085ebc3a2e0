use vulkan_triangle::{
    Extent2D, Offset2D, QueueFamilyIndices, Rect2D, SurfaceCapabilities, SurfaceFormat,
    SwapChainSupportDetails, VulkanApp, COLOR_SPACE_SRGB_NONLINEAR, FORMAT_B8G8R8A8_SRGB,
    PRESENT_MODE_FIFO, SHARING_MODE_CONCURRENT, SHARING_MODE_EXCLUSIVE,
};

fn caps(current: Extent2D, min: Extent2D, max: Extent2D, min_count: u32, max_count: u32) -> SurfaceCapabilities {
    SurfaceCapabilities {
        min_image_count: min_count,
        max_image_count: max_count,
        current_extent: current,
        min_image_extent: min,
        max_image_extent: max,
        max_image_array_layers: 1,
        supported_transforms: 1,
        current_transform: 1,
        supported_composite_alpha: 1,
        supported_usage_flags: 0x10,
    }
}

fn ext(width: u32, height: u32) -> Extent2D {
    Extent2D { width, height }
}

#[test]
fn surface_format_none_when_empty() {
    let app = VulkanApp::new();
    assert_eq!(app.choose_swap_surface_format(&[]), None);
}

#[test]
fn surface_format_prefers_bgra_srgb() {
    let app = VulkanApp::new();
    let formats = [
        SurfaceFormat { format: 44, color_space: 0 },
        SurfaceFormat { format: FORMAT_B8G8R8A8_SRGB, color_space: 1 },
        SurfaceFormat { format: FORMAT_B8G8R8A8_SRGB, color_space: COLOR_SPACE_SRGB_NONLINEAR },
        SurfaceFormat { format: FORMAT_B8G8R8A8_SRGB, color_space: COLOR_SPACE_SRGB_NONLINEAR },
    ];
    assert_eq!(app.choose_swap_surface_format(&formats), Some(2));
}

#[test]
fn surface_format_falls_back_to_first() {
    let app = VulkanApp::new();
    let formats = [SurfaceFormat { format: 44, color_space: 0 }, SurfaceFormat { format: 37, color_space: 0 }];
    assert_eq!(app.choose_swap_surface_format(&formats), Some(0));
}

#[test]
fn present_mode_is_fifo() {
    let app = VulkanApp::new();
    assert_eq!(app.choose_swap_present_mode(&[0, 1, 3]), PRESENT_MODE_FIFO);
    assert_eq!(app.choose_swap_present_mode(&[]), 2);
}

#[test]
fn extent_uses_current_when_fixed() {
    let app = VulkanApp::new();
    let c = caps(ext(800, 600), ext(1, 1), ext(4096, 4096), 2, 0);
    assert_eq!(app.choose_swap_extent(&c, 1234, 77), ext(800, 600));
}

#[test]
fn extent_clamps_framebuffer_size() {
    let app = VulkanApp::new();
    let c = caps(ext(u32::MAX, u32::MAX), ext(100, 100), ext(1000, 500), 2, 0);
    assert_eq!(app.choose_swap_extent(&c, 1920, 50), ext(1000, 100));
    assert_eq!(app.choose_swap_extent(&c, 640, 480), ext(640, 480));
    // A negative size reads as a huge unsigned one.
    assert_eq!(app.choose_swap_extent(&c, -1, 300), ext(1000, 300));
}

#[test]
fn scissor_covers_the_image() {
    let mut app = VulkanApp::new();
    app.swap_chain_extent = ext(800, 600);
    assert_eq!(app.create_scissor(), Rect2D { offset: Offset2D { x: 0, y: 0 }, extent: ext(800, 600) });
}

fn support_with(c: SurfaceCapabilities) -> SwapChainSupportDetails {
    let mut s = SwapChainSupportDetails::default();
    s.capabilities = c;
    s.formats.push(SurfaceFormat { format: 44, color_space: 0 });
    s.formats.push(SurfaceFormat { format: FORMAT_B8G8R8A8_SRGB, color_space: COLOR_SPACE_SRGB_NONLINEAR });
    s.present_modes.push(0);
    s
}

#[test]
fn plan_concurrent_between_two_families() {
    let app = VulkanApp::new();
    let s = support_with(caps(ext(800, 600), ext(1, 1), ext(800, 600), 2, 0));
    let idx = QueueFamilyIndices { graphics_family: Some(0), present_family: Some(1) };
    let p = app.plan_swap_chain(&s, &idx, 0, 0);
    assert_eq!(p.surface_format, SurfaceFormat { format: FORMAT_B8G8R8A8_SRGB, color_space: COLOR_SPACE_SRGB_NONLINEAR });
    assert_eq!(p.present_mode, PRESENT_MODE_FIFO);
    assert_eq!(p.extent, ext(800, 600));
    assert_eq!(p.image_count, 3);
    assert_eq!(p.sharing_mode, SHARING_MODE_CONCURRENT);
    assert_eq!(p.queue_family_indices, vec![0, 1]);
    assert_eq!(p.pre_transform, 1);
}

#[test]
fn plan_exclusive_and_image_count_capped() {
    let app = VulkanApp::new();
    let s = support_with(caps(ext(u32::MAX, u32::MAX), ext(10, 10), ext(300, 200), 3, 3));
    let idx = QueueFamilyIndices { graphics_family: Some(2), present_family: Some(2) };
    let p = app.plan_swap_chain(&s, &idx, 640, 480);
    assert_eq!(p.image_count, 3);
    assert_eq!(p.extent, ext(300, 200));
    assert_eq!(p.sharing_mode, SHARING_MODE_EXCLUSIVE);
    assert!(p.queue_family_indices.is_empty());
}

#[test]
fn record_swap_chain_takes_plan_format_and_extent() {
    let mut app = VulkanApp::new();
    let s = support_with(caps(ext(640, 480), ext(1, 1), ext(640, 480), 1, 0));
    let idx = QueueFamilyIndices { graphics_family: Some(0), present_family: Some(0) };
    let p = app.plan_swap_chain(&s, &idx, 0, 0);
    assert_eq!(p.image_count, 2);
    app.record_swap_chain(77, vec![5, 6], &p);
    assert_eq!(app.swap_chain, 77);
    assert_eq!(app.swap_chain_images, vec![5, 6]);
    assert_eq!(app.swap_chain_image_format, FORMAT_B8G8R8A8_SRGB);
    assert_eq!(app.swap_chain_extent, ext(640, 480));
}

#[test]
fn framebuffer_size_needed_only_for_free_extent() {
    let app = VulkanApp::new();
    let fixed = caps(ext(800, 600), ext(1, 1), ext(800, 600), 2, 0);
    assert!(!app.extent_needs_framebuffer_size(&fixed));
    let free = caps(ext(u32::MAX, u32::MAX), ext(1, 1), ext(800, 600), 2, 0);
    assert!(app.extent_needs_framebuffer_size(&free));
}
