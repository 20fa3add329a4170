use needle_core::device::query_family::QueryFamilyIndices;
use needle_core::device::{
    device_teardown_order, find_memory_type, find_queue_families, find_supported_format,
    is_device_suitable, pick_physical_device, supports_required_names, AcceleratorProfile,
    FormatProperties, QueueFamilyInfo, TeardownStep, FORMAT_FEATURE_DEPTH_STENCIL_ATTACHMENT,
    QUEUE_GRAPHICS_BIT, TILING_LINEAR, TILING_OPTIMAL,
};
use needle_core::error::NeedleError;
use needle_core::surface::{
    Extent2D, SurfaceCapabilities, SurfaceFormat, SwapchainSupportDetails, ADAPTIVE_EXTENT,
    COLOR_SPACE_SRGB_NONLINEAR, FORMAT_B8G8R8A8_SRGB, FORMAT_D24_UNORM_S8_UINT, FORMAT_D32_SFLOAT,
    FORMAT_D32_SFLOAT_S8_UINT, FORMAT_R8G8B8A8_SRGB, PRESENT_MODE_FIFO, PRESENT_MODE_IMMEDIATE,
    PRESENT_MODE_MAILBOX,
};
use needle_core::swapchain::{
    choose_image_count, choose_swap_extent, choose_swap_present_mode, choose_swap_surface_format,
    depth_format_candidates, find_depth_format, plan_swapchain, render_pass_plan,
    swapchain_teardown_order, LoadOp, StoreOp, Swapchain, SwapchainTeardownStep, FRAMES_IN_FLIGHT,
};

fn caps(min: u32, max: u32, current: (u32, u32)) -> SurfaceCapabilities {
    SurfaceCapabilities {
        min_image_count: min,
        max_image_count: max,
        current_extent: Extent2D { width: current.0, height: current.1 },
        min_image_extent: Extent2D { width: 100, height: 100 },
        max_image_extent: Extent2D { width: 1600, height: 900 },
    }
}

fn srgb() -> SurfaceFormat {
    SurfaceFormat { format: FORMAT_R8G8B8A8_SRGB, color_space: COLOR_SPACE_SRGB_NONLINEAR }
}

fn linear_rgba() -> SurfaceFormat {
    SurfaceFormat { format: 37, color_space: COLOR_SPACE_SRGB_NONLINEAR }
}

#[test]
fn image_count_unbounded_is_min_plus_one() {
    let c = caps(2, 0, (800, 600));
    assert_eq!(choose_image_count(&c), 3);
    let c = caps(7, 0, (800, 600));
    assert_eq!(choose_image_count(&c), 8);
}

#[test]
fn image_count_capped_at_max() {
    let c = caps(3, 3, (800, 600));
    assert_eq!(choose_image_count(&c), 3);
    let c = caps(5, 4, (800, 600));
    assert_eq!(choose_image_count(&c), 4);
    // max large enough not to bind
    let c = caps(2, 8, (800, 600));
    assert_eq!(choose_image_count(&c), 3);
}

#[test]
fn surface_format_prefers_srgb() {
    let formats = vec![linear_rgba(), srgb()];
    assert_eq!(choose_swap_surface_format(&formats).unwrap(), srgb());
}

#[test]
fn surface_format_falls_back_to_first() {
    let other = SurfaceFormat { format: FORMAT_B8G8R8A8_SRGB, color_space: 7 };
    let formats = vec![other, linear_rgba()];
    assert_eq!(choose_swap_surface_format(&formats).unwrap(), other);
}

#[test]
fn surface_format_empty_list_fails() {
    let formats: Vec<SurfaceFormat> = vec![];
    assert!(matches!(
        choose_swap_surface_format(&formats),
        Err(NeedleError::NoSupportedFormat)
    ));
}

#[test]
fn present_mode_prefers_mailbox() {
    let modes = vec![PRESENT_MODE_FIFO, PRESENT_MODE_MAILBOX];
    assert_eq!(choose_swap_present_mode(&modes), PRESENT_MODE_MAILBOX);
}

#[test]
fn present_mode_falls_back_to_fifo() {
    let modes = vec![PRESENT_MODE_IMMEDIATE, PRESENT_MODE_FIFO];
    assert_eq!(choose_swap_present_mode(&modes), PRESENT_MODE_FIFO);
    let empty: Vec<u32> = vec![];
    assert_eq!(choose_swap_present_mode(&empty), PRESENT_MODE_FIFO);
}

#[test]
fn extent_uses_fixed_current_extent() {
    let c = caps(2, 0, (800, 600));
    let window = Extent2D { width: 5000, height: 5000 };
    assert_eq!(choose_swap_extent(&window, &c), Extent2D { width: 800, height: 600 });
}

#[test]
fn extent_clamps_when_adaptive() {
    let c = caps(2, 0, (ADAPTIVE_EXTENT, 600));
    let window = Extent2D { width: 2000, height: 50 };
    assert_eq!(choose_swap_extent(&window, &c), Extent2D { width: 1600, height: 100 });
    let window = Extent2D { width: 640, height: 480 };
    assert_eq!(choose_swap_extent(&window, &c), Extent2D { width: 640, height: 480 });
}

// Scenario: capabilities {min=2, max=0}, formats [RGBA8-linear, RGBA8-sRGB],
// present modes [FIFO] -> three images, the sRGB format, FIFO.
#[test]
fn plan_full_scenario() {
    let support = SwapchainSupportDetails {
        capabilities: caps(2, 0, (800, 600)),
        formats: vec![linear_rgba(), srgb()],
        present_modes: vec![PRESENT_MODE_FIFO],
    };
    let indices = QueryFamilyIndices { graphics_family: Some(0), present_family: Some(0) };
    let window = Extent2D { width: 800, height: 600 };
    let plan = plan_swapchain(&support, &window, &indices, FORMAT_D32_SFLOAT).unwrap();
    assert_eq!(plan.image_count, 3);
    assert_eq!(plan.surface_format, srgb());
    assert_eq!(plan.present_mode, PRESENT_MODE_FIFO);
    assert_eq!(plan.extent, Extent2D { width: 800, height: 600 });
    assert_eq!(plan.depth_format, FORMAT_D32_SFLOAT);
    assert!(!plan.sharing_concurrent);
}

#[test]
fn plan_concurrent_when_families_differ() {
    let support = SwapchainSupportDetails {
        capabilities: caps(2, 0, (800, 600)),
        formats: vec![srgb()],
        present_modes: vec![PRESENT_MODE_FIFO],
    };
    let indices = QueryFamilyIndices { graphics_family: Some(0), present_family: Some(1) };
    let window = Extent2D { width: 800, height: 600 };
    let plan = plan_swapchain(&support, &window, &indices, FORMAT_D32_SFLOAT).unwrap();
    assert!(plan.sharing_concurrent);
    assert_eq!(plan.graphics_family, 0);
    assert_eq!(plan.present_family, 1);
}

#[test]
fn plan_rejects_incomplete_queue_families() {
    let support = SwapchainSupportDetails {
        capabilities: caps(2, 0, (800, 600)),
        formats: vec![srgb()],
        present_modes: vec![PRESENT_MODE_FIFO],
    };
    let indices = QueryFamilyIndices { graphics_family: Some(0), present_family: None };
    let window = Extent2D { width: 800, height: 600 };
    assert!(matches!(
        plan_swapchain(&support, &window, &indices, FORMAT_D32_SFLOAT),
        Err(NeedleError::QueueFamilyIncomplete)
    ));
}

#[test]
fn depth_candidates_order() {
    assert_eq!(
        depth_format_candidates(),
        vec![FORMAT_D32_SFLOAT, FORMAT_D32_SFLOAT_S8_UINT, FORMAT_D24_UNORM_S8_UINT]
    );
}

#[test]
fn depth_format_takes_first_supported() {
    let candidates = vec![
        FormatProperties {
            format: FORMAT_D32_SFLOAT,
            linear_tiling_features: FORMAT_FEATURE_DEPTH_STENCIL_ATTACHMENT,
            optimal_tiling_features: 0,
        },
        FormatProperties {
            format: FORMAT_D32_SFLOAT_S8_UINT,
            linear_tiling_features: 0,
            optimal_tiling_features: FORMAT_FEATURE_DEPTH_STENCIL_ATTACHMENT,
        },
    ];
    // The first candidate only supports the feature under linear layout, so
    // the tiled-layout lookup takes the second.
    assert_eq!(find_depth_format(&candidates).unwrap(), FORMAT_D32_SFLOAT_S8_UINT);
}

#[test]
fn supported_format_respects_tiling_and_features() {
    let candidates = vec![
        FormatProperties { format: 10, linear_tiling_features: 0x3, optimal_tiling_features: 0x1 },
        FormatProperties { format: 11, linear_tiling_features: 0x1, optimal_tiling_features: 0x3 },
    ];
    assert_eq!(find_supported_format(&candidates, TILING_LINEAR, 0x2).unwrap(), 10);
    assert_eq!(find_supported_format(&candidates, TILING_OPTIMAL, 0x2).unwrap(), 11);
    assert!(matches!(
        find_supported_format(&candidates, 5, 0x1),
        Err(NeedleError::NoSupportedFormat)
    ));
    assert!(matches!(
        find_supported_format(&candidates, TILING_OPTIMAL, 0x4),
        Err(NeedleError::NoSupportedFormat)
    ));
}

#[test]
fn memory_type_first_match_wins() {
    // type 0 excluded by the filter, type 1 lacks a property, type 2 fits.
    let flags = vec![0x7, 0x1, 0x3, 0x3];
    assert_eq!(find_memory_type(0b1110, 0x3, &flags).unwrap(), 2);
    assert!(matches!(
        find_memory_type(0b0010, 0x2, &flags),
        Err(NeedleError::AllocationFailure)
    ));
}

#[test]
fn queue_families_selected_by_capability() {
    let families = vec![
        QueueFamilyInfo { queue_count: 1, queue_flags: QUEUE_GRAPHICS_BIT, supports_present: false },
        QueueFamilyInfo { queue_count: 1, queue_flags: 0, supports_present: true },
    ];
    let indices = find_queue_families(&families);
    assert_eq!(indices.graphics_family, Some(0));
    assert_eq!(indices.present_family, Some(1));
    assert!(indices.is_complete());
}

#[test]
fn queue_families_scan_stops_when_complete() {
    let families = vec![
        QueueFamilyInfo { queue_count: 1, queue_flags: QUEUE_GRAPHICS_BIT, supports_present: true },
        QueueFamilyInfo { queue_count: 1, queue_flags: QUEUE_GRAPHICS_BIT, supports_present: true },
    ];
    let indices = find_queue_families(&families);
    assert_eq!(indices.graphics_family, Some(0));
    assert_eq!(indices.present_family, Some(0));
}

#[test]
fn queue_families_ignore_empty_families() {
    let families = vec![
        QueueFamilyInfo { queue_count: 0, queue_flags: QUEUE_GRAPHICS_BIT, supports_present: true },
    ];
    let indices = find_queue_families(&families);
    assert_eq!(indices.graphics_family, None);
    assert_eq!(indices.present_family, None);
    assert!(!indices.is_complete());
}

#[test]
fn unique_families_merge_equal_indices() {
    let indices = QueryFamilyIndices { graphics_family: Some(3), present_family: Some(3) };
    let set = indices.unique_queue_families().unwrap();
    assert_eq!(set.len(), 1);
    assert!(set.contains(&3));

    let indices = QueryFamilyIndices { graphics_family: Some(1), present_family: Some(2) };
    let set = indices.unique_queue_families().unwrap();
    assert_eq!(set.len(), 2);

    let indices = QueryFamilyIndices::none();
    assert!(matches!(
        indices.unique_queue_families(),
        Err(NeedleError::QueueFamilyIncomplete)
    ));
}

fn profile(suitable: bool) -> AcceleratorProfile {
    AcceleratorProfile {
        queue_families: vec![QueueFamilyInfo {
            queue_count: 1,
            queue_flags: QUEUE_GRAPHICS_BIT,
            supports_present: true,
        }],
        supports_required_extensions: suitable,
        surface_format_count: 1,
        present_mode_count: 1,
        supports_sampler_anisotropy: true,
    }
}

#[test]
fn pick_first_suitable_accelerator() {
    let profiles = vec![profile(false), profile(true), profile(true)];
    assert_eq!(pick_physical_device(&profiles).unwrap(), 1);
    assert!(is_device_suitable(&profiles[1]));
    assert!(!is_device_suitable(&profiles[0]));
}

#[test]
fn pick_fails_without_suitable_accelerator() {
    let profiles = vec![profile(false)];
    assert!(matches!(
        pick_physical_device(&profiles),
        Err(NeedleError::NoSuitableAccelerator)
    ));
    let none: Vec<AcceleratorProfile> = vec![];
    assert!(matches!(
        pick_physical_device(&none),
        Err(NeedleError::NoSuitableAccelerator)
    ));
}

#[test]
fn required_names_all_present() {
    let required = vec![b"VK_LAYER_KHRONOS_validation".to_vec()];
    let available = vec![b"VK_LAYER_other".to_vec(), b"VK_LAYER_KHRONOS_validation".to_vec()];
    assert!(supports_required_names(&required, &available));
    let missing = vec![b"VK_LAYER_other".to_vec()];
    assert!(!supports_required_names(&required, &missing));
    let empty: Vec<Vec<u8>> = vec![];
    assert!(supports_required_names(&empty, &missing));
}

#[test]
fn teardown_orders_are_fixed() {
    assert_eq!(
        device_teardown_order(true),
        vec![
            TeardownStep::CommandPool,
            TeardownStep::Device,
            TeardownStep::Surface,
            TeardownStep::DebugMessenger,
            TeardownStep::Instance,
        ]
    );
    assert_eq!(
        device_teardown_order(false),
        vec![
            TeardownStep::CommandPool,
            TeardownStep::Device,
            TeardownStep::Surface,
            TeardownStep::Instance,
        ]
    );
    assert_eq!(
        swapchain_teardown_order(),
        vec![
            SwapchainTeardownStep::ImageViews,
            SwapchainTeardownStep::SwapchainHandle,
            SwapchainTeardownStep::DepthResources,
            SwapchainTeardownStep::Framebuffers,
            SwapchainTeardownStep::RenderPass,
            SwapchainTeardownStep::SyncObjects,
        ]
    );
}

#[test]
fn render_pass_shape() {
    let plan = render_pass_plan(FORMAT_R8G8B8A8_SRGB, FORMAT_D32_SFLOAT);
    assert_eq!(plan.color.format, FORMAT_R8G8B8A8_SRGB);
    assert_eq!(plan.color.load_op, LoadOp::Clear);
    assert_eq!(plan.color.store_op, StoreOp::Store);
    assert_eq!(plan.depth.format, FORMAT_D32_SFLOAT);
    assert_eq!(plan.depth.load_op, LoadOp::Clear);
    // Depth contents are discarded once the pass ends.
    assert_eq!(plan.depth.store_op, StoreOp::DontCare);
    assert!(plan.waits_color_attachment_output);
    assert!(plan.waits_early_fragment_tests);
}

#[test]
fn null_swapchain_is_empty() {
    let chain = Swapchain::null();
    assert_eq!(chain.image_count, 0);
    assert_eq!(chain.slot_fence_signaled.len(), 0);
    assert_eq!(chain.images_in_flight.len(), 0);
    assert_eq!(chain.current_frame, 0);
}

#[test]
fn compare_swap_formats_checks_both_formats() {
    let support = SwapchainSupportDetails {
        capabilities: caps(2, 0, (800, 600)),
        formats: vec![srgb()],
        present_modes: vec![PRESENT_MODE_FIFO],
    };
    let indices = QueryFamilyIndices { graphics_family: Some(0), present_family: Some(0) };
    let window = Extent2D { width: 800, height: 600 };
    let plan = plan_swapchain(&support, &window, &indices, FORMAT_D32_SFLOAT).unwrap();
    let a = Swapchain::new(&plan, &window, 3);
    let b = Swapchain::new(&plan, &window, 3);
    assert!(a.compare_swap_formats(&b));
    let plan_other_depth =
        plan_swapchain(&support, &window, &indices, FORMAT_D24_UNORM_S8_UINT).unwrap();
    let c = Swapchain::new(&plan_other_depth, &window, 3);
    assert!(!a.compare_swap_formats(&c));
}

#[test]
fn new_swapchain_fences_start_signaled() {
    let support = SwapchainSupportDetails {
        capabilities: caps(2, 0, (800, 600)),
        formats: vec![srgb()],
        present_modes: vec![PRESENT_MODE_FIFO],
    };
    let indices = QueryFamilyIndices { graphics_family: Some(0), present_family: Some(0) };
    let window = Extent2D { width: 800, height: 600 };
    let plan = plan_swapchain(&support, &window, &indices, FORMAT_D32_SFLOAT).unwrap();
    let chain = Swapchain::new(&plan, &window, 3);
    assert_eq!(chain.slot_fence_signaled.len(), FRAMES_IN_FLIGHT);
    assert!(chain.slot_fence_signaled.iter().all(|s| *s));
    assert!(chain.images_in_flight.iter().all(|f| f.is_none()));
}
