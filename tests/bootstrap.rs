use vulkan_bootstrap::names::{contains_all_names, contains_name, device_extension_names};
use vulkan_bootstrap::debug::{log_level_for_severity, LogLevel};
use vulkan_bootstrap::errors::{StartupError, SuitabilityError};
use vulkan_bootstrap::instance::plan_instance;
use vulkan_bootstrap::logical::{plan_logical_device, unique_queue_families};
use vulkan_bootstrap::physical::{check_physical_device, pick_physical_device, DeviceCandidate, DeviceType};
use vulkan_bootstrap::queues::QueueFamilyIndices;
use vulkan_bootstrap::swapchain::{
    get_swapchain_extent, get_swapchain_image_count, get_swapchain_present_mode,
    get_swapchain_sharing, get_swapchain_surface_format, negotiate_swapchain, Extent2D,
    SharingMode, SurfaceCapabilities, SurfaceFormat, SwapchainSupport, COLOR_SPACE_SRGB_NONLINEAR,
    EXTENT_UNDEFINED, FORMAT_B8G8R8_SRGB, PRESENT_MODE_FIFO, PRESENT_MODE_MAILBOX,
};
use vulkan_bootstrap::teardown::{Resource, ResourceKind, TeardownStack};
use vulkan_bootstrap::version::{needs_portability, ApiVersion};

fn caps(min: u32, max: u32, current: Extent2D) -> SurfaceCapabilities {
    SurfaceCapabilities {
        min_image_count: min,
        max_image_count: max,
        current_extent: current,
        min_image_extent: Extent2D { width: 64, height: 64 },
        max_image_extent: Extent2D { width: 4096, height: 4096 },
        current_transform: 1,
    }
}

fn undefined() -> Extent2D {
    Extent2D { width: EXTENT_UNDEFINED, height: EXTENT_UNDEFINED }
}

fn good_support() -> SwapchainSupport {
    SwapchainSupport {
        capabilities: caps(2, 0, undefined()),
        formats: vec![SurfaceFormat { format: 44, color_space: 0 }],
        present_modes: vec![PRESENT_MODE_FIFO],
    }
}

fn good_candidate(name: &str) -> DeviceCandidate {
    DeviceCandidate {
        name: name.to_string(),
        device_type: DeviceType::DiscreteGpu,
        geometry_shader: true,
        queue_family_flags: vec![1],
        present_support: vec![true],
        extensions: Some(vec!["VK_KHR_maintenance1".to_string(), "VK_KHR_swapchain".to_string()]),
        swapchain_support: Some(good_support()),
    }
}

#[test]
fn selection_picks_first_suitable_device() {
    let mut integrated = good_candidate("integrated");
    integrated.device_type = DeviceType::IntegratedGpu;
    let candidates = vec![integrated, good_candidate("first"), good_candidate("second")];
    assert_eq!(pick_physical_device(&candidates), Ok(1));
}

#[test]
fn selection_fails_when_no_device_is_suitable() {
    let mut cpu = good_candidate("cpu");
    cpu.device_type = DeviceType::Cpu;
    let mut no_gs = good_candidate("no geometry");
    no_gs.geometry_shader = false;
    assert_eq!(pick_physical_device(&vec![cpu, no_gs]), Err(StartupError::NoSuitableDevice));
    assert_eq!(pick_physical_device(&vec![]), Err(StartupError::NoSuitableDevice));
}

#[test]
fn suitability_checks_run_in_order() {
    let mut c = good_candidate("gpu");
    assert_eq!(check_physical_device(&c), Ok(()));
    c.swapchain_support = None;
    assert_eq!(check_physical_device(&c), Err(SuitabilityError::InsufficientSwapchainSupport));
    let mut s = good_support();
    s.present_modes = vec![];
    c.swapchain_support = Some(s);
    assert_eq!(check_physical_device(&c), Err(SuitabilityError::InsufficientSwapchainSupport));
    c.extensions = Some(vec!["VK_KHR_maintenance1".to_string()]);
    assert_eq!(check_physical_device(&c), Err(SuitabilityError::MissingExtensions));
    c.extensions = None;
    assert_eq!(check_physical_device(&c), Err(SuitabilityError::MissingExtensions));
    c.present_support = vec![false];
    assert_eq!(check_physical_device(&c), Err(SuitabilityError::MissingQueueFamilies));
    c.geometry_shader = false;
    assert_eq!(check_physical_device(&c), Err(SuitabilityError::MissingGeometryShader));
    c.device_type = DeviceType::VirtualGpu;
    assert_eq!(check_physical_device(&c), Err(SuitabilityError::NotDiscreteGpu));
}

#[test]
fn queue_resolution_takes_first_of_each_role() {
    let flags = vec![2, 4 | 2 | 1, 1];
    let present = vec![false, false, true, true];
    let q = QueueFamilyIndices::get(&flags, &present).unwrap();
    assert_eq!(q, QueueFamilyIndices { graphics: 1, present: 2 });
    let q = QueueFamilyIndices::get(&vec![1, 1], &vec![true, true]).unwrap();
    assert_eq!(q, QueueFamilyIndices { graphics: 0, present: 0 });
}

#[test]
fn queue_resolution_missing_roles() {
    assert_eq!(
        QueueFamilyIndices::get(&vec![2, 4], &vec![true]),
        Err(SuitabilityError::MissingQueueFamilies)
    );
    assert_eq!(
        QueueFamilyIndices::get(&vec![1], &vec![false]),
        Err(SuitabilityError::MissingQueueFamilies)
    );
    assert_eq!(QueueFamilyIndices::get(&vec![], &vec![]), Err(SuitabilityError::MissingQueueFamilies));
}

#[test]
fn image_count_clamp() {
    assert_eq!(get_swapchain_image_count(&caps(2, 0, undefined())), 3);
    assert_eq!(get_swapchain_image_count(&caps(2, 2, undefined())), 2);
    assert_eq!(get_swapchain_image_count(&caps(3, 5, undefined())), 4);
}

#[test]
fn sharing_mode_follows_queue_indices() {
    let (mode, list) = get_swapchain_sharing(&QueueFamilyIndices { graphics: 0, present: 0 });
    assert_eq!(mode, SharingMode::Exclusive);
    assert!(list.is_empty());
    let (mode, list) = get_swapchain_sharing(&QueueFamilyIndices { graphics: 0, present: 1 });
    assert_eq!(mode, SharingMode::Concurrent);
    assert_eq!(list, vec![0, 1]);
}

#[test]
fn extent_from_window_when_undefined() {
    let e = get_swapchain_extent(Extent2D { width: 1024, height: 768 }, &caps(2, 0, undefined()));
    assert_eq!(e, Extent2D { width: 1024, height: 768 });
}

#[test]
fn extent_clamped_per_axis() {
    let e = get_swapchain_extent(Extent2D { width: 5000, height: 10 }, &caps(2, 0, undefined()));
    assert_eq!(e, Extent2D { width: 4096, height: 64 });
}

#[test]
fn extent_defined_is_used_verbatim() {
    let current = Extent2D { width: 800, height: 600 };
    let e = get_swapchain_extent(Extent2D { width: 1024, height: 768 }, &caps(2, 0, current));
    assert_eq!(e, current);
}

#[test]
fn format_and_present_mode_fallback() {
    let formats = vec![
        SurfaceFormat { format: 44, color_space: 0 },
        SurfaceFormat { format: FORMAT_B8G8R8_SRGB, color_space: 5 },
    ];
    assert_eq!(get_swapchain_surface_format(&formats), formats[0]);
    assert_eq!(get_swapchain_present_mode(&vec![0, 3]), PRESENT_MODE_FIFO);
    assert_eq!(get_swapchain_present_mode(&vec![]), PRESENT_MODE_FIFO);
}

#[test]
fn format_and_present_mode_preferred() {
    let preferred = SurfaceFormat { format: FORMAT_B8G8R8_SRGB, color_space: COLOR_SPACE_SRGB_NONLINEAR };
    let formats = vec![SurfaceFormat { format: 44, color_space: 0 }, preferred];
    assert_eq!(get_swapchain_surface_format(&formats), preferred);
    assert_eq!(get_swapchain_present_mode(&vec![PRESENT_MODE_FIFO, PRESENT_MODE_MAILBOX]), PRESENT_MODE_MAILBOX);
}

#[test]
fn negotiation_combines_all_choices() {
    let support = SwapchainSupport {
        capabilities: caps(3, 5, undefined()),
        formats: vec![SurfaceFormat { format: 44, color_space: 0 }],
        present_modes: vec![PRESENT_MODE_MAILBOX],
    };
    let config = negotiate_swapchain(
        &support,
        &QueueFamilyIndices { graphics: 0, present: 1 },
        Extent2D { width: 1024, height: 768 },
    );
    assert_eq!(config.format, 44);
    assert_eq!(config.color_space, 0);
    assert_eq!(config.present_mode, PRESENT_MODE_MAILBOX);
    assert_eq!(config.extent, Extent2D { width: 1024, height: 768 });
    assert_eq!(config.image_count, 4);
    assert_eq!(config.sharing_mode, SharingMode::Concurrent);
    assert_eq!(config.queue_family_indices, vec![0, 1]);
    assert_eq!(config.pre_transform, 1);
}

#[test]
fn teardown_reverses_creation_order_once() {
    let mut stack = TeardownStack::new();
    let made = vec![
        Resource { kind: ResourceKind::Instance, handle: 1 },
        Resource { kind: ResourceKind::DebugMessenger, handle: 2 },
        Resource { kind: ResourceKind::Surface, handle: 3 },
        Resource { kind: ResourceKind::Device, handle: 4 },
        Resource { kind: ResourceKind::Swapchain, handle: 5 },
        Resource { kind: ResourceKind::ImageView, handle: 6 },
        Resource { kind: ResourceKind::ImageView, handle: 7 },
    ];
    for r in &made {
        assert!(stack.record(*r));
    }
    assert!(!stack.record(made[3]));
    assert_eq!(stack.len(), 7);
    let order = stack.teardown();
    let mut expected = made.clone();
    expected.reverse();
    assert_eq!(order, expected);
    assert_eq!(stack.len(), 0);
    assert!(stack.teardown().is_empty());
}

#[test]
fn device_queue_families_are_deduplicated() {
    assert_eq!(unique_queue_families(&QueueFamilyIndices { graphics: 2, present: 2 }), vec![2]);
    assert_eq!(unique_queue_families(&QueueFamilyIndices { graphics: 0, present: 3 }), vec![0, 3]);
}

#[test]
fn device_request_lists() {
    let r = plan_logical_device(&QueueFamilyIndices { graphics: 1, present: 1 }, true, false);
    assert_eq!(r.queue_families, vec![1]);
    assert_eq!(r.layers, vec!["VK_LAYER_KHRONOS_validation".to_string()]);
    assert_eq!(r.extensions, vec!["VK_KHR_swapchain".to_string()]);
    assert!(r.geometry_shader);
    let r = plan_logical_device(&QueueFamilyIndices { graphics: 0, present: 1 }, false, true);
    assert_eq!(r.queue_families, vec![0, 1]);
    assert!(r.layers.is_empty());
    assert_eq!(
        r.extensions,
        vec!["VK_KHR_swapchain".to_string(), "VK_KHR_portability_subset".to_string()]
    );
}

#[test]
fn instance_request_with_validation() {
    let platform = vec!["VK_KHR_surface".to_string(), "VK_KHR_xlib_surface".to_string()];
    let layers = vec!["VK_LAYER_LUNARG_api_dump".to_string(), "VK_LAYER_KHRONOS_validation".to_string()];
    let r = plan_instance(&platform, &layers, true, false).unwrap();
    assert_eq!(r.layers, vec!["VK_LAYER_KHRONOS_validation".to_string()]);
    assert_eq!(
        r.extensions,
        vec![
            "VK_KHR_surface".to_string(),
            "VK_KHR_xlib_surface".to_string(),
            "VK_EXT_debug_utils".to_string()
        ]
    );
    assert!(r.debug_messenger);
    assert!(!r.enumerate_portability);
}

#[test]
fn instance_request_portability_without_validation() {
    let platform = vec!["VK_KHR_surface".to_string()];
    let r = plan_instance(&platform, &vec![], false, true).unwrap();
    assert!(r.layers.is_empty());
    assert_eq!(
        r.extensions,
        vec![
            "VK_KHR_surface".to_string(),
            "VK_KHR_get_physical_device_properties2".to_string(),
            "VK_KHR_portability_enumeration".to_string()
        ]
    );
    assert!(r.enumerate_portability);
    assert!(!r.debug_messenger);
}

#[test]
fn instance_request_validation_unavailable() {
    let platform = vec!["VK_KHR_surface".to_string()];
    let layers = vec!["VK_LAYER_LUNARG_api_dump".to_string()];
    assert_eq!(
        plan_instance(&platform, &layers, true, false).unwrap_err(),
        StartupError::ValidationUnavailable
    );
}

#[test]
fn severity_maps_to_log_level() {
    assert_eq!(log_level_for_severity(0x1000), LogLevel::Error);
    assert_eq!(log_level_for_severity(0x100), LogLevel::Warn);
    assert_eq!(log_level_for_severity(0x10), LogLevel::Debug);
    assert_eq!(log_level_for_severity(0x1), LogLevel::Trace);
    assert_eq!(log_level_for_severity(0x1111), LogLevel::Error);
}

#[test]
fn portability_needs_macos_and_recent_loader() {
    let v = |major, minor, patch| ApiVersion { major, minor, patch };
    assert!(needs_portability(true, &v(1, 3, 216)));
    assert!(needs_portability(true, &v(1, 4, 0)));
    assert!(!needs_portability(true, &v(1, 3, 215)));
    assert!(!needs_portability(false, &v(1, 4, 0)));
}

#[test]
fn rejection_messages() {
    assert_eq!(SuitabilityError::MissingExtensions.message(), "Missing required device extensions.");
    assert_eq!(SuitabilityError::NotDiscreteGpu.message(), "Only discrete GPU are supported!");
}

#[test]
fn name_lists_membership() {
    let available = vec!["VK_KHR_swapchain".to_string(), "VK_EXT_robustness2".to_string()];
    assert!(contains_name(&available, &"VK_EXT_robustness2".to_string()));
    assert!(!contains_name(&available, &"VK_KHR_swapchain2".to_string()));
    assert!(!contains_name(&vec![], &"VK_KHR_swapchain".to_string()));
    assert!(contains_all_names(&available, &device_extension_names()));
    assert!(contains_all_names(&vec![], &vec![]));
    assert!(!contains_all_names(&vec!["VK_EXT_robustness2".to_string()], &device_extension_names()));
}

#[test]
fn version_comparison_is_lexicographic() {
    let v = |major, minor, patch| ApiVersion { major, minor, patch };
    assert!(v(2, 0, 0).is_at_least(&v(1, 9, 999)));
    assert!(v(1, 3, 216).is_at_least(&v(1, 3, 216)));
    assert!(!v(1, 2, 300).is_at_least(&v(1, 3, 0)));
    assert!(!v(0, 99, 99).is_at_least(&v(1, 0, 0)));
}
