use vulkan_triangle::{
    all_names_present, check_device_extensions_support, check_validation_layer_support,
    find_queue_families, is_device_suitable, pick_physical_device, unique_queue_families,
    DeviceCandidate, Extent2D, QueueFamilyIndices, QueueFamilyInfo, RenderError,
    SurfaceCapabilities, SurfaceFormat, SwapChainSupportDetails,
};

fn fam(queue_flags: u32, present_support: bool) -> QueueFamilyInfo {
    QueueFamilyInfo { queue_flags, present_support }
}

fn names(v: &[&str]) -> Vec<String> {
    v.iter().map(|s| s.to_string()).collect()
}

fn support(n_formats: usize, n_modes: usize) -> SwapChainSupportDetails {
    let mut s = SwapChainSupportDetails::default();
    for _ in 0..n_formats {
        s.formats.push(SurfaceFormat { format: 44, color_space: 0 });
    }
    for _ in 0..n_modes {
        s.present_modes.push(2);
    }
    s
}

fn good_candidate() -> DeviceCandidate {
    DeviceCandidate {
        queue_families: vec![fam(0x7, true)],
        extensions: names(&["VK_KHR_swapchain", "VK_KHR_maintenance1"]),
        swap_chain_support: Some(support(1, 1)),
    }
}

#[test]
fn queue_families_empty_list_finds_nothing() {
    let r = find_queue_families(&vec![]);
    assert_eq!(r, QueueFamilyIndices { graphics_family: None, present_family: None });
    assert!(!r.is_complete());
}

#[test]
fn queue_families_one_family_does_both() {
    let r = find_queue_families(&vec![fam(0x1 | 0x2, true), fam(0x1, true)]);
    assert_eq!(r.graphics_family, Some(0));
    assert_eq!(r.present_family, Some(0));
    assert!(r.is_complete());
}

#[test]
fn queue_families_split_roles() {
    let r = find_queue_families(&vec![fam(0x2, false), fam(0x1, false), fam(0x4, true), fam(0x1, true)]);
    assert_eq!(r.graphics_family, Some(1));
    assert_eq!(r.present_family, Some(2));
}

#[test]
fn queue_families_first_family_keeps_each_role() {
    // Two families can present before the first graphics family comes.
    let r = find_queue_families(&vec![fam(0x0, true), fam(0x0, true), fam(0x1, false)]);
    assert_eq!(r.present_family, Some(0));
    assert_eq!(r.graphics_family, Some(2));
    // Two graphics families before the first that can present.
    let r = find_queue_families(&vec![fam(0x1, false), fam(0x1, false), fam(0x0, true), fam(0x1, true)]);
    assert_eq!(r.graphics_family, Some(0));
    assert_eq!(r.present_family, Some(2));
}

#[test]
fn queue_families_incomplete_keeps_first() {
    let r = find_queue_families(&vec![fam(0x1, false), fam(0x3, false)]);
    assert_eq!(r.graphics_family, Some(0));
    assert_eq!(r.present_family, None);
    assert!(!r.is_complete());
}

#[test]
fn unique_families_same_and_different() {
    let same = QueueFamilyIndices { graphics_family: Some(3), present_family: Some(3) };
    assert_eq!(unique_queue_families(&same), vec![3]);
    let diff = QueueFamilyIndices { graphics_family: Some(0), present_family: Some(2) };
    assert_eq!(unique_queue_families(&diff), vec![0, 2]);
}

#[test]
fn names_present_checks_every_required_name() {
    assert!(all_names_present(&names(&[]), &names(&[])));
    assert!(all_names_present(&names(&["a", "b"]), &names(&["b", "c", "a"])));
    assert!(!all_names_present(&names(&["a", "d"]), &names(&["b", "c", "a"])));
    assert!(!all_names_present(&names(&["a"]), &names(&[])));
}

#[test]
fn validation_layer_support() {
    assert!(check_validation_layer_support(&names(&["VK_LAYER_LUNARG_api_dump", "VK_LAYER_KHRONOS_validation"])));
    assert!(!check_validation_layer_support(&names(&["VK_LAYER_LUNARG_api_dump"])));
    assert!(!check_validation_layer_support(&names(&[])));
}

#[test]
fn device_extension_support() {
    assert!(check_device_extensions_support(&names(&["VK_KHR_swapchain"])));
    assert!(!check_device_extensions_support(&names(&["VK_KHR_swapchain_mutable_format"])));
}

#[test]
fn device_suitability() {
    assert!(is_device_suitable(&good_candidate()));

    let mut no_present = good_candidate();
    no_present.queue_families = vec![fam(0x1, false)];
    assert!(!is_device_suitable(&no_present));

    let mut no_ext = good_candidate();
    no_ext.extensions = names(&["VK_KHR_maintenance1"]);
    assert!(!is_device_suitable(&no_ext));

    let mut no_formats = good_candidate();
    no_formats.swap_chain_support = Some(support(0, 1));
    assert!(!is_device_suitable(&no_formats));

    let mut no_modes = good_candidate();
    no_modes.swap_chain_support = Some(support(2, 0));
    assert!(!is_device_suitable(&no_modes));

    let mut not_asked = good_candidate();
    not_asked.swap_chain_support = None;
    assert!(!is_device_suitable(&not_asked));
}

#[test]
fn pick_device_errors_and_first_suitable() {
    assert_eq!(pick_physical_device(&vec![]), Err(RenderError::NoDevice));

    let mut bad = good_candidate();
    bad.extensions = names(&[]);
    assert_eq!(pick_physical_device(&vec![bad]), Err(RenderError::NoSuitableDevice));

    let mut bad = good_candidate();
    bad.queue_families = vec![];
    let r = pick_physical_device(&vec![bad, good_candidate(), good_candidate()]);
    assert_eq!(r, Ok(1));
}

#[test]
fn support_default_is_empty() {
    let s = SwapChainSupportDetails::default();
    assert!(s.formats.is_empty());
    assert!(s.present_modes.is_empty());
    let zero = Extent2D { width: 0, height: 0 };
    assert_eq!(
        s.capabilities,
        SurfaceCapabilities {
            min_image_count: 0,
            max_image_count: 0,
            current_extent: zero,
            min_image_extent: zero,
            max_image_extent: zero,
            max_image_array_layers: 0,
            supported_transforms: 0,
            current_transform: 0,
            supported_composite_alpha: 0,
            supported_usage_flags: 0,
        }
    );
}
