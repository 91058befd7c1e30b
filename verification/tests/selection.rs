use oito_caneco::host::{
    PhysicalDeviceInfo, QueueFamily, SurfaceCaps, SurfaceFormat, SwapChainSupportDetails, Extent,
};
use oito_caneco::queue_families::find_queue_families;
use oito_caneco::support::{
    check_device_extension_support, check_validation_layer_support, contains_name,
    is_device_suitable, pick_physical_device,
};

fn names(list: &[&str]) -> Vec<String> {
    list.iter().map(|s| s.to_string()).collect()
}

fn plain_caps() -> SurfaceCaps {
    SurfaceCaps {
        min_image_count: 2,
        max_image_count: 8,
        current_extent: Extent { width: 640, height: 480 },
        min_image_extent: Extent { width: 1, height: 1 },
        max_image_extent: Extent { width: 4096, height: 4096 },
        current_transform: 1,
    }
}

fn good_device() -> PhysicalDeviceInfo {
    PhysicalDeviceInfo {
        queue_families: vec![QueueFamily { supports_graphics: true, supports_present: true }],
        extensions: names(&["VK_KHR_swapchain", "VK_KHR_maintenance1"]),
        swap_chain: SwapChainSupportDetails {
            capabilities: plain_caps(),
            formats: vec![SurfaceFormat { format: 50, color_space: 0 }],
            present_modes: vec![2],
        },
    }
}

#[test]
fn validation_layer_present_passes() {
    let requested = names(&["VK_LAYER_KHRONOS_validation"]);
    let available = names(&["VK_LAYER_MESA_overlay", "VK_LAYER_KHRONOS_validation"]);
    assert!(check_validation_layer_support(&requested, &available));
}

#[test]
fn validation_layer_missing_fails() {
    let requested = names(&["VK_LAYER_KHRONOS_validation"]);
    let available = names(&["VK_LAYER_MESA_overlay"]);
    assert!(!check_validation_layer_support(&requested, &available));
}

#[test]
fn empty_layer_request_always_passes() {
    let requested: Vec<String> = Vec::new();
    let available: Vec<String> = Vec::new();
    assert!(check_validation_layer_support(&requested, &available));
}

#[test]
fn layer_match_is_exact() {
    let requested = names(&["VK_LAYER_KHRONOS_validation"]);
    let available = names(&["VK_LAYER_KHRONOS_validatio", "VK_LAYER_KHRONOS_validation2"]);
    assert!(!check_validation_layer_support(&requested, &available));
}

#[test]
fn contains_name_finds_and_misses() {
    let list = names(&["a", "b"]);
    assert!(contains_name(&list, &"b".to_string()));
    assert!(!contains_name(&list, &"c".to_string()));
}

#[test]
fn extension_support_is_order_independent() {
    let required = names(&["VK_KHR_swapchain"]);
    let reported = names(&["VK_KHR_maintenance1", "VK_KHR_swapchain"]);
    assert!(check_device_extension_support(&required, &reported));
    assert!(!check_device_extension_support(&required, &names(&["VK_KHR_maintenance1"])));
}

#[test]
fn suitable_device_accepted() {
    let required = names(&["VK_KHR_swapchain"]);
    assert!(is_device_suitable(&good_device(), &required));
}

#[test]
fn device_missing_graphics_family_not_suitable() {
    let required = names(&["VK_KHR_swapchain"]);
    let mut device = good_device();
    device.queue_families =
        vec![QueueFamily { supports_graphics: false, supports_present: true }];
    assert!(!is_device_suitable(&device, &required));
}

#[test]
fn device_missing_present_family_not_suitable() {
    let required = names(&["VK_KHR_swapchain"]);
    let mut device = good_device();
    device.queue_families =
        vec![QueueFamily { supports_graphics: true, supports_present: false }];
    assert!(!is_device_suitable(&device, &required));
}

#[test]
fn device_missing_extension_not_suitable() {
    let required = names(&["VK_KHR_swapchain"]);
    let mut device = good_device();
    device.extensions = names(&["VK_KHR_maintenance1"]);
    assert!(!is_device_suitable(&device, &required));
}

#[test]
fn device_with_no_formats_not_suitable() {
    let required = names(&["VK_KHR_swapchain"]);
    let mut device = good_device();
    device.swap_chain.formats = Vec::new();
    assert!(!is_device_suitable(&device, &required));
}

#[test]
fn device_with_no_present_modes_not_suitable() {
    let required = names(&["VK_KHR_swapchain"]);
    let mut device = good_device();
    device.swap_chain.present_modes = Vec::new();
    assert!(!is_device_suitable(&device, &required));
}

#[test]
fn first_suitable_device_wins() {
    let required = names(&["VK_KHR_swapchain"]);
    let mut unsuitable = good_device();
    unsuitable.swap_chain.formats = Vec::new();
    let devices = vec![unsuitable, good_device(), good_device()];
    assert_eq!(pick_physical_device(&devices, &required), Some(1));
}

#[test]
fn no_device_picked_when_none_suitable() {
    let required = names(&["VK_KHR_swapchain"]);
    let mut unsuitable = good_device();
    unsuitable.extensions = Vec::new();
    let devices = vec![unsuitable];
    assert_eq!(pick_physical_device(&devices, &required), None);
}

#[test]
fn no_device_picked_from_empty_enumeration() {
    let required = names(&["VK_KHR_swapchain"]);
    let devices: Vec<PhysicalDeviceInfo> = Vec::new();
    assert_eq!(pick_physical_device(&devices, &required), None);
}

#[test]
fn queue_family_scan_splits_roles() {
    let families = vec![
        QueueFamily { supports_graphics: true, supports_present: false },
        QueueFamily { supports_graphics: false, supports_present: true },
    ];
    let indices = find_queue_families(&families);
    assert_eq!(indices.graphics_family, Some(0));
    assert_eq!(indices.present_family, Some(1));
    assert!(indices.is_complete());
}

#[test]
fn queue_family_scan_overwrites_until_complete() {
    // The second family supports both roles, so the scan overwrites the
    // graphics role it found at index zero before stopping.
    let families = vec![
        QueueFamily { supports_graphics: true, supports_present: false },
        QueueFamily { supports_graphics: true, supports_present: true },
        QueueFamily { supports_graphics: false, supports_present: true },
    ];
    let indices = find_queue_families(&families);
    assert_eq!(indices.graphics_family, Some(1));
    assert_eq!(indices.present_family, Some(1));
}

#[test]
fn queue_family_scan_reports_incomplete() {
    let families = vec![QueueFamily { supports_graphics: true, supports_present: false }];
    let indices = find_queue_families(&families);
    assert_eq!(indices.graphics_family, Some(0));
    assert_eq!(indices.present_family, None);
    assert!(!indices.is_complete());
}
