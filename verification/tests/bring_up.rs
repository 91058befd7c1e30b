use oito_caneco::bringup::{plan_bring_up, BringUpError};
use oito_caneco::plans::{classify_messenger_setup, MessengerSetup};
use oito_caneco::host::{
    Extent, HostSnapshot, PhysicalDeviceInfo, QueueFamily, SurfaceCaps, SurfaceFormat,
    SwapChainSupportDetails,
};
use oito_caneco::vk;

fn strs(list: &[&str]) -> Vec<String> {
    list.iter().map(|s| s.to_string()).collect()
}

fn caps() -> SurfaceCaps {
    SurfaceCaps {
        min_image_count: 2,
        max_image_count: 8,
        current_extent: Extent { width: 640, height: 480 },
        min_image_extent: Extent { width: 1, height: 1 },
        max_image_extent: Extent { width: 4096, height: 4096 },
        current_transform: 1,
    }
}

fn suitable_device() -> PhysicalDeviceInfo {
    PhysicalDeviceInfo {
        queue_families: vec![QueueFamily { supports_graphics: true, supports_present: true }],
        extensions: strs(&["VK_KHR_swapchain"]),
        swap_chain: SwapChainSupportDetails {
            capabilities: caps(),
            formats: vec![
                SurfaceFormat { format: 44, color_space: 0 },
                SurfaceFormat {
                    format: vk::VK_FORMAT_B8G8R8A8_SRGB,
                    color_space: vk::VK_COLOR_SPACE_SRGB_NONLINEAR_KHR,
                },
            ],
            present_modes: vec![vk::VK_PRESENT_MODE_FIFO_KHR],
        },
    }
}

fn host(validation: bool, devices: Vec<PhysicalDeviceInfo>) -> HostSnapshot {
    HostSnapshot {
        validation_enabled: validation,
        available_layers: strs(&["VK_LAYER_KHRONOS_validation"]),
        window_extensions: strs(&["VK_KHR_surface", "VK_KHR_xcb_surface"]),
        devices,
        framebuffer_extent: Extent { width: 800, height: 600 },
    }
}

#[test]
fn missing_layer_refuses_before_any_plan() {
    let mut snapshot = host(true, vec![suitable_device()]);
    snapshot.available_layers = strs(&["VK_LAYER_MESA_overlay"]);
    let refused = plan_bring_up(
        &strs(&["VK_LAYER_KHRONOS_validation"]),
        &strs(&["VK_KHR_swapchain"]),
        &snapshot,
    );
    assert_eq!(refused, Err(BringUpError::ValidationLayersUnavailable));
}

#[test]
fn validation_off_ignores_missing_layers() {
    let mut snapshot = host(false, vec![suitable_device()]);
    snapshot.available_layers = Vec::new();
    let planned = plan_bring_up(
        &strs(&["VK_LAYER_KHRONOS_validation"]),
        &strs(&["VK_KHR_swapchain"]),
        &snapshot,
    );
    assert!(planned.is_ok());
}

#[test]
fn no_suitable_device_is_refused() {
    let mut device = suitable_device();
    device.swap_chain.present_modes = Vec::new();
    let snapshot = host(false, vec![device]);
    let refused = plan_bring_up(&Vec::new(), &strs(&["VK_KHR_swapchain"]), &snapshot);
    assert_eq!(refused, Err(BringUpError::NoSuitableDevice));
}

#[test]
fn zero_layers_and_one_suitable_device_reach_a_plan() {
    let snapshot = host(false, vec![suitable_device()]);
    let plan = plan_bring_up(&Vec::new(), &strs(&["VK_KHR_swapchain"]), &snapshot)
        .expect("bring-up must succeed");
    assert_eq!(plan.device_index, 0);
    assert_eq!(plan.graphics_family, 0);
    assert_eq!(plan.present_family, 0);
    assert!(!plan.validation_enabled);
    assert_eq!(plan.swapchain.min_image_count, 3);
    assert_eq!(plan.swapchain.image_format, vk::VK_FORMAT_B8G8R8A8_SRGB);
    assert_eq!(plan.swapchain.image_color_space, vk::VK_COLOR_SPACE_SRGB_NONLINEAR_KHR);
    assert_eq!(plan.swapchain.present_mode, vk::VK_PRESENT_MODE_FIFO_KHR);
    assert_eq!(plan.swapchain.image_extent, Extent { width: 640, height: 480 });
    assert_eq!(plan.swapchain.sharing.mode, vk::VK_SHARING_MODE_EXCLUSIVE);
    assert!(plan.swapchain.sharing.family_indices.is_empty());
    assert_eq!(plan.device.queue_create_infos.len(), 1);
    assert_eq!(plan.render_pass.attachment_format, vk::VK_FORMAT_B8G8R8A8_SRGB);
    assert_eq!(plan.pipeline.viewport_extent, Extent { width: 640, height: 480 });
    assert_eq!(plan.command_pool.queue_family_index, 0);
    assert_eq!(plan.command_buffer.count, 1);
    assert!(plan.sync.fence_start_signaled);
}

#[test]
fn unsuitable_devices_are_skipped_in_order() {
    let mut first = suitable_device();
    first.extensions = Vec::new();
    let snapshot = host(false, vec![first, suitable_device()]);
    let plan = plan_bring_up(&Vec::new(), &strs(&["VK_KHR_swapchain"]), &snapshot)
        .expect("bring-up must succeed");
    assert_eq!(plan.device_index, 1);
}

#[test]
fn instance_plan_names_and_versions() {
    let snapshot = host(true, vec![suitable_device()]);
    let plan = plan_bring_up(
        &strs(&["VK_LAYER_KHRONOS_validation"]),
        &strs(&["VK_KHR_swapchain"]),
        &snapshot,
    )
    .expect("bring-up must succeed");
    let instance = &plan.instance;
    assert_eq!(instance.app_name, "Hello Triangle");
    assert_eq!(instance.engine_name, "Oito-Caneco");
    assert_eq!(instance.application_version, 1 << 22);
    assert_eq!(instance.engine_version, 1 << 22);
    assert_eq!(instance.api_version, 1 << 22);
    assert_eq!(
        instance.extensions,
        strs(&["VK_KHR_surface", "VK_KHR_xcb_surface", "VK_EXT_debug_utils"]),
    );
    assert_eq!(instance.layers, strs(&["VK_LAYER_KHRONOS_validation"]));
    let messenger = instance.debug_messenger.expect("diagnostics are on");
    assert_eq!(messenger.message_severity, 0x1101);
    assert_eq!(messenger.message_type, 0x7);
}

#[test]
fn instance_plan_without_validation_has_no_messenger() {
    let snapshot = host(false, vec![suitable_device()]);
    let plan = plan_bring_up(&Vec::new(), &strs(&["VK_KHR_swapchain"]), &snapshot)
        .expect("bring-up must succeed");
    assert_eq!(plan.instance.layers, Vec::<String>::new());
    assert_eq!(
        plan.instance.extensions,
        strs(&["VK_KHR_surface", "VK_KHR_xcb_surface"]),
    );
    assert!(plan.instance.debug_messenger.is_none());
}

#[test]
fn messenger_setup_tolerates_only_the_absent_extension() {
    assert_eq!(classify_messenger_setup(false, false), MessengerSetup::SkippedNotPresent);
    assert_eq!(classify_messenger_setup(false, true), MessengerSetup::SkippedNotPresent);
    assert_eq!(classify_messenger_setup(true, true), MessengerSetup::Installed);
    assert_eq!(classify_messenger_setup(true, false), MessengerSetup::Fatal);
}

#[test]
fn split_families_plan_concurrent_sharing() {
    let mut device = suitable_device();
    device.queue_families = vec![
        QueueFamily { supports_graphics: true, supports_present: false },
        QueueFamily { supports_graphics: false, supports_present: true },
    ];
    let snapshot = host(false, vec![device]);
    let plan = plan_bring_up(&Vec::new(), &strs(&["VK_KHR_swapchain"]), &snapshot)
        .expect("bring-up must succeed");
    assert_eq!(plan.graphics_family, 0);
    assert_eq!(plan.present_family, 1);
    assert_eq!(plan.device.queue_create_infos.len(), 2);
    assert_eq!(plan.swapchain.sharing.mode, vk::VK_SHARING_MODE_CONCURRENT);
    assert_eq!(plan.swapchain.sharing.family_indices, vec![0, 1]);
}
