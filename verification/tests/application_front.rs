use oito_caneco::application::{App, AppPhase};
use oito_caneco::bringup::BringUpError;
use oito_caneco::context::GraphicsContext;
use oito_caneco::controllers::VulkanController;
use oito_caneco::gateways::VulkanGateway;
use oito_caneco::graphics::api::{
    HostAction, Window, GLFW_CLIENT_API, GLFW_FALSE, GLFW_NO_API, GLFW_RESIZABLE,
};
use oito_caneco::graphics::{Graphics, GraphicsBackend, GraphicsType};
use oito_caneco::host::{Extent, HostSnapshot};
use oito_caneco::infra::{TriangleRequest, VulkanLayer};
use oito_caneco::utils::debug_mode;
use oito_caneco::vk;

fn tiny_context() -> GraphicsContext {
    GraphicsContext {
        window: 1,
        instance: 2,
        debug_messenger: None,
        surface: 3,
        device: 4,
        graphics_queue: 5,
        present_queue: 5,
        swapchain: 6,
        swapchain_images: vec![7],
        swapchain_image_format: 50,
        swapchain_extent: Extent { width: 640, height: 480 },
        swapchain_image_views: vec![8],
        render_pass: 9,
        pipeline_layout: 10,
        pipeline: 11,
        swapchain_framebuffers: vec![12],
        command_pool: 13,
        command_buffer: 14,
        image_available_semaphore: 15,
        render_finished_semaphore: 16,
        in_flight_fence: 17,
    }
}

fn empty_host() -> HostSnapshot {
    HostSnapshot {
        validation_enabled: false,
        available_layers: Vec::new(),
        window_extensions: Vec::new(),
        devices: Vec::new(),
        framebuffer_extent: Extent { width: 800, height: 600 },
    }
}

#[test]
fn app_defaults_to_an_800_by_600_vulkan_window() {
    let app = App::new();
    match &app.graphic_api.api {
        GraphicsBackend::Vulkan(v) => {
            assert_eq!(v.width, 800);
            assert_eq!(v.height, 600);
            assert_eq!(v.validation_layers, vec!["VK_LAYER_KHRONOS_validation".to_string()]);
            assert_eq!(v.device_extensions, vec!["VK_KHR_swapchain".to_string()]);
        },
        GraphicsBackend::OpenGL(_) => panic!("default backend must be Vulkan"),
    }
}

#[test]
fn select_graphics_api_honours_the_request() {
    assert_eq!(App::select_graphics_api(GraphicsType::Vulkan), GraphicsType::Vulkan);
    assert_eq!(App::select_graphics_api(GraphicsType::OpenGL), GraphicsType::OpenGL);
}

#[test]
fn execute_orders_the_four_phases() {
    let app = App::new();
    assert_eq!(
        app.execute(),
        vec![AppPhase::InitWindow, AppPhase::InitApi, AppPhase::MainLoop, AppPhase::Cleanup],
    );
}

#[test]
fn vulkan_window_plan_carries_title_and_hints() {
    let graphics = Graphics::new(320, 200, GraphicsType::Vulkan);
    let plan = graphics.init_window();
    assert_eq!(plan.width, 320);
    assert_eq!(plan.height, 200);
    assert_eq!(plan.title, "OITO-CANECO");
    assert_eq!(plan.hints.len(), 2);
    assert_eq!(plan.hints[0].hint, GLFW_CLIENT_API);
    assert_eq!(plan.hints[0].value, GLFW_NO_API);
    assert_eq!(plan.hints[1].hint, GLFW_RESIZABLE);
    assert_eq!(plan.hints[1].value, GLFW_FALSE);
}

#[test]
fn opengl_window_plan_has_its_own_title() {
    let graphics = Graphics::new(320, 200, GraphicsType::OpenGL);
    let plan = graphics.init_window();
    assert_eq!(plan.title, "Oito-caneco");
}

#[test]
fn should_close_decodes_the_flag() {
    let graphics = Graphics::new(320, 200, GraphicsType::Vulkan);
    assert!(!graphics.should_close(0));
    assert!(graphics.should_close(1));
    assert!(graphics.should_close(-1));
}

#[test]
fn opengl_backend_closes_at_once() {
    let graphics = Graphics::new(320, 200, GraphicsType::OpenGL);
    assert!(graphics.should_close(0));
}

#[test]
fn opengl_backend_refuses_bring_up() {
    let graphics = Graphics::new(320, 200, GraphicsType::OpenGL);
    assert_eq!(graphics.init_api(&empty_host()), Err(BringUpError::UnsupportedBackend));
    assert!(graphics.cleanup(&tiny_context()).is_empty());
    assert!(graphics.wait_events().is_empty());
    assert_eq!(graphics.pool_events(), HostAction::Nothing);
    assert_eq!(graphics.wait_device_idle(), HostAction::Nothing);
}

#[test]
fn vulkan_backend_asks_for_polling_and_draining() {
    let graphics = Graphics::new(320, 200, GraphicsType::Vulkan);
    assert_eq!(graphics.pool_events(), HostAction::PollEvents);
    assert_eq!(graphics.wait_device_idle(), HostAction::WaitDeviceIdle);
}

#[test]
fn vulkan_backend_plans_the_frame_and_the_sync() {
    let graphics = Graphics::new(320, 200, GraphicsType::Vulkan);
    let sync = graphics.wait_events();
    assert_eq!(sync.len(), 2);
    let ops = graphics.draw_frame(&tiny_context(), 0);
    assert_eq!(ops.len(), 12);
    assert!(matches!(ops[0], oito_caneco::frame::FrameOp::AcquireImage { .. }));
    assert!(matches!(ops[11], oito_caneco::frame::FrameOp::Present { image_index: 0 }));
}

#[test]
fn vulkan_backend_reports_missing_devices() {
    let graphics = Graphics::new(320, 200, GraphicsType::Vulkan);
    assert_eq!(graphics.init_api(&empty_host()), Err(BringUpError::NoSuitableDevice));
}

#[test]
fn vulkan_backend_teardown_matches_the_context() {
    let graphics = Graphics::new(320, 200, GraphicsType::Vulkan);
    let ctx = tiny_context();
    let released = graphics.cleanup(&ctx);
    let mut created = oito_caneco::context::creation_plan(&ctx);
    created.reverse();
    assert_eq!(released, created);
}

#[test]
fn window_null_check_reads_the_handle() {
    assert!(Window::Vulkan(0).is_null());
    assert!(!Window::Vulkan(42).is_null());
    assert!(Window::OpenGL(0).is_null());
    assert!(!Window::OpenGL(7).is_null());
}

#[test]
fn api_version_packs_its_fields() {
    assert_eq!(vk::VK_MAKE_API_VERSION(0, 1, 0, 0), 1 << 22);
    assert_eq!(vk::VK_MAKE_API_VERSION(1, 2, 3, 4), (1 << 29) | (2 << 22) | (3 << 12) | 4);
    assert_eq!(vk::api_version_1_0(), 4194304);
}

#[test]
fn message_filter_masks_fold_their_bits() {
    let severity = vk::vk_bit_message_severity(
        vk::DebugMessageSeverity::Verbose,
        vk::DebugMessageSeverity::Warning,
        vk::DebugMessageSeverity::Error,
    );
    assert_eq!(severity, 0x1101);
    let kinds = vk::vk_bit_message_type(
        vk::DebugMessageType::General,
        vk::DebugMessageType::Validation,
        vk::DebugMessageType::Performance,
    );
    assert_eq!(kinds, 0x7);
}

#[test]
fn library_defaults_to_diagnostics_off() {
    assert!(!debug_mode());
}

#[test]
fn fixed_names_are_spelled_exactly() {
    assert_eq!(vk::khr_swapchain_extension_name(), "VK_KHR_swapchain");
    assert_eq!(vk::ext_debug_utils_extension_name(), "VK_EXT_debug_utils");
    assert_eq!(vk::khronos_validation_layer_name(), "VK_LAYER_KHRONOS_validation");
}

#[test]
fn monolithic_path_shapes_the_request() {
    let layer = VulkanLayer::new();
    assert_eq!(layer.create_hello_triangle(640, 480), TriangleRequest { width: 640, height: 480 });
    let gateway = VulkanGateway::new();
    assert_eq!(
        gateway.create_hello_triangle(800, 600),
        TriangleRequest { width: 800, height: 600 },
    );
    let controller = VulkanController::new();
    assert_eq!(controller.execute(1024, 768), TriangleRequest { width: 1024, height: 768 });
}
