use oito_caneco::context::{creation_plan, teardown_plan, GraphicsContext, Resource};
use oito_caneco::host::Extent;

fn full_context() -> GraphicsContext {
    GraphicsContext {
        window: 1,
        instance: 2,
        debug_messenger: Some(3),
        surface: 4,
        device: 5,
        graphics_queue: 6,
        present_queue: 6,
        swapchain: 7,
        swapchain_images: vec![8, 9],
        swapchain_image_format: 50,
        swapchain_extent: Extent { width: 640, height: 480 },
        swapchain_image_views: vec![10, 11],
        render_pass: 12,
        pipeline_layout: 13,
        pipeline: 14,
        swapchain_framebuffers: vec![15, 16],
        command_pool: 17,
        command_buffer: 18,
        image_available_semaphore: 19,
        render_finished_semaphore: 20,
        in_flight_fence: 21,
    }
}

#[test]
fn creation_order_is_the_documented_sequence() {
    let calls = creation_plan(&full_context());
    assert_eq!(
        calls,
        vec![
            Resource::Window(1),
            Resource::Instance(2),
            Resource::DebugMessenger(3),
            Resource::Surface(4),
            Resource::Device(5),
            Resource::Swapchain(7),
            Resource::ImageView(10),
            Resource::ImageView(11),
            Resource::RenderPass(12),
            Resource::PipelineLayout(13),
            Resource::Pipeline(14),
            Resource::Framebuffer(15),
            Resource::Framebuffer(16),
            Resource::CommandPool(17),
            Resource::ImageAvailableSemaphore(19),
            Resource::RenderFinishedSemaphore(20),
            Resource::InFlightFence(21),
        ],
    );
}

#[test]
fn teardown_is_exact_reverse_of_creation() {
    let ctx = full_context();
    let mut created = creation_plan(&ctx);
    let released = teardown_plan(&ctx);
    created.reverse();
    assert_eq!(released, created);
}

#[test]
fn teardown_releases_sync_objects_first_and_window_last() {
    let released = teardown_plan(&full_context());
    assert_eq!(released.first(), Some(&Resource::InFlightFence(21)));
    assert_eq!(released.last(), Some(&Resource::Window(1)));
    let pipeline_at = released.iter().position(|r| matches!(r, Resource::Pipeline(_))).unwrap();
    let render_pass_at =
        released.iter().position(|r| matches!(r, Resource::RenderPass(_))).unwrap();
    let swapchain_at = released.iter().position(|r| matches!(r, Resource::Swapchain(_))).unwrap();
    let device_at = released.iter().position(|r| matches!(r, Resource::Device(_))).unwrap();
    let surface_at = released.iter().position(|r| matches!(r, Resource::Surface(_))).unwrap();
    let instance_at = released.iter().position(|r| matches!(r, Resource::Instance(_))).unwrap();
    assert!(pipeline_at < render_pass_at);
    assert!(render_pass_at < swapchain_at);
    assert!(swapchain_at < device_at);
    assert!(device_at < surface_at);
    assert!(surface_at < instance_at);
}

#[test]
fn teardown_without_messenger_skips_its_release() {
    let mut ctx = full_context();
    ctx.debug_messenger = None;
    let released = teardown_plan(&ctx);
    assert!(released.iter().all(|r| !matches!(r, Resource::DebugMessenger(_))));
    assert_eq!(released.len(), 16);
}

#[test]
fn teardown_of_empty_swapchain_lists() {
    let mut ctx = full_context();
    ctx.swapchain_image_views = Vec::new();
    ctx.swapchain_framebuffers = Vec::new();
    let released = teardown_plan(&ctx);
    assert_eq!(released.len(), 13);
    assert!(released.iter().all(|r| !matches!(r, Resource::ImageView(_))));
    assert!(released.iter().all(|r| !matches!(r, Resource::Framebuffer(_))));
}
