//! The native-API backend: holds the application's fixed configuration
//! and plans every step of the bring-up, the frame cycle and the teardown.

use vstd::prelude::*;

use crate::bringup::{
    bring_up_plan_matches, validation_blocked, BringUpError, BringUpPlan,
};
use crate::context::{GraphicsContext, Resource};
use crate::frame::{frame_trace, sync_trace, FrameOp};
use crate::host::HostSnapshot;
use crate::support::picked_device;
use crate::vk;
use super::api::{
    standard_window_hints, window_plan_matches, GraphicApi, HostAction, WindowPlan,
};

verus! {

/// The native-API backend's configuration: window size, the validation
/// layers requested when diagnostics are on, and the device extensions
/// every suitable device must offer.
#[derive(Clone, PartialEq, Debug)]
pub struct VulkanApi {
    pub width: usize,
    pub height: usize,
    pub validation_layers: Vec<String>,
    pub device_extensions: Vec<String>,
}

/// What `init_api` answers for a given backend configuration and host
/// snapshot: exactly what the bring-up sequencer decides for the backend's
/// requested layers and required device extensions.
pub open spec fn init_api_result_matches(
    r: Result<BringUpPlan, BringUpError>,
    api: VulkanApi,
    host: HostSnapshot,
) -> bool {
    &&& (r == Err::<BringUpPlan, BringUpError>(BringUpError::ValidationLayersUnavailable)
        <==> validation_blocked(api.validation_layers@, host))
    &&& (!validation_blocked(api.validation_layers@, host) ==> (r == Err::<
        BringUpPlan,
        BringUpError,
    >(BringUpError::NoSuitableDevice) <==> picked_device(
        host.devices@,
        api.device_extensions@,
    ) is None))
    &&& (r is Ok <==> (!validation_blocked(api.validation_layers@, host) && picked_device(
        host.devices@,
        api.device_extensions@,
    ) is Some))
    &&& (r matches Ok(plan) ==> bring_up_plan_matches(
        plan,
        api.validation_layers@,
        api.device_extensions@,
        host,
    ))
}

impl VulkanApi {
    /// Configures the backend: one validation layer, one required device
    /// extension.
    pub fn new(width: usize, height: usize) -> (r: Self)
        ensures
            r.width == width,
            r.height == height,
            r.validation_layers@.len() == 1,
            r.validation_layers@[0]@ == "VK_LAYER_KHRONOS_validation"@,
            r.device_extensions@.len() == 1,
            r.device_extensions@[0]@ == "VK_KHR_swapchain"@,
    {
        let mut validation_layers: Vec<String> = Vec::new();
        validation_layers.push(vk::khronos_validation_layer_name());
        let mut device_extensions: Vec<String> = Vec::new();
        device_extensions.push(vk::khr_swapchain_extension_name());
        Self { width, height, validation_layers, device_extensions }
    }

    /// Plans the backend's window: fixed title, no client context, not
    /// resizable.
    pub fn init_window(&self) -> (r: WindowPlan)
        ensures
            window_plan_matches(r, self.width, self.height, "OITO-CANECO"@),
    {
        WindowPlan {
            width: self.width,
            height: self.height,
            title: String::from_str("OITO-CANECO"),
            hints: standard_window_hints(),
        }
    }

    /// Plans the whole bring-up for this backend's configuration.
    pub fn init_api(&self, host: &HostSnapshot) -> (r: Result<BringUpPlan, BringUpError>)
        requires
            host.well_formed(),
        ensures
            init_api_result_matches(r, *self, *host),
    {
        crate::bringup::plan_bring_up(&self.validation_layers, &self.device_extensions, host)
    }

    /// Plans teardown: the creation calls in exact reverse order.
    pub fn cleanup(&self, ctx: &GraphicsContext) -> (r: Vec<Resource>)
        ensures
            r@ == ctx.creation_sequence().reverse(),
    {
        crate::context::teardown_plan(ctx)
    }

    /// Decodes the windowing library's close flag.
    pub fn should_close(&self, close_flag: i32) -> (r: bool)
        ensures
            r == (close_flag != 0),
    {
        close_flag != 0
    }

    /// Each loop iteration dispatches pending window events.
    pub fn pool_events(&self) -> (r: HostAction)
        ensures
            r == HostAction::PollEvents,
    {
        HostAction::PollEvents
    }

    /// Plans the fence wait and reset at the top of each loop iteration.
    pub fn wait_events(&self) -> (r: Vec<FrameOp>)
        ensures
            r@ == sync_trace(),
    {
        crate::frame::plan_frame_sync()
    }

    /// Plans one frame for the acquired image of the given context.
    pub fn draw_frame(&self, ctx: &GraphicsContext, image_index: u32) -> (r: Vec<FrameOp>)
        requires
            (image_index as int) < ctx.swapchain_framebuffers@.len(),
        ensures
            r@ == frame_trace(ctx.swapchain_extent, image_index),
    {
        crate::frame::plan_frame(
            ctx.swapchain_extent,
            image_index,
            ctx.swapchain_framebuffers.len(),
        )
    }

    /// The device is drained before teardown begins.
    pub fn wait_device_idle(&self) -> (r: HostAction)
        ensures
            r == HostAction::WaitDeviceIdle,
    {
        HostAction::WaitDeviceIdle
    }
}

impl GraphicApi for VulkanApi {
    fn init_window(&self) -> (r: WindowPlan) {
        VulkanApi::init_window(self)
    }

    fn init_api(&self, host: &HostSnapshot) -> (r: Result<BringUpPlan, BringUpError>) {
        VulkanApi::init_api(self, host)
    }

    fn cleanup(&self, ctx: &GraphicsContext) -> (r: Vec<Resource>) {
        VulkanApi::cleanup(self, ctx)
    }

    fn should_close(&self, close_flag: i32) -> (r: bool) {
        VulkanApi::should_close(self, close_flag)
    }

    fn pool_events(&self) -> (r: HostAction) {
        VulkanApi::pool_events(self)
    }

    fn wait_events(&self) -> (r: Vec<FrameOp>) {
        VulkanApi::wait_events(self)
    }

    fn draw_frame(&self, ctx: &GraphicsContext, image_index: u32) -> (r: Vec<FrameOp>) {
        VulkanApi::draw_frame(self, ctx, image_index)
    }

    fn wait_device_idle(&self) -> (r: HostAction) {
        VulkanApi::wait_device_idle(self)
    }
}

} // verus!
