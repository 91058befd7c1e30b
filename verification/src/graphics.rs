//! The graphics front: one facade over the two backends, selected at
//! construction.  The native-API backend plans a full bring-up; the
//! raster backend is an explicit "not yet supported" stub.

pub mod api;
pub mod opengl;
pub mod vulkan;

use vstd::prelude::*;

use crate::bringup::{BringUpError, BringUpPlan};
use crate::context::{GraphicsContext, Resource};
use crate::frame::{frame_trace, sync_trace, FrameOp};
use crate::host::HostSnapshot;
use api::{window_plan_matches, HostAction, WindowPlan};
use opengl::OpenGLApi;
use vulkan::VulkanApi;

verus! {

/// Which backend drives the rendering.
#[derive(Clone, Copy, PartialEq, Eq, Structural, Debug)]
pub enum GraphicsType {
    Vulkan,
    OpenGL,
}

/// The backend behind the facade, with its configuration.
#[derive(Clone, PartialEq, Debug)]
pub enum GraphicsBackend {
    Vulkan(VulkanApi),
    OpenGL(OpenGLApi),
}

/// The facade the application drives; every call dispatches to the
/// selected backend.
#[derive(Clone, PartialEq, Debug)]
pub struct Graphics {
    pub api: GraphicsBackend,
}

impl Graphics {
    /// Builds the backend the given type selects, configured for a window
    /// of the given size.
    pub fn new(width: usize, height: usize, api_type: GraphicsType) -> (r: Self)
        ensures
            api_type == GraphicsType::Vulkan ==> (r.api matches GraphicsBackend::Vulkan(v)
                && v.width == width && v.height == height && v.validation_layers@.len() == 1
                && v.validation_layers@[0]@ == "VK_LAYER_KHRONOS_validation"@
                && v.device_extensions@.len() == 1 && v.device_extensions@[0]@
                == "VK_KHR_swapchain"@),
            api_type == GraphicsType::OpenGL ==> (r.api matches GraphicsBackend::OpenGL(o)
                && o.width == width && o.height == height),
    {
        let api = match api_type {
            GraphicsType::Vulkan => GraphicsBackend::Vulkan(VulkanApi::new(width, height)),
            GraphicsType::OpenGL => GraphicsBackend::OpenGL(OpenGLApi::new(width, height)),
        };
        Self { api }
    }

    /// Plans the window the backend asks the windowing library to create.
    /// The shell creates it and checks the returned handle against null.
    pub fn init_window(&self) -> (r: WindowPlan)
        ensures
            self.api matches GraphicsBackend::Vulkan(v) ==> window_plan_matches(
                r,
                v.width,
                v.height,
                "OITO-CANECO"@,
            ),
            self.api matches GraphicsBackend::OpenGL(o) ==> window_plan_matches(
                r,
                o.width,
                o.height,
                "Oito-caneco"@,
            ),
    {
        match &self.api {
            GraphicsBackend::Vulkan(v) => v.init_window(),
            GraphicsBackend::OpenGL(o) => o.init_window(),
        }
    }

    /// Plans the whole context bring-up from the host snapshot, or reports
    /// why it is refused.  The raster backend refuses outright.
    pub fn init_api(&self, host: &HostSnapshot) -> (r: Result<BringUpPlan, BringUpError>)
        requires
            host.well_formed(),
        ensures
            self.api matches GraphicsBackend::Vulkan(v) ==> vulkan::init_api_result_matches(
                r,
                v,
                *host,
            ),
            self.api matches GraphicsBackend::OpenGL(o) ==> r == Err::<
                BringUpPlan,
                BringUpError,
            >(BringUpError::UnsupportedBackend),
    {
        match &self.api {
            GraphicsBackend::Vulkan(v) => v.init_api(host),
            GraphicsBackend::OpenGL(o) => o.init_api(host),
        }
    }

    /// Plans the release calls of teardown: for the native-API backend the
    /// exact reverse of the creation calls, for the stub nothing.
    pub fn cleanup(&self, ctx: &GraphicsContext) -> (r: Vec<Resource>)
        ensures
            self.api matches GraphicsBackend::Vulkan(v) ==> r@
                == ctx.creation_sequence().reverse(),
            self.api matches GraphicsBackend::OpenGL(o) ==> r@ == Seq::<Resource>::empty(),
    {
        match &self.api {
            GraphicsBackend::Vulkan(v) => v.cleanup(ctx),
            GraphicsBackend::OpenGL(o) => o.cleanup(ctx),
        }
    }

    /// Decodes the windowing library's close flag; the stub backend always
    /// reports closed so a run with it ends at once.
    pub fn should_close(&self, close_flag: i32) -> (r: bool)
        ensures
            self.api matches GraphicsBackend::Vulkan(v) ==> r == (close_flag != 0),
            self.api matches GraphicsBackend::OpenGL(o) ==> r,
    {
        match &self.api {
            GraphicsBackend::Vulkan(v) => v.should_close(close_flag),
            GraphicsBackend::OpenGL(o) => o.should_close(close_flag),
        }
    }

    /// The host action one loop iteration performs for event dispatch.
    pub fn pool_events(&self) -> (r: HostAction)
        ensures
            self.api matches GraphicsBackend::Vulkan(v) ==> r == HostAction::PollEvents,
            self.api matches GraphicsBackend::OpenGL(o) ==> r == HostAction::Nothing,
    {
        match &self.api {
            GraphicsBackend::Vulkan(v) => v.pool_events(),
            GraphicsBackend::OpenGL(o) => o.pool_events(),
        }
    }

    /// Plans the fence wait that bounds the loop to one frame in flight.
    pub fn wait_events(&self) -> (r: Vec<FrameOp>)
        ensures
            self.api matches GraphicsBackend::Vulkan(v) ==> r@ == sync_trace(),
            self.api matches GraphicsBackend::OpenGL(o) ==> r@ == Seq::<FrameOp>::empty(),
    {
        match &self.api {
            GraphicsBackend::Vulkan(v) => v.wait_events(),
            GraphicsBackend::OpenGL(o) => o.wait_events(),
        }
    }

    /// Plans one frame of the render loop for the acquired image.
    pub fn draw_frame(&self, ctx: &GraphicsContext, image_index: u32) -> (r: Vec<FrameOp>)
        requires
            self.api matches GraphicsBackend::Vulkan(v) ==> (image_index as int)
                < ctx.swapchain_framebuffers@.len(),
        ensures
            self.api matches GraphicsBackend::Vulkan(v) ==> r@ == frame_trace(
                ctx.swapchain_extent,
                image_index,
            ),
            self.api matches GraphicsBackend::OpenGL(o) ==> r@ == Seq::<FrameOp>::empty(),
    {
        match &self.api {
            GraphicsBackend::Vulkan(v) => v.draw_frame(ctx, image_index),
            GraphicsBackend::OpenGL(o) => o.draw_frame(ctx, image_index),
        }
    }

    /// The host action that drains the device before teardown.
    pub fn wait_device_idle(&self) -> (r: HostAction)
        ensures
            self.api matches GraphicsBackend::Vulkan(v) ==> r == HostAction::WaitDeviceIdle,
            self.api matches GraphicsBackend::OpenGL(o) ==> r == HostAction::Nothing,
    {
        match &self.api {
            GraphicsBackend::Vulkan(v) => v.wait_device_idle(),
            GraphicsBackend::OpenGL(o) => o.wait_device_idle(),
        }
    }
}

} // verus!
