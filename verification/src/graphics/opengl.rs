//! The raster backend: a window of its own, and an explicit "not yet
//! supported" answer for everything past window creation.

use vstd::prelude::*;

use crate::bringup::{BringUpError, BringUpPlan};
use crate::context::{GraphicsContext, Resource};
use crate::frame::FrameOp;
use crate::host::HostSnapshot;
use super::api::{
    standard_window_hints, window_plan_matches, GraphicApi, HostAction, WindowPlan,
};

verus! {

/// The raster backend's configuration: only the window size.
#[derive(Clone, Copy, PartialEq, Eq, Structural, Debug)]
pub struct OpenGLApi {
    pub width: usize,
    pub height: usize,
}

impl OpenGLApi {
    pub fn new(width: usize, height: usize) -> (r: Self)
        ensures
            r.width == width,
            r.height == height,
    {
        Self { width, height }
    }

    /// Plans this backend's window, under its own title.
    pub fn init_window(&self) -> (r: WindowPlan)
        ensures
            window_plan_matches(r, self.width, self.height, "Oito-caneco"@),
    {
        WindowPlan {
            width: self.width,
            height: self.height,
            title: String::from_str("Oito-caneco"),
            hints: standard_window_hints(),
        }
    }

    /// This backend cannot bring a context up yet.
    pub fn init_api(&self, host: &HostSnapshot) -> (r: Result<BringUpPlan, BringUpError>)
        ensures
            r == Err::<BringUpPlan, BringUpError>(BringUpError::UnsupportedBackend),
    {
        let _ = host;
        Err(BringUpError::UnsupportedBackend)
    }

    /// Nothing was created, so nothing is released.
    pub fn cleanup(&self, ctx: &GraphicsContext) -> (r: Vec<Resource>)
        ensures
            r@ == Seq::<Resource>::empty(),
    {
        let _ = ctx;
        let calls: Vec<Resource> = Vec::new();
        proof {
            assert(calls@ =~= Seq::<Resource>::empty());
        }
        calls
    }

    /// A run with this backend ends at once.
    pub fn should_close(&self, close_flag: i32) -> (r: bool)
        ensures
            r,
    {
        let _ = close_flag;
        true
    }

    pub fn pool_events(&self) -> (r: HostAction)
        ensures
            r == HostAction::Nothing,
    {
        HostAction::Nothing
    }

    pub fn wait_events(&self) -> (r: Vec<FrameOp>)
        ensures
            r@ == Seq::<FrameOp>::empty(),
    {
        let ops: Vec<FrameOp> = Vec::new();
        proof {
            assert(ops@ =~= Seq::<FrameOp>::empty());
        }
        ops
    }

    pub fn draw_frame(&self, ctx: &GraphicsContext, image_index: u32) -> (r: Vec<FrameOp>)
        ensures
            r@ == Seq::<FrameOp>::empty(),
    {
        let _ = ctx;
        let _ = image_index;
        let ops: Vec<FrameOp> = Vec::new();
        proof {
            assert(ops@ =~= Seq::<FrameOp>::empty());
        }
        ops
    }

    pub fn wait_device_idle(&self) -> (r: HostAction)
        ensures
            r == HostAction::Nothing,
    {
        HostAction::Nothing
    }
}

impl GraphicApi for OpenGLApi {
    fn init_window(&self) -> (r: WindowPlan) {
        OpenGLApi::init_window(self)
    }

    fn init_api(&self, host: &HostSnapshot) -> (r: Result<BringUpPlan, BringUpError>) {
        OpenGLApi::init_api(self, host)
    }

    fn cleanup(&self, ctx: &GraphicsContext) -> (r: Vec<Resource>) {
        OpenGLApi::cleanup(self, ctx)
    }

    fn should_close(&self, close_flag: i32) -> (r: bool) {
        OpenGLApi::should_close(self, close_flag)
    }

    fn pool_events(&self) -> (r: HostAction) {
        OpenGLApi::pool_events(self)
    }

    fn wait_events(&self) -> (r: Vec<FrameOp>) {
        OpenGLApi::wait_events(self)
    }

    fn draw_frame(&self, ctx: &GraphicsContext, image_index: u32) -> (r: Vec<FrameOp>) {
        OpenGLApi::draw_frame(self, ctx, image_index)
    }

    fn wait_device_idle(&self) -> (r: HostAction) {
        OpenGLApi::wait_device_idle(self)
    }
}

} // verus!
