//! The graphics context: every native handle the bring-up acquires, in
//! creation order, and the teardown plan that releases them in exactly the
//! reverse order.
//!
//! Out-of-order release corrupts the native interface's state, so the
//! release order is the one load-bearing invariant of the whole system:
//! `teardown_plan` is proved to emit the exact reverse of the creation
//! sequence.

use vstd::prelude::*;

use crate::host::Extent;

verus! {

/// One owned resource of the context, tagged with its native handle.
///
/// An element of the creation sequence names a creation call; the same
/// element in the teardown plan names the matching release call.
#[derive(Clone, Copy, PartialEq, Eq, Structural, Debug)]
pub enum Resource {
    Window(u64),
    Instance(u64),
    DebugMessenger(u64),
    Surface(u64),
    Device(u64),
    Swapchain(u64),
    ImageView(u64),
    RenderPass(u64),
    PipelineLayout(u64),
    Pipeline(u64),
    Framebuffer(u64),
    CommandPool(u64),
    ImageAvailableSemaphore(u64),
    RenderFinishedSemaphore(u64),
    InFlightFence(u64),
}

/// The fully brought-up context.  Every handle is a plain value handed back
/// by the shell after the corresponding creation call; once stored it is
/// never reassigned until teardown.
///
/// The queues, the swapchain images and the command buffer are owned by
/// their parents (device, swapchain, command pool) and are not released by
/// calls of their own, so they do not appear in the creation sequence.
#[derive(Clone, PartialEq, Eq, Debug)]
pub struct GraphicsContext {
    pub window: u64,
    pub instance: u64,
    /// Present exactly when diagnostics were enabled at bring-up.
    pub debug_messenger: Option<u64>,
    pub surface: u64,
    pub device: u64,
    pub graphics_queue: u64,
    pub present_queue: u64,
    pub swapchain: u64,
    pub swapchain_images: Vec<u64>,
    pub swapchain_image_format: u32,
    pub swapchain_extent: Extent,
    pub swapchain_image_views: Vec<u64>,
    pub render_pass: u64,
    pub pipeline_layout: u64,
    pub pipeline: u64,
    pub swapchain_framebuffers: Vec<u64>,
    pub command_pool: u64,
    pub command_buffer: u64,
    pub image_available_semaphore: u64,
    pub render_finished_semaphore: u64,
    pub in_flight_fence: u64,
}

impl GraphicsContext {
    /// The creation calls of a successful bring-up, in the order they were
    /// performed.
    pub open spec fn creation_sequence(self) -> Seq<Resource> {
        seq![Resource::Window(self.window), Resource::Instance(self.instance)] + (
        match self.debug_messenger {
            Some(m) => seq![Resource::DebugMessenger(m)],
            None => Seq::<Resource>::empty(),
        }) + seq![
            Resource::Surface(self.surface),
            Resource::Device(self.device),
            Resource::Swapchain(self.swapchain),
        ] + self.swapchain_image_views@.map_values(|v: u64| Resource::ImageView(v)) + seq![
            Resource::RenderPass(self.render_pass),
            Resource::PipelineLayout(self.pipeline_layout),
            Resource::Pipeline(self.pipeline),
        ] + self.swapchain_framebuffers@.map_values(|f: u64| Resource::Framebuffer(f)) + seq![
            Resource::CommandPool(self.command_pool),
            Resource::ImageAvailableSemaphore(self.image_available_semaphore),
            Resource::RenderFinishedSemaphore(self.render_finished_semaphore),
            Resource::InFlightFence(self.in_flight_fence),
        ]
    }
}

/// Replays the creation calls of the context, in creation order.
pub fn creation_plan(ctx: &GraphicsContext) -> (r: Vec<Resource>)
    ensures
        r@ == ctx.creation_sequence(),
{
    let mut calls: Vec<Resource> = Vec::new();
    calls.push(Resource::Window(ctx.window));
    calls.push(Resource::Instance(ctx.instance));
    match ctx.debug_messenger {
        Some(m) => calls.push(Resource::DebugMessenger(m)),
        None => (),
    }
    calls.push(Resource::Surface(ctx.surface));
    calls.push(Resource::Device(ctx.device));
    calls.push(Resource::Swapchain(ctx.swapchain));
    let ghost after_swapchain = calls@;
    let mut i: usize = 0;
    while i < ctx.swapchain_image_views.len()
        invariant
            i <= ctx.swapchain_image_views@.len(),
            calls@ == after_swapchain + ctx.swapchain_image_views@.take(i as int).map_values(
                |v: u64| Resource::ImageView(v),
            ),
        decreases ctx.swapchain_image_views@.len() - i,
    {
        calls.push(Resource::ImageView(ctx.swapchain_image_views[i]));
        proof {
            assert(calls@ =~= after_swapchain + ctx.swapchain_image_views@.take(
                i + 1,
            ).map_values(|v: u64| Resource::ImageView(v)));
        }
        i += 1;
    }
    proof {
        assert(ctx.swapchain_image_views@.take(ctx.swapchain_image_views@.len() as int)
            =~= ctx.swapchain_image_views@);
    }
    calls.push(Resource::RenderPass(ctx.render_pass));
    calls.push(Resource::PipelineLayout(ctx.pipeline_layout));
    calls.push(Resource::Pipeline(ctx.pipeline));
    let ghost after_pipeline = calls@;
    let mut j: usize = 0;
    while j < ctx.swapchain_framebuffers.len()
        invariant
            j <= ctx.swapchain_framebuffers@.len(),
            calls@ == after_pipeline + ctx.swapchain_framebuffers@.take(j as int).map_values(
                |f: u64| Resource::Framebuffer(f),
            ),
        decreases ctx.swapchain_framebuffers@.len() - j,
    {
        calls.push(Resource::Framebuffer(ctx.swapchain_framebuffers[j]));
        proof {
            assert(calls@ =~= after_pipeline + ctx.swapchain_framebuffers@.take(
                j + 1,
            ).map_values(|f: u64| Resource::Framebuffer(f)));
        }
        j += 1;
    }
    proof {
        assert(ctx.swapchain_framebuffers@.take(ctx.swapchain_framebuffers@.len() as int)
            =~= ctx.swapchain_framebuffers@);
    }
    calls.push(Resource::CommandPool(ctx.command_pool));
    calls.push(Resource::ImageAvailableSemaphore(ctx.image_available_semaphore));
    calls.push(Resource::RenderFinishedSemaphore(ctx.render_finished_semaphore));
    calls.push(Resource::InFlightFence(ctx.in_flight_fence));
    proof {
        assert(calls@ =~= ctx.creation_sequence());
    }
    calls
}

/// The release calls of teardown: exactly the creation calls, in exactly
/// the reverse order.  The shell performs them front to back and then lets
/// the windowing library terminate.
pub fn teardown_plan(ctx: &GraphicsContext) -> (r: Vec<Resource>)
    ensures
        r@ == ctx.creation_sequence().reverse(),
{
    let forward = creation_plan(ctx);
    let mut calls: Vec<Resource> = Vec::new();
    let mut i: usize = forward.len();
    while i > 0
        invariant
            i <= forward@.len(),
            calls@.len() == forward@.len() - i,
            forall|k: int|
                0 <= k < calls@.len() ==> #[trigger] calls@[k] == forward@[forward@.len() - 1 - k],
        decreases i,
    {
        i -= 1;
        calls.push(forward[i]);
    }
    proof {
        assert(calls@ =~= forward@.reverse());
    }
    calls
}

} // verus!
