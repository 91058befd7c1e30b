//! The per-frame render loop, as the exact trace of calls one frame
//! performs: wait and reset the in-flight fence, acquire an image, record
//! the fixed command buffer, submit, present.

use vstd::prelude::*;

use crate::host::Extent;
use crate::vk;

verus! {

/// The fixed colour the render pass clears to.  The native call takes it
/// as four normalised channel values; the shell supplies them verbatim.
#[derive(Clone, Copy, PartialEq, Eq, Structural, Debug)]
pub enum ClearColor {
    OpaqueBlack,
}

/// One command recorded into the frame's command buffer, or the bracketing
/// begin/end of the recording itself.
#[derive(Clone, Copy, PartialEq, Eq, Structural, Debug)]
pub enum RenderCommand {
    BeginCommandBuffer,
    BeginRenderPass { image_index: u32, extent: Extent, clear_color: ClearColor },
    BindPipeline,
    SetViewport { extent: Extent },
    SetScissor { extent: Extent },
    Draw { vertex_count: u32, instance_count: u32, first_vertex: u32, first_instance: u32 },
    EndRenderPass,
    EndCommandBuffer,
}

/// The commands one frame records, in order: one render pass over the
/// acquired image, the fixed pipeline, viewport and scissor over the whole
/// extent, and one draw of three vertices in one instance.
pub open spec fn recorded_commands(extent: Extent, image_index: u32) -> Seq<RenderCommand> {
    seq![
        RenderCommand::BeginCommandBuffer,
        (RenderCommand::BeginRenderPass {
            image_index,
            extent,
            clear_color: ClearColor::OpaqueBlack,
        }),
        RenderCommand::BindPipeline,
        (RenderCommand::SetViewport { extent }),
        (RenderCommand::SetScissor { extent }),
        (RenderCommand::Draw {
            vertex_count: 3,
            instance_count: 1,
            first_vertex: 0,
            first_instance: 0,
        }),
        RenderCommand::EndRenderPass,
        RenderCommand::EndCommandBuffer,
    ]
}

/// Records the frame's command buffer for the acquired image.
///
/// The image index selects a framebuffer, so it must index into the
/// context's framebuffer list.
pub fn record_command_buffer(extent: Extent, image_index: u32, framebuffer_count: usize) -> (r:
    Vec<RenderCommand>)
    requires
        (image_index as usize) < framebuffer_count,
    ensures
        r@ == recorded_commands(extent, image_index),
{
    let mut commands: Vec<RenderCommand> = Vec::new();
    commands.push(RenderCommand::BeginCommandBuffer);
    commands.push(
        RenderCommand::BeginRenderPass {
            image_index,
            extent,
            clear_color: ClearColor::OpaqueBlack,
        },
    );
    commands.push(RenderCommand::BindPipeline);
    commands.push(RenderCommand::SetViewport { extent });
    commands.push(RenderCommand::SetScissor { extent });
    commands.push(
        RenderCommand::Draw {
            vertex_count: 3,
            instance_count: 1,
            first_vertex: 0,
            first_instance: 0,
        },
    );
    commands.push(RenderCommand::EndRenderPass);
    commands.push(RenderCommand::EndCommandBuffer);
    proof {
        assert(commands@ =~= recorded_commands(extent, image_index));
    }
    commands
}

/// One call of the render loop's frame cycle.
#[derive(Clone, Copy, PartialEq, Eq, Structural, Debug)]
pub enum FrameOp {
    /// Block until the in-flight fence signals.
    WaitForFence { timeout: u64 },
    /// Reset the in-flight fence for this frame.
    ResetFence,
    /// Acquire the next swapchain image, signalling the image-available
    /// semaphore.
    AcquireImage { timeout: u64 },
    /// Reset the single command buffer before re-recording.
    ResetCommandBuffer,
    /// Record one command into the command buffer.
    Record { command: RenderCommand },
    /// Submit to the graphics queue, waiting on the image-available
    /// semaphore at the given stage, signalling the render-finished
    /// semaphore and the in-flight fence.
    SubmitDraw { wait_stage_mask: u32 },
    /// Present the acquired image on the present queue, waiting on the
    /// render-finished semaphore.
    Present { image_index: u32 },
}

/// The calls the fence wait at the top of each loop iteration performs.
pub open spec fn sync_trace() -> Seq<FrameOp> {
    seq![(FrameOp::WaitForFence { timeout: u64::MAX }), FrameOp::ResetFence]
}

/// The calls one frame performs after the fence wait, in order, given the
/// image index the acquire call returned.
pub open spec fn frame_trace(extent: Extent, image_index: u32) -> Seq<FrameOp> {
    seq![(FrameOp::AcquireImage { timeout: u64::MAX }), FrameOp::ResetCommandBuffer]
        + recorded_commands(extent, image_index).map_values(
        |c: RenderCommand| FrameOp::Record { command: c },
    ) + seq![
        (FrameOp::SubmitDraw { wait_stage_mask: vk::VK_PIPELINE_STAGE_COLOR_ATTACHMENT_OUTPUT_BIT }),
        (FrameOp::Present { image_index }),
    ]
}

/// Plans one frame of the render loop: acquire, re-record, submit,
/// present, exactly in that order.
pub fn plan_frame(extent: Extent, image_index: u32, framebuffer_count: usize) -> (r: Vec<FrameOp>)
    requires
        (image_index as usize) < framebuffer_count,
    ensures
        r@ == frame_trace(extent, image_index),
{
    let mut ops: Vec<FrameOp> = Vec::new();
    ops.push(FrameOp::AcquireImage { timeout: u64::MAX });
    ops.push(FrameOp::ResetCommandBuffer);
    let commands = record_command_buffer(extent, image_index, framebuffer_count);
    let mut i: usize = 0;
    let ghost head = ops@;
    while i < commands.len()
        invariant
            i <= commands@.len(),
            ops@ == head + commands@.take(i as int).map_values(
                |c: RenderCommand| FrameOp::Record { command: c },
            ),
        decreases commands@.len() - i,
    {
        ops.push(FrameOp::Record { command: commands[i] });
        proof {
            assert(ops@ =~= head + commands@.take(i + 1).map_values(
                |c: RenderCommand| FrameOp::Record { command: c },
            ));
        }
        i += 1;
    }
    proof {
        assert(commands@.take(commands@.len() as int) =~= commands@);
    }
    ops.push(
        FrameOp::SubmitDraw { wait_stage_mask: vk::VK_PIPELINE_STAGE_COLOR_ATTACHMENT_OUTPUT_BIT },
    );
    ops.push(FrameOp::Present { image_index });
    proof {
        assert(ops@ =~= frame_trace(extent, image_index));
    }
    ops
}

/// Plans the fence wait that bounds the loop to one frame in flight.
pub fn plan_frame_sync() -> (r: Vec<FrameOp>)
    ensures
        r@ == sync_trace(),
{
    let mut ops: Vec<FrameOp> = Vec::new();
    ops.push(FrameOp::WaitForFence { timeout: u64::MAX });
    ops.push(FrameOp::ResetFence);
    proof {
        assert(ops@ =~= sync_trace());
    }
    ops
}

/// Every frame performs its acquire, submit and present calls in that
/// order: the acquire opens the trace and the submit and present close it.
pub proof fn lemma_frame_cycle_order(extent: Extent, image_index: u32)
    ensures
        frame_trace(extent, image_index).len() == 12,
        frame_trace(extent, image_index)[0] is AcquireImage,
        frame_trace(extent, image_index)[10] is SubmitDraw,
        frame_trace(extent, image_index)[11] is Present,
{
    assert(recorded_commands(extent, image_index).len() == 8);
}

} // verus!
