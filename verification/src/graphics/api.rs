//! The backend interface: what every graphics backend answers to the
//! application, and the window plan both backends produce.

use vstd::prelude::*;

use crate::bringup::{BringUpError, BringUpPlan};
use crate::context::{GraphicsContext, Resource};
use crate::frame::FrameOp;
use crate::host::HostSnapshot;

verus! {

/// Window hint: which context the windowing library prepares the window
/// for.
pub const GLFW_CLIENT_API: i32 = 0x22001;

/// Hint value: no client context; the graphics interface brings its own.
pub const GLFW_NO_API: i32 = 0;

/// Window hint: whether the window can be resized.
pub const GLFW_RESIZABLE: i32 = 0x20003;

/// The windowing library's false value.
pub const GLFW_FALSE: i32 = 0;

/// One window hint, as the windowing library takes it.
#[derive(Clone, Copy, PartialEq, Eq, Structural, Debug)]
pub struct WindowHint {
    pub hint: i32,
    pub value: i32,
}

/// Everything the window-creation call needs: size, title, and the hints
/// set before creation.
#[derive(Clone, PartialEq, Debug)]
pub struct WindowPlan {
    pub width: usize,
    pub height: usize,
    pub title: String,
    pub hints: Vec<WindowHint>,
}

/// Both backends plan the same window shape: no client context, not
/// resizable, differing only in size and title.
pub open spec fn window_plan_matches(
    p: WindowPlan,
    width: usize,
    height: usize,
    title: Seq<char>,
) -> bool {
    &&& p.width == width
    &&& p.height == height
    &&& p.title@ == title
    &&& p.hints@ == seq![
        (WindowHint { hint: GLFW_CLIENT_API, value: GLFW_NO_API }),
        (WindowHint { hint: GLFW_RESIZABLE, value: GLFW_FALSE }),
    ]
}

/// Builds the two hints both backends set before creating their window.
pub fn standard_window_hints() -> (r: Vec<WindowHint>)
    ensures
        r@ == seq![
            (WindowHint { hint: GLFW_CLIENT_API, value: GLFW_NO_API }),
            (WindowHint { hint: GLFW_RESIZABLE, value: GLFW_FALSE }),
        ],
{
    let mut hints: Vec<WindowHint> = Vec::new();
    hints.push(WindowHint { hint: GLFW_CLIENT_API, value: GLFW_NO_API });
    hints.push(WindowHint { hint: GLFW_RESIZABLE, value: GLFW_FALSE });
    proof {
        assert(hints@ =~= seq![
            (WindowHint { hint: GLFW_CLIENT_API, value: GLFW_NO_API }),
            (WindowHint { hint: GLFW_RESIZABLE, value: GLFW_FALSE }),
        ]);
    }
    hints
}

/// A created window, tagged with the backend that created it and carrying
/// the native handle as a plain value; zero stands for the null handle.
#[derive(Clone, Copy, PartialEq, Eq, Structural, Debug)]
pub enum Window {
    Vulkan(u64),
    OpenGL(u64),
}

impl Window {
    /// The native handle, whichever backend created the window.
    pub open spec fn spec_handle(self) -> u64 {
        match self {
            Window::Vulkan(h) => h,
            Window::OpenGL(h) => h,
        }
    }

    /// Whether window creation handed back the null handle; the
    /// application treats such a window as a fatal creation failure.
    pub fn is_null(&self) -> (r: bool)
        ensures
            r == (self.spec_handle() == 0),
    {
        match self {
            Window::Vulkan(h) => *h == 0,
            Window::OpenGL(h) => *h == 0,
        }
    }
}

/// A host action a backend asks the shell to perform; the stub backend
/// asks for nothing.
#[derive(Clone, Copy, PartialEq, Eq, Structural, Debug)]
pub enum HostAction {
    /// Dispatch pending window events.
    PollEvents,
    /// Block until the device has finished all submitted work.
    WaitDeviceIdle,
    /// No call to make.
    Nothing,
}

/// What every graphics backend answers to the application: plans and
/// decisions as plain values, never native calls.
pub trait GraphicApi {
    /// The window to create.
    fn init_window(&self) -> (r: WindowPlan);

    /// The context bring-up planned from the host snapshot, or why it is
    /// refused.
    fn init_api(&self, host: &HostSnapshot) -> (r: Result<BringUpPlan, BringUpError>)
        requires
            host.well_formed(),
    ;

    /// The release calls of teardown, in the order to perform them.
    fn cleanup(&self, ctx: &GraphicsContext) -> (r: Vec<Resource>);

    /// Whether the windowing library's close flag ends the loop.
    fn should_close(&self, close_flag: i32) -> (r: bool);

    /// The event-dispatch action of one loop iteration.
    fn pool_events(&self) -> (r: HostAction);

    /// The fence wait at the top of each loop iteration.
    fn wait_events(&self) -> (r: Vec<FrameOp>);

    /// One frame of the render loop for the acquired image.
    fn draw_frame(&self, ctx: &GraphicsContext, image_index: u32) -> (r: Vec<FrameOp>)
        requires
            (image_index as int) < ctx.swapchain_framebuffers@.len(),
    ;

    /// The drain of the device before teardown.
    fn wait_device_idle(&self) -> (r: HostAction);
}

} // verus!
