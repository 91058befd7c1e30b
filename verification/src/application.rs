//! The application: fixed window size, backend selection, and the order
//! of the top-level phases one run performs.

use vstd::prelude::*;

use crate::graphics::{Graphics, GraphicsBackend, GraphicsType};

verus! {

/// The four phases of one run, in the order the shell performs them.
#[derive(Clone, Copy, PartialEq, Eq, Structural, Debug)]
pub enum AppPhase {
    /// Create the window.
    InitWindow,
    /// Bring the graphics context up.
    InitApi,
    /// Poll events and draw until the window asks to close.
    MainLoop,
    /// Tear the context down in reverse creation order.
    Cleanup,
}

/// The application, holding its configured graphics facade.
#[derive(Clone, PartialEq, Debug)]
pub struct App {
    pub graphic_api: Graphics,
}

impl App {
    /// Configures the application: an 800 by 600 window on the native-API
    /// backend.
    pub fn new() -> (r: App)
        ensures
            r.graphic_api.api matches GraphicsBackend::Vulkan(v) && v.width == 800 && v.height
                == 600,
    {
        let width: usize = 800;
        let height: usize = 600;
        let api_type = App::select_graphics_api(GraphicsType::Vulkan);
        let graphic_api = Graphics::new(width, height, api_type);
        Self { graphic_api }
    }

    /// Confirms the backend selection; the native-API backend is the
    /// default and the raster backend is honoured when asked for.
    pub fn select_graphics_api(selected_api: GraphicsType) -> (r: GraphicsType)
        ensures
            r == selected_api,
    {
        let mut api = GraphicsType::Vulkan;
        if selected_api == GraphicsType::OpenGL {
            api = GraphicsType::OpenGL;
        }
        api
    }

    /// One run performs its phases in this exact order: window, context,
    /// loop, teardown.
    pub fn execute(&self) -> (r: Vec<AppPhase>)
        ensures
            r@ == seq![
                AppPhase::InitWindow,
                AppPhase::InitApi,
                AppPhase::MainLoop,
                AppPhase::Cleanup,
            ],
    {
        let mut phases: Vec<AppPhase> = Vec::new();
        phases.push(AppPhase::InitWindow);
        phases.push(AppPhase::InitApi);
        phases.push(AppPhase::MainLoop);
        phases.push(AppPhase::Cleanup);
        proof {
            assert(phases@ =~= seq![
                AppPhase::InitWindow,
                AppPhase::InitApi,
                AppPhase::MainLoop,
                AppPhase::Cleanup,
            ]);
        }
        phases
    }
}

} // verus!
