//! Plain-value snapshots of what the windowing and graphics drivers report.
//!
//! The shell enumerates layers, devices, queue families and surface support
//! through the native interfaces and fills these records; the planning logic
//! reads them and never touches a native handle itself.

use vstd::prelude::*;

verus! {

/// A two-dimensional pixel extent.
#[derive(Clone, Copy, PartialEq, Eq, Structural, Debug)]
pub struct Extent {
    pub width: u32,
    pub height: u32,
}

/// One surface format the device can present: a pixel format paired with a
/// colour space, both as the native interface's enumeration values.
#[derive(Clone, Copy, PartialEq, Eq, Structural, Debug)]
pub struct SurfaceFormat {
    pub format: u32,
    pub color_space: u32,
}

/// The capabilities a surface reports for swapchain creation.
#[derive(Clone, Copy, PartialEq, Eq, Structural, Debug)]
pub struct SurfaceCaps {
    /// Fewest images a swapchain on this surface may hold.
    pub min_image_count: u32,
    /// Most images a swapchain may hold; zero means no upper bound.
    pub max_image_count: u32,
    /// The surface's current extent; a width of `EXTENT_UNDEFINED` means the
    /// extent is up to the application.
    pub current_extent: Extent,
    /// Smallest extent the surface accepts.
    pub min_image_extent: Extent,
    /// Largest extent the surface accepts.
    pub max_image_extent: Extent,
    /// The transform currently applied to the surface.
    pub current_transform: u32,
}

impl SurfaceCaps {
    /// The bounds reported by a real driver are ordered and leave room for
    /// one image above the minimum count.
    pub open spec fn well_formed(self) -> bool {
        &&& self.min_image_count < u32::MAX
        &&& self.min_image_extent.width <= self.max_image_extent.width
        &&& self.min_image_extent.height <= self.max_image_extent.height
    }
}

/// What one queue family of a device supports, with presentation judged
/// against the surface the snapshot was taken for.
#[derive(Clone, Copy, PartialEq, Eq, Structural, Debug)]
pub struct QueueFamily {
    pub supports_graphics: bool,
    pub supports_present: bool,
}

/// Everything the swapchain planner needs to know about one surface as seen
/// from one device: capabilities, formats and present modes.
#[derive(Clone, PartialEq, Debug)]
pub struct SwapChainSupportDetails {
    pub capabilities: SurfaceCaps,
    pub formats: Vec<SurfaceFormat>,
    pub present_modes: Vec<u32>,
}

/// One enumerated physical device, reduced to the facts the suitability
/// predicate and the swapchain planner read.
#[derive(Clone, PartialEq, Debug)]
pub struct PhysicalDeviceInfo {
    /// The device's queue families, in enumeration order.
    pub queue_families: Vec<QueueFamily>,
    /// The names of the device extensions the device reports.
    pub extensions: Vec<String>,
    /// Surface support as queried from this device.
    pub swap_chain: SwapChainSupportDetails,
}

impl PhysicalDeviceInfo {
    pub open spec fn well_formed(self) -> bool {
        &&& self.swap_chain.capabilities.well_formed()
        &&& self.queue_families@.len() <= u32::MAX
    }
}

/// One snapshot of the host: everything the bring-up planner consumes.
#[derive(Clone, PartialEq, Debug)]
pub struct HostSnapshot {
    /// Whether diagnostics are enabled, and with them validation layers and
    /// the debug messenger.
    pub validation_enabled: bool,
    /// The names of the instance layers the host offers.
    pub available_layers: Vec<String>,
    /// The instance extensions the windowing library requires.
    pub window_extensions: Vec<String>,
    /// The enumerated physical devices.
    pub devices: Vec<PhysicalDeviceInfo>,
    /// The window's framebuffer size in pixels, used when the surface leaves
    /// the extent to the application.
    pub framebuffer_extent: Extent,
}

impl HostSnapshot {
    pub open spec fn well_formed(self) -> bool {
        forall|i: int| 0 <= i < self.devices@.len() ==> (#[trigger] self.devices@[i]).well_formed()
    }
}

} // verus!
