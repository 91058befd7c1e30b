//! Plain-value constants of the native graphics interface, and the small
//! pure helpers that pack version numbers and message-filter bit masks.
//!
//! The native interface fixes these values; the library states them once so
//! that the planning logic and its contracts can speak of them by name.

use vstd::prelude::*;

verus! {

/// Pixel format: four 8-bit channels, B/G/R/A order, sRGB encoded.
pub const VK_FORMAT_B8G8R8A8_SRGB: u32 = 50;

/// Colour space: non-linear sRGB.
pub const VK_COLOR_SPACE_SRGB_NONLINEAR_KHR: u32 = 0;

/// Present mode: triple-buffered low-latency presentation.
pub const VK_PRESENT_MODE_MAILBOX_KHR: u32 = 1;

/// Present mode: first-in first-out; the only mode guaranteed to exist.
pub const VK_PRESENT_MODE_FIFO_KHR: u32 = 2;

/// Sharing mode: images owned by one queue family at a time.
pub const VK_SHARING_MODE_EXCLUSIVE: u32 = 0;

/// Sharing mode: images shared between several queue families.
pub const VK_SHARING_MODE_CONCURRENT: u32 = 1;

/// Queue capability bit: the family supports graphics commands.
pub const VK_QUEUE_GRAPHICS_BIT: u32 = 1;

/// Image usage bit: the image may serve as a colour attachment.
pub const VK_IMAGE_USAGE_COLOR_ATTACHMENT_BIT: u32 = 16;

/// Composite-alpha bit: the surface is treated as opaque.
pub const VK_COMPOSITE_ALPHA_OPAQUE_BIT_KHR: u32 = 1;

/// Command-pool flag: command buffers may be reset individually.
pub const VK_COMMAND_POOL_CREATE_RESET_COMMAND_BUFFER_BIT: u32 = 2;

/// Fence flag: the fence starts in the signalled state.
pub const VK_FENCE_CREATE_SIGNALED_BIT: u32 = 1;

/// Pipeline stage bit: colour attachment output.
pub const VK_PIPELINE_STAGE_COLOR_ATTACHMENT_OUTPUT_BIT: u32 = 1024;

/// Access bit: writes to a colour attachment.
pub const VK_ACCESS_COLOR_ATTACHMENT_WRITE_BIT: u32 = 256;

/// The sentinel extent width by which a surface reports that its extent is
/// undefined and the swapchain extent must be chosen by the application.
pub const EXTENT_UNDEFINED: u32 = 0xFFFF_FFFF;

/// Attachment load operation: clear at the start of the pass.
pub const VK_ATTACHMENT_LOAD_OP_CLEAR: u32 = 1;

/// Attachment load operation: contents may be discarded.
pub const VK_ATTACHMENT_LOAD_OP_DONT_CARE: u32 = 2;

/// Attachment store operation: keep the rendered contents.
pub const VK_ATTACHMENT_STORE_OP_STORE: u32 = 0;

/// Attachment store operation: contents may be discarded.
pub const VK_ATTACHMENT_STORE_OP_DONT_CARE: u32 = 1;

/// Image layout: undefined, contents unspecified.
pub const VK_IMAGE_LAYOUT_UNDEFINED: u32 = 0;

/// Image layout: optimal for colour attachment writes.
pub const VK_IMAGE_LAYOUT_COLOR_ATTACHMENT_OPTIMAL: u32 = 2;

/// Image layout: ready for presentation.
pub const VK_IMAGE_LAYOUT_PRESENT_SRC_KHR: u32 = 1000001002;

/// Primitive topology: independent triangles.
pub const VK_PRIMITIVE_TOPOLOGY_TRIANGLE_LIST: u32 = 3;

/// Polygon mode: filled polygons.
pub const VK_POLYGON_MODE_FILL: u32 = 0;

/// Cull mode bit: back faces are culled.
pub const VK_CULL_MODE_BACK_BIT: u32 = 2;

/// Front-face convention: clockwise winding is the front.
pub const VK_FRONT_FACE_CLOCKWISE: u32 = 1;

/// Sample count bit: no multisampling.
pub const VK_SAMPLE_COUNT_1_BIT: u32 = 1;

/// Dynamic state: the viewport is set while recording.
pub const VK_DYNAMIC_STATE_VIEWPORT: u32 = 0;

/// Dynamic state: the scissor rectangle is set while recording.
pub const VK_DYNAMIC_STATE_SCISSOR: u32 = 1;

/// Colour component bit: red.
pub const VK_COLOR_COMPONENT_R_BIT: u32 = 1;

/// Colour component bit: green.
pub const VK_COLOR_COMPONENT_G_BIT: u32 = 2;

/// Colour component bit: blue.
pub const VK_COLOR_COMPONENT_B_BIT: u32 = 4;

/// Colour component bit: alpha.
pub const VK_COLOR_COMPONENT_A_BIT: u32 = 8;

/// Command-buffer level: primary, submitted directly to a queue.
pub const VK_COMMAND_BUFFER_LEVEL_PRIMARY: u32 = 0;

/// Pipeline bind point: the graphics pipeline.
pub const VK_PIPELINE_BIND_POINT_GRAPHICS: u32 = 0;

/// Subpass contents: commands recorded inline.
pub const VK_SUBPASS_CONTENTS_INLINE: u32 = 0;

/// Image view dimensionality: two-dimensional.
pub const VK_IMAGE_VIEW_TYPE_2D: u32 = 1;

/// Component swizzle: identity mapping.
pub const VK_COMPONENT_SWIZZLE_IDENTITY: u32 = 0;

/// Image aspect bit: the colour aspect.
pub const VK_IMAGE_ASPECT_COLOR_BIT: u32 = 1;

/// Severity classes of diagnostic messages.
#[derive(Clone, Copy, PartialEq, Eq, Structural, Debug)]
pub enum DebugMessageSeverity {
    Verbose,
    Info,
    Warning,
    Error,
}

impl DebugMessageSeverity {
    /// The bit the native interface assigns to this severity class.
    pub open spec fn spec_bits(self) -> u32 {
        match self {
            DebugMessageSeverity::Verbose => 0x1,
            DebugMessageSeverity::Info => 0x10,
            DebugMessageSeverity::Warning => 0x100,
            DebugMessageSeverity::Error => 0x1000,
        }
    }

    pub fn bits(self) -> (r: u32)
        ensures
            r == self.spec_bits(),
    {
        match self {
            DebugMessageSeverity::Verbose => 0x1,
            DebugMessageSeverity::Info => 0x10,
            DebugMessageSeverity::Warning => 0x100,
            DebugMessageSeverity::Error => 0x1000,
        }
    }
}

/// Kind classes of diagnostic messages.
#[derive(Clone, Copy, PartialEq, Eq, Structural, Debug)]
pub enum DebugMessageType {
    General,
    Validation,
    Performance,
}

impl DebugMessageType {
    /// The bit the native interface assigns to this message kind.
    pub open spec fn spec_bits(self) -> u32 {
        match self {
            DebugMessageType::General => 0x1,
            DebugMessageType::Validation => 0x2,
            DebugMessageType::Performance => 0x4,
        }
    }

    pub fn bits(self) -> (r: u32)
        ensures
            r == self.spec_bits(),
    {
        match self {
            DebugMessageType::General => 0x1,
            DebugMessageType::Validation => 0x2,
            DebugMessageType::Performance => 0x4,
        }
    }
}

/// Packs a version number the way the native interface lays it out: three
/// bits of variant, ten of major, ten of minor, twelve of patch.
#[allow(non_snake_case)]
pub fn VK_MAKE_API_VERSION(variant: u32, major: u32, minor: u32, patch: u32) -> (r: u32)
    ensures
        r == (variant << 29u32) | (major << 22u32) | (minor << 12u32) | patch,
{
    (variant << 29u32) | (major << 22u32) | (minor << 12u32) | patch
}

/// The packed version number of the interface revision this library plans
/// against: variant 0, version 1.0.0.
pub fn api_version_1_0() -> (r: u32)
    ensures
        r == (1u32 << 22u32),
{
    proof {
        assert(((0u32 << 29u32) | (1u32 << 22u32) | (0u32 << 12u32) | 0u32) == (1u32 << 22u32))
            by (bit_vector);
    }
    VK_MAKE_API_VERSION(0, 1, 0, 0)
}

/// Folds three severity classes into one message-filter mask.
pub fn vk_bit_message_severity(
    verbose: DebugMessageSeverity,
    warning: DebugMessageSeverity,
    error: DebugMessageSeverity,
) -> (r: u32)
    ensures
        r == verbose.spec_bits() | warning.spec_bits() | error.spec_bits(),
{
    verbose.bits() | warning.bits() | error.bits()
}

/// Folds three message kinds into one message-filter mask.
pub fn vk_bit_message_type(
    general: DebugMessageType,
    validation: DebugMessageType,
    performance: DebugMessageType,
) -> (r: u32)
    ensures
        r == general.spec_bits() | validation.spec_bits() | performance.spec_bits(),
{
    general.bits() | validation.bits() | performance.bits()
}

/// The name of the device extension that provides swapchains.
pub fn khr_swapchain_extension_name() -> (r: String)
    ensures
        r@ == "VK_KHR_swapchain"@,
{
    String::from_str("VK_KHR_swapchain")
}

/// The name of the instance extension that provides debug messengers.
pub fn ext_debug_utils_extension_name() -> (r: String)
    ensures
        r@ == "VK_EXT_debug_utils"@,
{
    String::from_str("VK_EXT_debug_utils")
}

/// The name of the standard validation layer.
pub fn khronos_validation_layer_name() -> (r: String)
    ensures
        r@ == "VK_LAYER_KHRONOS_validation"@,
{
    String::from_str("VK_LAYER_KHRONOS_validation")
}

} // verus!
