//! The configuration each creation step of the bring-up passes to the
//! native interface, as plain values.
//!
//! Every struct here mirrors one creation call of the graphics context.  The
//! planning functions fill them with the application's fixed choices; the
//! shell marshals them into the native structures verbatim.

use vstd::prelude::*;

use crate::host::Extent;
use crate::swapchain::{QueueCreateInfo, SwapSharing};
use crate::vk;

verus! {

/// Copies a list of names; used where one plan repeats the application's
/// configured layer or extension names.
pub fn clone_names(names: &Vec<String>) -> (r: Vec<String>)
    ensures
        r@ == names@,
{
    let mut copy: Vec<String> = Vec::new();
    let mut i: usize = 0;
    while i < names.len()
        invariant
            i <= names@.len(),
            copy@ == names@.take(i as int),
        decreases names@.len() - i,
    {
        copy.push(names[i].clone());
        proof {
            assert(copy@ =~= names@.take(i + 1));
        }
        i += 1;
    }
    proof {
        assert(names@.take(names@.len() as int) =~= names@);
    }
    copy
}

/// The message filter of the diagnostic messenger.
#[derive(Clone, Copy, PartialEq, Eq, Structural, Debug)]
pub struct DebugMessengerConfig {
    /// Mask of the severities reported.
    pub message_severity: u32,
    /// Mask of the message kinds reported.
    pub message_type: u32,
}

/// Fills the messenger filter the application always uses: verbose,
/// warning and error severities; general, validation and performance kinds.
pub fn populate_debug_messenger_create_info() -> (r: DebugMessengerConfig)
    ensures
        r.message_severity == vk::DebugMessageSeverity::Verbose.spec_bits()
            | vk::DebugMessageSeverity::Warning.spec_bits()
            | vk::DebugMessageSeverity::Error.spec_bits(),
        r.message_type == vk::DebugMessageType::General.spec_bits()
            | vk::DebugMessageType::Validation.spec_bits()
            | vk::DebugMessageType::Performance.spec_bits(),
{
    let message_severity = vk::vk_bit_message_severity(
        vk::DebugMessageSeverity::Verbose,
        vk::DebugMessageSeverity::Warning,
        vk::DebugMessageSeverity::Error,
    );
    let message_type = vk::vk_bit_message_type(
        vk::DebugMessageType::General,
        vk::DebugMessageType::Validation,
        vk::DebugMessageType::Performance,
    );
    DebugMessengerConfig { message_severity, message_type }
}

/// How the messenger setup ends.  The one graceful-degradation path of
/// the whole bring-up lives here: an absent extension is tolerated, a
/// present but failing creation call is not.
#[derive(Clone, Copy, PartialEq, Eq, Structural, Debug)]
pub enum MessengerSetup {
    /// The creation function could not be resolved: the extension is not
    /// present, and the application continues without a messenger.
    SkippedNotPresent,
    /// The messenger was created.
    Installed,
    /// The creation function exists but its call failed: fatal.
    Fatal,
}

/// Classifies the messenger setup from what the instance answered: whether
/// the creation function could be resolved, and whether its call (if made)
/// succeeded.
pub fn classify_messenger_setup(function_present: bool, call_succeeded: bool) -> (r:
    MessengerSetup)
    ensures
        r == (if !function_present {
            MessengerSetup::SkippedNotPresent
        } else if call_succeeded {
            MessengerSetup::Installed
        } else {
            MessengerSetup::Fatal
        }),
{
    if !function_present {
        MessengerSetup::SkippedNotPresent
    } else if call_succeeded {
        MessengerSetup::Installed
    } else {
        MessengerSetup::Fatal
    }
}

/// Everything the instance-creation call needs.
#[derive(Clone, PartialEq, Debug)]
pub struct InstanceConfig {
    pub app_name: String,
    pub engine_name: String,
    pub application_version: u32,
    pub engine_version: u32,
    pub api_version: u32,
    /// Instance extensions to enable.
    pub extensions: Vec<String>,
    /// Instance layers to enable; empty when diagnostics are off.
    pub layers: Vec<String>,
    /// Present exactly when diagnostics are on, so that instance creation
    /// and destruction are covered by the messenger.
    pub debug_messenger: Option<DebugMessengerConfig>,
}

/// The instance extensions to request: what the windowing library requires,
/// plus the debug-utils extension when diagnostics are on.
pub fn required_instance_extensions(window_extensions: &Vec<String>, validation: bool) -> (r: Vec<
    String,
>)
    ensures
        r@.len() == window_extensions@.len() + (if validation {
            1int
        } else {
            0int
        }),
        forall|i: int| 0 <= i < window_extensions@.len() ==> r@[i] == window_extensions@[i],
        validation ==> r@[window_extensions@.len() as int]@ == "VK_EXT_debug_utils"@,
{
    let mut extensions = clone_names(window_extensions);
    if validation {
        extensions.push(vk::ext_debug_utils_extension_name());
    }
    extensions
}

/// The instance configuration the application always plans: fixed
/// identity, the windowing library's extensions plus the debug-utils
/// extension with diagnostics on, and the validation layers exactly when
/// diagnostics are on.
pub open spec fn instance_config_matches(
    c: InstanceConfig,
    requested_layers: Seq<String>,
    window_extensions: Seq<String>,
    validation: bool,
) -> bool {
    &&& c.app_name@ == "Hello Triangle"@
    &&& c.engine_name@ == "Oito-Caneco"@
    &&& c.application_version == (1u32 << 22u32)
    &&& c.engine_version == (1u32 << 22u32)
    &&& c.api_version == (1u32 << 22u32)
    &&& c.extensions@.len() == window_extensions.len() + (if validation {
        1int
    } else {
        0int
    })
    &&& (forall|i: int| 0 <= i < window_extensions.len() ==> c.extensions@[i] == window_extensions[i])
    &&& (validation ==> c.extensions@[window_extensions.len() as int]@ == "VK_EXT_debug_utils"@)
    &&& c.layers@ == (if validation {
        requested_layers
    } else {
        Seq::<String>::empty()
    })
    &&& (c.debug_messenger is Some <==> validation)
    &&& (c.debug_messenger matches Some(m) ==> m == populate_spec())
}

/// Plans the instance: fixed application and engine identity, the required
/// extensions, and — only with diagnostics on — the validation layers and a
/// messenger for the creation call itself.
pub fn plan_instance(
    requested_layers: &Vec<String>,
    window_extensions: &Vec<String>,
    validation: bool,
) -> (r: InstanceConfig)
    ensures
        instance_config_matches(r, requested_layers@, window_extensions@, validation),
{
    let extensions = required_instance_extensions(window_extensions, validation);
    let layers: Vec<String> = if validation {
        clone_names(requested_layers)
    } else {
        Vec::new()
    };
    let debug_messenger: Option<DebugMessengerConfig> = if validation {
        Some(populate_debug_messenger_create_info())
    } else {
        None
    };
    proof {
        if !validation {
            assert(layers@ =~= Seq::<String>::empty());
        }
    }
    InstanceConfig {
        app_name: String::from_str("Hello Triangle"),
        engine_name: String::from_str("Oito-Caneco"),
        application_version: vk::api_version_1_0(),
        engine_version: vk::api_version_1_0(),
        api_version: vk::api_version_1_0(),
        extensions,
        layers,
        debug_messenger,
    }
}

/// The messenger filter the application always uses, as a value.
pub open spec fn populate_spec() -> DebugMessengerConfig {
    DebugMessengerConfig {
        message_severity: vk::DebugMessageSeverity::Verbose.spec_bits()
            | vk::DebugMessageSeverity::Warning.spec_bits()
            | vk::DebugMessageSeverity::Error.spec_bits(),
        message_type: vk::DebugMessageType::General.spec_bits()
            | vk::DebugMessageType::Validation.spec_bits()
            | vk::DebugMessageType::Performance.spec_bits(),
    }
}

/// Everything the logical-device creation call needs.
#[derive(Clone, PartialEq, Debug)]
pub struct DeviceConfig {
    /// One entry per distinct queue family.
    pub queue_create_infos: Vec<QueueCreateInfo>,
    /// Device-level layers; mirror the instance layers when diagnostics are
    /// on, for older drivers that still read them.
    pub layers: Vec<String>,
    /// Device extensions to enable.
    pub extensions: Vec<String>,
}

/// The device configuration the application always plans: one queue per
/// distinct discovered family, the required device extensions, and the
/// validation layers exactly when diagnostics are on.
pub open spec fn device_config_matches(
    c: DeviceConfig,
    graphics_family: u32,
    present_family: u32,
    requested_layers: Seq<String>,
    device_extensions: Seq<String>,
    validation: bool,
) -> bool {
    &&& (graphics_family == present_family ==> c.queue_create_infos@ == seq![
        (QueueCreateInfo { queue_family_index: graphics_family, queue_count: 1 }),
    ])
    &&& (graphics_family != present_family ==> c.queue_create_infos@ == seq![
        (QueueCreateInfo { queue_family_index: graphics_family, queue_count: 1 }),
        (QueueCreateInfo { queue_family_index: present_family, queue_count: 1 }),
    ])
    &&& c.layers@ == (if validation {
        requested_layers
    } else {
        Seq::<String>::empty()
    })
    &&& c.extensions@ == device_extensions
}

/// Plans the logical device: one queue per distinct discovered family, the
/// required device extensions, and the validation layers when diagnostics
/// are on.
pub fn plan_logical_device(
    graphics_family: u32,
    present_family: u32,
    requested_layers: &Vec<String>,
    device_extensions: &Vec<String>,
    validation: bool,
) -> (r: DeviceConfig)
    ensures
        device_config_matches(
            r,
            graphics_family,
            present_family,
            requested_layers@,
            device_extensions@,
            validation,
        ),
{
    let queue_create_infos = crate::swapchain::make_queue_create_infos(
        graphics_family,
        present_family,
    );
    let layers: Vec<String> = if validation {
        clone_names(requested_layers)
    } else {
        Vec::new()
    };
    proof {
        if !validation {
            assert(layers@ =~= Seq::<String>::empty());
        }
    }
    DeviceConfig { queue_create_infos, layers, extensions: clone_names(device_extensions) }
}

/// Everything the swapchain creation call needs.
#[derive(Clone, PartialEq, Debug)]
pub struct SwapchainConfig {
    pub min_image_count: u32,
    pub image_format: u32,
    pub image_color_space: u32,
    pub image_extent: Extent,
    pub image_array_layers: u32,
    pub image_usage: u32,
    pub sharing: SwapSharing,
    pub pre_transform: u32,
    pub composite_alpha: u32,
    pub present_mode: u32,
    pub clipped: bool,
}

/// The swapchain configuration the application always plans over one
/// device's surface support: the chosen format, present mode, extent and
/// image count, single-layer colour-attachment images, the surface's
/// current transform, opaque compositing, clipping on, and sharing decided
/// by whether the two queue-family roles coincide.
pub open spec fn swapchain_config_matches(
    c: SwapchainConfig,
    support: crate::host::SwapChainSupportDetails,
    framebuffer: Extent,
    graphics_family: u32,
    present_family: u32,
) -> bool {
    &&& c.min_image_count == crate::swapchain::chosen_image_count(support.capabilities)
    &&& c.image_format == crate::swapchain::chosen_surface_format(support.formats@).format
    &&& c.image_color_space == crate::swapchain::chosen_surface_format(
        support.formats@,
    ).color_space
    &&& c.image_extent == crate::swapchain::chosen_extent(support.capabilities, framebuffer)
    &&& c.image_array_layers == 1
    &&& c.image_usage == vk::VK_IMAGE_USAGE_COLOR_ATTACHMENT_BIT
    &&& (graphics_family == present_family ==> c.sharing.mode == vk::VK_SHARING_MODE_EXCLUSIVE
        && c.sharing.family_indices@ == Seq::<u32>::empty())
    &&& (graphics_family != present_family ==> c.sharing.mode == vk::VK_SHARING_MODE_CONCURRENT
        && c.sharing.family_indices@ == seq![graphics_family, present_family])
    &&& c.pre_transform == support.capabilities.current_transform
    &&& c.composite_alpha == vk::VK_COMPOSITE_ALPHA_OPAQUE_BIT_KHR
    &&& c.present_mode == crate::swapchain::chosen_present_mode(support.present_modes@)
    &&& c.clipped
}

/// Plans the swapchain from the selected device's surface support, the
/// live framebuffer size and the two discovered queue-family roles.
pub fn plan_swap_chain(
    support: &crate::host::SwapChainSupportDetails,
    framebuffer: Extent,
    graphics_family: u32,
    present_family: u32,
) -> (r: SwapchainConfig)
    requires
        support.capabilities.well_formed(),
        support.formats@.len() > 0,
    ensures
        swapchain_config_matches(r, *support, framebuffer, graphics_family, present_family),
{
    let surface_format = crate::swapchain::choose_swap_surface_format(&support.formats);
    let present_mode = crate::swapchain::choose_swap_present_mode(&support.present_modes);
    let image_extent = crate::swapchain::choose_swap_extent(&support.capabilities, framebuffer);
    let min_image_count = crate::swapchain::choose_image_count(&support.capabilities);
    let sharing = crate::swapchain::plan_swap_sharing(graphics_family, present_family);
    SwapchainConfig {
        min_image_count,
        image_format: surface_format.format,
        image_color_space: surface_format.color_space,
        image_extent,
        image_array_layers: 1,
        image_usage: vk::VK_IMAGE_USAGE_COLOR_ATTACHMENT_BIT,
        sharing,
        pre_transform: support.capabilities.current_transform,
        composite_alpha: vk::VK_COMPOSITE_ALPHA_OPAQUE_BIT_KHR,
        present_mode,
        clipped: true,
    }
}

/// Everything one image-view creation call needs beyond the fixed shape:
/// the image it views and the swapchain's format.  The view is always
/// two-dimensional, identity-swizzled, and covers the single colour mip.
#[derive(Clone, Copy, PartialEq, Eq, Structural, Debug)]
pub struct ImageViewConfig {
    pub image: u64,
    pub format: u32,
}

/// Plans one image view per swapchain image, in image order.
pub fn plan_image_views(images: &Vec<u64>, format: u32) -> (r: Vec<ImageViewConfig>)
    ensures
        r@.len() == images@.len(),
        forall|i: int|
            0 <= i < images@.len() ==> #[trigger] r@[i] == (ImageViewConfig {
                image: images@[i],
                format,
            }),
{
    let mut views: Vec<ImageViewConfig> = Vec::new();
    let mut i: usize = 0;
    while i < images.len()
        invariant
            i <= images@.len(),
            views@.len() == i,
            forall|j: int|
                0 <= j < i ==> #[trigger] views@[j] == (ImageViewConfig {
                    image: images@[j],
                    format,
                }),
        decreases images@.len() - i,
    {
        views.push(ImageViewConfig { image: images[i], format });
        i += 1;
    }
    views
}

/// Everything the render-pass creation call needs: one colour attachment,
/// one subpass, one external dependency.
#[derive(Clone, Copy, PartialEq, Eq, Structural, Debug)]
pub struct RenderPassConfig {
    /// Format of the single colour attachment.
    pub attachment_format: u32,
    pub samples: u32,
    pub load_op: u32,
    pub store_op: u32,
    pub stencil_load_op: u32,
    pub stencil_store_op: u32,
    pub initial_layout: u32,
    pub final_layout: u32,
    /// Layout of the attachment during the single subpass.
    pub subpass_attachment_layout: u32,
    /// The dependency that orders the external colour-output stage before
    /// the subpass's colour writes.
    pub dependency_src_stage_mask: u32,
    pub dependency_dst_stage_mask: u32,
    pub dependency_dst_access_mask: u32,
}

/// The render pass the application always plans over a given format.
pub open spec fn render_pass_config(image_format: u32) -> RenderPassConfig {
    RenderPassConfig {
        attachment_format: image_format,
        samples: vk::VK_SAMPLE_COUNT_1_BIT,
        load_op: vk::VK_ATTACHMENT_LOAD_OP_CLEAR,
        store_op: vk::VK_ATTACHMENT_STORE_OP_STORE,
        stencil_load_op: vk::VK_ATTACHMENT_LOAD_OP_DONT_CARE,
        stencil_store_op: vk::VK_ATTACHMENT_STORE_OP_DONT_CARE,
        initial_layout: vk::VK_IMAGE_LAYOUT_UNDEFINED,
        final_layout: vk::VK_IMAGE_LAYOUT_PRESENT_SRC_KHR,
        subpass_attachment_layout: vk::VK_IMAGE_LAYOUT_COLOR_ATTACHMENT_OPTIMAL,
        dependency_src_stage_mask: vk::VK_PIPELINE_STAGE_COLOR_ATTACHMENT_OUTPUT_BIT,
        dependency_dst_stage_mask: vk::VK_PIPELINE_STAGE_COLOR_ATTACHMENT_OUTPUT_BIT,
        dependency_dst_access_mask: vk::VK_ACCESS_COLOR_ATTACHMENT_WRITE_BIT,
    }
}

/// Plans the fixed render pass over the swapchain's format: clear on load,
/// store on finish, presentable at the end.
pub fn plan_render_pass(image_format: u32) -> (r: RenderPassConfig)
    ensures
        r == render_pass_config(image_format),
{
    RenderPassConfig {
        attachment_format: image_format,
        samples: vk::VK_SAMPLE_COUNT_1_BIT,
        load_op: vk::VK_ATTACHMENT_LOAD_OP_CLEAR,
        store_op: vk::VK_ATTACHMENT_STORE_OP_STORE,
        stencil_load_op: vk::VK_ATTACHMENT_LOAD_OP_DONT_CARE,
        stencil_store_op: vk::VK_ATTACHMENT_STORE_OP_DONT_CARE,
        initial_layout: vk::VK_IMAGE_LAYOUT_UNDEFINED,
        final_layout: vk::VK_IMAGE_LAYOUT_PRESENT_SRC_KHR,
        subpass_attachment_layout: vk::VK_IMAGE_LAYOUT_COLOR_ATTACHMENT_OPTIMAL,
        dependency_src_stage_mask: vk::VK_PIPELINE_STAGE_COLOR_ATTACHMENT_OUTPUT_BIT,
        dependency_dst_stage_mask: vk::VK_PIPELINE_STAGE_COLOR_ATTACHMENT_OUTPUT_BIT,
        dependency_dst_access_mask: vk::VK_ACCESS_COLOR_ATTACHMENT_WRITE_BIT,
    }
}

/// Everything the pipeline creation call decides beyond its fixed shape.
/// Depth bounds, line width and blend constants are fixed fractional values
/// the shell supplies verbatim.
#[derive(Clone, PartialEq, Debug)]
pub struct PipelineConfig {
    /// Path of the compiled vertex shader.
    pub vert_shader_path: String,
    /// Path of the compiled fragment shader.
    pub frag_shader_path: String,
    /// Entry point of both shader stages.
    pub entry_point: String,
    pub topology: u32,
    pub primitive_restart: bool,
    /// Viewport and scissor cover the whole swapchain extent.
    pub viewport_extent: Extent,
    pub polygon_mode: u32,
    pub cull_mode: u32,
    pub front_face: u32,
    pub sample_count: u32,
    pub blend_enable: bool,
    pub color_write_mask: u32,
    /// The states left dynamic, set while recording each frame.
    pub dynamic_states: Vec<u32>,
}

/// The pipeline configuration the application always plans over a given
/// extent.
pub open spec fn pipeline_config_matches(c: PipelineConfig, extent: Extent) -> bool {
    &&& c.vert_shader_path@ == "src/shaders/shader.vert.spv"@
    &&& c.frag_shader_path@ == "src/shaders/shader.frag.spv"@
    &&& c.entry_point@ == "main"@
    &&& c.topology == vk::VK_PRIMITIVE_TOPOLOGY_TRIANGLE_LIST
    &&& !c.primitive_restart
    &&& c.viewport_extent == extent
    &&& c.polygon_mode == vk::VK_POLYGON_MODE_FILL
    &&& c.cull_mode == vk::VK_CULL_MODE_BACK_BIT
    &&& c.front_face == vk::VK_FRONT_FACE_CLOCKWISE
    &&& c.sample_count == vk::VK_SAMPLE_COUNT_1_BIT
    &&& !c.blend_enable
    &&& c.color_write_mask == (vk::VK_COLOR_COMPONENT_R_BIT | vk::VK_COLOR_COMPONENT_G_BIT
        | vk::VK_COLOR_COMPONENT_B_BIT | vk::VK_COLOR_COMPONENT_A_BIT)
    &&& c.dynamic_states@ == seq![vk::VK_DYNAMIC_STATE_VIEWPORT, vk::VK_DYNAMIC_STATE_SCISSOR]
}

/// Plans the fixed triangle pipeline over the swapchain extent: the two
/// precompiled shaders, filled back-culled clockwise triangles, no
/// multisampling, no blending, viewport and scissor dynamic.
pub fn plan_graphics_pipeline(extent: Extent) -> (r: PipelineConfig)
    ensures
        pipeline_config_matches(r, extent),
{
    let mut dynamic_states: Vec<u32> = Vec::new();
    dynamic_states.push(vk::VK_DYNAMIC_STATE_VIEWPORT);
    dynamic_states.push(vk::VK_DYNAMIC_STATE_SCISSOR);
    proof {
        assert(dynamic_states@ =~= seq![
            vk::VK_DYNAMIC_STATE_VIEWPORT,
            vk::VK_DYNAMIC_STATE_SCISSOR,
        ]);
    }
    PipelineConfig {
        vert_shader_path: String::from_str("src/shaders/shader.vert.spv"),
        frag_shader_path: String::from_str("src/shaders/shader.frag.spv"),
        entry_point: String::from_str("main"),
        topology: vk::VK_PRIMITIVE_TOPOLOGY_TRIANGLE_LIST,
        primitive_restart: false,
        viewport_extent: extent,
        polygon_mode: vk::VK_POLYGON_MODE_FILL,
        cull_mode: vk::VK_CULL_MODE_BACK_BIT,
        front_face: vk::VK_FRONT_FACE_CLOCKWISE,
        sample_count: vk::VK_SAMPLE_COUNT_1_BIT,
        blend_enable: false,
        color_write_mask: vk::VK_COLOR_COMPONENT_R_BIT | vk::VK_COLOR_COMPONENT_G_BIT
            | vk::VK_COLOR_COMPONENT_B_BIT | vk::VK_COLOR_COMPONENT_A_BIT,
        dynamic_states,
    }
}

/// Everything one framebuffer creation call needs: the image view it wraps
/// and the swapchain extent.
#[derive(Clone, Copy, PartialEq, Eq, Structural, Debug)]
pub struct FramebufferConfig {
    /// The single colour attachment, an image-view handle.
    pub attachment: u64,
    pub width: u32,
    pub height: u32,
    pub layers: u32,
}

/// Plans one framebuffer per image view, each over the full extent.
pub fn plan_framebuffers(image_views: &Vec<u64>, extent: Extent) -> (r: Vec<FramebufferConfig>)
    ensures
        r@.len() == image_views@.len(),
        forall|i: int|
            0 <= i < image_views@.len() ==> #[trigger] r@[i] == (FramebufferConfig {
                attachment: image_views@[i],
                width: extent.width,
                height: extent.height,
                layers: 1,
            }),
{
    let mut framebuffers: Vec<FramebufferConfig> = Vec::new();
    let mut i: usize = 0;
    while i < image_views.len()
        invariant
            i <= image_views@.len(),
            framebuffers@.len() == i,
            forall|j: int|
                0 <= j < i ==> #[trigger] framebuffers@[j] == (FramebufferConfig {
                    attachment: image_views@[j],
                    width: extent.width,
                    height: extent.height,
                    layers: 1,
                }),
        decreases image_views@.len() - i,
    {
        framebuffers.push(
            FramebufferConfig {
                attachment: image_views[i],
                width: extent.width,
                height: extent.height,
                layers: 1,
            },
        );
        i += 1;
    }
    framebuffers
}

/// Everything the command-pool creation call needs.
#[derive(Clone, Copy, PartialEq, Eq, Structural, Debug)]
pub struct CommandPoolConfig {
    pub flags: u32,
    pub queue_family_index: u32,
}

/// Plans the command pool on the graphics family, with individually
/// resettable command buffers.
pub fn plan_command_pool(graphics_family: u32) -> (r: CommandPoolConfig)
    ensures
        r == (CommandPoolConfig {
            flags: vk::VK_COMMAND_POOL_CREATE_RESET_COMMAND_BUFFER_BIT,
            queue_family_index: graphics_family,
        }),
{
    CommandPoolConfig {
        flags: vk::VK_COMMAND_POOL_CREATE_RESET_COMMAND_BUFFER_BIT,
        queue_family_index: graphics_family,
    }
}

/// Everything the command-buffer allocation call needs.
#[derive(Clone, Copy, PartialEq, Eq, Structural, Debug)]
pub struct CommandBufferConfig {
    pub level: u32,
    pub count: u32,
}

/// Plans the single primary command buffer.
pub fn plan_command_buffer() -> (r: CommandBufferConfig)
    ensures
        r == (CommandBufferConfig { level: vk::VK_COMMAND_BUFFER_LEVEL_PRIMARY, count: 1 }),
{
    CommandBufferConfig { level: vk::VK_COMMAND_BUFFER_LEVEL_PRIMARY, count: 1 }
}

/// Everything the synchronisation-object creation calls need: two plain
/// semaphores and one fence.
#[derive(Clone, Copy, PartialEq, Eq, Structural, Debug)]
pub struct SyncObjectsConfig {
    /// The in-flight fence starts signalled so the first frame's wait
    /// returns at once.
    pub fence_start_signaled: bool,
}

/// Plans the per-frame synchronisation objects.
pub fn plan_sync_objects() -> (r: SyncObjectsConfig)
    ensures
        r == (SyncObjectsConfig { fence_start_signaled: true }),
{
    SyncObjectsConfig { fence_start_signaled: true }
}

} // verus!
