//! The bring-up sequencer: from one host snapshot to either a complete
//! plan for every creation step of the graphics context, or the reason the
//! bring-up is refused before any native object is created.

use vstd::prelude::*;

use crate::host::HostSnapshot;
use crate::plans::{
    instance_config_matches, device_config_matches, pipeline_config_matches, render_pass_config,
    swapchain_config_matches, CommandBufferConfig, CommandPoolConfig, DeviceConfig,
    InstanceConfig, PipelineConfig, RenderPassConfig, SwapchainConfig, SyncObjectsConfig,
};
use crate::queue_families::{discovered_queue_families, lemma_scan_finds_families};
use crate::support::{
    all_names_listed, device_suitable, lemma_picked_device_first_suitable, picked_device,
};
use crate::vk;

verus! {

/// Why a bring-up is refused.  Every failure is fatal: the application
/// reports the failing step and aborts, creating nothing.
#[derive(Clone, Copy, PartialEq, Eq, Structural, Debug)]
pub enum BringUpError {
    /// Diagnostics are on and at least one requested validation layer is
    /// not among the layers the host offers.
    ValidationLayersUnavailable,
    /// No enumerated physical device satisfies the suitability predicate.
    NoSuitableDevice,
    /// The selected backend has no working implementation.
    UnsupportedBackend,
}

/// The complete plan of a successful bring-up: one configuration per
/// creation step, in creation order.  The image views and framebuffers are
/// planned separately once the created swapchain has handed its images
/// back.
#[derive(Clone, PartialEq, Debug)]
pub struct BringUpPlan {
    /// Whether diagnostics (validation layers, debug messenger) are on.
    pub validation_enabled: bool,
    pub instance: InstanceConfig,
    /// Index of the selected device in the snapshot's enumeration order.
    pub device_index: usize,
    /// The discovered graphics queue family of the selected device.
    pub graphics_family: u32,
    /// The discovered present queue family; may equal `graphics_family`.
    pub present_family: u32,
    pub device: DeviceConfig,
    pub swapchain: SwapchainConfig,
    pub render_pass: RenderPassConfig,
    pub pipeline: PipelineConfig,
    pub command_pool: CommandPoolConfig,
    pub command_buffer: CommandBufferConfig,
    pub sync: SyncObjectsConfig,
}

/// Diagnostics are on but some requested layer is missing: the one
/// condition that refuses a bring-up before device selection.
pub open spec fn validation_blocked(requested_layers: Seq<String>, host: HostSnapshot) -> bool {
    host.validation_enabled && !all_names_listed(requested_layers, host.available_layers@)
}

/// Every part of a returned plan agrees with the snapshot it was planned
/// from and with the application's fixed choices.
pub open spec fn bring_up_plan_matches(
    plan: BringUpPlan,
    requested_layers: Seq<String>,
    device_extensions: Seq<String>,
    host: HostSnapshot,
) -> bool {
    let device = host.devices@[plan.device_index as int];
    &&& plan.validation_enabled == host.validation_enabled
    &&& picked_device(host.devices@, device_extensions) == Some(plan.device_index as int)
    &&& plan.device_index < host.devices@.len()
    &&& device_suitable(device, device_extensions)
    &&& Some(plan.graphics_family) == discovered_queue_families(device.queue_families@).0
    &&& Some(plan.present_family) == discovered_queue_families(device.queue_families@).1
    &&& instance_config_matches(
        plan.instance,
        requested_layers,
        host.window_extensions@,
        host.validation_enabled,
    )
    &&& device_config_matches(
        plan.device,
        plan.graphics_family,
        plan.present_family,
        requested_layers,
        device_extensions,
        host.validation_enabled,
    )
    &&& swapchain_config_matches(
        plan.swapchain,
        device.swap_chain,
        host.framebuffer_extent,
        plan.graphics_family,
        plan.present_family,
    )
    &&& plan.render_pass == render_pass_config(plan.swapchain.image_format)
    &&& pipeline_config_matches(plan.pipeline, plan.swapchain.image_extent)
    &&& plan.command_pool == (CommandPoolConfig {
        flags: vk::VK_COMMAND_POOL_CREATE_RESET_COMMAND_BUFFER_BIT,
        queue_family_index: plan.graphics_family,
    })
    &&& plan.command_buffer == (CommandBufferConfig {
        level: vk::VK_COMMAND_BUFFER_LEVEL_PRIMARY,
        count: 1,
    })
    &&& plan.sync == (SyncObjectsConfig { fence_start_signaled: true })
}

/// Plans the whole bring-up from one host snapshot.
///
/// The layer check comes first: when diagnostics are on and a requested
/// layer is missing, the bring-up is refused with nothing planned and
/// nothing created.  Then the first suitable device is selected; if none
/// qualifies the bring-up is refused as well.  Otherwise every creation
/// step is planned from the selected device's snapshot.
pub fn plan_bring_up(
    requested_layers: &Vec<String>,
    device_extensions: &Vec<String>,
    host: &HostSnapshot,
) -> (r: Result<BringUpPlan, BringUpError>)
    requires
        host.well_formed(),
    ensures
        r == Err::<BringUpPlan, BringUpError>(BringUpError::ValidationLayersUnavailable)
            <==> validation_blocked(requested_layers@, *host),
        !validation_blocked(requested_layers@, *host) ==> (r == Err::<
            BringUpPlan,
            BringUpError,
        >(BringUpError::NoSuitableDevice) <==> picked_device(
            host.devices@,
            device_extensions@,
        ) is None),
        r is Ok <==> (!validation_blocked(requested_layers@, *host) && picked_device(
            host.devices@,
            device_extensions@,
        ) is Some),
        r matches Ok(plan) ==> bring_up_plan_matches(
            plan,
            requested_layers@,
            device_extensions@,
            *host,
        ),
{
    if host.validation_enabled && !crate::support::check_validation_layer_support(
        requested_layers,
        &host.available_layers,
    ) {
        return Err(BringUpError::ValidationLayersUnavailable);
    }
    proof {
        lemma_picked_device_first_suitable(host.devices@, device_extensions@);
    }
    let picked = crate::support::pick_physical_device(&host.devices, device_extensions);
    let device_index: usize = match picked {
        Some(i) => i,
        None => {
            return Err(BringUpError::NoSuitableDevice);
        },
    };
    let device_info = &host.devices[device_index];
    proof {
        lemma_scan_finds_families(device_info.queue_families@);
    }
    let indices = crate::queue_families::find_queue_families(&device_info.queue_families);
    let graphics_family = indices.get_graphics_family();
    let present_family = indices.get_present_family();
    let instance = crate::plans::plan_instance(
        requested_layers,
        &host.window_extensions,
        host.validation_enabled,
    );
    let device = crate::plans::plan_logical_device(
        graphics_family,
        present_family,
        requested_layers,
        device_extensions,
        host.validation_enabled,
    );
    let swapchain = crate::plans::plan_swap_chain(
        &device_info.swap_chain,
        host.framebuffer_extent,
        graphics_family,
        present_family,
    );
    let render_pass = crate::plans::plan_render_pass(swapchain.image_format);
    let pipeline = crate::plans::plan_graphics_pipeline(swapchain.image_extent);
    let command_pool = crate::plans::plan_command_pool(graphics_family);
    let command_buffer = crate::plans::plan_command_buffer();
    let sync = crate::plans::plan_sync_objects();
    Ok(
        BringUpPlan {
            validation_enabled: host.validation_enabled,
            instance,
            device_index,
            graphics_family,
            present_family,
            device,
            swapchain,
            render_pass,
            pipeline,
            command_pool,
            command_buffer,
            sync,
        },
    )
}

/// A launch with no validation layers requested, against a host with at
/// least one suitable device, is never refused: the layer check passes
/// vacuously and device selection finds a device.  Together with the
/// frame-trace ordering this carries such a launch to the render loop and
/// through an acquire, submit and present cycle.
pub proof fn lemma_bring_up_unblocked(
    requested_layers: Seq<String>,
    device_extensions: Seq<String>,
    host: HostSnapshot,
)
    requires
        requested_layers.len() == 0,
        exists|i: int|
            0 <= i < host.devices@.len() && device_suitable(
                #[trigger] host.devices@[i],
                device_extensions,
            ),
    ensures
        !validation_blocked(requested_layers, host),
        picked_device(host.devices@, device_extensions) is Some,
{
    assert(all_names_listed(requested_layers, host.available_layers@));
    lemma_picked_device_first_suitable(host.devices@, device_extensions);
    if picked_device(host.devices@, device_extensions) is None {
        let i = choose|i: int|
            0 <= i < host.devices@.len() && device_suitable(
                #[trigger] host.devices@[i],
                device_extensions,
            );
        assert(!device_suitable(host.devices@[i], device_extensions));
    }
}

} // verus!
