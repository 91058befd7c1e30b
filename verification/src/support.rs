//! Name matching and device suitability.
//!
//! Layer and extension support is decided by exact string match against the
//! enumerated name lists; a physical device is suitable when its queue
//! families, extensions and surface support all meet the fixed requirements.

use vstd::prelude::*;

use crate::host::PhysicalDeviceInfo;
use crate::queue_families::{has_graphics_family, has_present_family};

verus! {

/// Whether `name` occurs, by exact match, in `names`.
pub open spec fn name_listed(names: Seq<String>, name: Seq<char>) -> bool {
    exists|i: int| 0 <= i < names.len() && (#[trigger] names[i])@ == name
}

/// Whether every name of `required` occurs in `available`.
pub open spec fn all_names_listed(required: Seq<String>, available: Seq<String>) -> bool {
    forall|i: int| 0 <= i < required.len() ==> name_listed(available, (#[trigger] required[i])@)
}

/// Searches `names` for an exact match of `name`.
pub fn contains_name(names: &Vec<String>, name: &String) -> (r: bool)
    ensures
        r == name_listed(names@, name@),
{
    let mut i: usize = 0;
    while i < names.len()
        invariant
            i <= names@.len(),
            forall|j: int| 0 <= j < i ==> (#[trigger] names@[j])@ != name@,
        decreases names@.len() - i,
    {
        if names[i].eq(name) {
            return true;
        }
        i += 1;
    }
    false
}

/// Reports whether every requested validation layer is among the layers the
/// host enumerates; a single missing layer means no support.
pub fn check_validation_layer_support(requested: &Vec<String>, available: &Vec<String>) -> (r:
    bool)
    ensures
        r == all_names_listed(requested@, available@),
{
    let mut i: usize = 0;
    while i < requested.len()
        invariant
            i <= requested@.len(),
            forall|j: int| 0 <= j < i ==> name_listed(available@, (#[trigger] requested@[j])@),
        decreases requested@.len() - i,
    {
        if !contains_name(available, &requested[i]) {
            return false;
        }
        i += 1;
    }
    true
}

/// Reports whether the device offers every required device extension,
/// matched by name and independent of order.
pub fn check_device_extension_support(required: &Vec<String>, reported: &Vec<String>) -> (r: bool)
    ensures
        r == all_names_listed(required@, reported@),
{
    check_validation_layer_support(required, reported)
}

/// The three-part suitability predicate: both queue families discoverable,
/// every required extension reported, and the swapchain supportable (at
/// least one surface format and at least one present mode).
pub open spec fn device_suitable(device: PhysicalDeviceInfo, required_extensions: Seq<String>) -> bool {
    &&& has_graphics_family(device.queue_families@)
    &&& has_present_family(device.queue_families@)
    &&& all_names_listed(required_extensions, device.extensions@)
    &&& device.swap_chain.formats@.len() > 0
    &&& device.swap_chain.present_modes@.len() > 0
}

/// Evaluates the suitability predicate on one enumerated device.
pub fn is_device_suitable(device: &PhysicalDeviceInfo, required_extensions: &Vec<String>) -> (r:
    bool)
    requires
        device.queue_families@.len() <= u32::MAX,
    ensures
        r == device_suitable(*device, required_extensions@),
{
    let indices = crate::queue_families::find_queue_families(&device.queue_families);
    let extensions_supported = check_device_extension_support(
        required_extensions,
        &device.extensions,
    );
    let mut swap_chain_adequate = false;
    if extensions_supported {
        swap_chain_adequate = device.swap_chain.formats.len() > 0
            && device.swap_chain.present_modes.len() > 0;
    }
    proof {
        crate::queue_families::lemma_scan_finds_families(device.queue_families@);
    }
    indices.is_complete() && extensions_supported && swap_chain_adequate
}

/// The device the selection loop settles on: the first suitable one, by
/// enumeration order, if any is suitable.
pub open spec fn picked_device(devices: Seq<PhysicalDeviceInfo>, required_extensions: Seq<String>) -> Option<int>
    decreases devices.len(),
{
    if devices.len() == 0 {
        None
    } else if device_suitable(devices[0], required_extensions) {
        Some(0)
    } else {
        match picked_device(devices.drop_first(), required_extensions) {
            Some(i) => Some(i + 1),
            None => None,
        }
    }
}

/// The selection never settles on an unsuitable device, whatever position it
/// is enumerated at.
pub proof fn lemma_unsuitable_never_picked(
    devices: Seq<PhysicalDeviceInfo>,
    required_extensions: Seq<String>,
    i: int,
)
    requires
        0 <= i < devices.len(),
        !device_suitable(devices[i], required_extensions),
    ensures
        picked_device(devices, required_extensions) != Some(i),
    decreases devices.len(),
{
    if !device_suitable(devices[0], required_extensions) {
        let rest = devices.drop_first();
        if i > 0 {
            assert(rest[i - 1] == devices[i]);
            lemma_unsuitable_never_picked(rest, required_extensions, i - 1);
        }
        lemma_picked_device_first_suitable(rest, required_extensions);
        match picked_device(rest, required_extensions) {
            Some(k) => {
                assert(picked_device(devices, required_extensions) == Some(k + 1));
            },
            None => {
                assert(picked_device(devices, required_extensions) is None);
            },
        }
    }
}

/// What the selection finds is in range, suitable, and earliest.
pub proof fn lemma_picked_device_first_suitable(
    devices: Seq<PhysicalDeviceInfo>,
    required_extensions: Seq<String>,
)
    ensures
        match picked_device(devices, required_extensions) {
            Some(i) => 0 <= i < devices.len() && device_suitable(devices[i], required_extensions)
                && (forall|j: int|
                0 <= j < i ==> !device_suitable(#[trigger] devices[j], required_extensions)),
            None => forall|j: int|
                0 <= j < devices.len() ==> !device_suitable(
                    #[trigger] devices[j],
                    required_extensions,
                ),
        },
    decreases devices.len(),
{
    if devices.len() > 0 && !device_suitable(devices[0], required_extensions) {
        let rest = devices.drop_first();
        lemma_picked_device_first_suitable(rest, required_extensions);
        assert(forall|j: int| 0 <= j < rest.len() ==> #[trigger] rest[j] == devices[j + 1]);
        match picked_device(rest, required_extensions) {
            Some(k) => {
                assert(picked_device(devices, required_extensions) == Some(k + 1));
                assert forall|j: int| 0 <= j < k + 1 implies !device_suitable(
                    #[trigger] devices[j],
                    required_extensions,
                ) by {
                    if j > 0 {
                        assert(devices[j] == rest[j - 1]);
                    }
                }
            },
            None => {
                assert forall|j: int| 0 <= j < devices.len() implies !device_suitable(
                    #[trigger] devices[j],
                    required_extensions,
                ) by {
                    if j > 0 {
                        assert(devices[j] == rest[j - 1]);
                    }
                }
            },
        }
    }
}

/// Walks the enumerated devices in order and returns the index of the first
/// suitable one, or `None` when no device qualifies.
pub fn pick_physical_device(
    devices: &Vec<PhysicalDeviceInfo>,
    required_extensions: &Vec<String>,
) -> (r: Option<usize>)
    requires
        forall|i: int|
            0 <= i < devices@.len() ==> (#[trigger] devices@[i]).queue_families@.len() <= u32::MAX,
    ensures
        r matches Some(i) ==> picked_device(devices@, required_extensions@) == Some(i as int),
        r is None ==> picked_device(devices@, required_extensions@) is None,
{
    let ghost spec_pick = picked_device(devices@, required_extensions@);
    proof {
        lemma_picked_device_first_suitable(devices@, required_extensions@);
    }
    let mut i: usize = 0;
    while i < devices.len()
        invariant
            i <= devices@.len(),
            spec_pick == picked_device(devices@, required_extensions@),
            forall|i2: int|
                0 <= i2 < devices@.len() ==> (#[trigger] devices@[i2]).queue_families@.len()
                    <= u32::MAX,
            forall|j: int|
                0 <= j < i ==> !device_suitable(#[trigger] devices@[j], required_extensions@),
            (match spec_pick {
                Some(k) => 0 <= k < devices@.len() && device_suitable(
                    devices@[k],
                    required_extensions@,
                ) && (forall|j: int|
                    0 <= j < k ==> !device_suitable(#[trigger] devices@[j], required_extensions@)),
                None => forall|j: int|
                    0 <= j < devices@.len() ==> !device_suitable(
                        #[trigger] devices@[j],
                        required_extensions@,
                    ),
            }),
        decreases devices@.len() - i,
    {
        if is_device_suitable(&devices[i], required_extensions) {
            return Some(i);
        }
        i += 1;
    }
    None
}

} // verus!
