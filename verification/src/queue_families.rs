//! Discovery of the graphics and presentation queue families.
//!
//! The scan walks a device's queue families in enumeration order, remembers
//! the last family seen that supports graphics and the last that can present
//! to the surface, and stops as soon as both roles are filled.

use vstd::prelude::*;

use crate::host::QueueFamily;

verus! {

/// The two queue-family roles the application needs, each optional until
/// discovered.
#[derive(Clone, Copy, PartialEq, Eq, Structural, Debug)]
pub struct QueueFamilyIndices {
    pub graphics_family: Option<u32>,
    pub present_family: Option<u32>,
}

impl QueueFamilyIndices {
    /// Starts with neither role filled.
    pub fn new() -> (r: Self)
        ensures
            r.graphics_family is None,
            r.present_family is None,
    {
        Self { graphics_family: None, present_family: None }
    }

    /// Both roles are filled.
    pub open spec fn spec_complete(self) -> bool {
        self.graphics_family is Some && self.present_family is Some
    }

    pub fn is_complete(&self) -> (r: bool)
        ensures
            r == self.spec_complete(),
    {
        self.graphics_family.is_some() && self.present_family.is_some()
    }

    /// The graphics family index; the caller must have checked completeness.
    pub fn get_graphics_family(&self) -> (r: u32)
        requires
            self.graphics_family is Some,
        ensures
            self.graphics_family == Some(r),
    {
        self.graphics_family.unwrap()
    }

    /// The present family index; the caller must have checked completeness.
    pub fn get_present_family(&self) -> (r: u32)
        requires
            self.present_family is Some,
        ensures
            self.present_family == Some(r),
    {
        self.present_family.unwrap()
    }
}

/// Some family of the device supports graphics commands.
pub open spec fn has_graphics_family(families: Seq<QueueFamily>) -> bool {
    exists|j: int| 0 <= j < families.len() && (#[trigger] families[j]).supports_graphics
}

/// Some family of the device can present to the surface of the snapshot.
pub open spec fn has_present_family(families: Seq<QueueFamily>) -> bool {
    exists|j: int| 0 <= j < families.len() && (#[trigger] families[j]).supports_present
}

/// One step of the discovery scan: from position `i` with the roles found so
/// far, the pair of roles the scan ends with.  Each family seen overwrites
/// the role it supports; the scan stops early once both roles are filled.
pub open spec fn scan_queue_families(
    families: Seq<QueueFamily>,
    i: nat,
    graphics: Option<u32>,
    present: Option<u32>,
) -> (Option<u32>, Option<u32>)
    decreases families.len() - i,
{
    if i >= families.len() {
        (graphics, present)
    } else {
        let g = if families[i as int].supports_graphics {
            Some(i as u32)
        } else {
            graphics
        };
        let p = if families[i as int].supports_present {
            Some(i as u32)
        } else {
            present
        };
        if g is Some && p is Some {
            (g, p)
        } else {
            scan_queue_families(families, i + 1, g, p)
        }
    }
}

/// The roles the whole scan of a device discovers.
pub open spec fn discovered_queue_families(families: Seq<QueueFamily>) -> (Option<u32>, Option<u32>) {
    scan_queue_families(families, 0, None, None)
}

/// What the scan reports from any midpoint: a role is filled exactly when it
/// was already filled or some remaining family supports it, and a filled
/// role always names a family that supports it.
proof fn lemma_scan_characterisation(
    families: Seq<QueueFamily>,
    i: nat,
    graphics: Option<u32>,
    present: Option<u32>,
)
    requires
        i <= families.len(),
        families.len() <= u32::MAX,
    ensures
        (scan_queue_families(families, i, graphics, present).0 is Some) <==> (graphics is Some
            || exists|j: int|
            i <= j < families.len() && (#[trigger] families[j]).supports_graphics),
        (scan_queue_families(families, i, graphics, present).1 is Some) <==> (present is Some
            || exists|j: int|
            i <= j < families.len() && (#[trigger] families[j]).supports_present),
        scan_queue_families(families, i, graphics, present).0 matches Some(v) ==> (graphics
            == Some(v) || (i <= v < families.len() && families[v as int].supports_graphics)),
        scan_queue_families(families, i, graphics, present).1 matches Some(v) ==> (present
            == Some(v) || (i <= v < families.len() && families[v as int].supports_present)),
    decreases families.len() - i,
{
    if i < families.len() {
        let g = if families[i as int].supports_graphics {
            Some(i as u32)
        } else {
            graphics
        };
        let p = if families[i as int].supports_present {
            Some(i as u32)
        } else {
            present
        };
        if !(g is Some && p is Some) {
            lemma_scan_characterisation(families, i + 1, g, p);
        }
    }
}

/// The scan fills a role exactly when some family of the device supports
/// it, and a filled role names a family that supports it.
pub proof fn lemma_scan_finds_families(families: Seq<QueueFamily>)
    requires
        families.len() <= u32::MAX,
    ensures
        (discovered_queue_families(families).0 is Some) <==> has_graphics_family(families),
        (discovered_queue_families(families).1 is Some) <==> has_present_family(families),
        discovered_queue_families(families).0 matches Some(v) ==> v < families.len()
            && families[v as int].supports_graphics,
        discovered_queue_families(families).1 matches Some(v) ==> v < families.len()
            && families[v as int].supports_present,
{
    lemma_scan_characterisation(families, 0, None, None);
}

/// Walks the queue families of one device and returns the discovered roles.
pub fn find_queue_families(families: &Vec<QueueFamily>) -> (r: QueueFamilyIndices)
    requires
        families@.len() <= u32::MAX,
    ensures
        (r.graphics_family, r.present_family) == discovered_queue_families(families@),
{
    let mut graphics: Option<u32> = None;
    let mut present: Option<u32> = None;
    let mut i: usize = 0;
    while i < families.len()
        invariant
            i <= families@.len(),
            families@.len() <= u32::MAX,
            discovered_queue_families(families@) == scan_queue_families(
                families@,
                i as nat,
                graphics,
                present,
            ),
            !(graphics is Some && present is Some),
        decreases families@.len() - i,
    {
        let family = families[i];
        let g = if family.supports_graphics {
            Some(i as u32)
        } else {
            graphics
        };
        let p = if family.supports_present {
            Some(i as u32)
        } else {
            present
        };
        proof {
            assert(scan_queue_families(families@, i as nat, graphics, present) == (
            if g is Some && p is Some {
                (g, p)
            } else {
                scan_queue_families(families@, (i + 1) as nat, g, p)
            }));
        }
        graphics = g;
        present = p;
        if graphics.is_some() && present.is_some() {
            return QueueFamilyIndices { graphics_family: graphics, present_family: present };
        }
        i += 1;
    }
    QueueFamilyIndices { graphics_family: graphics, present_family: present }
}

} // verus!
