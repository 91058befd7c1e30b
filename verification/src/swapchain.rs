//! Swapchain parameter selection: surface format, present mode, image
//! count, extent, and how the images are shared between queue families.

use vstd::prelude::*;

use crate::host::{Extent, SurfaceCaps, SurfaceFormat};
use crate::vk;

verus! {

/// The one format the application prefers: B8G8R8A8 sRGB pixels in the
/// non-linear sRGB colour space.
pub open spec fn preferred_surface_format(f: SurfaceFormat) -> bool {
    f.format == vk::VK_FORMAT_B8G8R8A8_SRGB && f.color_space
        == vk::VK_COLOR_SPACE_SRGB_NONLINEAR_KHR
}

/// The first reported format matching the preferred pair, if any.
pub open spec fn first_preferred_format(s: Seq<SurfaceFormat>) -> Option<SurfaceFormat>
    decreases s.len(),
{
    if s.len() == 0 {
        None
    } else if preferred_surface_format(s[0]) {
        Some(s[0])
    } else {
        first_preferred_format(s.drop_first())
    }
}

/// The format the selection settles on: the first preferred match, or the
/// first reported format when nothing matches.
pub open spec fn chosen_surface_format(s: Seq<SurfaceFormat>) -> SurfaceFormat
    recommends
        s.len() > 0,
{
    match first_preferred_format(s) {
        Some(f) => f,
        None => s[0],
    }
}

/// Scanning from position `i` is scanning the remaining suffix.
proof fn lemma_first_preferred_step(s: Seq<SurfaceFormat>, i: int)
    requires
        0 <= i < s.len(),
    ensures
        first_preferred_format(s.skip(i)) == (if preferred_surface_format(s[i]) {
            Some(s[i])
        } else {
            first_preferred_format(s.skip(i + 1))
        }),
{
    assert(s.skip(i).len() == s.len() - i);
    assert(s.skip(i)[0] == s[i]);
    assert(s.skip(i).drop_first() =~= s.skip(i + 1));
}

/// Picks the first reported format matching the preferred pair, or falls
/// back to the first reported format.
pub fn choose_swap_surface_format(available_formats: &Vec<SurfaceFormat>) -> (r: SurfaceFormat)
    requires
        available_formats@.len() > 0,
    ensures
        r == chosen_surface_format(available_formats@),
        (exists|i: int|
            0 <= i < available_formats@.len() && preferred_surface_format(
                #[trigger] available_formats@[i],
            )) ==> (exists|i: int|
            0 <= i < available_formats@.len() && r == available_formats@[i]
                && preferred_surface_format(#[trigger] available_formats@[i]) && (forall|j: int|
                0 <= j < i ==> !preferred_surface_format(#[trigger] available_formats@[j]))),
        (forall|i: int|
            0 <= i < available_formats@.len() ==> !preferred_surface_format(
                #[trigger] available_formats@[i],
            )) ==> r == available_formats@[0],
{
    let mut i: usize = 0;
    proof {
        assert(available_formats@.skip(0) =~= available_formats@);
    }
    while i < available_formats.len()
        invariant
            i <= available_formats@.len(),
            forall|j: int|
                0 <= j < i ==> !preferred_surface_format(#[trigger] available_formats@[j]),
            first_preferred_format(available_formats@.skip(i as int)) == first_preferred_format(
                available_formats@,
            ),
        decreases available_formats@.len() - i,
    {
        let candidate = available_formats[i];
        proof {
            lemma_first_preferred_step(available_formats@, i as int);
        }
        if candidate.format == vk::VK_FORMAT_B8G8R8A8_SRGB && candidate.color_space
            == vk::VK_COLOR_SPACE_SRGB_NONLINEAR_KHR {
            return candidate;
        }
        i += 1;
    }
    proof {
        assert(available_formats@.skip(i as int) =~= Seq::<SurfaceFormat>::empty());
    }
    available_formats[0]
}

/// The present mode the selection settles on: the low-latency mailbox mode
/// when the device offers it, else the always-available FIFO mode.
pub open spec fn chosen_present_mode(available: Seq<u32>) -> u32 {
    if exists|i: int| 0 <= i < available.len() && available[i] == vk::VK_PRESENT_MODE_MAILBOX_KHR {
        vk::VK_PRESENT_MODE_MAILBOX_KHR
    } else {
        vk::VK_PRESENT_MODE_FIFO_KHR
    }
}

/// Scans the reported present modes for the mailbox mode and falls back to
/// FIFO when it is absent.
pub fn choose_swap_present_mode(available_present_modes: &Vec<u32>) -> (r: u32)
    ensures
        r == chosen_present_mode(available_present_modes@),
{
    let mut i: usize = 0;
    while i < available_present_modes.len()
        invariant
            i <= available_present_modes@.len(),
            forall|j: int|
                0 <= j < i ==> available_present_modes@[j] != vk::VK_PRESENT_MODE_MAILBOX_KHR,
        decreases available_present_modes@.len() - i,
    {
        if available_present_modes[i] == vk::VK_PRESENT_MODE_MAILBOX_KHR {
            return vk::VK_PRESENT_MODE_MAILBOX_KHR;
        }
        i += 1;
    }
    vk::VK_PRESENT_MODE_FIFO_KHR
}

/// The number of swapchain images to request: one above the supported
/// minimum, clamped to the supported maximum when that maximum is not the
/// zero that stands for "unbounded".
pub open spec fn chosen_image_count(caps: SurfaceCaps) -> u32
    recommends
        caps.min_image_count < u32::MAX,
{
    if caps.max_image_count > 0 && caps.min_image_count + 1 > caps.max_image_count {
        caps.max_image_count
    } else {
        (caps.min_image_count + 1) as u32
    }
}

/// Computes the requested image count; the count never exceeds a nonzero
/// reported maximum.
pub fn choose_image_count(caps: &SurfaceCaps) -> (r: u32)
    requires
        caps.min_image_count < u32::MAX,
    ensures
        r == chosen_image_count(*caps),
        caps.max_image_count > 0 ==> r <= caps.max_image_count,
{
    let mut image_count: u32 = caps.min_image_count + 1;
    if caps.max_image_count > 0 && image_count > caps.max_image_count {
        image_count = caps.max_image_count;
    }
    image_count
}

/// `x` forced into the closed interval `[lo, hi]`.
pub open spec fn clamped(x: u32, lo: u32, hi: u32) -> u32
    recommends
        lo <= hi,
{
    if x < lo {
        lo
    } else if x > hi {
        hi
    } else {
        x
    }
}

/// The extent the swapchain is created with: the surface's current extent
/// verbatim, unless the surface reports the undefined sentinel, in which
/// case the live framebuffer size clamped into the surface's bounds.
pub open spec fn chosen_extent(caps: SurfaceCaps, framebuffer: Extent) -> Extent {
    if caps.current_extent.width != vk::EXTENT_UNDEFINED {
        caps.current_extent
    } else {
        Extent {
            width: clamped(
                framebuffer.width,
                caps.min_image_extent.width,
                caps.max_image_extent.width,
            ),
            height: clamped(
                framebuffer.height,
                caps.min_image_extent.height,
                caps.max_image_extent.height,
            ),
        }
    }
}

/// Selects the swapchain extent from the surface capabilities and the
/// window's live framebuffer size.
pub fn choose_swap_extent(caps: &SurfaceCaps, framebuffer: Extent) -> (r: Extent)
    requires
        caps.well_formed(),
    ensures
        r == chosen_extent(*caps, framebuffer),
{
    if caps.current_extent.width != vk::EXTENT_UNDEFINED {
        return caps.current_extent;
    }
    let width = clamp_u32(
        framebuffer.width,
        caps.min_image_extent.width,
        caps.max_image_extent.width,
    );
    let height = clamp_u32(
        framebuffer.height,
        caps.min_image_extent.height,
        caps.max_image_extent.height,
    );
    Extent { width, height }
}

/// Forces `x` into `[lo, hi]`.
pub fn clamp_u32(x: u32, lo: u32, hi: u32) -> (r: u32)
    requires
        lo <= hi,
    ensures
        r == clamped(x, lo, hi),
{
    if x < lo {
        lo
    } else if x > hi {
        hi
    } else {
        x
    }
}

/// How the swapchain images are shared between the graphics and present
/// queue families: exclusive ownership when the two roles share one family,
/// else concurrent sharing with both families listed explicitly.
#[derive(Clone, PartialEq, Eq, Debug)]
pub struct SwapSharing {
    /// `VK_SHARING_MODE_EXCLUSIVE` or `VK_SHARING_MODE_CONCURRENT`.
    pub mode: u32,
    /// The queue families that share the images; empty in exclusive mode.
    pub family_indices: Vec<u32>,
}

/// Decides the sharing mode from the two discovered family indices.
pub fn plan_swap_sharing(graphics_family: u32, present_family: u32) -> (r: SwapSharing)
    ensures
        graphics_family == present_family ==> r.mode == vk::VK_SHARING_MODE_EXCLUSIVE
            && r.family_indices@ == Seq::<u32>::empty(),
        graphics_family != present_family ==> r.mode == vk::VK_SHARING_MODE_CONCURRENT
            && r.family_indices@ == seq![graphics_family, present_family],
{
    if graphics_family != present_family {
        let mut family_indices: Vec<u32> = Vec::new();
        family_indices.push(graphics_family);
        family_indices.push(present_family);
        proof {
            assert(family_indices@ =~= seq![graphics_family, present_family]);
        }
        SwapSharing { mode: vk::VK_SHARING_MODE_CONCURRENT, family_indices }
    } else {
        let family_indices: Vec<u32> = Vec::new();
        proof {
            assert(family_indices@ =~= Seq::<u32>::empty());
        }
        SwapSharing { mode: vk::VK_SHARING_MODE_EXCLUSIVE, family_indices }
    }
}

/// One queue-create request of the logical device: a family index and how
/// many queues to create in it.
#[derive(Clone, Copy, PartialEq, Eq, Structural, Debug)]
pub struct QueueCreateInfo {
    pub queue_family_index: u32,
    pub queue_count: u32,
}

/// Builds one queue-create request per distinct family: exactly one when
/// the graphics and present roles share a family, exactly two otherwise.
pub fn make_queue_create_infos(graphics_family: u32, present_family: u32) -> (r: Vec<
    QueueCreateInfo,
>)
    ensures
        graphics_family == present_family ==> r@ == seq![
            QueueCreateInfo { queue_family_index: graphics_family, queue_count: 1 },
        ],
        graphics_family != present_family ==> r@ == seq![
            QueueCreateInfo { queue_family_index: graphics_family, queue_count: 1 },
            QueueCreateInfo { queue_family_index: present_family, queue_count: 1 },
        ],
{
    let mut infos: Vec<QueueCreateInfo> = Vec::new();
    infos.push(QueueCreateInfo { queue_family_index: graphics_family, queue_count: 1 });
    if present_family != graphics_family {
        infos.push(QueueCreateInfo { queue_family_index: present_family, queue_count: 1 });
        proof {
            assert(infos@ =~= seq![
                QueueCreateInfo { queue_family_index: graphics_family, queue_count: 1 },
                QueueCreateInfo { queue_family_index: present_family, queue_count: 1 },
            ]);
        }
    } else {
        proof {
            assert(infos@ =~= seq![
                QueueCreateInfo { queue_family_index: graphics_family, queue_count: 1 },
            ]);
        }
    }
    infos
}

} // verus!
