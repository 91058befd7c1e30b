use oito_caneco::host::{Extent, SurfaceCaps, SurfaceFormat};
use oito_caneco::swapchain::{
    choose_image_count, choose_swap_extent, choose_swap_present_mode, choose_swap_surface_format,
    clamp_u32, make_queue_create_infos, plan_swap_sharing,
};
use oito_caneco::vk;

fn caps_with_counts(min: u32, max: u32) -> SurfaceCaps {
    SurfaceCaps {
        min_image_count: min,
        max_image_count: max,
        current_extent: Extent { width: 640, height: 480 },
        min_image_extent: Extent { width: 1, height: 1 },
        max_image_extent: Extent { width: 4096, height: 4096 },
        current_transform: 1,
    }
}

#[test]
fn preferred_surface_format_picked() {
    let formats = vec![
        SurfaceFormat { format: 44, color_space: 0 },
        SurfaceFormat { format: vk::VK_FORMAT_B8G8R8A8_SRGB, color_space: 0 },
    ];
    let chosen = choose_swap_surface_format(&formats);
    assert_eq!(chosen, formats[1]);
}

#[test]
fn first_format_is_fallback() {
    let formats = vec![
        SurfaceFormat { format: 44, color_space: 0 },
        SurfaceFormat { format: 37, color_space: 0 },
    ];
    let chosen = choose_swap_surface_format(&formats);
    assert_eq!(chosen, formats[0]);
}

#[test]
fn preferred_format_needs_matching_color_space() {
    let formats = vec![
        SurfaceFormat { format: vk::VK_FORMAT_B8G8R8A8_SRGB, color_space: 7 },
        SurfaceFormat { format: 44, color_space: 0 },
    ];
    // The format number alone does not match; the fallback is the first.
    let chosen = choose_swap_surface_format(&formats);
    assert_eq!(chosen, formats[0]);
}

#[test]
fn mailbox_present_mode_preferred() {
    let modes = vec![vk::VK_PRESENT_MODE_FIFO_KHR, vk::VK_PRESENT_MODE_MAILBOX_KHR];
    assert_eq!(choose_swap_present_mode(&modes), vk::VK_PRESENT_MODE_MAILBOX_KHR);
}

#[test]
fn fifo_present_mode_is_fallback() {
    let modes = vec![vk::VK_PRESENT_MODE_FIFO_KHR, 3];
    assert_eq!(choose_swap_present_mode(&modes), vk::VK_PRESENT_MODE_FIFO_KHR);
}

#[test]
fn fifo_fallback_even_when_unlisted() {
    let modes: Vec<u32> = Vec::new();
    assert_eq!(choose_swap_present_mode(&modes), vk::VK_PRESENT_MODE_FIFO_KHR);
}

#[test]
fn image_count_is_min_plus_one() {
    assert_eq!(choose_image_count(&caps_with_counts(2, 8)), 3);
}

#[test]
fn image_count_clamped_to_nonzero_max() {
    assert_eq!(choose_image_count(&caps_with_counts(3, 3)), 3);
    assert_eq!(choose_image_count(&caps_with_counts(4, 2)), 2);
}

#[test]
fn image_count_unbounded_when_max_is_zero() {
    assert_eq!(choose_image_count(&caps_with_counts(5, 0)), 6);
}

#[test]
fn current_extent_used_verbatim() {
    let caps = caps_with_counts(2, 8);
    let extent = choose_swap_extent(&caps, Extent { width: 9999, height: 9999 });
    assert_eq!(extent, Extent { width: 640, height: 480 });
}

#[test]
fn undefined_extent_clamps_framebuffer_size() {
    let mut caps = caps_with_counts(2, 8);
    caps.current_extent = Extent { width: 0xFFFF_FFFF, height: 480 };
    caps.min_image_extent = Extent { width: 200, height: 200 };
    caps.max_image_extent = Extent { width: 800, height: 600 };
    let below = choose_swap_extent(&caps, Extent { width: 100, height: 700 });
    assert_eq!(below, Extent { width: 200, height: 600 });
    let inside = choose_swap_extent(&caps, Extent { width: 640, height: 480 });
    assert_eq!(inside, Extent { width: 640, height: 480 });
}

#[test]
fn clamp_respects_both_bounds() {
    assert_eq!(clamp_u32(5, 10, 20), 10);
    assert_eq!(clamp_u32(15, 10, 20), 15);
    assert_eq!(clamp_u32(25, 10, 20), 20);
}

#[test]
fn sharing_exclusive_when_families_alias() {
    let sharing = plan_swap_sharing(3, 3);
    assert_eq!(sharing.mode, vk::VK_SHARING_MODE_EXCLUSIVE);
    assert!(sharing.family_indices.is_empty());
}

#[test]
fn sharing_concurrent_when_families_differ() {
    let sharing = plan_swap_sharing(3, 5);
    assert_eq!(sharing.mode, vk::VK_SHARING_MODE_CONCURRENT);
    assert_eq!(sharing.family_indices, vec![3, 5]);
}

#[test]
fn one_queue_create_info_when_families_alias() {
    let infos = make_queue_create_infos(2, 2);
    assert_eq!(infos.len(), 1);
    assert_eq!(infos[0].queue_family_index, 2);
    assert_eq!(infos[0].queue_count, 1);
}

#[test]
fn two_queue_create_infos_when_families_differ() {
    let infos = make_queue_create_infos(2, 6);
    assert_eq!(infos.len(), 2);
    assert_eq!(infos[0].queue_family_index, 2);
    assert_eq!(infos[1].queue_family_index, 6);
}
