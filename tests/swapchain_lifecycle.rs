use frame_ring::device::{select_device, select_queue_family, QueueFamily, QUEUE_GRAPHICS};
use frame_ring::record::upload_globals;
use frame_ring::resize::{frame_action, FrameAction};
use frame_ring::surface::{Extent2D, SurfaceFormat};
use frame_ring::swapchain::{Swapchain, SwapchainConfig, SwapchainError};

fn config(width: u32, height: u32) -> SwapchainConfig {
    SwapchainConfig {
        format: SurfaceFormat { format: 44, color_space: 0 },
        image_count: 2,
        extent: Extent2D { width, height },
        pre_transform: 1,
        present_mode: 2,
    }
}

#[test]
fn destroy_twice_destroys_once() {
    let mut swapchain = Swapchain::new(config(800, 600), 5, vec![1, 2], vec![3, 4]).unwrap();
    let first = swapchain.destroy();
    assert_eq!(first.views, vec![3, 4]);
    assert_eq!(first.chain, Some(5));
    let second = swapchain.destroy();
    assert!(second.views.is_empty());
    assert_eq!(second.chain, None);
    assert_eq!(swapchain.inner(), None);
    assert!(swapchain.present_images().is_empty());
}

#[test]
fn recreate_replaces_everything() {
    let mut swapchain = Swapchain::new(config(800, 600), 5, vec![1, 2], vec![3, 4]).unwrap();
    swapchain.destroy();
    assert_eq!(swapchain.recreate(config(400, 300), 9, vec![6, 7, 8], vec![10, 11, 12]), Ok(()));
    assert_eq!(swapchain.inner(), Some(9));
    assert_eq!(swapchain.present_images().len(), swapchain.present_image_views().len());
    assert_eq!(swapchain.present_image_views(), &vec![10, 11, 12]);
    assert_eq!(swapchain.config(), config(400, 300));
}

#[test]
fn live_chain_is_not_replaced() {
    let mut swapchain = Swapchain::new(config(800, 600), 5, vec![1, 2], vec![3, 4]).unwrap();
    assert_eq!(
        swapchain.recreate(config(400, 300), 9, vec![6], vec![10]),
        Err(SwapchainError::StillLive)
    );
    assert_eq!(swapchain.inner(), Some(5));
    assert_eq!(swapchain.extent(), Extent2D { width: 800, height: 600 });
}

#[test]
fn install_errors() {
    assert_eq!(
        Swapchain::new(config(1, 1), 0, vec![1], vec![2]).err(),
        Some(SwapchainError::NullHandle)
    );
    assert_eq!(
        Swapchain::new(config(1, 1), 3, vec![1, 2], vec![2]).err(),
        Some(SwapchainError::ViewCountMismatch)
    );
    let mut swapchain = Swapchain::new(config(1, 1), 3, vec![1], vec![2]).unwrap();
    swapchain.destroy();
    assert_eq!(
        swapchain.recreate(config(2, 2), 4, vec![1], vec![]),
        Err(SwapchainError::ViewCountMismatch)
    );
    assert_eq!(swapchain.inner(), None);
}

#[test]
fn first_graphics_family_that_presents() {
    let families = vec![
        QueueFamily { queue_flags: 0b100, surface_support: true },
        QueueFamily { queue_flags: QUEUE_GRAPHICS | 0b10, surface_support: false },
        QueueFamily { queue_flags: QUEUE_GRAPHICS, surface_support: true },
        QueueFamily { queue_flags: QUEUE_GRAPHICS, surface_support: true },
    ];
    assert_eq!(select_queue_family(&families), Some(2));
    assert_eq!(select_queue_family(&families[..2].to_vec()), None);
    assert_eq!(select_queue_family(&Vec::new()), None);
}

#[test]
fn first_suitable_device() {
    assert_eq!(select_device(&vec![None, Some(3), Some(0)]), Some((1, 3)));
    assert_eq!(select_device(&vec![None, None]), None);
}

#[test]
fn globals_go_to_the_start_of_staging() {
    let mut staging = vec![9u8; 512];
    let globals: Vec<u8> = (0..64u8).collect();
    assert!(upload_globals(&mut staging, &globals));
    assert_eq!(&staging[..64], &globals[..]);
    assert!(staging[64..].iter().all(|&b| b == 9));

    let mut small = vec![1u8; 16];
    assert!(!upload_globals(&mut small, &globals));
    assert_eq!(small, vec![1u8; 16]);
}

#[test]
fn resize_is_rebuilt_once_before_drawing() {
    assert_eq!(frame_action(false, 800, 600), FrameAction::Render);
    assert_eq!(
        frame_action(true, 400, 300),
        FrameAction::RecreateThenRender { width: 400, height: 300 }
    );
    assert_eq!(frame_action(true, 0, 300), FrameAction::Skip);
    assert_eq!(frame_action(true, 400, 0), FrameAction::Skip);
}
