use frame_ring::record::{record_frame, Command};
use frame_ring::renderer::{
    AcquireOutcome, AcquireStep, FenceState, FrameError, Phase, PresentOutcome, Renderer,
};
use frame_ring::surface::{
    Extent2D, SurfaceCapabilities, SurfaceFormat, SurfaceInfo, PRESENT_MODE_FIFO,
    PRESENT_MODE_MAILBOX, TRANSFORM_IDENTITY, UNDEFINED_EXTENT,
};
use frame_ring::swapchain::{choose_config, Swapchain, SwapchainConfig};

fn surface_info(min: u32, max: u32, current: Extent2D, modes: Vec<i32>) -> SurfaceInfo {
    SurfaceInfo {
        capabilities: SurfaceCapabilities {
            min_image_count: min,
            max_image_count: max,
            current_extent: current,
            supported_transforms: TRANSFORM_IDENTITY,
            current_transform: TRANSFORM_IDENTITY,
        },
        formats: vec![SurfaceFormat { format: 44, color_space: 0 }],
        present_modes: modes,
    }
}

fn undefined() -> Extent2D {
    Extent2D { width: UNDEFINED_EXTENT, height: UNDEFINED_EXTENT }
}

fn build_chain(width: u32, height: u32, chain: u64, images: Vec<u64>) -> Swapchain {
    let info = surface_info(1, 2, undefined(), vec![PRESENT_MODE_FIFO]);
    let config = choose_config(&info, width, height).unwrap();
    let views: Vec<u64> = images.iter().map(|i| i + 1000).collect();
    Swapchain::new(config, chain, images, views).unwrap()
}

/// Drives one render call the way the embedding program does.
fn render(
    ring: &mut Renderer,
    swapchain: &Swapchain,
    acquire: AcquireOutcome,
    present: PresentOutcome,
) -> Result<bool, FrameError> {
    ring.begin_frame()?;
    match ring.on_acquire(acquire, swapchain)? {
        AcquireStep::SwapchainDirty => return Ok(true),
        AcquireStep::Record(image) => {
            assert!(record_frame(swapchain, image).is_some());
        }
    }
    ring.on_submitted()?;
    ring.on_present(present)
}

#[test]
fn two_slots_five_frames_then_resize() {
    let mut ring = Renderer::new(2).unwrap();
    let mut swapchain = build_chain(800, 600, 7, vec![11, 12]);
    assert_eq!(swapchain.extent(), Extent2D { width: 800, height: 600 });

    let mut cursors = Vec::new();
    for frame in 0..5u32 {
        let dirty = render(
            &mut ring,
            &swapchain,
            AcquireOutcome::Acquired(frame % 2),
            PresentOutcome::Presented,
        );
        assert_eq!(dirty, Ok(false));
        cursors.push(ring.current_frame());
    }
    assert_eq!(cursors, vec![1, 0, 1, 0, 1]);

    let teardown = swapchain.destroy();
    assert_eq!(teardown.views, vec![1011, 1012]);
    assert_eq!(teardown.chain, Some(7));
    let info = surface_info(1, 2, undefined(), vec![PRESENT_MODE_FIFO]);
    let config = choose_config(&info, 400, 300).unwrap();
    assert_eq!(swapchain.recreate(config, 8, vec![21, 22], vec![31, 32]), Ok(()));
    assert_eq!(swapchain.extent(), Extent2D { width: 400, height: 300 });
    assert_eq!(swapchain.width(), 400);
    assert_eq!(swapchain.height(), 300);
    assert_eq!(swapchain.inner(), Some(8));
    assert_eq!(swapchain.present_images(), &vec![21, 22]);
    assert_eq!(swapchain.present_image_views(), &vec![31, 32]);

    let dirty = render(&mut ring, &swapchain, AcquireOutcome::Acquired(0), PresentOutcome::Presented);
    assert_eq!(dirty, Ok(false));
    assert_eq!(ring.current_frame(), 0);
}

#[test]
fn fresh_ring_has_signaled_fences() {
    let ring = Renderer::new(3).unwrap();
    assert_eq!(ring.frames_in_flight(), 3);
    assert_eq!(ring.current_frame(), 0);
    assert_eq!(ring.phase(), Phase::Idle);
    for slot in 0..3 {
        assert_eq!(ring.fence_state(slot), Some(FenceState::Signaled));
    }
    assert_eq!(ring.fence_state(3), None);
}

#[test]
fn zero_slots_is_refused() {
    assert!(Renderer::new(0).is_none());
}

#[test]
fn pending_fence_is_waited_on_before_reuse() {
    let mut ring = Renderer::new(2).unwrap();
    let swapchain = build_chain(800, 600, 7, vec![11, 12]);
    let start = ring.begin_frame().unwrap();
    assert_eq!(start.slot, 0);
    assert!(start.wait_fence);
    assert_eq!(ring.fence_state(0), Some(FenceState::Claimed));
    ring.on_acquire(AcquireOutcome::Acquired(1), &swapchain).unwrap();
    assert_eq!(ring.on_submitted(), Ok(1));
    assert_eq!(ring.fence_state(0), Some(FenceState::Pending));
    assert_eq!(ring.on_present(PresentOutcome::Presented), Ok(false));

    render(&mut ring, &swapchain, AcquireOutcome::Acquired(0), PresentOutcome::Presented).unwrap();
    // Back on slot 0, whose submission may still be running.
    let start = ring.begin_frame().unwrap();
    assert_eq!(start.slot, 0);
    assert!(start.wait_fence);
}

#[test]
fn out_of_date_acquire_is_dirty_and_submits_nothing() {
    let mut ring = Renderer::new(2).unwrap();
    let swapchain = build_chain(800, 600, 7, vec![11, 12]);
    ring.begin_frame().unwrap();
    assert_eq!(
        ring.on_acquire(AcquireOutcome::OutOfDate, &swapchain),
        Ok(AcquireStep::SwapchainDirty)
    );
    // The call was cut short: the cursor still moves on.
    assert_eq!(ring.current_frame(), 1);
    assert_eq!(ring.phase(), Phase::Idle);
    assert_eq!(ring.fence_state(0), Some(FenceState::Claimed));
    assert_eq!(ring.on_submitted(), Err(FrameError::OutOfOrder));
    assert_eq!(ring.on_present(PresentOutcome::Presented), Err(FrameError::OutOfOrder));

    let dirty = render(&mut ring, &swapchain, AcquireOutcome::Acquired(0), PresentOutcome::Presented);
    assert_eq!(dirty, Ok(false));
    // Back on slot 0: its claimed fence will never be signaled, so no wait.
    let start = ring.begin_frame().unwrap();
    assert_eq!(start.slot, 0);
    assert!(!start.wait_fence);
}

#[test]
fn out_of_date_acquire_on_single_slot_does_not_wait_again() {
    let mut ring = Renderer::new(1).unwrap();
    let swapchain = build_chain(800, 600, 7, vec![11, 12]);
    assert_eq!(
        render(&mut ring, &swapchain, AcquireOutcome::OutOfDate, PresentOutcome::Presented),
        Ok(true)
    );
    assert_eq!(ring.current_frame(), 0);
    let start = ring.begin_frame().unwrap();
    assert!(!start.wait_fence);
}

#[test]
fn suboptimal_or_out_of_date_present_is_dirty_after_submission() {
    for outcome in [PresentOutcome::Suboptimal, PresentOutcome::OutOfDate] {
        let mut ring = Renderer::new(2).unwrap();
        let swapchain = build_chain(800, 600, 7, vec![11, 12]);
        let dirty = render(&mut ring, &swapchain, AcquireOutcome::Acquired(0), outcome);
        assert_eq!(dirty, Ok(true));
        assert_eq!(ring.fence_state(0), Some(FenceState::Pending));
        assert_eq!(ring.current_frame(), 1);
    }
}

#[test]
fn acquired_index_out_of_range_is_refused() {
    let mut ring = Renderer::new(2).unwrap();
    let swapchain = build_chain(800, 600, 7, vec![11, 12]);
    ring.begin_frame().unwrap();
    assert_eq!(
        ring.on_acquire(AcquireOutcome::Acquired(2), &swapchain),
        Err(FrameError::ImageIndexOutOfRange(2))
    );
    assert_eq!(ring.phase(), Phase::Claimed);
}

#[test]
fn driver_errors_are_reported() {
    let mut ring = Renderer::new(2).unwrap();
    let swapchain = build_chain(800, 600, 7, vec![11, 12]);
    ring.begin_frame().unwrap();
    assert_eq!(
        ring.on_acquire(AcquireOutcome::Failed(-4), &swapchain),
        Err(FrameError::Device(-4))
    );
    ring.on_acquire(AcquireOutcome::Acquired(0), &swapchain).unwrap();
    ring.on_submitted().unwrap();
    assert_eq!(ring.on_present(PresentOutcome::Failed(-3)), Err(FrameError::Device(-3)));
    assert_eq!(ring.current_frame(), 0);
}

#[test]
fn steps_out_of_order_are_refused() {
    let mut ring = Renderer::new(2).unwrap();
    let swapchain = build_chain(800, 600, 7, vec![11, 12]);
    assert_eq!(
        ring.on_acquire(AcquireOutcome::Acquired(0), &swapchain),
        Err(FrameError::OutOfOrder)
    );
    assert_eq!(ring.on_submitted(), Err(FrameError::OutOfOrder));
    ring.begin_frame().unwrap();
    assert_eq!(ring.begin_frame(), Err(FrameError::OutOfOrder));
}

#[test]
fn n_calls_cycle_every_slot_once() {
    let mut ring = Renderer::new(3).unwrap();
    let swapchain = build_chain(800, 600, 7, vec![11, 12, 13]);
    let mut used = Vec::new();
    for _ in 0..3 {
        used.push(ring.current_frame());
        render(&mut ring, &swapchain, AcquireOutcome::Acquired(2), PresentOutcome::Presented)
            .unwrap();
    }
    assert_eq!(used, vec![0, 1, 2]);
    assert_eq!(ring.current_frame(), 0);
}

#[test]
fn renderer_destroy_twice() {
    let mut ring = Renderer::new(2).unwrap();
    assert!(ring.destroy());
    assert!(!ring.destroy());
    assert_eq!(ring.phase(), Phase::Destroyed);
    assert_eq!(ring.begin_frame(), Err(FrameError::OutOfOrder));
}

#[test]
fn recorded_frame_targets_acquired_image() {
    let swapchain = build_chain(800, 600, 7, vec![11, 12]);
    let commands = record_frame(&swapchain, 1).unwrap();
    let extent = Extent2D { width: 800, height: 600 };
    assert_eq!(commands.len(), 9);
    assert!(matches!(commands[0], Command::ImageBarrier { image: 12, .. }));
    assert_eq!(commands[1], Command::BeginRendering { view: 1012, extent });
    assert_eq!(commands[2], Command::SetViewport { extent });
    assert_eq!(commands[3], Command::SetScissor { extent });
    assert_eq!(commands[4], Command::BindShaders);
    assert_eq!(commands[5], Command::SetTriangleListTopology);
    assert_eq!(
        commands[6],
        Command::Draw { vertex_count: 3, instance_count: 1, first_vertex: 0, first_instance: 0 }
    );
    assert_eq!(commands[7], Command::EndRendering);
    assert!(matches!(commands[8], Command::ImageBarrier { image: 12, .. }));
    assert!(record_frame(&swapchain, 2).is_none());
}

#[test]
fn mailbox_is_preferred() {
    let info = surface_info(2, 0, undefined(), vec![PRESENT_MODE_FIFO, PRESENT_MODE_MAILBOX]);
    let config = choose_config(&info, 640, 480).unwrap();
    assert_eq!(config.present_mode, PRESENT_MODE_MAILBOX);
}

#[test]
fn fifo_is_the_fallback() {
    let info = surface_info(2, 0, undefined(), vec![0, 3]);
    let config = choose_config(&info, 640, 480).unwrap();
    assert_eq!(config.present_mode, PRESENT_MODE_FIFO);
}

#[test]
fn image_count_is_min_plus_one_within_max() {
    let unbounded = choose_config(&surface_info(2, 0, undefined(), vec![]), 1, 1).unwrap();
    assert_eq!(unbounded.image_count, 3);
    let capped = choose_config(&surface_info(2, 2, undefined(), vec![]), 1, 1).unwrap();
    assert_eq!(capped.image_count, 2);
    let roomy = choose_config(&surface_info(2, 8, undefined(), vec![]), 1, 1).unwrap();
    assert_eq!(roomy.image_count, 3);
    let largest = choose_config(&surface_info(u32::MAX, 0, undefined(), vec![]), 1, 1).unwrap();
    assert_eq!(largest.image_count, u32::MAX);
}

#[test]
fn surface_extent_wins_unless_undefined() {
    let fixed = Extent2D { width: 1024, height: 768 };
    let config = choose_config(&surface_info(1, 0, fixed, vec![]), 640, 480).unwrap();
    assert_eq!(config.extent, fixed);
    let config = choose_config(&surface_info(1, 0, undefined(), vec![]), 640, 480).unwrap();
    assert_eq!(config.extent, Extent2D { width: 640, height: 480 });
}

#[test]
fn identity_transform_when_supported() {
    let mut info = surface_info(1, 0, undefined(), vec![]);
    info.capabilities.supported_transforms = 0b101;
    info.capabilities.current_transform = 4;
    assert_eq!(choose_config(&info, 1, 1).unwrap().pre_transform, TRANSFORM_IDENTITY);
    info.capabilities.supported_transforms = 0b100;
    assert_eq!(choose_config(&info, 1, 1).unwrap().pre_transform, 4);
}

#[test]
fn first_format_is_chosen() {
    let mut info = surface_info(1, 0, undefined(), vec![]);
    info.formats = vec![
        SurfaceFormat { format: 50, color_space: 0 },
        SurfaceFormat { format: 44, color_space: 0 },
    ];
    let config: SwapchainConfig = choose_config(&info, 1, 1).unwrap();
    assert_eq!(config.format, SurfaceFormat { format: 50, color_space: 0 });
}

#[test]
fn no_format_no_config() {
    let mut info = surface_info(1, 0, undefined(), vec![]);
    info.formats = vec![];
    assert!(choose_config(&info, 1, 1).is_none());
}
