use mev::{
    pick_format, pick_mode, AcquireOutcome, AcquireStep, Chain, InitStep, PixelFormat, PresentLayout, PresentMode,
    Queue, SuboptimalRetire, Surface, SurfaceError, MAX_RETIRED, SUBOPTIMAL_RETIRE_COOLDOWN,
};

fn real_chain(h: u64) -> Chain {
    Chain { handle: h, fake: false }
}

fn init(s: &mut Surface, extent: (u32, u32), next: u64) -> InitStep {
    let step = s.init_begin(Ok(extent)).unwrap();
    match step {
        InitStep::KeepFake => {}
        InitStep::CreateFake(_, _) => s.init_finish(Ok(Chain { handle: next, fake: true })).unwrap(),
        InitStep::CreateSwapchain(_, _, _) => s.init_finish(Ok(real_chain(next))).unwrap(),
    }
    step
}

#[test]
fn resized_swapchain_destroyed_after_image_drop() {
    let mut s = Surface::new();
    assert_eq!(s.begin_frame(), Ok(true));
    assert_eq!(init(&mut s, (800, 600), 1), InitStep::CreateSwapchain(800, 600, 0));
    assert_eq!(s.on_acquire(AcquireOutcome::Acquired(0)), Ok(AcquireStep::Image(0)));
    // Resize: the next acquire reports out of date and the chain is rebuilt.
    assert_eq!(s.begin_frame(), Ok(false));
    assert_eq!(s.on_acquire(AcquireOutcome::OutOfDate), Ok(AcquireStep::Reinit));
    assert_eq!(init(&mut s, (1024, 768), 2), InitStep::CreateSwapchain(1024, 768, 1));
    assert_eq!(s.retired().clone(), vec![real_chain(1)]);
    // The old frame's image is still held: nothing is destroyed.
    assert!(s.clear_retired(&vec![false]).is_empty());
    assert_eq!(s.retired_len(), 1);
    // Dropped: the old swapchain goes at the next clear.
    assert_eq!(s.clear_retired(&vec![true]), vec![real_chain(1)]);
    assert_eq!(s.retired_len(), 0);
}

#[test]
fn clear_stops_at_first_chain_in_use() {
    let mut s = Surface::new();
    init(&mut s, (10, 10), 1);
    init(&mut s, (20, 20), 2);
    init(&mut s, (30, 30), 3);
    init(&mut s, (40, 40), 4);
    assert_eq!(s.retired_len(), 3);
    let done = s.clear_retired(&vec![true, false, true]);
    assert_eq!(done, vec![real_chain(1)]);
    assert_eq!(s.retired().clone(), vec![real_chain(2), real_chain(3)]);
}

#[test]
fn forced_clear_destroys_every_retired_chain() {
    let mut s = Surface::new();
    for i in 0..(MAX_RETIRED as u64 + 1) {
        init(&mut s, (100, 100), i + 1);
    }
    assert!(s.needs_force_clear());
    let all = s.force_clear_retired(&vec![true; MAX_RETIRED]);
    assert_eq!(all.len(), MAX_RETIRED);
    assert_eq!(s.retired_len(), 0);
    assert_eq!(s.current(), Some(real_chain(MAX_RETIRED as u64 + 1)));
}

#[test]
fn zero_area_surface_uses_stand_in_image() {
    let mut s = Surface::new();
    assert_eq!(init(&mut s, (0, 300), 7), InitStep::CreateFake(1, 300));
    assert_eq!(init(&mut s, (0, 0), 8), InitStep::KeepFake);
    let f1 = s.fake_frame(70, 71);
    assert_eq!(f1.acquire, 0);
    assert!(!f1.is_real());
    let f2 = s.fake_frame(70, 71);
    assert_eq!(f2.acquire, 71);
    assert_eq!(f2.present, 71);
    // Back to a real size: the stand-in is retired.
    assert_eq!(init(&mut s, (640, 480), 9), InitStep::CreateSwapchain(640, 480, 0));
    assert_eq!(s.retired().clone(), vec![Chain { handle: 7, fake: true }]);
}

#[test]
fn suboptimal_swapchain_retires_after_cooldown() {
    let mut s = Surface::new();
    s.begin_frame().unwrap();
    init(&mut s, (100, 100), 1);
    for _ in 1..SUBOPTIMAL_RETIRE_COOLDOWN {
        assert_eq!(s.begin_frame(), Ok(false));
        assert_eq!(s.on_acquire(AcquireOutcome::Suboptimal(1)), Ok(AcquireStep::Image(1)));
    }
    assert_eq!(s.suboptimal(), SuboptimalRetire::Cooldown(1));
    assert_eq!(s.begin_frame(), Ok(false));
    assert_eq!(s.suboptimal(), SuboptimalRetire::Cooldown(0));
    s.on_acquire(AcquireOutcome::Suboptimal(1)).unwrap();
    assert_eq!(s.suboptimal(), SuboptimalRetire::Retire);
    assert_eq!(s.begin_frame(), Ok(true));
    init(&mut s, (100, 100), 2);
    assert_eq!(s.suboptimal(), SuboptimalRetire::Cooldown(SUBOPTIMAL_RETIRE_COOLDOWN));
}

#[test]
fn lost_surface_fails_every_call() {
    let mut s = Surface::new();
    init(&mut s, (100, 100), 1);
    assert_eq!(s.on_acquire(AcquireOutcome::Lost), Err(SurfaceError::SurfaceLost));
    assert!(s.is_lost());
    assert_eq!(s.begin_frame(), Err(SurfaceError::SurfaceLost));
    assert_eq!(s.init_begin(Ok((10, 10))), Err(SurfaceError::SurfaceLost));
}

#[test]
fn surface_errors_while_building() {
    let mut s = Surface::new();
    assert_eq!(s.init_begin(Err(SurfaceError::OutOfMemory)), Err(SurfaceError::OutOfMemory));
    assert!(!s.is_lost());
    assert_eq!(s.on_acquire(AcquireOutcome::OutOfMemory), Err(SurfaceError::OutOfMemory));
    assert_eq!(s.init_begin(Ok((5, 5))), Ok(InitStep::CreateSwapchain(5, 5, 0)));
    assert_eq!(s.init_finish(Err(SurfaceError::SurfaceLost)), Err(SurfaceError::SurfaceLost));
    assert!(s.is_lost());
}

#[test]
fn frame_syncs_once_into_queue_waits() {
    let mut s = Surface::new();
    init(&mut s, (0, 0), 3);
    s.fake_frame(30, 31);
    let mut frame = s.fake_frame(30, 31);
    let mut q = Queue::new();
    q.sync_frame(&mut frame, 4);
    assert!(frame.synced);
    let (chain, retired) = s.teardown();
    assert_eq!(chain, Some(Chain { handle: 3, fake: true }));
    assert!(retired.is_empty());
}

#[test]
fn preferred_format_and_mode() {
    let formats = vec![None, Some(PixelFormat::Bgra8Srgb), Some(PixelFormat::Bgra8Unorm)];
    assert_eq!(pick_format(&formats), Some(2));
    assert_eq!(pick_format(&vec![Some(PixelFormat::R8Unorm)]), None);
    assert_eq!(pick_format(&vec![Some(PixelFormat::Rgba8Srgb), Some(PixelFormat::Rgba8Unorm)]), Some(1));
    assert_eq!(pick_mode(&vec![PresentMode::Fifo, PresentMode::Mailbox]), Some(PresentMode::Mailbox));
    assert_eq!(pick_mode(&vec![PresentMode::Immediate, PresentMode::Fifo]), Some(PresentMode::Fifo));
    assert_eq!(pick_mode(&vec![PresentMode::Immediate]), Some(PresentMode::Immediate));
    assert_eq!(pick_mode(&vec![PresentMode::FifoRelaxed]), None);
}

#[test]
fn stand_in_frames_are_not_presented() {
    let mut s = Surface::new();
    init(&mut s, (0, 0), 3);
    let f = s.fake_frame(30, 31);
    assert_eq!(f.present_layout(), PresentLayout::General);
    let real = mev::Frame::new(5, 50, 1, 51, 52);
    assert_eq!(real.present_layout(), PresentLayout::PresentSrc);
    assert!(!real.synced);
}
