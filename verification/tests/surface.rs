use gfx_hal::device::{DeviceLost, OutOfMemory, SurfaceLost};
use gfx_hal::window::AcquireError;
use nova_gfx::backend::SwapchainFailure;
use nova_gfx::surface::{AcquireStep, Surface, DEFAULT_ACQUIRE_ATTEMPTS};
use nova_gfx::types::Size;

fn created(size: Size, bound: u32) -> Surface {
    let mut surface = Surface::new(size, bound);
    match surface.begin_frame() {
        AcquireStep::Create { size: asked } => assert_eq!(asked, size),
        other => panic!("unexpected step: {:?}", describe(&other)),
    }
    match surface.swapchain_created(100, vec![10, 11, 12]) {
        AcquireStep::Acquire { swapchain: 100 } => {}
        other => panic!("unexpected step: {:?}", describe(&other)),
    }
    surface
}

fn describe(step: &AcquireStep) -> &'static str {
    match step {
        AcquireStep::Create { .. } => "create",
        AcquireStep::Acquire { .. } => "acquire",
        AcquireStep::Ready { .. } => "ready",
        AcquireStep::Recreate { .. } => "recreate",
        AcquireStep::GiveUp { .. } => "give up",
        AcquireStep::Fatal(_) => "fatal",
    }
}

#[test]
fn default_retry_bound_is_five() {
    assert_eq!(DEFAULT_ACQUIRE_ATTEMPTS, 5);
    let surface = Surface::with_size(Size::new(3, 4));
    assert_eq!(surface.retry_bound, 5);
    assert_eq!(surface.size(), Size::new(3, 4));
    assert!(!surface.is_created());
}

#[test]
fn first_frame_creates_the_swapchain_then_acquires() {
    let mut surface = created(Size::new(640, 480), 5);
    assert!(surface.is_created());
    assert_eq!(surface.ensure_swapchain(), None);
    assert!(surface.has_image(2));
    assert!(!surface.has_image(3));
    match surface.image_acquired(1) {
        AcquireStep::Ready { framebuffer: 11, index: 1 } => {}
        other => panic!("unexpected step: {}", describe(&other)),
    }
    assert_eq!(surface.frame, 1);
}

#[test]
fn later_frames_acquire_at_once() {
    let mut surface = created(Size::new(640, 480), 5);
    surface.image_acquired(0);
    match surface.begin_frame() {
        AcquireStep::Acquire { swapchain: 100 } => {}
        other => panic!("unexpected step: {}", describe(&other)),
    }
}

#[test]
fn destroy_swapchain_is_a_no_op_the_second_time() {
    let mut surface = created(Size::new(640, 480), 5);
    surface.image_acquired(2);
    let first = surface.destroy_swapchain();
    assert_eq!(first.framebuffers, vec![10, 11, 12]);
    assert_eq!(first.swapchain, Some(100));
    assert!(!surface.is_created());
    assert_eq!(surface.frame, 0);
    assert!(surface.framebuffers.is_empty());
    let second = surface.destroy_swapchain();
    assert!(second.framebuffers.is_empty());
    assert_eq!(second.swapchain, None);
    assert!(!surface.is_created());
    assert_eq!(surface.ensure_swapchain(), Some(Size::new(640, 480)));
}

#[test]
fn resize_to_another_size_destroys_the_swapchain() {
    let mut surface = created(Size::new(640, 480), 5);
    let before = surface.size();
    let teardown = surface.resize(Size::new(800, 600));
    assert_eq!(teardown.framebuffers, vec![10, 11, 12]);
    assert_eq!(teardown.swapchain, Some(100));
    assert_ne!(surface.size(), before);
    assert_eq!(surface.size(), Size::new(800, 600));
    assert!(!surface.is_created());
}

#[test]
fn resize_to_the_same_size_changes_nothing() {
    let mut surface = created(Size::new(640, 480), 5);
    let teardown = surface.resize(Size::new(640, 480));
    assert!(teardown.framebuffers.is_empty());
    assert_eq!(teardown.swapchain, None);
    assert!(surface.is_created());
    assert_eq!(surface.framebuffers, vec![10, 11, 12]);
}

#[test]
fn acquire_after_resize_recreates_without_help() {
    let mut surface = created(Size::new(640, 480), 5);
    surface.image_acquired(0);
    surface.resize(Size::new(1024, 768));
    match surface.begin_frame() {
        AcquireStep::Create { size } => assert_eq!(size, Size::new(1024, 768)),
        other => panic!("unexpected step: {}", describe(&other)),
    }
    match surface.swapchain_created(101, vec![20, 21]) {
        AcquireStep::Acquire { swapchain: 101 } => {}
        other => panic!("unexpected step: {}", describe(&other)),
    }
    match surface.image_acquired(1) {
        AcquireStep::Ready { framebuffer: 21, index: 1 } => {}
        other => panic!("unexpected step: {}", describe(&other)),
    }
}

fn attempts_until_failure(bound: u32) -> u32 {
    let mut surface = Surface::new(Size::new(64, 64), bound);
    let mut acquires = 0u32;
    let mut next_swapchain = 1u64;
    let mut step = surface.begin_frame();
    loop {
        assert!(acquires <= bound, "more attempts than allowed");
        step = match step {
            AcquireStep::Create { size } | AcquireStep::Recreate { size, .. } => {
                assert_eq!(size, Size::new(64, 64));
                next_swapchain += 1;
                surface.swapchain_created(next_swapchain, vec![1, 2])
            }
            AcquireStep::Acquire { swapchain } => {
                assert_eq!(swapchain, next_swapchain);
                acquires += 1;
                surface.acquire_failed(SwapchainFailure::OutOfDate)
            }
            AcquireStep::GiveUp { .. } => return acquires,
            AcquireStep::Ready { .. } => panic!("nothing was acquired"),
            AcquireStep::Fatal(_) => panic!("out of date is not fatal"),
        };
    }
}

#[test]
fn always_out_of_date_fails_after_exactly_the_bound() {
    assert_eq!(attempts_until_failure(5), 5);
    assert_eq!(attempts_until_failure(1), 1);
    assert_eq!(attempts_until_failure(3), 3);
    assert_eq!(attempts_until_failure(0), 0);
    assert_eq!(attempts_until_failure(DEFAULT_ACQUIRE_ATTEMPTS), 5);
}

#[test]
fn out_of_date_hands_out_what_to_destroy() {
    let mut surface = created(Size::new(640, 480), 2);
    match surface.acquire_failed(SwapchainFailure::OutOfDate) {
        AcquireStep::Recreate { teardown, size } => {
            assert_eq!(teardown.framebuffers, vec![10, 11, 12]);
            assert_eq!(teardown.swapchain, Some(100));
            assert_eq!(size, Size::new(640, 480));
        }
        other => panic!("unexpected step: {}", describe(&other)),
    }
    assert_eq!(surface.attempts, 1);
    surface.swapchain_created(101, vec![20]);
    match surface.acquire_failed(SwapchainFailure::OutOfDate) {
        AcquireStep::GiveUp { teardown } => {
            assert_eq!(teardown.framebuffers, vec![20]);
            assert_eq!(teardown.swapchain, Some(101));
        }
        other => panic!("unexpected step: {}", describe(&other)),
    }
    assert!(!surface.is_created());
}

#[test]
fn attempts_start_over_with_each_frame() {
    let mut surface = created(Size::new(640, 480), 2);
    surface.acquire_failed(SwapchainFailure::OutOfDate);
    surface.swapchain_created(101, vec![20]);
    surface.image_acquired(0);
    assert_eq!(surface.attempts, 1);
    surface.begin_frame();
    assert_eq!(surface.attempts, 0);
    match surface.acquire_failed(SwapchainFailure::OutOfDate) {
        AcquireStep::Recreate { .. } => {}
        other => panic!("unexpected step: {}", describe(&other)),
    }
}

#[test]
fn surface_lost_is_fatal_at_once() {
    let mut surface = created(Size::new(640, 480), 5);
    match surface.acquire_failed(SwapchainFailure::SurfaceLost) {
        AcquireStep::Fatal(SwapchainFailure::SurfaceLost) => {}
        other => panic!("unexpected step: {}", describe(&other)),
    }
    assert!(surface.is_created());
    assert_eq!(surface.attempts, 0);
}

#[test]
fn other_failures_are_fatal_too() {
    for failure in [SwapchainFailure::DeviceLost, SwapchainFailure::OutOfMemory, SwapchainFailure::NotReady] {
        let mut surface = created(Size::new(640, 480), 5);
        match surface.acquire_failed(failure) {
            AcquireStep::Fatal(got) => assert_eq!(got, failure),
            other => panic!("unexpected step: {}", describe(&other)),
        }
    }
}

#[test]
fn backend_acquire_errors_are_told_apart() {
    let mut surface = created(Size::new(640, 480), 5);
    assert!(matches!(surface.acquire_error(AcquireError::OutOfDate), AcquireStep::Recreate { .. }));
    let mut surface = created(Size::new(640, 480), 5);
    assert!(matches!(
        surface.acquire_error(AcquireError::SurfaceLost(SurfaceLost)),
        AcquireStep::Fatal(SwapchainFailure::SurfaceLost)
    ));
    assert!(matches!(
        surface.acquire_error(AcquireError::DeviceLost(DeviceLost)),
        AcquireStep::Fatal(SwapchainFailure::DeviceLost)
    ));
    assert!(matches!(
        surface.acquire_error(AcquireError::NotReady),
        AcquireStep::Fatal(SwapchainFailure::NotReady)
    ));
    assert!(matches!(
        surface.acquire_error(AcquireError::OutOfMemory(OutOfMemory::OutOfHostMemory)),
        AcquireStep::Fatal(SwapchainFailure::OutOfMemory)
    ));
}

#[test]
fn failed_presentation_destroys_the_swapchain() {
    let mut surface = created(Size::new(640, 480), 5);
    let teardown = surface.presented(true);
    assert_eq!(teardown.swapchain, None);
    assert!(surface.is_created());
    let teardown = surface.presented(false);
    assert_eq!(teardown.swapchain, Some(100));
    assert_eq!(teardown.framebuffers, vec![10, 11, 12]);
    assert!(!surface.is_created());
}
