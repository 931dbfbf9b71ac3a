use gfx_hal::device::{DeviceLost, OutOfMemory, SurfaceLost};
use gfx_hal::window::{PresentError, Suboptimal};
use nova_gfx::backend::SwapchainFailure;
use nova_gfx::cmd::{List, Pool};
use nova_gfx::queues::{
    settle_backend_present, settle_present, PresentFailure, Presented, QueueFamily, QueueId, Queues,
    Submission,
};
use nova_gfx::sync::{Fence, FenceState, Semaphore};
use nova_gfx::types::Stage;

fn family(id: usize, graphics: bool, compute: bool) -> QueueFamily {
    QueueFamily { id, graphics, compute, opened: 1 }
}

#[test]
fn queue_id_gives_the_backend_family() {
    let id = QueueId { index: 1, family_id: 3 };
    assert_eq!(id.as_backend(), gfx_hal::queue::QueueFamilyId(3));
    let id = QueueId { index: 3, family_id: 0 };
    assert_eq!(id.as_backend(), gfx_hal::queue::QueueFamilyId(0));
}

#[test]
fn graphics_queue_is_the_first_that_takes_graphics() {
    let queues = Queues::new(vec![family(10, false, true), family(11, true, true), family(12, true, false)]);
    assert_eq!(queues.find_graphics_queue(), QueueId { index: 1, family_id: 11 });
    assert_eq!(queues.try_find_graphics_queue(), Some(QueueId { index: 1, family_id: 11 }));
}

#[test]
fn no_graphics_queue_is_found_where_none_exists() {
    let queues = Queues::new(vec![family(10, false, true), family(11, false, false)]);
    assert_eq!(queues.try_find_graphics_queue(), None);
    let queues = Queues::new(vec![]);
    assert_eq!(queues.try_find_graphics_queue(), None);
    assert_eq!(queues.try_find_transfer_queue(), None);
}

#[test]
fn transfer_queue_is_the_first_dedicated_one() {
    let queues = Queues::new(vec![
        family(0, true, true),
        family(1, false, true),
        family(2, false, false),
        family(3, false, false),
    ]);
    assert_eq!(queues.find_transfer_queue(), QueueId { index: 2, family_id: 2 });
}

#[test]
fn transfer_queue_falls_back_to_graphics() {
    let queues = Queues::new(vec![family(4, false, true), family(5, true, true)]);
    assert_eq!(queues.find_transfer_queue(), QueueId { index: 1, family_id: 5 });
    assert_eq!(queues.find_transfer_queue(), queues.find_graphics_queue());
}

#[test]
fn transfer_only_device_has_a_transfer_queue_but_no_graphics_queue() {
    let queues = Queues::new(vec![family(4, false, false)]);
    assert_eq!(queues.try_find_transfer_queue(), Some(QueueId { index: 0, family_id: 4 }));
    assert_eq!(queues.find_transfer_queue(), QueueId { index: 0, family_id: 4 });
    assert_eq!(queues.try_find_graphics_queue(), None);
}

#[test]
fn present_queue_is_the_first_that_the_surface_supports() {
    let queues = Queues::new(vec![family(0, true, true), family(1, true, false), family(2, false, false)]);
    assert_eq!(
        queues.find_present_queue(&vec![false, true, true]),
        QueueId { index: 1, family_id: 1 }
    );
    assert_eq!(queues.try_find_present_queue(&vec![false, false, false]), None);
}

#[test]
fn opened_all_wants_a_queue_in_every_family() {
    assert!(Queues::opened_all(&vec![family(0, true, true), family(1, false, false)]));
    assert!(Queues::opened_all(&vec![]));
    let mut closed = family(1, false, false);
    closed.opened = 0;
    assert!(!Queues::opened_all(&vec![family(0, true, true), closed]));
}

fn finished_list(pool: &mut Pool) -> List {
    let list = List::new(pool);
    list.record(pool).finish(pool)
}

#[test]
fn submission_becomes_an_order_and_arms_the_fence() {
    let queues = Queues::new(vec![family(0, true, true), family(1, false, false)]);
    let id = QueueId { index: 1, family_id: 1 };
    let mut pool = Pool::new(1, id);
    let mut submission = Submission::new(id);
    submission.push_list(finished_list(&mut pool));
    submission.push_list(finished_list(&mut pool));
    submission.wait_for(&Semaphore::new(50), Stage::ColorAttachmentOutput);
    submission.signal(&Semaphore::new(51));
    assert!(submission.is_routed());
    assert!(queues.can_submit(&submission));

    let mut fence = Fence::new(60, false);
    let order = queues.submit(&submission, &mut fence);
    assert_eq!(order.queue_index, 1);
    assert_eq!(order.command_buffers, vec![0, 1]);
    assert_eq!(order.wait_semaphores, vec![(50, Stage::ColorAttachmentOutput)]);
    assert_eq!(order.signal_semaphores, vec![51]);
    assert_eq!(order.fence, Some(60));
    assert_eq!(fence.state(), FenceState::Pending);

    let order = queues.submit_unfenced(&submission);
    assert_eq!(order.fence, None);
    assert_eq!(order.command_buffers, vec![0, 1]);
}

#[test]
fn submission_with_lists_of_two_queues_is_refused() {
    let queues = Queues::new(vec![family(0, true, true), family(1, false, false)]);
    let graphics = QueueId { index: 0, family_id: 0 };
    let transfer = QueueId { index: 1, family_id: 1 };
    let mut graphics_pool = Pool::new(1, graphics);
    let mut transfer_pool = Pool::new(2, transfer);
    let mut submission = Submission::new(graphics);
    submission.push_list(finished_list(&mut graphics_pool));
    assert!(queues.can_submit(&submission));
    submission.push_list(finished_list(&mut transfer_pool));
    assert!(!submission.is_routed());
    assert!(!queues.can_submit(&submission));
}

#[test]
fn empty_submission_is_refused() {
    let queues = Queues::new(vec![family(0, true, true)]);
    let submission = Submission::new(QueueId { index: 0, family_id: 0 });
    assert!(!submission.is_routed());
    assert!(!queues.can_submit(&submission));
}

#[test]
fn submission_to_a_queue_that_does_not_exist_is_refused() {
    let queues = Queues::new(vec![family(0, true, true)]);
    let id = QueueId { index: 1, family_id: 0 };
    let mut pool = Pool::new(1, id);
    let mut submission = Submission::new(id);
    submission.push_list(finished_list(&mut pool));
    assert!(submission.is_routed());
    assert!(!queues.can_submit(&submission));
}

#[test]
fn clear_hands_back_the_lists() {
    let id = QueueId { index: 0, family_id: 0 };
    let mut pool = Pool::new(1, id);
    let mut submission = Submission::new(id);
    submission.push_list(finished_list(&mut pool));
    submission.wait_for(&Semaphore::new(50), Stage::Transfer);
    submission.signal(&Semaphore::new(51));
    let lists = submission.clear();
    assert_eq!(lists.len(), 1);
    assert_eq!(lists[0].as_backend(), 0);
    assert!(submission.lists.is_empty());
    assert!(submission.wait_semaphores.is_empty());
    assert!(submission.signal_semaphores.is_empty());
    assert_eq!(submission.queue_id, id);
}

#[test]
fn present_order_names_queue_image_and_semaphores() {
    let queues = Queues::new(vec![family(0, true, true), family(1, true, true)]);
    let order = queues.present(QueueId { index: 1, family_id: 1 }, 90, 2, &vec![51, 52]);
    assert_eq!(order.queue_index, 1);
    assert_eq!(order.swapchain, 90);
    assert_eq!(order.image_index, 2);
    assert_eq!(order.wait_semaphores, vec![51, 52]);
}

#[test]
fn present_has_three_results() {
    assert_eq!(settle_present(Presented::Done), Ok(()));
    assert_eq!(settle_present(Presented::Suboptimal), Err(PresentFailure::OutOfDate));
    assert_eq!(
        settle_present(Presented::Failed(SwapchainFailure::OutOfDate)),
        Err(PresentFailure::OutOfDate)
    );
    assert_eq!(
        settle_present(Presented::Failed(SwapchainFailure::SurfaceLost)),
        Err(PresentFailure::Device(SwapchainFailure::SurfaceLost))
    );
    assert_eq!(
        settle_present(Presented::Failed(SwapchainFailure::DeviceLost)),
        Err(PresentFailure::Device(SwapchainFailure::DeviceLost))
    );
    assert_eq!(
        settle_present(Presented::Failed(SwapchainFailure::OutOfMemory)),
        Err(PresentFailure::Device(SwapchainFailure::OutOfMemory))
    );
}

#[test]
fn backend_present_answers_are_sorted() {
    assert_eq!(settle_backend_present(Ok(None)), Ok(()));
    assert_eq!(settle_backend_present(Ok(Some(Suboptimal))), Err(PresentFailure::OutOfDate));
    assert_eq!(settle_backend_present(Err(PresentError::OutOfDate)), Err(PresentFailure::OutOfDate));
    assert_eq!(
        settle_backend_present(Err(PresentError::SurfaceLost(SurfaceLost))),
        Err(PresentFailure::Device(SwapchainFailure::SurfaceLost))
    );
    assert_eq!(
        settle_backend_present(Err(PresentError::DeviceLost(DeviceLost))),
        Err(PresentFailure::Device(SwapchainFailure::DeviceLost))
    );
    assert_eq!(
        settle_backend_present(Err(PresentError::OutOfMemory(OutOfMemory::OutOfDeviceMemory))),
        Err(PresentFailure::Device(SwapchainFailure::OutOfMemory))
    );
}
