use crossbeam_channel::{unbounded, TryRecvError};
use nova_gfx::backend::SwapchainFailure;
use nova_gfx::cmd::{Command, List, Pool};
use nova_gfx::pipeline::{Pipeline, PipelineOptions};
use nova_gfx::queues::{PresentFailure, QueueFamily, QueueId, Queues};
use nova_gfx::renderer::{
    polled_of, record_frame, LoopAction, LoopPhase, Polled, RenderLoop, RenderOptions, Renderer,
    RendererMsg, RendererTeardown, Scene,
};
use nova_gfx::resources::{Buffer, Framebuffer, ImageId, RenderPass};
use nova_gfx::shader::Module;
use nova_gfx::surface::{AcquireStep, Surface};
use nova_gfx::sync::FenceState;
use nova_gfx::types::{BufferKind, Size, Stage};

const FENCE: u64 = 60;
const ACQUIRE: u64 = 61;
const RENDER: u64 = 62;

fn queues() -> Queues {
    Queues::new(vec![QueueFamily { id: 4, graphics: true, compute: true, opened: 1 }])
}

fn scene() -> Scene {
    Scene {
        pipeline: Pipeline::new(
            40,
            41,
            PipelineOptions {
                vertex_shader: Module::new(42),
                fragment_shader: Module::new(43),
                size_of_push_constants: 16,
            },
        ),
        descriptor_set: 44,
        vertex_buffer: Buffer::new(45, BufferKind::Vertex, 4, 36),
        vertex_count: 4,
        constants: vec![0x3F; 16],
    }
}

fn render_loop(bound: u32) -> (Queues, RenderLoop) {
    let queues = queues();
    let queue_id = queues.find_graphics_queue();
    let state = RenderLoop::new(
        queue_id,
        1,
        Surface::new(Size::new(1280, 720), bound),
        &RenderPass::new(2),
        FENCE,
        ACQUIRE,
        RENDER,
        scene(),
    );
    (queues, state)
}

fn expect_frame_commands(commands: &[Command], framebuffer: u64, width: i16, height: i16) {
    match commands {
        [Command::Begin, Command::SetViewport { width: vw, height: vh }, Command::SetScissor { width: sw, height: sh }, Command::BeginRenderPass { render_pass: 2, framebuffer: fb, width: pw, height: ph }, Command::BindGraphicsPipeline { pipeline: 40 }, Command::PushGraphicsConstants { pipeline_layout: 41, data }, Command::BindDescriptorSet { first_set: 0, set: 44 }, Command::BindVertexBuffer { index: 0, buffer: 45 }, Command::Draw { first_vertex: 0, end_vertex: 4 }, Command::EndRenderPass, Command::Finish] => {
            assert_eq!((*vw, *vh, *sw, *sh, *pw, *ph), (width, height, width, height, width, height));
            assert_eq!(*fb, framebuffer);
            assert_eq!(data, &vec![0x3F; 16]);
        }
        other => panic!("unexpected commands: {:?}", other),
    }
}

#[test]
fn messages_are_read_from_the_channel() {
    let (sender, receiver) = unbounded::<RendererMsg>();
    assert_eq!(polled_of(receiver.try_recv()), Polled::Empty);
    sender.send(RendererMsg::ResizeSurface(Size::new(3, 4))).unwrap();
    sender.send(RendererMsg::ShutDown).unwrap();
    assert_eq!(
        polled_of(receiver.try_recv()),
        Polled::Message(RendererMsg::ResizeSurface(Size::new(3, 4)))
    );
    assert_eq!(polled_of(receiver.try_recv()), Polled::Message(RendererMsg::ShutDown));
    drop(sender);
    assert_eq!(polled_of(receiver.try_recv()), Polled::Disconnected);
    assert_eq!(polled_of(Err(TryRecvError::Empty)), Polled::Empty);
}

#[test]
fn record_frame_draws_the_scene_in_one_pass() {
    let mut pool = Pool::new(1, QueueId { index: 0, family_id: 4 });
    let mut framebuffer = Framebuffer::new();
    framebuffer.set_render_pass(&RenderPass::new(2));
    framebuffer.set_attachment(70, Size::new(800, 600));
    framebuffer.created(71);
    let scene = scene();
    assert!(scene.is_valid());
    let list = record_frame(&mut pool, &framebuffer, &scene);
    expect_frame_commands(list.commands(), 71, 800, 600);
    assert!(!pool.is_recording());
    assert_eq!(list.as_backend(), 0);
}

#[test]
fn scene_with_constants_of_the_wrong_size_is_invalid() {
    let mut scene = scene();
    scene.constants.pop();
    assert!(!scene.is_valid());
    let mut scene = self::scene();
    scene.vertex_buffer.destroy();
    assert!(!scene.is_valid());
}

fn run_first_frame(queues: &Queues, state: &mut RenderLoop) {
    match state.polled(Polled::Empty) {
        LoopAction::WaitFence { fence } => assert_eq!(fence, FENCE),
        _ => panic!("expected a wait for the fence"),
    }
    assert_eq!(state.phase(), LoopPhase::WaitingFence);
    match state.fence_waited() {
        LoopAction::Acquire { step: AcquireStep::Create { size }, semaphore } => {
            assert_eq!(size, Size::new(1280, 720));
            assert_eq!(semaphore, ACQUIRE);
        }
        _ => panic!("expected the swapchain to be created"),
    }
    assert_eq!(state.frame_fence.state(), FenceState::Unsignaled);
    match state.swapchain_created(90, vec![80, 81]) {
        LoopAction::Acquire { step: AcquireStep::Acquire { swapchain: 90 }, semaphore } => {
            assert_eq!(semaphore, ACQUIRE);
        }
        _ => panic!("expected an acquisition"),
    }
    assert!(state.has_image(1));
    assert!(!state.has_image(2));
    match state.image_acquired(queues, 1) {
        LoopAction::CreateFramebuffer { destroy, render_pass, attachment, size } => {
            assert_eq!(destroy, None);
            assert_eq!(render_pass, 2);
            assert_eq!(attachment, 81);
            assert_eq!(size, Size::new(1280, 720));
        }
        _ => panic!("expected the framebuffer to be created"),
    }
    assert_eq!(state.phase(), LoopPhase::CreatingFramebuffer);
    match state.framebuffer_created(queues, Some(100)) {
        LoopAction::Submit { order, present } => {
            assert_eq!(order.queue_index, 0);
            assert_eq!(order.command_buffers, vec![0]);
            assert_eq!(order.wait_semaphores, vec![(ACQUIRE, Stage::ColorAttachmentOutput)]);
            assert_eq!(order.signal_semaphores, vec![RENDER]);
            assert_eq!(order.fence, Some(FENCE));
            assert_eq!(present.queue_index, 0);
            assert_eq!(present.swapchain, 90);
            assert_eq!(present.image_index, 1);
            assert_eq!(present.wait_semaphores, vec![RENDER]);
        }
        _ => panic!("expected a submission"),
    }
    assert_eq!(state.phase(), LoopPhase::Presenting);
    assert_eq!(state.frame_fence.state(), FenceState::Pending);
    expect_frame_commands(state.submission.lists[0].commands(), 100, 1280, 720);
}

#[test]
fn a_frame_runs_from_poll_to_present() {
    let (queues, mut state) = render_loop(5);
    assert_eq!(state.phase(), LoopPhase::Polling);
    run_first_frame(&queues, &mut state);
    match state.presented(Ok(())) {
        LoopAction::Poll { teardown } => {
            assert!(teardown.framebuffers.is_empty());
            assert_eq!(teardown.swapchain, None);
        }
        _ => panic!("expected the next poll"),
    }
    assert_eq!(state.phase(), LoopPhase::Polling);
}

#[test]
fn the_second_frame_reuses_buffer_and_framebuffer() {
    let (queues, mut state) = render_loop(5);
    run_first_frame(&queues, &mut state);
    state.presented(Ok(()));
    state.polled(Polled::Empty);
    match state.fence_waited() {
        LoopAction::Acquire { step: AcquireStep::Acquire { swapchain: 90 }, .. } => {}
        _ => panic!("expected an acquisition"),
    }
    assert!(state.submission.lists.is_empty());
    assert_eq!(state.pool.free, vec![0]);
    match state.image_acquired(&queues, 1) {
        LoopAction::Submit { order, present } => {
            assert_eq!(order.command_buffers, vec![0]);
            assert_eq!(order.wait_semaphores, vec![(ACQUIRE, Stage::ColorAttachmentOutput)]);
            assert_eq!(order.signal_semaphores, vec![RENDER]);
            assert_eq!(present.image_index, 1);
        }
        _ => panic!("expected a submission"),
    }
    assert_eq!(state.pool.allocated, 1);
}

#[test]
fn another_image_gets_another_framebuffer() {
    let (queues, mut state) = render_loop(5);
    run_first_frame(&queues, &mut state);
    state.presented(Ok(()));
    state.polled(Polled::Empty);
    state.fence_waited();
    match state.image_acquired(&queues, 0) {
        LoopAction::CreateFramebuffer { destroy, render_pass: 2, attachment: 80, .. } => {
            assert_eq!(destroy, Some(100));
        }
        _ => panic!("expected the framebuffer to be created"),
    }
}

#[test]
fn shut_down_ends_the_loop() {
    let (_, mut state) = render_loop(5);
    assert!(matches!(
        state.polled(Polled::Message(RendererMsg::ShutDown)),
        LoopAction::Stop { .. }
    ));
    assert_eq!(state.phase(), LoopPhase::Stopped);
}

#[test]
fn shut_down_after_a_frame_ends_the_loop() {
    let (queues, mut state) = render_loop(5);
    run_first_frame(&queues, &mut state);
    state.presented(Ok(()));
    assert!(matches!(
        state.polled(Polled::Message(RendererMsg::ShutDown)),
        LoopAction::Stop { .. }
    ));
    assert_eq!(state.phase(), LoopPhase::Stopped);
}

#[test]
fn a_channel_without_senders_ends_the_loop() {
    let (_, mut state) = render_loop(5);
    assert!(matches!(state.polled(Polled::Disconnected), LoopAction::Stop { .. }));
    assert_eq!(state.phase(), LoopPhase::Stopped);
}

#[test]
fn resize_reaches_the_surface_at_once() {
    let (queues, mut state) = render_loop(5);
    run_first_frame(&queues, &mut state);
    state.presented(Ok(()));
    match state.polled(Polled::Message(RendererMsg::ResizeSurface(Size::new(640, 480)))) {
        LoopAction::Poll { teardown } => {
            assert_eq!(teardown.swapchain, Some(90));
            assert_eq!(teardown.framebuffers, vec![80, 81]);
        }
        _ => panic!("expected the next poll"),
    }
    assert_eq!(state.phase(), LoopPhase::Polling);
    assert_eq!(state.surface.size(), Size::new(640, 480));
    state.polled(Polled::Empty);
    match state.fence_waited() {
        LoopAction::Acquire { step: AcquireStep::Create { size }, .. } => {
            assert_eq!(size, Size::new(640, 480));
        }
        _ => panic!("expected the swapchain to be created"),
    }
}

#[test]
fn a_present_error_ends_the_loop() {
    let (queues, mut state) = render_loop(5);
    run_first_frame(&queues, &mut state);
    assert!(matches!(
        state.presented(Err(PresentFailure::OutOfDate)),
        LoopAction::Stop { .. }
    ));
    assert_eq!(state.phase(), LoopPhase::Stopped);
}

#[test]
fn a_framebuffer_that_cannot_be_created_ends_the_loop() {
    let (queues, mut state) = render_loop(5);
    state.polled(Polled::Empty);
    state.fence_waited();
    state.swapchain_created(90, vec![80]);
    state.image_acquired(&queues, 0);
    assert!(matches!(state.framebuffer_created(&queues, None), LoopAction::Stop { .. }));
    assert_eq!(state.phase(), LoopPhase::Stopped);
}

#[test]
fn surface_lost_ends_the_loop() {
    let (_, mut state) = render_loop(5);
    state.polled(Polled::Empty);
    state.fence_waited();
    state.swapchain_created(90, vec![80]);
    assert!(matches!(
        state.acquire_failed(SwapchainFailure::SurfaceLost),
        LoopAction::Stop { .. }
    ));
    assert_eq!(state.phase(), LoopPhase::Stopped);
}

#[test]
fn out_of_date_is_retried_up_to_the_bound() {
    let (_, mut state) = render_loop(3);
    state.polled(Polled::Empty);
    state.fence_waited();
    let mut acquires = 0;
    let mut swapchain = 90;
    loop {
        state.swapchain_created(swapchain, vec![80]);
        acquires += 1;
        match state.acquire_failed(SwapchainFailure::OutOfDate) {
            LoopAction::Acquire { step: AcquireStep::Recreate { teardown, size }, semaphore } => {
                assert_eq!(teardown.swapchain, Some(swapchain));
                assert_eq!(size, Size::new(1280, 720));
                assert_eq!(semaphore, ACQUIRE);
                swapchain += 1;
            }
            LoopAction::Stop { teardown } => {
                assert_eq!(teardown.swapchain, Some(swapchain));
                break;
            }
            _ => panic!("unexpected action"),
        }
        assert!(acquires < 10);
    }
    assert_eq!(acquires, 3);
    assert_eq!(state.phase(), LoopPhase::Stopped);
}

#[test]
fn a_loop_that_may_not_try_stops_before_acquiring() {
    let (_, mut state) = render_loop(0);
    state.polled(Polled::Empty);
    assert!(matches!(state.fence_waited(), LoopAction::Stop { .. }));
    assert_eq!(state.phase(), LoopPhase::Stopped);
}

#[test]
fn renderer_submits_transfers_before_the_frame() {
    let queues = queues();
    let queue_id = queues.find_graphics_queue();
    let mut renderer = Renderer::new(queue_id, 1, 2, FENCE);
    assert_eq!(renderer.begin(), None);
    assert_eq!(renderer.frame_fence.state(), FenceState::Unsignaled);

    let transfers = List::new(&mut renderer.pool);
    let transfers = transfers.record(&mut renderer.pool).finish(&mut renderer.pool);
    let options = RenderOptions {
        target: ImageId(7),
        wait_semaphores: vec![(ACQUIRE, Stage::ColorAttachmentOutput)],
        signal_semaphores: vec![RENDER, 63],
    };
    let order = renderer.render(&queues, 100, Size::new(320, 200), transfers, &scene(), &options);
    assert_eq!(order.queue_index, 0);
    assert_eq!(order.command_buffers, vec![0, 1]);
    assert_eq!(order.wait_semaphores, vec![(ACQUIRE, Stage::ColorAttachmentOutput)]);
    assert_eq!(order.signal_semaphores, vec![RENDER, 63]);
    assert_eq!(order.fence, Some(FENCE));
    assert_eq!(renderer.frame_fence.state(), FenceState::Pending);
    expect_frame_commands(renderer.submission.lists[1].commands(), 100, 320, 200);

    assert_eq!(renderer.begin(), Some(100));
    assert!(renderer.submission.lists.is_empty());
    assert_eq!(renderer.pool.allocated, 2);
    let mut free = renderer.pool.free.clone();
    free.sort();
    assert_eq!(free, vec![0, 1]);

    assert_eq!(
        renderer.destroy(),
        RendererTeardown {
            framebuffer: None,
            command_pool: 1,
            frame_fence: Some(FENCE),
            render_pass: Some(2),
        }
    );
}
