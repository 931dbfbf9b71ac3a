//! The decisions of the background renderer's frame loop. The thread that
//! runs the loop performs each action on the device and reports what came
//! of it; what to do next is decided here.

use vstd::prelude::*;
use core::ops::Range;
use crate::backend::{
    acquire_failure, classify_acquire_error, disconnection, try_recv_failure, SwapchainFailure,
    TryRecvFailure,
};
use crate::cmd::{wrap_i16, CommandView, List, Pool};
use crate::pipeline::Pipeline;
use crate::queues::{PresentFailure, PresentOrder, QueueId, Queues, Submission, SubmitOrder};
use crate::resources::{Buffer, Framebuffer, ImageId, RenderPass};
use crate::surface::{nothing, AcquireStep, StepView, Surface, Teardown};
use crate::sync::{Fence, FenceState, Semaphore};
use crate::types::{Size, Stage};
use crate::util::copy_of;

verus! {

/// Control message for a renderer background thread.
#[derive(Debug, Clone, Copy, PartialEq, Eq, Structural)]
pub enum RendererMsg {
    /// End the loop once the work in flight is done.
    ShutDown,
    /// The window has this size now.
    ResizeSurface(Size),
}

/// What a look at the control channel found.
#[derive(Debug, Clone, Copy, PartialEq, Eq, Structural)]
pub enum Polled {
    Message(RendererMsg),
    Empty,
    Disconnected,
}

/// What a receive that does not block amounts to for the loop.
pub fn polled_of(received: Result<RendererMsg, crossbeam_channel::TryRecvError>) -> (res: Polled)
    ensures
        res == match received {
            Ok(message) => Polled::Message(message),
            Err(err) => if try_recv_failure(err) == TryRecvFailure::Disconnected {
                Polled::Disconnected
            } else {
                Polled::Empty
            },
        },
{
    match received {
        Ok(message) => Polled::Message(message),
        Err(err) => match disconnection(err) {
            Some(_) => Polled::Disconnected,
            None => Polled::Empty,
        },
    }
}

/// Which semaphores a render of an image waits for and signals.
pub struct RenderOptions {
    pub target: ImageId,
    pub wait_semaphores: Vec<(u64, Stage)>,
    pub signal_semaphores: Vec<u64>,
}

/// What a frame draws: one run of vertices with a pipeline, its push
/// constants and a descriptor set.
pub struct Scene {
    pub pipeline: Pipeline,
    pub descriptor_set: u64,
    pub vertex_buffer: Buffer,
    pub vertex_count: u32,
    pub constants: Vec<u8>,
}

impl Scene {
    /// The pipeline and the vertex buffer are live, and the constants are
    /// as many bytes as the pipeline takes.
    pub open spec fn wf(&self) -> bool {
        &&& !self.pipeline.pipeline.dropped()
        &&& !self.pipeline.layout.dropped()
        &&& !self.vertex_buffer.raw.dropped()
        &&& self.pipeline.options.word_count() * 4 == self.constants@.len()
    }

    /// Whether the scene can be drawn.
    pub fn is_valid(&self) -> (res: bool)
        ensures
            res == self.wf(),
    {
        let fits = match self.pipeline.push_constant_count().checked_mul(4) {
            Some(bytes) => bytes == self.constants.len(),
            None => false,
        };
        !self.pipeline.pipeline.is_dropped() && !self.pipeline.layout.is_dropped()
            && !self.vertex_buffer.raw.is_dropped() && fits
    }
}

/// The commands of a frame: a render pass over the whole framebuffer in
/// which the scene's vertices are drawn. The pass is ended by the end of
/// the recording.
pub open spec fn frame_commands(framebuffer: &Framebuffer, scene: &Scene) -> Seq<CommandView> {
    seq![
        CommandView::Begin,
        CommandView::SetViewport {
            width: wrap_i16(framebuffer.size.width),
            height: wrap_i16(framebuffer.size.height),
        },
        CommandView::SetScissor {
            width: wrap_i16(framebuffer.size.width),
            height: wrap_i16(framebuffer.size.height),
        },
        CommandView::BeginRenderPass {
            render_pass: framebuffer.render_pass->0,
            framebuffer: framebuffer.raw.value->0,
            width: wrap_i16(framebuffer.size.width),
            height: wrap_i16(framebuffer.size.height),
        },
        CommandView::BindGraphicsPipeline { pipeline: scene.pipeline.pipeline.value->0 },
        CommandView::PushGraphicsConstants {
            pipeline_layout: scene.pipeline.layout.value->0,
            data: scene.constants@,
        },
        CommandView::BindDescriptorSet { first_set: 0, set: scene.descriptor_set },
        CommandView::BindVertexBuffer { index: 0, buffer: scene.vertex_buffer.raw.value->0 },
        CommandView::Draw { first_vertex: 0, end_vertex: scene.vertex_count },
        CommandView::EndRenderPass,
        CommandView::Finish,
    ]
}

/// Records the commands of a frame into a buffer of the pool.
pub fn record_frame(pool: &mut Pool, framebuffer: &Framebuffer, scene: &Scene) -> (res: List)
    requires
        old(pool).wf(),
        old(pool).can_allocate(),
        old(pool).open_recorders() == 0,
        framebuffer.render_pass is Some,
        !framebuffer.raw.dropped(),
        scene.wf(),
    ensures
        final(pool).wf(),
        final(pool).open_recorders() == 0,
        final(pool).handle == old(pool).handle,
        final(pool).queue_id == old(pool).queue_id,
        res.recorded() == frame_commands(framebuffer, scene),
        res.pool == old(pool).handle,
        res.queue_id == old(pool).queue_id,
        res.buffer < final(pool).allocated,
        !final(pool).free@.contains(res.buffer),
        old(pool).free@.len() > 0 ==> res.buffer == old(pool).free@.last() && final(pool).free@
            == old(pool).free@.drop_last() && final(pool).allocated == old(pool).allocated,
        old(pool).free@.len() == 0 ==> res.buffer == old(pool).allocated && final(pool).free@
            == old(pool).free@ && final(pool).allocated == old(pool).allocated + 1,
{
    let list = List::new(pool);
    let mut cmd = list.record(pool);
    cmd.begin_render_pass(framebuffer);
    cmd.bind_graphics_pipeline(&scene.pipeline);
    cmd.push_graphics_constants(copy_of(&scene.constants));
    cmd.bind_descriptor_set(0, scene.descriptor_set);
    cmd.bind_vertex_buffer(0, &scene.vertex_buffer);
    cmd.draw(Range { start: 0, end: scene.vertex_count });
    let list = cmd.finish(pool);
    proof {
        assert(list.recorded() =~= frame_commands(framebuffer, scene));
    }
    list
}

/// What the device has to destroy when a renderer goes, in this order,
/// once it is idle.
#[derive(Debug, Clone, Copy, PartialEq, Eq, Structural)]
pub struct RendererTeardown {
    pub framebuffer: Option<u64>,
    pub command_pool: u64,
    pub frame_fence: Option<u64>,
    pub render_pass: Option<u64>,
}

/// Renders a scene into one image after the other, one frame at a time.
pub struct Renderer {
    pub queue_id: QueueId,
    pub pool: Pool,
    pub render_pass: RenderPass,
    pub frame_fence: Fence,
    pub framebuffer: Framebuffer,
    pub submission: Submission,
}

impl Renderer {
    /// The resources are live and belong together.
    pub open spec fn common(&self) -> bool {
        &&& self.pool.wf()
        &&& self.pool.recording is None
        &&& self.pool.queue_id == self.queue_id
        &&& self.submission.queue_id == self.queue_id
        &&& !self.render_pass.raw.dropped()
        &&& !self.frame_fence.raw.dropped()
        &&& self.framebuffer.render_pass == self.render_pass.raw.value
    }

    /// Between the wait for the frame before and the next submission: the
    /// fence is unsignaled and nothing is left of the frame before.
    pub open spec fn ready(&self) -> bool {
        &&& self.common()
        &&& self.frame_fence.state == FenceState::Unsignaled
        &&& self.submission.lists@.len() == 0
        &&& self.submission.wait_semaphores@.len() == 0
        &&& self.submission.signal_semaphores@.len() == 0
        &&& self.framebuffer.raw.dropped()
    }

    /// A frame may be with the device: a wait for the fence returns.
    pub open spec fn waitable(&self) -> bool {
        &&& self.common()
        &&& self.frame_fence.state != FenceState::Unsignaled
    }

    /// A renderer from what the device created for it. The fence must
    /// have been created signaled.
    pub fn new(queue_id: QueueId, pool: u64, render_pass: u64, frame_fence: u64) -> (res: Self)
        ensures
            res.waitable(),
            res.queue_id == queue_id,
            res.pool.handle == pool,
            res.render_pass.raw.value == Some(render_pass),
            res.frame_fence.raw.value == Some(frame_fence),
            res.framebuffer.raw.dropped(),
            res.submission.lists@.len() == 0,
            res.pool.allocated == 0,
            res.pool.free@.len() == 0,
    {
        let render_pass = RenderPass::new(render_pass);
        let mut framebuffer = Framebuffer::new();
        let _ = framebuffer.set_render_pass(&render_pass);
        Renderer {
            queue_id,
            pool: Pool::new(pool, queue_id),
            render_pass,
            frame_fence: Fence::new(frame_fence, true),
            framebuffer,
            submission: Submission::new(queue_id),
        }
    }

    /// Notes that the host waited for the frame fence and reset it. The
    /// command buffers of the frame before go back to the pool; its
    /// framebuffer is returned for the device to destroy.
    pub fn begin(&mut self) -> (res: Option<u64>)
        requires
            old(self).waitable(),
        ensures
            final(self).ready(),
            final(self).queue_id == old(self).queue_id,
            final(self).render_pass == old(self).render_pass,
            final(self).frame_fence.raw == old(self).frame_fence.raw,
            final(self).pool.handle == old(self).pool.handle,
            final(self).pool.allocated == old(self).pool.allocated,
            forall|buffer: u64|
                old(self).pool.free@.contains(buffer) ==> final(self).pool.free@.contains(buffer),
            forall|i: int|
                0 <= i < old(self).submission.lists@.len() && (
                #[trigger] old(self).submission.lists@[i]).pool == old(self).pool.handle
                    && old(self).submission.lists@[i].buffer < old(self).pool.allocated
                    ==> final(self).pool.free@.contains(old(self).submission.lists@[i].buffer),
            forall|buffer: u64|
                final(self).pool.free@.contains(buffer) ==> old(self).pool.free@.contains(buffer)
                    || exists|i: int|
                    0 <= i < old(self).submission.lists@.len() && (
                    #[trigger] old(self).submission.lists@[i]).buffer == buffer,
            res == old(self).framebuffer.raw.value,
    {
        self.frame_fence.wait_and_reset();
        let mut lists = self.submission.clear();
        let ghost all = lists@;
        proof {
            assert(lists@ =~= all.subrange(0, lists@.len() as int));
        }
        while lists.len() > 0
            invariant
                self.pool.wf(),
                self.pool.recording is None,
                self.pool.queue_id == old(self).pool.queue_id,
                self.pool.handle == old(self).pool.handle,
                self.pool.allocated == old(self).pool.allocated,
                self.queue_id == old(self).queue_id,
                self.render_pass == old(self).render_pass,
                self.framebuffer == old(self).framebuffer,
                self.frame_fence.raw == old(self).frame_fence.raw,
                self.frame_fence.state == FenceState::Unsignaled,
                self.submission.queue_id == old(self).submission.queue_id,
                self.submission.lists@.len() == 0,
                self.submission.wait_semaphores@.len() == 0,
                self.submission.signal_semaphores@.len() == 0,
                all == old(self).submission.lists@,
                lists@.len() <= all.len(),
                lists@ == all.subrange(0, lists@.len() as int),
                forall|buffer: u64|
                    old(self).pool.free@.contains(buffer) ==> self.pool.free@.contains(buffer),
                forall|i: int|
                    lists@.len() <= i < all.len() && (#[trigger] all[i]).pool == self.pool.handle
                        && all[i].buffer < self.pool.allocated ==> self.pool.free@.contains(
                        all[i].buffer,
                    ),
                forall|buffer: u64|
                    self.pool.free@.contains(buffer) ==> old(self).pool.free@.contains(buffer)
                        || exists|i: int|
                        0 <= i < all.len() && (#[trigger] all[i]).buffer == buffer,
            decreases lists.len(),
        {
            let ghost before = self.pool.free@;
            let ghost at = lists@.len() - 1;
            let list = lists.pop().unwrap();
            let taken = list.release(&mut self.pool);
            proof {
                assert(list == all[at]);
                assert(lists@ =~= all.subrange(0, lists@.len() as int));
                if taken {
                    assert(self.pool.free@ == before.push(list.buffer));
                    assert(self.pool.free@[before.len() as int] == list.buffer);
                    assert forall|buffer: u64| before.contains(buffer) implies self.pool.free@.contains(
                        buffer,
                    ) by {
                        let k = choose|k: int| 0 <= k < before.len() && before[k] == buffer;
                        assert(self.pool.free@[k] == buffer);
                    }
                    assert forall|buffer: u64| self.pool.free@.contains(buffer) implies before.contains(
                        buffer,
                    ) || buffer == list.buffer by {
                        let k = choose|k: int|
                            0 <= k < self.pool.free@.len() && self.pool.free@[k] == buffer;
                        if k < before.len() {
                            assert(before[k] == buffer);
                        }
                    }
                }
            }
        }
        self.framebuffer.destroy()
    }

    /// Renders the scene into the framebuffer that the device created for
    /// the target image: records the frame, and returns the order that
    /// submits the transfers and then the frame with the semaphores of
    /// the options and the frame fence.
    pub fn render(
        &mut self,
        queues: &Queues,
        framebuffer: u64,
        size: Size,
        transfers: List,
        scene: &Scene,
        options: &RenderOptions,
    ) -> (res: SubmitOrder)
        requires
            old(self).ready(),
            old(self).pool.can_allocate(),
            old(self).queue_id.index < queues.families@.len(),
            transfers.queue_id == old(self).queue_id,
            scene.wf(),
        ensures
            final(self).waitable(),
            final(self).queue_id == old(self).queue_id,
            final(self).render_pass == old(self).render_pass,
            final(self).frame_fence.raw == old(self).frame_fence.raw,
            final(self).frame_fence.state == FenceState::Pending,
            final(self).pool.handle == old(self).pool.handle,
            final(self).pool.allocated <= old(self).pool.allocated + 1,
            final(self).framebuffer.raw.value == Some(framebuffer),
            final(self).framebuffer.size == size,
            final(self).submission.lists@.len() == 2,
            final(self).submission.lists@[0] == transfers,
            final(self).submission.lists@[1].recorded() == frame_commands(
                &final(self).framebuffer,
                scene,
            ),
            res.queue_index == old(self).queue_id.index,
            res.command_buffers@ == seq![
                transfers.buffer,
                final(self).submission.lists@[1].buffer,
            ],
            res.wait_semaphores@ == options.wait_semaphores@,
            res.signal_semaphores@ == options.signal_semaphores@,
            res.fence == old(self).frame_fence.raw.value,
    {
        self.framebuffer.size = size;
        self.framebuffer.created(framebuffer);
        let list = record_frame(&mut self.pool, &self.framebuffer, scene);
        self.submission.push_list(transfers);
        self.submission.push_list(list);
        self.submission.wait_semaphores = copy_of(&options.wait_semaphores);
        self.submission.signal_semaphores = copy_of(&options.signal_semaphores);
        proof {
            assert(self.submission.lists@ =~= seq![transfers, list]);
            assert(self.submission.routed());
            assert(self.submission.buffers() =~= seq![transfers.buffer, list.buffer]);
        }
        queues.submit(&self.submission, &mut self.frame_fence)
    }

    /// Gives up everything the renderer owns, for the device to destroy
    /// once it is idle.
    pub fn destroy(self) -> (res: RendererTeardown)
        ensures
            res == (RendererTeardown {
                framebuffer: self.framebuffer.raw.value,
                command_pool: self.pool.handle,
                frame_fence: self.frame_fence.raw.value,
                render_pass: self.render_pass.raw.value,
            }),
    {
        let mut renderer = self;
        let framebuffer = renderer.framebuffer.destroy();
        let frame_fence = renderer.frame_fence.destroy();
        let render_pass = renderer.render_pass.destroy();
        RendererTeardown {
            framebuffer,
            command_pool: renderer.pool.handle,
            frame_fence,
            render_pass,
        }
    }
}

/// Where the frame loop stands.
#[derive(Debug, Clone, Copy, PartialEq, Eq, Structural)]
pub enum LoopPhase {
    /// Looking at the control channel.
    Polling,
    /// Waiting for the fence of the frame before.
    WaitingFence,
    /// Getting an image of the swapchain.
    Acquiring,
    /// Having the framebuffer created for the image.
    CreatingFramebuffer,
    /// The frame is submitted and is being presented.
    Presenting,
    /// The loop has ended.
    Stopped,
}

/// Whether the loop passes from one phase to the other in one step. A
/// frame is polled for, waits for its fence, gets its image, has its
/// framebuffer created where that is needed, and is submitted and
/// presented, in this order; the loop can stop at every step.
pub open spec fn follows(from: LoopPhase, to: LoopPhase) -> bool {
    match from {
        LoopPhase::Polling => to == LoopPhase::Polling || to == LoopPhase::WaitingFence || to
            == LoopPhase::Stopped,
        LoopPhase::WaitingFence => to == LoopPhase::Acquiring || to == LoopPhase::Stopped,
        LoopPhase::Acquiring => to == LoopPhase::Acquiring || to
            == LoopPhase::CreatingFramebuffer || to == LoopPhase::Presenting || to
            == LoopPhase::Stopped,
        LoopPhase::CreatingFramebuffer => to == LoopPhase::Presenting || to == LoopPhase::Stopped,
        LoopPhase::Presenting => to == LoopPhase::Polling || to == LoopPhase::Stopped,
        LoopPhase::Stopped => false,
    }
}

/// Whether the phases are those of a loop from its start on, step by
/// step.
pub open spec fn is_run(run: Seq<LoopPhase>) -> bool {
    &&& run.len() > 0
    &&& run[0] == LoopPhase::Polling
    &&& forall|i: int| 0 <= i < run.len() - 1 ==> follows(#[trigger] run[i], run[i + 1])
}

/// Whether a phase lies between the wait for the frame fence and the end
/// of the frame: the submission of the frame before is cleared, and the
/// frame's image is acquired, drawn into, submitted or presented.
pub open spec fn after_wait(phase: LoopPhase) -> bool {
    phase == LoopPhase::Acquiring || phase == LoopPhase::CreatingFramebuffer || phase
        == LoopPhase::Presenting
}

/// In every turn of the loop the frame fence is waited for first: whenever
/// the loop acquires, records, submits or presents, it has waited for the
/// fence earlier in the same turn, with nothing but steps of that frame in
/// between.
pub proof fn lemma_fence_waited_first(run: Seq<LoopPhase>, k: int)
    requires
        is_run(run),
        0 <= k < run.len(),
        after_wait(run[k]),
    ensures
        exists|j: int|
            0 <= j < k && run[j] == LoopPhase::WaitingFence && forall|m: int|
                j < m <= k ==> after_wait(#[trigger] run[m]),
    decreases k,
{
    assert(k > 0);
    assert(follows(run[k - 1], run[k]));
    if run[k - 1] == LoopPhase::WaitingFence {
        let j = k - 1;
        assert(0 <= j < k && run[j] == LoopPhase::WaitingFence && forall|m: int|
            j < m <= k ==> after_wait(#[trigger] run[m]));
    } else {
        assert(after_wait(run[k - 1]));
        lemma_fence_waited_first(run, k - 1);
        let j = choose|j: int|
            0 <= j < k - 1 && run[j] == LoopPhase::WaitingFence && forall|m: int|
                j < m <= k - 1 ==> after_wait(#[trigger] run[m]);
        assert(0 <= j < k && run[j] == LoopPhase::WaitingFence && forall|m: int|
            j < m <= k ==> after_wait(#[trigger] run[m]));
    }
}

/// What the thread has to do next.
pub enum LoopAction {
    /// Destroy what is named, then look at the control channel and report
    /// what was found.
    Poll { teardown: Teardown },
    /// Wait for the fence, reset it, and report that.
    WaitFence { fence: u64 },
    /// Take this step towards an image, signalling the semaphore on
    /// acquisition, and report what came of it.
    Acquire { step: AcquireStep, semaphore: u64 },
    /// Destroy the old framebuffer where one is named, create one for the
    /// pass with the attachment, and report it.
    CreateFramebuffer { destroy: Option<u64>, render_pass: u64, attachment: u64, size: Size },
    /// Submit the frame, present the image, and report the outcome.
    Submit { order: SubmitOrder, present: PresentOrder },
    /// Destroy what is named, wait until the device is idle, and end the
    /// thread.
    Stop { teardown: Teardown },
}

/// Everything that the renderer's thread owns.
pub struct RenderLoop {
    pub phase: LoopPhase,
    pub queue_id: QueueId,
    pub pool: Pool,
    pub surface: Surface,
    pub framebuffer: Framebuffer,
    pub frame_fence: Fence,
    pub acquire_semaphore: Semaphore,
    pub render_semaphore: Semaphore,
    pub submission: Submission,
    pub scene: Scene,
    pub image: u32,
}

impl RenderLoop {
    /// What holds in every phase: the resources are live and belong
    /// together.
    pub open spec fn common(&self) -> bool {
        &&& self.pool.wf()
        &&& self.pool.recording is None
        &&& self.pool.queue_id == self.queue_id
        &&& self.surface@.wf()
        &&& self.framebuffer.render_pass is Some
        &&& !self.frame_fence.raw.dropped()
        &&& !self.acquire_semaphore.raw.dropped()
        &&& !self.render_semaphore.raw.dropped()
        &&& self.submission.queue_id == self.queue_id
        &&& self.scene.wf()
    }

    /// Whether two states are of the same loop: they have the queue, the
    /// pool, the fence, the semaphores, the render pass and the scene in
    /// common.
    pub open spec fn same_loop(&self, other: &RenderLoop) -> bool {
        &&& self.queue_id == other.queue_id
        &&& self.pool.handle == other.pool.handle
        &&& self.frame_fence.raw == other.frame_fence.raw
        &&& self.acquire_semaphore == other.acquire_semaphore
        &&& self.render_semaphore == other.render_semaphore
        &&& self.framebuffer.render_pass == other.framebuffer.render_pass
        &&& self.scene == other.scene
        &&& self.surface@.retry_bound == other.surface@.retry_bound
    }

    /// Every state of a loop has the fence of its first state: the fence
    /// that a frame is submitted with is the one that the next frame waits
    /// for.
    pub proof fn lemma_one_fence(first: &RenderLoop, second: &RenderLoop, third: &RenderLoop)
        requires
            second.same_loop(first),
            third.same_loop(second),
        ensures
            third.same_loop(first),
            third.frame_fence.raw == first.frame_fence.raw,
    {
    }

    /// No frame is with the device: every command buffer of the pool is
    /// free.
    pub open spec fn at_rest(&self) -> bool {
        &&& self.submission.lists@.len() == 0
        &&& self.pool.free@.len() == self.pool.allocated
        &&& self.pool.allocated <= 1
    }

    /// One frame is with the device, and its command buffer is the only
    /// one of the pool.
    pub open spec fn in_flight(&self) -> bool {
        &&& self.submission.lists@.len() == 1
        &&& self.submission.lists@[0].pool == self.pool.handle
        &&& self.submission.lists@[0].buffer < self.pool.allocated
        &&& self.pool.allocated == 1
        &&& self.pool.free@.len() == 0
    }

    /// The submission waits for the acquired image and for nothing else,
    /// and signals nothing yet.
    pub open spec fn awaits_image(&self) -> bool {
        &&& self.submission.wait_semaphores@ == seq![
            (self.acquire_semaphore.raw.value->0, Stage::ColorAttachmentOutput),
        ]
        &&& self.submission.signal_semaphores@.len() == 0
    }

    /// The resources are live, and the fence and the submission are as
    /// the phase has them: the fence is unsignaled exactly between the
    /// wait for it and the next submission.
    pub open spec fn wf(&self) -> bool {
        &&& self.common()
        &&& match self.phase {
            LoopPhase::Polling | LoopPhase::WaitingFence => {
                &&& self.frame_fence.state != FenceState::Unsignaled
                &&& (self.at_rest() || self.in_flight())
            },
            LoopPhase::Acquiring => {
                &&& self.frame_fence.state == FenceState::Unsignaled
                &&& self.at_rest()
                &&& self.submission.wait_semaphores@.len() == 0
                &&& self.submission.signal_semaphores@.len() == 0
            },
            LoopPhase::CreatingFramebuffer => {
                &&& self.frame_fence.state == FenceState::Unsignaled
                &&& self.at_rest()
                &&& self.awaits_image()
                &&& self.framebuffer.raw.dropped()
                &&& self.framebuffer.attachment is Some
                &&& self.surface@.created()
            },
            LoopPhase::Presenting => {
                &&& self.frame_fence.state == FenceState::Pending
                &&& self.in_flight()
                &&& self.surface@.created()
            },
            LoopPhase::Stopped => true,
        }
    }

    /// The state of a loop that is about to start, from what the device
    /// created for it. The fence must have been created signaled.
    pub fn new(
        queue_id: QueueId,
        pool: u64,
        surface: Surface,
        render_pass: &RenderPass,
        frame_fence: u64,
        acquire_semaphore: u64,
        render_semaphore: u64,
        scene: Scene,
    ) -> (res: Self)
        requires
            surface@.wf(),
            !render_pass.raw.dropped(),
            scene.wf(),
        ensures
            res.wf(),
            res.phase == LoopPhase::Polling,
            res.queue_id == queue_id,
            res.surface == surface,
            res.scene == scene,
            res.frame_fence.raw.value == Some(frame_fence),
            res.frame_fence.state == FenceState::Signaled,
            res.acquire_semaphore.raw.value == Some(acquire_semaphore),
            res.render_semaphore.raw.value == Some(render_semaphore),
            res.framebuffer.render_pass == render_pass.raw.value,
            res.framebuffer.raw.dropped(),
    {
        let mut framebuffer = Framebuffer::new();
        let _ = framebuffer.set_render_pass(render_pass);
        RenderLoop {
            phase: LoopPhase::Polling,
            queue_id,
            pool: Pool::new(pool, queue_id),
            surface,
            framebuffer,
            frame_fence: Fence::new(frame_fence, true),
            acquire_semaphore: Semaphore::new(acquire_semaphore),
            render_semaphore: Semaphore::new(render_semaphore),
            submission: Submission::new(queue_id),
            scene,
            image: 0,
        }
    }

    /// Where the loop stands.
    pub fn phase(&self) -> (res: LoopPhase)
        ensures
            res == self.phase,
    {
        self.phase
    }

    /// Takes what was found on the control channel: a resize reaches the
    /// surface at once, a shutdown or a channel without senders ends the
    /// loop, and an empty channel lets the frame go on.
    pub fn polled(&mut self, polled: Polled) -> (res: LoopAction)
        requires
            old(self).wf(),
            old(self).phase == LoopPhase::Polling,
        ensures
            final(self).wf(),
            final(self).same_loop(old(self)),
            follows(old(self).phase, final(self).phase),
            final(self).framebuffer == old(self).framebuffer,
            final(self).image == old(self).image,
            match polled {
                Polled::Message(RendererMsg::ShutDown) | Polled::Disconnected => {
                    &&& final(self).phase == LoopPhase::Stopped
                    &&& res matches LoopAction::Stop { teardown }
                    &&& teardown@ == nothing()
                    &&& final(self).surface == old(self).surface
                },
                Polled::Message(RendererMsg::ResizeSurface(size)) => {
                    &&& final(self).phase == LoopPhase::Polling
                    &&& final(self).surface@ == old(self).surface@.resized(size)
                    &&& res matches LoopAction::Poll { teardown }
                    &&& teardown@ == if size == old(self).surface@.size {
                        nothing()
                    } else {
                        old(self).surface@.remains()
                    }
                },
                Polled::Empty => {
                    &&& final(self).phase == LoopPhase::WaitingFence
                    &&& final(self).surface == old(self).surface
                    &&& res matches LoopAction::WaitFence { fence }
                    &&& Some(fence) == old(self).frame_fence.raw.value
                },
            },
    {
        match polled {
            Polled::Message(RendererMsg::ShutDown) | Polled::Disconnected => {
                self.phase = LoopPhase::Stopped;
                LoopAction::Stop { teardown: Teardown { framebuffers: Vec::new(), swapchain: None } }
            },
            Polled::Message(RendererMsg::ResizeSurface(size)) => {
                let teardown = self.surface.resize(size);
                LoopAction::Poll { teardown }
            },
            Polled::Empty => {
                self.phase = LoopPhase::WaitingFence;
                LoopAction::WaitFence { fence: self.frame_fence.as_backend() }
            },
        }
    }

    /// Notes that the host waited for the frame fence and reset it: the
    /// command buffer of the frame before goes back to the pool, the
    /// submission is emptied, and the frame starts to get its image.
    pub fn fence_waited(&mut self) -> (res: LoopAction)
        requires
            old(self).wf(),
            old(self).phase == LoopPhase::WaitingFence,
        ensures
            final(self).wf(),
            final(self).same_loop(old(self)),
            follows(old(self).phase, final(self).phase),
            final(self).framebuffer == old(self).framebuffer,
            final(self).image == old(self).image,
            final(self).surface@ == old(self).surface@.begun(),
            final(self).frame_fence.state == FenceState::Unsignaled,
            final(self).submission.lists@.len() == 0,
            old(self).surface@.retry_bound == 0 ==> {
                &&& final(self).phase == LoopPhase::Stopped
                &&& res matches LoopAction::Stop { teardown }
                &&& teardown@ == nothing()
            },
            old(self).surface@.retry_bound > 0 ==> {
                &&& final(self).phase == LoopPhase::Acquiring
                &&& res matches LoopAction::Acquire { step, semaphore }
                &&& step@ == old(self).surface@.first_step()
                &&& Some(semaphore) == old(self).acquire_semaphore.raw.value
            },
    {
        self.frame_fence.wait_and_reset();
        let mut lists = self.submission.clear();
        if lists.len() == 1 {
            let list = lists.pop().unwrap();
            let _ = list.release(&mut self.pool);
        }
        let step = self.surface.begin_frame();
        match step {
            AcquireStep::GiveUp { teardown } => {
                self.phase = LoopPhase::Stopped;
                LoopAction::Stop { teardown }
            },
            _ => {
                self.phase = LoopPhase::Acquiring;
                LoopAction::Acquire { step, semaphore: self.acquire_semaphore.as_backend() }
            },
        }
    }

    /// Notes the swapchain that the device created, with the view of each
    /// of its images, and goes on to acquire an image of it.
    pub fn swapchain_created(&mut self, swapchain: u64, views: Vec<u64>) -> (res: LoopAction)
        requires
            old(self).wf(),
            old(self).phase == LoopPhase::Acquiring,
            !old(self).surface@.created(),
        ensures
            final(self).wf(),
            final(self).same_loop(old(self)),
            follows(old(self).phase, final(self).phase),
            final(self).framebuffer == old(self).framebuffer,
            final(self).image == old(self).image,
            final(self).phase == LoopPhase::Acquiring,
            final(self).surface@ == old(self).surface@.with_swapchain(swapchain, views@),
            res matches LoopAction::Acquire { step, semaphore } && step@ == (StepView::Acquire {
                swapchain,
            }) && Some(semaphore) == old(self).acquire_semaphore.raw.value,
    {
        let step = self.surface.swapchain_created(swapchain, views);
        LoopAction::Acquire { step, semaphore: self.acquire_semaphore.as_backend() }
    }

    /// Notes that no image could be acquired: a swapchain that is out of
    /// date is created anew while attempts are left; anything else ends
    /// the loop.
    pub fn acquire_failed(&mut self, failure: SwapchainFailure) -> (res: LoopAction)
        requires
            old(self).wf(),
            old(self).phase == LoopPhase::Acquiring,
        ensures
            final(self).wf(),
            final(self).same_loop(old(self)),
            follows(old(self).phase, final(self).phase),
            final(self).framebuffer == old(self).framebuffer,
            final(self).image == old(self).image,
            final(self).surface@ == old(self).surface@.failed(failure),
            match old(self).surface@.step_after_failure(failure) {
                StepView::Recreate { teardown, size } => {
                    &&& final(self).phase == LoopPhase::Acquiring
                    &&& res matches LoopAction::Acquire { step, semaphore }
                    &&& step@ == (StepView::Recreate { teardown, size })
                    &&& Some(semaphore) == old(self).acquire_semaphore.raw.value
                },
                StepView::GiveUp { teardown } => {
                    &&& final(self).phase == LoopPhase::Stopped
                    &&& res matches LoopAction::Stop { teardown: left }
                    &&& left@ == teardown
                },
                _ => {
                    &&& final(self).phase == LoopPhase::Stopped
                    &&& res matches LoopAction::Stop { teardown: left }
                    &&& left@ == nothing()
                },
            },
    {
        let step = self.surface.acquire_failed(failure);
        match step {
            AcquireStep::Recreate { teardown, size } => LoopAction::Acquire {
                step: AcquireStep::Recreate { teardown, size },
                semaphore: self.acquire_semaphore.as_backend(),
            },
            AcquireStep::GiveUp { teardown } => {
                self.phase = LoopPhase::Stopped;
                LoopAction::Stop { teardown }
            },
            _ => {
                self.phase = LoopPhase::Stopped;
                LoopAction::Stop { teardown: Teardown { framebuffers: Vec::new(), swapchain: None } }
            },
        }
    }

    /// Notes gfx-hal's error for an image that could not be acquired: a
    /// swapchain that is out of date is created anew while attempts are
    /// left; anything else ends the loop.
    pub fn acquire_error(&mut self, err: gfx_hal::window::AcquireError) -> (res: LoopAction)
        requires
            old(self).wf(),
            old(self).phase == LoopPhase::Acquiring,
        ensures
            final(self).wf(),
            final(self).same_loop(old(self)),
            follows(old(self).phase, final(self).phase),
            final(self).framebuffer == old(self).framebuffer,
            final(self).image == old(self).image,
            final(self).surface@ == old(self).surface@.failed(acquire_failure(err)),
            match old(self).surface@.step_after_failure(acquire_failure(err)) {
                StepView::Recreate { teardown, size } => {
                    &&& final(self).phase == LoopPhase::Acquiring
                    &&& res matches LoopAction::Acquire { step, semaphore }
                    &&& step@ == (StepView::Recreate { teardown, size })
                    &&& Some(semaphore) == old(self).acquire_semaphore.raw.value
                },
                StepView::GiveUp { teardown } => {
                    &&& final(self).phase == LoopPhase::Stopped
                    &&& res matches LoopAction::Stop { teardown: left }
                    &&& left@ == teardown
                },
                _ => {
                    &&& final(self).phase == LoopPhase::Stopped
                    &&& res matches LoopAction::Stop { teardown: left }
                    &&& left@ == nothing()
                },
            },
    {
        self.acquire_failed(classify_acquire_error(err))
    }

    /// Whether the swapchain has an image of the given number.
    pub fn has_image(&self, index: u32) -> (res: bool)
        ensures
            res == (index < self.surface@.framebuffers.len()),
    {
        (index as usize) < self.surface.framebuffers.len()
    }

    fn submit_frame(&mut self, queues: &Queues) -> (res: LoopAction)
        requires
            old(self).common(),
            old(self).frame_fence.state == FenceState::Unsignaled,
            old(self).at_rest(),
            old(self).awaits_image(),
            !old(self).framebuffer.raw.dropped(),
            old(self).surface@.created(),
            old(self).queue_id.index < queues.families@.len(),
        ensures
            final(self).wf(),
            final(self).same_loop(old(self)),
            final(self).phase == LoopPhase::Presenting,
            final(self).surface == old(self).surface,
            final(self).framebuffer == old(self).framebuffer,
            final(self).image == old(self).image,
            final(self).submission.lists@[0].recorded() == frame_commands(
                &old(self).framebuffer,
                &old(self).scene,
            ),
            res matches LoopAction::Submit { order, present } && {
                &&& order.queue_index == old(self).queue_id.index
                &&& order.command_buffers@ == seq![final(self).submission.lists@[0].buffer]
                &&& order.wait_semaphores@ == seq![
                    (old(self).acquire_semaphore.raw.value->0, Stage::ColorAttachmentOutput),
                ]
                &&& order.signal_semaphores@ == seq![old(self).render_semaphore.raw.value->0]
                &&& order.fence == old(self).frame_fence.raw.value
                &&& present.queue_index == old(self).queue_id.index
                &&& Some(present.swapchain) == old(self).surface@.swapchain
                &&& present.image_index == old(self).image
                &&& present.wait_semaphores@ == seq![old(self).render_semaphore.raw.value->0]
            },
    {
        let list = record_frame(&mut self.pool, &self.framebuffer, &self.scene);
        self.submission.push_list(list);
        self.submission.signal(&self.render_semaphore);
        proof {
            assert(self.submission.lists@ =~= seq![list]);
            assert(self.submission.routed());
            assert(self.submission.buffers() =~= seq![list.buffer]);
            assert(self.submission.signal_semaphores@ =~= seq![
                self.render_semaphore.raw.value->0,
            ]);
        }
        let order = queues.submit(&self.submission, &mut self.frame_fence);
        let mut wait_for: Vec<u64> = Vec::new();
        wait_for.push(self.render_semaphore.as_backend());
        proof {
            assert(wait_for@ =~= seq![self.render_semaphore.raw.value->0]);
        }
        let swapchain = match self.surface.swapchain {
            Some(swapchain) => swapchain,
            None => 0,
        };
        let present = queues.present(self.queue_id, swapchain, self.image, &wait_for);
        self.phase = LoopPhase::Presenting;
        LoopAction::Submit { order, present }
    }

    /// Notes the image that was acquired and attaches its view to the
    /// framebuffer. Where the framebuffer on the device is still the one
    /// for this view and size the frame is recorded and submitted, else
    /// the framebuffer is created first.
    pub fn image_acquired(&mut self, queues: &Queues, index: u32) -> (res: LoopAction)
        requires
            old(self).wf(),
            old(self).phase == LoopPhase::Acquiring,
            index < old(self).surface@.framebuffers.len(),
            old(self).queue_id.index < queues.families@.len(),
        ensures
            final(self).wf(),
            final(self).same_loop(old(self)),
            follows(old(self).phase, final(self).phase),
            final(self).surface@ == old(self).surface@.acquired(index as usize),
            final(self).image == index,
            final(self).framebuffer.attachment == Some(
                old(self).surface@.framebuffers[index as int],
            ),
            final(self).framebuffer.size == old(self).surface@.size,
            final(self).phase == LoopPhase::CreatingFramebuffer || final(self).phase
                == LoopPhase::Presenting,
            final(self).phase == LoopPhase::Presenting <==> {
                &&& !old(self).framebuffer.raw.dropped()
                &&& old(self).framebuffer.attachment == Some(
                    old(self).surface@.framebuffers[index as int],
                )
                &&& old(self).framebuffer.size == old(self).surface@.size
            },
            final(self).phase == LoopPhase::CreatingFramebuffer ==> {
                &&& res matches LoopAction::CreateFramebuffer {
                    destroy,
                    render_pass,
                    attachment,
                    size,
                }
                &&& destroy == old(self).framebuffer.raw.value
                &&& Some(render_pass) == old(self).framebuffer.render_pass
                &&& attachment == old(self).surface@.framebuffers[index as int]
                &&& size == old(self).surface@.size
            },
            final(self).phase == LoopPhase::Presenting ==> {
                &&& final(self).framebuffer == old(self).framebuffer
                &&& final(self).submission.lists@[0].recorded() == frame_commands(
                    &old(self).framebuffer,
                    &old(self).scene,
                )
                &&& res matches LoopAction::Submit { order, present }
                &&& order.queue_index == old(self).queue_id.index
                &&& order.command_buffers@ == seq![final(self).submission.lists@[0].buffer]
                &&& order.wait_semaphores@ == seq![
                    (old(self).acquire_semaphore.raw.value->0, Stage::ColorAttachmentOutput),
                ]
                &&& order.signal_semaphores@ == seq![old(self).render_semaphore.raw.value->0]
                &&& order.fence == old(self).frame_fence.raw.value
                &&& present.queue_index == old(self).queue_id.index
                &&& Some(present.swapchain) == old(self).surface@.swapchain
                &&& present.image_index == index
                &&& present.wait_semaphores@ == seq![old(self).render_semaphore.raw.value->0]
            },
    {
        let step = self.surface.image_acquired(index as usize);
        self.image = index;
        let view = match step {
            AcquireStep::Ready { framebuffer, index: _ } => framebuffer,
            _ => 0,
        };
        self.submission.wait_for(&self.acquire_semaphore, Stage::ColorAttachmentOutput);
        proof {
            assert(self.submission.wait_semaphores@ =~= seq![
                (self.acquire_semaphore.raw.value->0, Stage::ColorAttachmentOutput),
            ]);
        }
        let size = self.surface.size();
        let destroy = self.framebuffer.set_attachment(view, size);
        if self.framebuffer.needs_creation() {
            self.phase = LoopPhase::CreatingFramebuffer;
            let render_pass = self.framebuffer.render_pass().unwrap();
            LoopAction::CreateFramebuffer { destroy, render_pass, attachment: view, size }
        } else {
            self.submit_frame(queues)
        }
    }

    /// Notes the framebuffer that the device created, and records and
    /// submits the frame; without a framebuffer the loop ends.
    pub fn framebuffer_created(&mut self, queues: &Queues, created: Option<u64>) -> (res:
        LoopAction)
        requires
            old(self).wf(),
            old(self).phase == LoopPhase::CreatingFramebuffer,
            old(self).queue_id.index < queues.families@.len(),
        ensures
            final(self).wf(),
            final(self).same_loop(old(self)),
            follows(old(self).phase, final(self).phase),
            final(self).surface == old(self).surface,
            final(self).image == old(self).image,
            created is None ==> {
                &&& final(self).phase == LoopPhase::Stopped
                &&& res matches LoopAction::Stop { teardown }
                &&& teardown@ == nothing()
            },
            created is Some ==> {
                &&& final(self).phase == LoopPhase::Presenting
                &&& final(self).framebuffer.raw.value == created
                &&& final(self).framebuffer.attachment == old(self).framebuffer.attachment
                &&& final(self).framebuffer.size == old(self).framebuffer.size
                &&& final(self).submission.lists@[0].recorded() == frame_commands(
                    &final(self).framebuffer,
                    &old(self).scene,
                )
                &&& res matches LoopAction::Submit { order, present }
                &&& order.queue_index == old(self).queue_id.index
                &&& order.command_buffers@ == seq![final(self).submission.lists@[0].buffer]
                &&& order.wait_semaphores@ == seq![
                    (old(self).acquire_semaphore.raw.value->0, Stage::ColorAttachmentOutput),
                ]
                &&& order.signal_semaphores@ == seq![old(self).render_semaphore.raw.value->0]
                &&& order.fence == old(self).frame_fence.raw.value
                &&& present.queue_index == old(self).queue_id.index
                &&& Some(present.swapchain) == old(self).surface@.swapchain
                &&& present.image_index == old(self).image
                &&& present.wait_semaphores@ == seq![old(self).render_semaphore.raw.value->0]
            },
    {
        match created {
            None => {
                self.phase = LoopPhase::Stopped;
                LoopAction::Stop { teardown: Teardown { framebuffers: Vec::new(), swapchain: None } }
            },
            Some(handle) => {
                self.framebuffer.created(handle);
                self.submit_frame(queues)
            },
        }
    }

    /// Notes the outcome of the presentation: after a success the next
    /// frame starts, after an error the loop ends.
    pub fn presented(&mut self, outcome: Result<(), PresentFailure>) -> (res: LoopAction)
        requires
            old(self).wf(),
            old(self).phase == LoopPhase::Presenting,
        ensures
            final(self).wf(),
            final(self).same_loop(old(self)),
            follows(old(self).phase, final(self).phase),
            final(self).framebuffer == old(self).framebuffer,
            final(self).image == old(self).image,
            final(self).surface == old(self).surface,
            outcome is Ok ==> {
                &&& final(self).phase == LoopPhase::Polling
                &&& res matches LoopAction::Poll { teardown }
                &&& teardown@ == nothing()
            },
            outcome is Err ==> {
                &&& final(self).phase == LoopPhase::Stopped
                &&& res matches LoopAction::Stop { teardown }
                &&& teardown@ == nothing()
            },
    {
        match outcome {
            Ok(_) => {
                self.phase = LoopPhase::Polling;
                LoopAction::Poll { teardown: Teardown { framebuffers: Vec::new(), swapchain: None } }
            },
            Err(_) => {
                self.phase = LoopPhase::Stopped;
                LoopAction::Stop { teardown: Teardown { framebuffers: Vec::new(), swapchain: None } }
            },
        }
    }
}

} // verus!
