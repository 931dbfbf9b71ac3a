//! Command pools, command lists and the recording of commands.

use vstd::prelude::*;
use core::ops::Range;
use crate::pipeline::Pipeline;
use crate::queues::QueueId;
use crate::resources::{Buffer, Framebuffer, Image};
use crate::types::{ImageAccess, ImageLayout, Size, Stage};

verus! {

/// Description of a copy operation from a source buffer to a destination
/// buffer, counted in elements.
pub struct BufferCopy {
    /// Range of elements to copy from the source buffer.
    pub src_range: Range<u64>,
    /// Element of the destination buffer at which the copy starts.
    pub dst_offset: u64,
}

/// A copy between two buffers, counted in bytes.
#[derive(Debug, Clone, Copy, PartialEq, Eq, Structural)]
pub struct BufferRegion {
    pub src: u64,
    pub dst: u64,
    pub size: u64,
}

impl BufferCopy {
    /// Whether the copy can be counted in bytes for elements of the given
    /// size: every offset fits in 64 bits and the range does not end
    /// before it starts.
    pub open spec fn scalable(&self, elem_size: u64) -> bool {
        &&& self.src_range.start * elem_size <= u64::MAX
        &&& self.src_range.end * elem_size <= u64::MAX
        &&& self.dst_offset * elem_size <= u64::MAX
        &&& self.src_range.start * elem_size <= self.src_range.end * elem_size
    }

    /// The copy counted in bytes: each offset times the element size.
    pub open spec fn scaled(&self, elem_size: u64) -> BufferRegion {
        BufferRegion {
            src: (self.src_range.start * elem_size) as u64,
            dst: (self.dst_offset * elem_size) as u64,
            size: (self.src_range.end * elem_size - self.src_range.start * elem_size) as u64,
        }
    }

    /// Counts the copy in bytes, or returns `None` where it cannot be.
    pub fn scale(&self, elem_size: u64) -> (res: Option<BufferRegion>)
        ensures
            res == if self.scalable(elem_size) {
                Some(self.scaled(elem_size))
            } else {
                None
            },
    {
        let src = match self.src_range.start.checked_mul(elem_size) {
            Some(v) => v,
            None => {
                return None;
            },
        };
        let dst = match self.dst_offset.checked_mul(elem_size) {
            Some(v) => v,
            None => {
                return None;
            },
        };
        let end = match self.src_range.end.checked_mul(elem_size) {
            Some(v) => v,
            None => {
                return None;
            },
        };
        if end < src {
            return None;
        }
        Some(BufferRegion { src, dst, size: end - src })
    }
}

/// Whether every copy of a list can be counted in bytes.
pub open spec fn all_scalable(regions: Seq<BufferCopy>, elem_size: u64) -> bool {
    forall|i: int| 0 <= i < regions.len() ==> (#[trigger] regions[i]).scalable(elem_size)
}

/// The copies of a list counted in bytes.
pub open spec fn scaled_regions(regions: Seq<BufferCopy>, elem_size: u64) -> Seq<BufferRegion> {
    Seq::new(regions.len(), |i: int| regions[i].scaled(elem_size))
}

/// Counts every copy of a list in bytes, or returns `None` where one of
/// them cannot be.
pub fn scale_regions(regions: &Vec<BufferCopy>, elem_size: u64) -> (res: Option<Vec<BufferRegion>>)
    ensures
        res is Some <==> all_scalable(regions@, elem_size),
        res is Some ==> res->0@ == scaled_regions(regions@, elem_size),
{
    let mut out: Vec<BufferRegion> = Vec::new();
    let mut i: usize = 0;
    while i < regions.len()
        invariant
            i <= regions.len(),
            out@.len() == i,
            forall|j: int| 0 <= j < i ==> (#[trigger] regions@[j]).scalable(elem_size),
            forall|j: int| 0 <= j < i ==> out@[j] == regions@[j].scaled(elem_size),
        decreases regions.len() - i,
    {
        match regions[i].scale(elem_size) {
            Some(region) => {
                out.push(region);
            },
            None => {
                proof {
                    assert(!regions@[i as int].scalable(elem_size));
                }
                return None;
            },
        }
        i += 1;
    }
    proof {
        assert(out@ =~= scaled_regions(regions@, elem_size));
    }
    Some(out)
}

/// Orders the accesses to an image before and after a point of the
/// pipeline, and changes the image's layout there.
#[derive(Debug, Clone, Copy, PartialEq, Eq, Structural)]
pub struct Barrier {
    pub image: u64,
    pub access_from: ImageAccess,
    pub access_to: ImageAccess,
    pub layout_from: ImageLayout,
    pub layout_to: ImageLayout,
}

/// The device's handle of the memory behind an image.
pub open spec fn image_handle(image: &Image) -> u64 {
    match image.backing.value {
        Some(crate::resources::Backing::Swapchain(handle)) => handle,
        Some(crate::resources::Backing::Allocated(handle)) => handle,
        None => 0,
    }
}

/// Describes a barrier on an image: the caller names the access and the
/// layout on both sides, nothing is inferred.
pub fn image_barrier(image: &Image, access: Range<ImageAccess>, layout: Range<ImageLayout>) -> (res:
    Barrier)
    requires
        !image.backing.dropped(),
    ensures
        res == (Barrier {
            image: image_handle(image),
            access_from: access.start,
            access_to: access.end,
            layout_from: layout.start,
            layout_to: layout.end,
        }),
{
    Barrier {
        image: image.backing_handle(),
        access_from: access.start,
        access_to: access.end,
        layout_from: layout.start,
        layout_to: layout.end,
    }
}

/// A command as it is recorded for the device.
#[derive(Debug)]
pub enum Command {
    Begin,
    SetViewport { width: i16, height: i16 },
    SetScissor { width: i16, height: i16 },
    BeginRenderPass { render_pass: u64, framebuffer: u64, width: i16, height: i16 },
    BindGraphicsPipeline { pipeline: u64 },
    BindDescriptorSet { first_set: usize, set: u64 },
    BindVertexBuffer { index: u32, buffer: u64 },
    BindIndexBuffer { buffer: u64 },
    PushGraphicsConstants { pipeline_layout: u64, data: Vec<u8> },
    Draw { first_vertex: u32, end_vertex: u32 },
    DrawIndexed { first_index: u32, end_index: u32 },
    EndRenderPass,
    PipelineBarrier { from: Stage, to: Stage, barriers: Vec<Barrier> },
    CopyBuffer { source: u64, destination: u64, regions: Vec<BufferRegion> },
    CopyBufferToImage { source: u64, offset: u64, destination: u64, layout: ImageLayout, size: Size },
    Finish,
}

/// A recorded command as contracts speak of it.
pub enum CommandView {
    Begin,
    SetViewport { width: i16, height: i16 },
    SetScissor { width: i16, height: i16 },
    BeginRenderPass { render_pass: u64, framebuffer: u64, width: i16, height: i16 },
    BindGraphicsPipeline { pipeline: u64 },
    BindDescriptorSet { first_set: usize, set: u64 },
    BindVertexBuffer { index: u32, buffer: u64 },
    BindIndexBuffer { buffer: u64 },
    PushGraphicsConstants { pipeline_layout: u64, data: Seq<u8> },
    Draw { first_vertex: u32, end_vertex: u32 },
    DrawIndexed { first_index: u32, end_index: u32 },
    EndRenderPass,
    PipelineBarrier { from: Stage, to: Stage, barriers: Seq<Barrier> },
    CopyBuffer { source: u64, destination: u64, regions: Seq<BufferRegion> },
    CopyBufferToImage { source: u64, offset: u64, destination: u64, layout: ImageLayout, size: Size },
    Finish,
}

impl View for Command {
    type V = CommandView;

    open spec fn view(&self) -> CommandView {
        match *self {
            Command::Begin => CommandView::Begin,
            Command::SetViewport { width, height } => CommandView::SetViewport { width, height },
            Command::SetScissor { width, height } => CommandView::SetScissor { width, height },
            Command::BeginRenderPass { render_pass, framebuffer, width, height } => {
                CommandView::BeginRenderPass { render_pass, framebuffer, width, height }
            },
            Command::BindGraphicsPipeline { pipeline } => CommandView::BindGraphicsPipeline {
                pipeline,
            },
            Command::BindDescriptorSet { first_set, set } => CommandView::BindDescriptorSet {
                first_set,
                set,
            },
            Command::BindVertexBuffer { index, buffer } => CommandView::BindVertexBuffer {
                index,
                buffer,
            },
            Command::BindIndexBuffer { buffer } => CommandView::BindIndexBuffer { buffer },
            Command::DrawIndexed { first_index, end_index } => CommandView::DrawIndexed {
                first_index,
                end_index,
            },
            Command::PushGraphicsConstants { pipeline_layout, data } => {
                CommandView::PushGraphicsConstants { pipeline_layout, data: data@ }
            },
            Command::Draw { first_vertex, end_vertex } => CommandView::Draw {
                first_vertex,
                end_vertex,
            },
            Command::EndRenderPass => CommandView::EndRenderPass,
            Command::PipelineBarrier { from, to, barriers } => CommandView::PipelineBarrier {
                from,
                to,
                barriers: barriers@,
            },
            Command::CopyBuffer { source, destination, regions } => CommandView::CopyBuffer {
                source,
                destination,
                regions: regions@,
            },
            Command::CopyBufferToImage { source, offset, destination, layout, size } => {
                CommandView::CopyBufferToImage { source, offset, destination, layout, size }
            },
            Command::Finish => CommandView::Finish,
        }
    }
}

/// The commands of a list as contracts speak of them.
pub open spec fn views(commands: Seq<Command>) -> Seq<CommandView> {
    Seq::new(commands.len(), |i: int| commands[i]@)
}

/// Whether a sequence of commands leaves a render pass open: its last
/// command that begins or ends a pass begins one.
pub open spec fn open_pass(commands: Seq<CommandView>) -> bool
    decreases commands.len(),
{
    if commands.len() == 0 {
        false
    } else {
        match commands.last() {
            CommandView::BeginRenderPass { .. } => true,
            CommandView::EndRenderPass => false,
            _ => open_pass(commands.drop_last()),
        }
    }
}

/// Appending a command to a list appends its view to the list's views.
pub proof fn lemma_views_push(commands: Seq<Command>, command: Command)
    ensures
        views(commands.push(command)) == views(commands).push(command@),
{
    assert(views(commands.push(command)) =~= views(commands).push(command@));
}

/// A command that neither begins nor ends a render pass leaves a pass as
/// open as it was; one that does decides it.
pub proof fn lemma_open_pass_push(commands: Seq<CommandView>, command: CommandView)
    ensures
        open_pass(commands.push(command)) == match command {
            CommandView::BeginRenderPass { .. } => true,
            CommandView::EndRenderPass => false,
            _ => open_pass(commands),
        },
{
    assert(commands.push(command).drop_last() =~= commands);
    assert(commands.push(command).last() == command);
}

/// The low 16 bits of a pixel count, read as a signed number: what a
/// viewport, whose sides are 16 bits wide, keeps of it.
pub open spec fn wrap_i16(value: u32) -> i16 {
    let low = value as int % 65536;
    if low < 32768 {
        low as i16
    } else {
        (low - 65536) as i16
    }
}

/// Keeps the low 16 bits of a pixel count as a signed number.
pub fn to_viewport_side(value: u32) -> (res: i16)
    ensures
        res == wrap_i16(value),
{
    let low = value % 65536;
    if low < 32768 {
        low as i16
    } else {
        (low as i32 - 65536) as i16
    }
}

/// A set of command buffers for one queue family, of which one at a time
/// can be recorded. While a recorder is open the pool holds the buffer
/// that it records into.
pub struct Pool {
    pub handle: u64,
    pub queue_id: QueueId,
    pub recording: Option<u64>,
    pub allocated: u64,
    pub free: Vec<u64>,
}

impl Pool {
    /// The free buffers are buffers of the pool, each listed once.
    pub open spec fn wf(&self) -> bool {
        &&& forall|i: int| 0 <= i < self.free@.len() ==> self.free@[i] < self.allocated
        &&& forall|i: int, j: int|
            0 <= i < j < self.free@.len() ==> self.free@[i] != self.free@[j]
    }

    /// Number of recorders that are open on the pool.
    pub open spec fn open_recorders(&self) -> nat {
        if self.recording is Some {
            1
        } else {
            0
        }
    }

    /// Whether the pool can hand out a buffer: a free one, or one more.
    pub open spec fn can_allocate(&self) -> bool {
        self.free@.len() > 0 || self.allocated < u64::MAX
    }

    /// Wraps the command pool that the device created for the family of
    /// the given queue. It has no buffers yet and nothing records on it.
    pub fn new(handle: u64, queue_id: QueueId) -> (res: Self)
        ensures
            res.wf(),
            res.handle == handle,
            res.queue_id == queue_id,
            res.recording is None,
            res.allocated == 0,
            res.free@.len() == 0,
    {
        Pool { handle, queue_id, recording: None, allocated: 0, free: Vec::new() }
    }

    /// The queue whose family the pool was created for.
    pub fn queue_id(&self) -> (res: QueueId)
        ensures
            res == self.queue_id,
    {
        self.queue_id
    }

    /// Whether a recorder is open on the pool.
    pub fn is_recording(&self) -> (res: bool)
        ensures
            res == self.recording is Some,
            res == (self.open_recorders() == 1),
    {
        self.recording.is_some()
    }

    /// Whether the pool can hand out a buffer.
    pub fn has_capacity(&self) -> (res: bool)
        ensures
            res == self.can_allocate(),
    {
        self.free.len() > 0 || self.allocated < u64::MAX
    }

    /// Hands out a buffer: the one recycled last, or a new one where none
    /// is free, numbered after those that exist.
    pub fn allocate(&mut self) -> (res: u64)
        requires
            old(self).wf(),
            old(self).can_allocate(),
        ensures
            final(self).wf(),
            final(self).handle == old(self).handle,
            final(self).queue_id == old(self).queue_id,
            final(self).recording == old(self).recording,
            old(self).free@.len() > 0 ==> res == old(self).free@.last() && final(self).free@
                == old(self).free@.drop_last() && final(self).allocated == old(self).allocated,
            old(self).free@.len() == 0 ==> res == old(self).allocated && final(self).free@
                == old(self).free@ && final(self).allocated == old(self).allocated + 1,
            res < final(self).allocated,
            !final(self).free@.contains(res),
    {
        match self.free.pop() {
            Some(buffer) => {
                proof {
                    let before = old(self).free@;
                    assert(buffer == before[before.len() - 1]);
                    assert forall|i: int| 0 <= i < self.free@.len() implies self.free@[i]
                        != buffer by {
                        assert(self.free@[i] == before[i]);
                    }
                }
                buffer
            },
            None => {
                let buffer = self.allocated;
                self.allocated = self.allocated + 1;
                buffer
            },
        }
    }

    /// Whether a buffer is among the free ones.
    pub fn is_free(&self, buffer: u64) -> (res: bool)
        ensures
            res == self.free@.contains(buffer),
    {
        let mut i: usize = 0;
        while i < self.free.len()
            invariant
                i <= self.free.len(),
                forall|j: int| 0 <= j < i ==> self.free@[j] != buffer,
            decreases self.free.len() - i,
        {
            if self.free[i] == buffer {
                return true;
            }
            i += 1;
        }
        false
    }

    /// Takes a buffer back. Returns whether it was taken: a buffer that
    /// the pool never handed out, or that is free already, is refused and
    /// the pool stays as it was.
    pub fn recycle(&mut self, buffer: u64) -> (res: bool)
        requires
            old(self).wf(),
        ensures
            final(self).wf(),
            res == (buffer < old(self).allocated && !old(self).free@.contains(buffer)),
            res ==> final(self).free@ == old(self).free@.push(buffer),
            !res ==> final(self).free@ == old(self).free@,
            final(self).handle == old(self).handle,
            final(self).queue_id == old(self).queue_id,
            final(self).recording == old(self).recording,
            final(self).allocated == old(self).allocated,
    {
        if buffer >= self.allocated || self.is_free(buffer) {
            return false;
        }
        self.free.push(buffer);
        true
    }
}

/// At most one recorder is open on a pool at any time: two recorders
/// that are open on the same pool record into the same buffer of it, so
/// they are one and the same.
pub proof fn lemma_single_recorder(pool: Pool, first: Recorder, second: Recorder)
    requires
        first.open_on(&pool),
        second.open_on(&pool),
    ensures
        pool.open_recorders() == 1,
        first.list.pool == second.list.pool,
        first.list.buffer == second.list.buffer,
{
}

/// While a recorder is open on a pool no list can begin recording on it.
pub proof fn lemma_open_recorder_blocks(pool: Pool, open: Recorder, list: List)
    requires
        open.open_on(&pool),
    ensures
        !list.can_record_on(&pool),
{
}

/// One command buffer of a pool with the commands recorded into it.
pub struct List {
    pub pool: u64,
    pub queue_id: QueueId,
    pub buffer: u64,
    pub commands: Vec<Command>,
}

impl List {
    /// The recorded commands as contracts speak of them.
    pub open spec fn recorded(&self) -> Seq<CommandView> {
        views(self.commands@)
    }

    /// Whether the list can begin recording on the pool: it is a list of
    /// the pool, and no recorder is open on the pool.
    pub open spec fn can_record_on(&self, pool: &Pool) -> bool {
        self.pool == pool.handle && pool.recording is None
    }

    /// Creates a new command list using a buffer of the given pool.
    pub fn new(pool: &mut Pool) -> (res: Self)
        requires
            old(pool).wf(),
            old(pool).can_allocate(),
        ensures
            final(pool).wf(),
            final(pool).handle == old(pool).handle,
            final(pool).queue_id == old(pool).queue_id,
            final(pool).recording == old(pool).recording,
            res.pool == old(pool).handle,
            res.queue_id == old(pool).queue_id,
            res.commands@.len() == 0,
            res.buffer < final(pool).allocated,
            !final(pool).free@.contains(res.buffer),
            old(pool).free@.len() > 0 ==> res.buffer == old(pool).free@.last() && final(pool).free@ == old(pool).free@.drop_last() && final(pool).allocated == old(pool).allocated,
            old(pool).free@.len() == 0 ==> res.buffer == old(pool).allocated && final(pool).free@ == old(pool).free@ && final(pool).allocated == old(pool).allocated + 1,
    {
        let buffer = pool.allocate();
        List { pool: pool.handle, queue_id: pool.queue_id, buffer, commands: Vec::new() }
    }

    /// Begins recording commands, dropping what the list held.
    ///
    /// Returns a `Recorder` for recording the actual commands. Recording
    /// is finished by `Recorder::finish`, which gives the list back.
    pub fn record(self, pool: &mut Pool) -> (res: Recorder)
        requires
            self.can_record_on(old(pool)),
        ensures
            final(pool).open_recorders() == 1,
            final(pool).recording == Some(self.buffer),
            res.open_on(final(pool)),
            final(pool).handle == old(pool).handle,
            final(pool).queue_id == old(pool).queue_id,
            final(pool).allocated == old(pool).allocated,
            final(pool).free == old(pool).free,
            res.wf(),
            res.list.recorded() == seq![CommandView::Begin],
            res.list.pool == self.pool,
            res.list.queue_id == self.queue_id,
            res.list.buffer == self.buffer,
            !res.in_render_pass,
            res.graphics_pipeline is None,
    {
        pool.recording = Some(self.buffer);
        let mut commands = self.commands;
        commands.clear();
        commands.push(Command::Begin);
        let list = List { pool: self.pool, queue_id: self.queue_id, buffer: self.buffer, commands };
        proof {
            assert(list.recorded() =~= seq![CommandView::Begin]);
            lemma_open_pass_push(Seq::empty(), CommandView::Begin);
            assert(Seq::<CommandView>::empty().push(CommandView::Begin) =~= seq![
                CommandView::Begin,
            ]);
        }
        Recorder { list, in_render_pass: false, graphics_pipeline: None }
    }

    /// Begins recording unless a recorder is already open on the pool or
    /// the list is of another pool: then the list comes back unchanged.
    pub fn try_record(self, pool: &mut Pool) -> (res: Result<Recorder, List>)
        ensures
            res is Ok <==> self.can_record_on(old(pool)),
            res is Err ==> res->Err_0 == self && *final(pool) == *old(pool),
            res is Ok ==> {
                &&& final(pool).open_recorders() == 1
                &&& final(pool).recording == Some(self.buffer)
                &&& res->Ok_0.open_on(final(pool))
                &&& final(pool).handle == old(pool).handle
                &&& final(pool).queue_id == old(pool).queue_id
                &&& final(pool).allocated == old(pool).allocated
                &&& final(pool).free == old(pool).free
                &&& res->Ok_0.wf()
                &&& res->Ok_0.list.recorded() == seq![CommandView::Begin]
                &&& res->Ok_0.list.pool == self.pool
                &&& res->Ok_0.list.queue_id == self.queue_id
                &&& res->Ok_0.list.buffer == self.buffer
                &&& !res->Ok_0.in_render_pass
                &&& res->Ok_0.graphics_pipeline is None
            },
    {
        if pool.recording.is_some() || self.pool != pool.handle {
            Err(self)
        } else {
            Ok(self.record(pool))
        }
    }

    /// Returns the underlying backend command buffer.
    pub fn as_backend(&self) -> (res: u64)
        ensures
            res == self.buffer,
    {
        self.buffer
    }

    /// The queue that the list's commands are recorded for.
    pub fn queue_id(&self) -> (res: QueueId)
        ensures
            res == self.queue_id,
    {
        self.queue_id
    }

    /// The recorded commands.
    pub fn commands(&self) -> (res: &Vec<Command>)
        ensures
            res@ == self.commands@,
    {
        &self.commands
    }

    /// Whether the pool takes the list's buffer back: the list is of the
    /// pool, and its buffer is one that the pool handed out and that is
    /// not free already.
    pub open spec fn releasable_to(&self, pool: &Pool) -> bool {
        &&& self.pool == pool.handle
        &&& self.buffer < pool.allocated
        &&& !pool.free@.contains(self.buffer)
    }

    /// Gives the list's buffer back to its pool. Returns whether the pool
    /// took it: the list of another pool is refused and the pool stays as
    /// it was.
    pub fn release(self, pool: &mut Pool) -> (res: bool)
        requires
            old(pool).wf(),
        ensures
            final(pool).wf(),
            res == self.releasable_to(old(pool)),
            res ==> final(pool).free@ == old(pool).free@.push(self.buffer),
            !res ==> final(pool).free@ == old(pool).free@,
            final(pool).handle == old(pool).handle,
            final(pool).queue_id == old(pool).queue_id,
            final(pool).recording == old(pool).recording,
            final(pool).allocated == old(pool).allocated,
    {
        if self.pool != pool.handle {
            return false;
        }
        pool.recycle(self.buffer)
    }
}

/// What a recorder keeps of the graphics pipeline that is bound.
#[derive(Debug, Clone, Copy, PartialEq, Eq, Structural)]
pub struct BoundPipeline {
    pub pipeline: u64,
    pub layout: u64,
    pub push_constant_count: usize,
}

/// Structure for recording commands into a `List`.
pub struct Recorder {
    pub list: List,
    pub in_render_pass: bool,
    pub graphics_pipeline: Option<BoundPipeline>,
}

impl Recorder {
    /// The recording has begun, and the recorder knows whether a render
    /// pass is open.
    pub open spec fn wf(&self) -> bool {
        &&& self.list.recorded().len() > 0
        &&& self.list.recorded()[0] == CommandView::Begin
        &&& self.in_render_pass == open_pass(self.list.recorded())
    }

    /// Whether the recorder is the one that is open on the pool: it records
    /// into the buffer that the pool holds as being recorded.
    pub open spec fn open_on(&self, pool: &Pool) -> bool {
        self.list.pool == pool.handle && pool.recording == Some(self.list.buffer)
    }

    /// Whether the recorder is the one that is open on the pool.
    pub fn is_open_on(&self, pool: &Pool) -> (res: bool)
        ensures
            res == self.open_on(pool),
    {
        let same_buffer = match pool.recording {
            Some(buffer) => buffer == self.list.buffer,
            None => false,
        };
        self.list.pool == pool.handle && same_buffer
    }

    /// Whether the given number of bytes is what the bound pipeline takes
    /// as push constants.
    pub open spec fn constants_fit(&self, len: nat) -> bool {
        self.graphics_pipeline is Some && self.graphics_pipeline->0.push_constant_count * 4
            == len
    }

    fn push(&mut self, command: Command)
        requires
            old(self).wf(),
            !(command@ is BeginRenderPass),
            !(command@ is EndRenderPass),
        ensures
            final(self).wf(),
            final(self).list.recorded() == old(self).list.recorded().push(command@),
            final(self).list.pool == old(self).list.pool,
            final(self).list.queue_id == old(self).list.queue_id,
            final(self).list.buffer == old(self).list.buffer,
            final(self).in_render_pass == old(self).in_render_pass,
            final(self).graphics_pipeline == old(self).graphics_pipeline,
    {
        proof {
            lemma_views_push(self.list.commands@, command);
            lemma_open_pass_push(self.list.recorded(), command@);
        }
        self.list.commands.push(command);
    }

    /// Begins a render pass using the given framebuffer, with a viewport
    /// and a scissor rectangle that cover it.
    pub fn begin_render_pass(&mut self, framebuffer: &Framebuffer)
        requires
            old(self).wf(),
            framebuffer.render_pass is Some,
            !framebuffer.raw.dropped(),
        ensures
            final(self).wf(),
            final(self).in_render_pass,
            final(self).list.recorded() == old(self).list.recorded() + seq![
                CommandView::SetViewport {
                    width: wrap_i16(framebuffer.size.width),
                    height: wrap_i16(framebuffer.size.height),
                },
                CommandView::SetScissor {
                    width: wrap_i16(framebuffer.size.width),
                    height: wrap_i16(framebuffer.size.height),
                },
                CommandView::BeginRenderPass {
                    render_pass: framebuffer.render_pass->0,
                    framebuffer: framebuffer.raw.value->0,
                    width: wrap_i16(framebuffer.size.width),
                    height: wrap_i16(framebuffer.size.height),
                },
            ],
            final(self).list.pool == old(self).list.pool,
            final(self).list.queue_id == old(self).list.queue_id,
            final(self).list.buffer == old(self).list.buffer,
            final(self).graphics_pipeline == old(self).graphics_pipeline,
    {
        let render_pass = framebuffer.render_pass().unwrap();
        let size = framebuffer.size();
        let width = to_viewport_side(size.width);
        let height = to_viewport_side(size.height);
        self.push(Command::SetViewport { width, height });
        self.push(Command::SetScissor { width, height });
        let command = Command::BeginRenderPass {
            render_pass,
            framebuffer: framebuffer.as_backend(),
            width,
            height,
        };
        proof {
            lemma_views_push(self.list.commands@, command);
            lemma_open_pass_push(self.list.recorded(), command@);
        }
        self.list.commands.push(command);
        self.in_render_pass = true;
        proof {
            assert(self.list.recorded() =~= old(self).list.recorded() + seq![
                CommandView::SetViewport { width, height },
                CommandView::SetScissor { width, height },
                CommandView::BeginRenderPass {
                    render_pass,
                    framebuffer: framebuffer.raw.value->0,
                    width,
                    height,
                },
            ]);
        }
    }

    /// Binds the given graphics pipeline for future commands in the
    /// render pass.
    pub fn bind_graphics_pipeline(&mut self, pipeline: &Pipeline)
        requires
            old(self).wf(),
            !pipeline.pipeline.dropped(),
            !pipeline.layout.dropped(),
        ensures
            final(self).wf(),
            final(self).list.recorded() == old(self).list.recorded().push(
                CommandView::BindGraphicsPipeline { pipeline: pipeline.pipeline.value->0 },
            ),
            final(self).graphics_pipeline == Some(
                BoundPipeline {
                    pipeline: pipeline.pipeline.value->0,
                    layout: pipeline.layout.value->0,
                    push_constant_count: pipeline.options.word_count(),
                },
            ),
            final(self).in_render_pass == old(self).in_render_pass,
            final(self).list.pool == old(self).list.pool,
            final(self).list.queue_id == old(self).list.queue_id,
            final(self).list.buffer == old(self).list.buffer,
    {
        let handle = pipeline.as_backend();
        self.push(Command::BindGraphicsPipeline { pipeline: handle });
        self.graphics_pipeline = Some(
            BoundPipeline {
                pipeline: handle,
                layout: pipeline.backend_layout(),
                push_constant_count: pipeline.push_constant_count(),
            },
        );
    }

    /// Binds a descriptor set at the given set number.
    pub fn bind_descriptor_set(&mut self, first_set: usize, set: u64)
        requires
            old(self).wf(),
        ensures
            final(self).wf(),
            final(self).list.recorded() == old(self).list.recorded().push(
                CommandView::BindDescriptorSet { first_set, set },
            ),
            final(self).in_render_pass == old(self).in_render_pass,
            final(self).graphics_pipeline == old(self).graphics_pipeline,
            final(self).list.pool == old(self).list.pool,
            final(self).list.queue_id == old(self).list.queue_id,
            final(self).list.buffer == old(self).list.buffer,
    {
        self.push(Command::BindDescriptorSet { first_set, set });
    }

    /// Binds a vertex buffer, from its start, at the given binding.
    pub fn bind_vertex_buffer(&mut self, index: u32, buffer: &Buffer)
        requires
            old(self).wf(),
            !buffer.raw.dropped(),
        ensures
            final(self).wf(),
            final(self).list.recorded() == old(self).list.recorded().push(
                CommandView::BindVertexBuffer { index, buffer: buffer.raw.value->0 },
            ),
            final(self).in_render_pass == old(self).in_render_pass,
            final(self).graphics_pipeline == old(self).graphics_pipeline,
            final(self).list.pool == old(self).list.pool,
            final(self).list.queue_id == old(self).list.queue_id,
            final(self).list.buffer == old(self).list.buffer,
    {
        self.push(Command::BindVertexBuffer { index, buffer: buffer.as_backend() });
    }

    /// Binds an index buffer, from its start.
    pub fn bind_index_buffer(&mut self, buffer: &Buffer)
        requires
            old(self).wf(),
            !buffer.raw.dropped(),
        ensures
            final(self).wf(),
            final(self).list.recorded() == old(self).list.recorded().push(
                CommandView::BindIndexBuffer { buffer: buffer.raw.value->0 },
            ),
            final(self).in_render_pass == old(self).in_render_pass,
            final(self).graphics_pipeline == old(self).graphics_pipeline,
            final(self).list.pool == old(self).list.pool,
            final(self).list.queue_id == old(self).list.queue_id,
            final(self).list.buffer == old(self).list.buffer,
    {
        self.push(Command::BindIndexBuffer { buffer: buffer.as_backend() });
    }

    /// Whether the given number of bytes is what the bound pipeline takes
    /// as push constants.
    pub fn accepts_constants(&self, len: usize) -> (res: bool)
        ensures
            res == self.constants_fit(len as nat),
    {
        match self.graphics_pipeline {
            Some(bound) => match bound.push_constant_count.checked_mul(4) {
                Some(bytes) => bytes == len,
                None => false,
            },
            None => false,
        }
    }

    /// Set the push constants to the given bytes.
    ///
    /// A graphics pipeline must be bound, and the bytes must be as many as
    /// the pipeline takes.
    pub fn push_graphics_constants(&mut self, constants: Vec<u8>)
        requires
            old(self).wf(),
            old(self).constants_fit(constants@.len()),
        ensures
            final(self).wf(),
            final(self).list.recorded() == old(self).list.recorded().push(
                CommandView::PushGraphicsConstants {
                    pipeline_layout: old(self).graphics_pipeline->0.layout,
                    data: constants@,
                },
            ),
            final(self).in_render_pass == old(self).in_render_pass,
            final(self).graphics_pipeline == old(self).graphics_pipeline,
            final(self).list.pool == old(self).list.pool,
            final(self).list.queue_id == old(self).list.queue_id,
            final(self).list.buffer == old(self).list.buffer,
    {
        let pipeline_layout = match self.graphics_pipeline {
            Some(bound) => bound.layout,
            None => 0,
        };
        self.push(Command::PushGraphicsConstants { pipeline_layout, data: constants });
    }

    /// Draws the given range of vertices once.
    pub fn draw(&mut self, vertices: Range<u32>)
        requires
            old(self).wf(),
        ensures
            final(self).wf(),
            final(self).list.recorded() == old(self).list.recorded().push(
                CommandView::Draw { first_vertex: vertices.start, end_vertex: vertices.end },
            ),
            final(self).in_render_pass == old(self).in_render_pass,
            final(self).graphics_pipeline == old(self).graphics_pipeline,
            final(self).list.pool == old(self).list.pool,
            final(self).list.queue_id == old(self).list.queue_id,
            final(self).list.buffer == old(self).list.buffer,
    {
        self.push(Command::Draw { first_vertex: vertices.start, end_vertex: vertices.end });
    }

    /// Draws the vertices that the given range of indices names, once.
    pub fn draw_indexed(&mut self, indices: Range<u32>)
        requires
            old(self).wf(),
        ensures
            final(self).wf(),
            final(self).list.recorded() == old(self).list.recorded().push(
                CommandView::DrawIndexed { first_index: indices.start, end_index: indices.end },
            ),
            final(self).in_render_pass == old(self).in_render_pass,
            final(self).graphics_pipeline == old(self).graphics_pipeline,
            final(self).list.pool == old(self).list.pool,
            final(self).list.queue_id == old(self).list.queue_id,
            final(self).list.buffer == old(self).list.buffer,
    {
        self.push(Command::DrawIndexed { first_index: indices.start, end_index: indices.end });
    }

    /// Ends the current render pass.
    pub fn end_render_pass(&mut self)
        requires
            old(self).wf(),
        ensures
            final(self).wf(),
            !final(self).in_render_pass,
            final(self).list.recorded() == old(self).list.recorded().push(
                CommandView::EndRenderPass,
            ),
            final(self).graphics_pipeline == old(self).graphics_pipeline,
            final(self).list.pool == old(self).list.pool,
            final(self).list.queue_id == old(self).list.queue_id,
            final(self).list.buffer == old(self).list.buffer,
    {
        proof {
            lemma_views_push(self.list.commands@, Command::EndRenderPass);
            lemma_open_pass_push(self.list.recorded(), CommandView::EndRenderPass);
        }
        self.list.commands.push(Command::EndRenderPass);
        self.in_render_pass = false;
    }

    /// Records a barrier between two stages of the pipeline.
    pub fn pipeline_barrier(&mut self, stages: Range<Stage>, barriers: Vec<Barrier>)
        requires
            old(self).wf(),
        ensures
            final(self).wf(),
            final(self).list.recorded() == old(self).list.recorded().push(
                CommandView::PipelineBarrier {
                    from: stages.start,
                    to: stages.end,
                    barriers: barriers@,
                },
            ),
            final(self).in_render_pass == old(self).in_render_pass,
            final(self).graphics_pipeline == old(self).graphics_pipeline,
            final(self).list.pool == old(self).list.pool,
            final(self).list.queue_id == old(self).list.queue_id,
            final(self).list.buffer == old(self).list.buffer,
    {
        self.push(Command::PipelineBarrier { from: stages.start, to: stages.end, barriers });
    }

    /// Records a copy of a range of elements from one buffer into
    /// another.
    pub fn copy_buffer(
        &mut self,
        source: &Buffer,
        src_range: Range<u64>,
        destination: &Buffer,
        dst_offset: u64,
    )
        requires
            old(self).wf(),
            !source.raw.dropped(),
            !destination.raw.dropped(),
            (BufferCopy { src_range, dst_offset }).scalable(source.elem_size),
        ensures
            final(self).wf(),
            final(self).list.recorded() == old(self).list.recorded().push(
                CommandView::CopyBuffer {
                    source: source.raw.value->0,
                    destination: destination.raw.value->0,
                    regions: seq![(BufferCopy { src_range, dst_offset }).scaled(source.elem_size)],
                },
            ),
            final(self).in_render_pass == old(self).in_render_pass,
            final(self).graphics_pipeline == old(self).graphics_pipeline,
            final(self).list.pool == old(self).list.pool,
            final(self).list.queue_id == old(self).list.queue_id,
            final(self).list.buffer == old(self).list.buffer,
    {
        let mut regions: Vec<BufferCopy> = Vec::new();
        regions.push(BufferCopy { src_range, dst_offset });
        proof {
            assert(regions@[0].scalable(source.elem_size));
            assert(scaled_regions(regions@, source.elem_size) =~= seq![
                (BufferCopy { src_range, dst_offset }).scaled(source.elem_size),
            ]);
        }
        self.copy_buffer_regions(source, destination, &regions);
    }

    /// Records a copy of several ranges of elements from one buffer into
    /// another, with every offset scaled by the size of an element.
    pub fn copy_buffer_regions(
        &mut self,
        source: &Buffer,
        destination: &Buffer,
        regions: &Vec<BufferCopy>,
    )
        requires
            old(self).wf(),
            !source.raw.dropped(),
            !destination.raw.dropped(),
            all_scalable(regions@, source.elem_size),
        ensures
            final(self).wf(),
            final(self).list.recorded() == old(self).list.recorded().push(
                CommandView::CopyBuffer {
                    source: source.raw.value->0,
                    destination: destination.raw.value->0,
                    regions: scaled_regions(regions@, source.elem_size),
                },
            ),
            final(self).in_render_pass == old(self).in_render_pass,
            final(self).graphics_pipeline == old(self).graphics_pipeline,
            final(self).list.pool == old(self).list.pool,
            final(self).list.queue_id == old(self).list.queue_id,
            final(self).list.buffer == old(self).list.buffer,
    {
        let scaled = match scale_regions(regions, source.elem_size) {
            Some(scaled) => scaled,
            None => Vec::new(),
        };
        self.push(
            Command::CopyBuffer {
                source: source.as_backend(),
                destination: destination.as_backend(),
                regions: scaled,
            },
        );
    }

    /// Records a copy from a buffer, starting at the given byte, into the
    /// whole of an image that is in the given layout.
    pub fn copy_buffer_to_image(
        &mut self,
        source: &Buffer,
        offset: u64,
        destination: &Image,
        layout: ImageLayout,
    )
        requires
            old(self).wf(),
            !source.raw.dropped(),
            !destination.backing.dropped(),
        ensures
            final(self).wf(),
            final(self).list.recorded() == old(self).list.recorded().push(
                CommandView::CopyBufferToImage {
                    source: source.raw.value->0,
                    offset,
                    destination: image_handle(destination),
                    layout,
                    size: destination.size,
                },
            ),
            final(self).in_render_pass == old(self).in_render_pass,
            final(self).graphics_pipeline == old(self).graphics_pipeline,
            final(self).list.pool == old(self).list.pool,
            final(self).list.queue_id == old(self).list.queue_id,
            final(self).list.buffer == old(self).list.buffer,
    {
        self.push(
            Command::CopyBufferToImage {
                source: source.as_backend(),
                offset,
                destination: destination.backing_handle(),
                layout,
                size: destination.size(),
            },
        );
    }

    /// The commands that `finish` appends: the end of a render pass that
    /// is still open, then the end of the recording.
    pub open spec fn closing(&self) -> Seq<CommandView> {
        if self.in_render_pass {
            seq![CommandView::EndRenderPass, CommandView::Finish]
        } else {
            seq![CommandView::Finish]
        }
    }

    /// Finishes recording commands and marks the pool free, giving the
    /// list back. A render pass that is still open is ended first, so that
    /// no list is submitted with a pass left open. The pool is the one on
    /// which the recorder is open.
    pub fn finish(self, pool: &mut Pool) -> (res: List)
        requires
            self.wf(),
            self.open_on(old(pool)),
        ensures
            final(pool).open_recorders() == 0,
            final(pool).recording is None,
            final(pool).handle == old(pool).handle,
            final(pool).queue_id == old(pool).queue_id,
            final(pool).allocated == old(pool).allocated,
            final(pool).free == old(pool).free,
            res.recorded() == self.list.recorded() + self.closing(),
            res.recorded().last() == CommandView::Finish,
            !open_pass(res.recorded()),
            res.pool == self.list.pool,
            res.queue_id == self.list.queue_id,
            res.buffer == self.list.buffer,
    {
        let mut recorder = self;
        if recorder.in_render_pass {
            recorder.end_render_pass();
        }
        let ghost before = recorder.list.recorded();
        proof {
            lemma_views_push(recorder.list.commands@, Command::Finish);
            lemma_open_pass_push(before, CommandView::Finish);
        }
        recorder.list.commands.push(Command::Finish);
        pool.recording = None;
        proof {
            assert(recorder.list.recorded() =~= self.list.recorded() + self.closing());
        }
        recorder.list
    }
}

} // verus!
