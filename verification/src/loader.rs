//! The work of the background loader: data is copied into a staging
//! buffer, a copy to the destination is recorded and submitted, and the
//! destination is handed back once the device has signaled the fence.

use vstd::prelude::*;
use vstd::std_specs::convert::FromSpec;
use vstd::string::StringExecFns;
use core::ops::Range;
use crate::backend::{disconnection, try_recv_failure, TryRecvFailure};
use crate::cmd::{
    image_barrier, image_handle, Barrier, BufferRegion, CommandView, List, Pool, Recorder,
};
use crate::queues::{QueueId, Queues, Submission, SubmitOrder, SubmitOrderView};
use crate::resources::{Buffer, Image};
use crate::sync::{Fence, FenceState};
use crate::types::{BufferKind, ImageAccess, ImageLayout, Stage};

verus! {

/// Size in bytes of the buffer through which all data reaches the device.
pub const STAGING_BUFFER_LEN: u64 = 64 * 1024 * 1024;

/// The device is out of either host or device memory.
#[derive(Debug, Clone, Copy, PartialEq, Eq, Structural)]
pub struct OutOfMemoryError;

/// An error that occurred during the creation of a buffer.
#[derive(Debug, Clone, Copy, PartialEq, Eq, Structural)]
pub enum BufferCreationError {
    /// Out of either host or device memory.
    OutOfMemory,
    /// The device has no memory for buffers of this kind.
    UnsupportedKind,
}

impl BufferCreationError {
    /// What `to_string` returns for the error.
    pub open spec fn description(&self) -> Seq<char> {
        match self {
            BufferCreationError::OutOfMemory => "out of memory"@,
            BufferCreationError::UnsupportedKind => "unsupported kind of buffer"@,
        }
    }

    /// Describes the error.
    pub fn to_string(&self) -> (res: String)
        ensures
            res@ == self.description(),
    {
        match self {
            BufferCreationError::OutOfMemory => String::from_str("out of memory"),
            BufferCreationError::UnsupportedKind => String::from_str("unsupported kind of buffer"),
        }
    }
}

/// An error that occurred during the creation of an image.
#[derive(Debug, Clone, Copy, PartialEq, Eq, Structural)]
pub enum ImageCreationError {
    /// Out of either host or device memory.
    OutOfMemory,
    /// The device has no images of this size or format.
    Unsupported,
}

impl ImageCreationError {
    /// What `to_string` returns for the error.
    pub open spec fn description(&self) -> Seq<char> {
        match self {
            ImageCreationError::OutOfMemory => "out of memory"@,
            ImageCreationError::Unsupported => "unsupported size or format of image"@,
        }
    }

    /// Describes the error.
    pub fn to_string(&self) -> (res: String)
        ensures
            res@ == self.description(),
    {
        match self {
            ImageCreationError::OutOfMemory => String::from_str("out of memory"),
            ImageCreationError::Unsupported => String::from_str(
                "unsupported size or format of image",
            ),
        }
    }
}

/// An error that occurred during the creation of a `Loader`.
#[derive(Debug, Clone, Copy, PartialEq, Eq, Structural)]
pub enum LoaderCreationError {
    /// Out of either host or device memory.
    OutOfMemory,
    /// An error occurred during the creation of a staging buffer.
    StagingBufferCreationFailed(BufferCreationError),
    /// An unknown error occurred.
    Unknown,
}

impl LoaderCreationError {
    /// What `to_string` returns for the error.
    pub open spec fn description(&self) -> Seq<char> {
        match self {
            LoaderCreationError::OutOfMemory => "out of memory"@,
            LoaderCreationError::StagingBufferCreationFailed(err) => {
                "failed to create staging buffer: "@ + err.description()
            },
            LoaderCreationError::Unknown => "unknown error"@,
        }
    }

    /// Describes the error.
    pub fn to_string(&self) -> (res: String)
        ensures
            res@ == self.description(),
    {
        match self {
            LoaderCreationError::OutOfMemory => String::from_str("out of memory"),
            LoaderCreationError::StagingBufferCreationFailed(err) => {
                let cause = err.to_string();
                String::from_str("failed to create staging buffer: ").concat(cause.as_str())
            },
            LoaderCreationError::Unknown => String::from_str("unknown error"),
        }
    }
}

impl From<crossbeam_channel::RecvError> for LoaderCreationError {
    fn from(err: crossbeam_channel::RecvError) -> (res: Self) {
        LoaderCreationError::Unknown
    }
}

impl vstd::std_specs::convert::FromSpecImpl<crossbeam_channel::RecvError> for LoaderCreationError {
    open spec fn obeys_from_spec() -> bool {
        true
    }

    open spec fn from_spec(err: crossbeam_channel::RecvError) -> Self {
        LoaderCreationError::Unknown
    }
}

impl From<OutOfMemoryError> for LoaderCreationError {
    fn from(err: OutOfMemoryError) -> (res: Self) {
        LoaderCreationError::OutOfMemory
    }
}

impl vstd::std_specs::convert::FromSpecImpl<OutOfMemoryError> for LoaderCreationError {
    open spec fn obeys_from_spec() -> bool {
        true
    }

    open spec fn from_spec(err: OutOfMemoryError) -> Self {
        LoaderCreationError::OutOfMemory
    }
}

/// An error that occurred while loading a buffer on a `Loader` background
/// thread.
#[derive(Debug, Clone, Copy, PartialEq, Eq, Structural)]
pub enum LoadBufferError {
    /// The `Loader` background thread has been shut down.
    LoaderShutDown,
    /// An error occurred during the creation of the buffer.
    CreationFailed(BufferCreationError),
}

impl LoadBufferError {
    /// What `to_string` returns for the error.
    pub open spec fn description(&self) -> Seq<char> {
        match self {
            LoadBufferError::LoaderShutDown => "background loader has shut down"@,
            LoadBufferError::CreationFailed(err) => "failed to create buffer: "@
                + err.description(),
        }
    }

    /// Describes the error.
    pub fn to_string(&self) -> (res: String)
        ensures
            res@ == self.description(),
    {
        match self {
            LoadBufferError::LoaderShutDown => String::from_str("background loader has shut down"),
            LoadBufferError::CreationFailed(err) => {
                let cause = err.to_string();
                String::from_str("failed to create buffer: ").concat(cause.as_str())
            },
        }
    }
}

impl From<BufferCreationError> for LoadBufferError {
    fn from(err: BufferCreationError) -> (res: Self) {
        LoadBufferError::CreationFailed(err)
    }
}

impl vstd::std_specs::convert::FromSpecImpl<BufferCreationError> for LoadBufferError {
    open spec fn obeys_from_spec() -> bool {
        true
    }

    open spec fn from_spec(err: BufferCreationError) -> Self {
        LoadBufferError::CreationFailed(err)
    }
}

impl From<crossbeam_channel::RecvError> for LoadBufferError {
    fn from(err: crossbeam_channel::RecvError) -> (res: Self) {
        LoadBufferError::LoaderShutDown
    }
}

impl vstd::std_specs::convert::FromSpecImpl<crossbeam_channel::RecvError> for LoadBufferError {
    open spec fn obeys_from_spec() -> bool {
        true
    }

    open spec fn from_spec(err: crossbeam_channel::RecvError) -> Self {
        LoadBufferError::LoaderShutDown
    }
}

/// An error that occurred while loading an image on a `Loader` background
/// thread.
#[derive(Debug, Clone, Copy, PartialEq, Eq, Structural)]
pub enum LoadImageError {
    /// The `Loader` has been shut down.
    LoaderShutDown,
    /// An error occurred while creating the image.
    CreationFailed(ImageCreationError),
}

impl LoadImageError {
    /// What `to_string` returns for the error.
    pub open spec fn description(&self) -> Seq<char> {
        match self {
            LoadImageError::LoaderShutDown => "background loader has shut down"@,
            LoadImageError::CreationFailed(err) => "failed to create image: "@ + err.description(),
        }
    }

    /// Describes the error.
    pub fn to_string(&self) -> (res: String)
        ensures
            res@ == self.description(),
    {
        match self {
            LoadImageError::LoaderShutDown => String::from_str("background loader has shut down"),
            LoadImageError::CreationFailed(err) => {
                let cause = err.to_string();
                String::from_str("failed to create image: ").concat(cause.as_str())
            },
        }
    }
}

impl From<crossbeam_channel::RecvError> for LoadImageError {
    fn from(err: crossbeam_channel::RecvError) -> (res: Self) {
        LoadImageError::LoaderShutDown
    }
}

impl vstd::std_specs::convert::FromSpecImpl<crossbeam_channel::RecvError> for LoadImageError {
    open spec fn obeys_from_spec() -> bool {
        true
    }

    open spec fn from_spec(err: crossbeam_channel::RecvError) -> Self {
        LoadImageError::LoaderShutDown
    }
}

impl From<ImageCreationError> for LoadImageError {
    fn from(err: ImageCreationError) -> (res: Self) {
        LoadImageError::CreationFailed(err)
    }
}

impl vstd::std_specs::convert::FromSpecImpl<ImageCreationError> for LoadImageError {
    open spec fn obeys_from_spec() -> bool {
        true
    }

    open spec fn from_spec(err: ImageCreationError) -> Self {
        LoadImageError::CreationFailed(err)
    }
}

/// What a blocking receive on a request's channel amounts to: the
/// loader's answer, or the error that stands for a loader that is gone.
pub fn settle_recv<T, E: From<crossbeam_channel::RecvError>>(
    received: Result<Result<T, E>, crossbeam_channel::RecvError>,
) -> (res: Result<T, E>)
    ensures
        received is Ok ==> res == received->Ok_0,
        received is Err ==> res is Err,
        received is Err && E::obeys_from_spec() ==> res == Err::<T, E>(
            E::from_spec(received->Err_0),
        ),
{
    match received {
        Ok(answer) => answer,
        Err(err) => Err(E::from(err)),
    }
}

/// Whatever a request was for, a receive on its channel after the
/// loader's thread has gone reports that the loader has shut down.
pub proof fn lemma_shut_down_is_reported(err: crossbeam_channel::RecvError)
    ensures
        <LoadBufferError as FromSpec<crossbeam_channel::RecvError>>::obeys_from_spec(),
        <LoadBufferError as FromSpec<crossbeam_channel::RecvError>>::from_spec(err)
            == LoadBufferError::LoaderShutDown,
        <LoadImageError as FromSpec<crossbeam_channel::RecvError>>::obeys_from_spec(),
        <LoadImageError as FromSpec<crossbeam_channel::RecvError>>::from_spec(err)
            == LoadImageError::LoaderShutDown,
{
}

/// What a receive that does not block amounts to: `None` while the loader
/// has not answered, else its answer, or the error that stands for a
/// loader that is gone.
pub fn settle_try_recv<T, E: From<crossbeam_channel::RecvError>>(
    received: Result<Result<T, E>, crossbeam_channel::TryRecvError>,
) -> (res: Option<Result<T, E>>)
    ensures
        received is Ok ==> res == Some(received->Ok_0),
        received is Err ==> (res is None <==> try_recv_failure(received->Err_0)
            != TryRecvFailure::Disconnected),
        received is Err && res is Some ==> res->0 is Err,
        received is Err && res is Some && E::obeys_from_spec() ==> exists|
            gone: crossbeam_channel::RecvError,
        | res == Some(Err::<T, E>(E::from_spec(gone))),
{
    match received {
        Ok(answer) => Some(answer),
        Err(err) => match disconnection(err) {
            Some(gone) => Some(Err(E::from(gone))),
            None => None,
        },
    }
}

/// The staging bytes after `src` was written to their start.
pub open spec fn staged(staging: Seq<u8>, src: Seq<u8>) -> Seq<u8> {
    src + staging.subrange(src.len() as int, staging.len() as int)
}

/// The bytes of a destination after the device copied a region of a
/// source into it.
pub open spec fn copied(source: Seq<u8>, destination: Seq<u8>, region: BufferRegion) -> Seq<u8> {
    Seq::new(
        destination.len(),
        |i: int|
            if region.dst <= i < region.dst + region.size {
                source[i - region.dst + region.src]
            } else {
                destination[i]
            },
    )
}

/// The one region that an upload of `len` bytes copies: from the start of
/// the staging buffer to the start of the destination.
pub open spec fn upload_region(len: nat) -> BufferRegion {
    BufferRegion { src: 0, dst: 0, size: len as u64 }
}

/// Data that went through the staging buffer arrives unchanged: once it
/// was written to the staging bytes, the device's copy of the upload's
/// region fills a destination of the data's length with the data.
pub proof fn lemma_staged_copy_round_trip(data: Seq<u8>, staging: Seq<u8>, destination: Seq<u8>)
    requires
        data.len() <= staging.len(),
        data.len() <= u64::MAX,
        destination.len() == data.len(),
    ensures
        copied(staged(staging, data), destination, upload_region(data.len())) == data,
{
    assert(copied(staged(staging, data), destination, upload_region(data.len())) =~= data);
}

/// Writes `src` to the start of the staging bytes.
pub fn stage(staging: &mut Vec<u8>, src: &Vec<u8>)
    requires
        src@.len() <= old(staging)@.len(),
    ensures
        final(staging)@ == staged(old(staging)@, src@),
        final(staging)@.len() == old(staging)@.len(),
{
    let mut i: usize = 0;
    while i < src.len()
        invariant
            i <= src.len(),
            src@.len() <= staging@.len(),
            staging@.len() == old(staging)@.len(),
            forall|j: int| 0 <= j < i ==> staging@[j] == src@[j],
            forall|j: int| i <= j < staging@.len() ==> staging@[j] == old(staging)@[j],
        decreases src.len() - i,
    {
        staging.set(i, src[i]);
        i += 1;
    }
    proof {
        assert(staging@ =~= staged(old(staging)@, src@));
    }
}

/// The commands that upload a buffer.
pub open spec fn buffer_upload(staging: u64, destination: u64, len: nat) -> Seq<CommandView> {
    seq![
        CommandView::Begin,
        CommandView::CopyBuffer { source: staging, destination, regions: seq![upload_region(len)] },
        CommandView::Finish,
    ]
}

/// The barrier that readies an image for the transfer.
pub open spec fn before_transfer(image: u64) -> Barrier {
    Barrier {
        image,
        access_from: ImageAccess::Empty,
        access_to: ImageAccess::TransferWrite,
        layout_from: ImageLayout::Undefined,
        layout_to: ImageLayout::TransferDstOptimal,
    }
}

/// The barrier that readies an image for reads by shaders.
pub open spec fn after_transfer(image: u64) -> Barrier {
    Barrier {
        image,
        access_from: ImageAccess::TransferWrite,
        access_to: ImageAccess::Empty,
        layout_from: ImageLayout::TransferDstOptimal,
        layout_to: ImageLayout::ShaderReadOnlyOptimal,
    }
}

/// The commands that upload an image: a barrier that takes it from an
/// undefined layout to the one for transfers, the copy from the staging
/// buffer, and a barrier that takes it to the layout for shader reads.
pub open spec fn image_upload(staging: u64, image: &Image) -> Seq<CommandView> {
    seq![
        CommandView::Begin,
        CommandView::PipelineBarrier {
            from: Stage::BottomOfPipe,
            to: Stage::Transfer,
            barriers: seq![before_transfer(image_handle(image))],
        },
        CommandView::CopyBufferToImage {
            source: staging,
            offset: 0,
            destination: image_handle(image),
            layout: ImageLayout::TransferDstOptimal,
            size: image.size,
        },
        CommandView::PipelineBarrier {
            from: Stage::Transfer,
            to: Stage::TopOfPipe,
            barriers: seq![after_transfer(image_handle(image))],
        },
        CommandView::Finish,
    ]
}

/// What the loader's thread owns: a command pool on the transfer queue, a
/// fence, and the staging buffer with the host's view of its bytes.
pub struct LoaderState {
    pub cmd_pool: Pool,
    pub queue_id: QueueId,
    pub fence: Fence,
    pub staging_buffer: Buffer,
    pub staging: Vec<u8>,
    pub submission: Submission,
}

impl LoaderState {
    /// Between uploads: nothing is recorded or submitted, the fence is
    /// unsignaled, and the staging buffer is a live buffer of bytes.
    pub open spec fn wf(&self) -> bool {
        &&& self.cmd_pool.wf()
        &&& self.cmd_pool.recording is None
        &&& self.cmd_pool.allocated <= 1
        &&& self.cmd_pool.free@.len() == self.cmd_pool.allocated
        &&& self.cmd_pool.queue_id == self.queue_id
        &&& self.fence.state == FenceState::Unsignaled
        &&& !self.fence.raw.dropped()
        &&& !self.staging_buffer.raw.dropped()
        &&& self.staging_buffer.elem_size == 1
        &&& self.staging_buffer.len == self.staging@.len()
        &&& self.submission.queue_id == self.queue_id
        &&& self.submission.lists@.len() == 0
        &&& self.submission.wait_semaphores@.len() == 0
        &&& self.submission.signal_semaphores@.len() == 0
    }

    /// While an upload is with the device: its one command list is
    /// submitted and the fence is going to be signaled.
    pub open spec fn busy(&self) -> bool {
        &&& self.cmd_pool.wf()
        &&& self.cmd_pool.recording is None
        &&& self.cmd_pool.allocated == 1
        &&& self.cmd_pool.free@.len() == 0
        &&& self.cmd_pool.queue_id == self.queue_id
        &&& self.fence.state == FenceState::Pending
        &&& !self.fence.raw.dropped()
        &&& !self.staging_buffer.raw.dropped()
        &&& self.staging_buffer.elem_size == 1
        &&& self.staging_buffer.len == self.staging@.len()
        &&& self.submission.queue_id == self.queue_id
        &&& self.submission.lists@.len() == 1
        &&& self.submission.lists@[0].pool == self.cmd_pool.handle
        &&& self.submission.lists@[0].buffer < self.cmd_pool.allocated
        &&& !self.cmd_pool.free@.contains(self.submission.lists@[0].buffer)
        &&& self.submission.wait_semaphores@.len() == 0
        &&& self.submission.signal_semaphores@.len() == 0
    }

    /// While an upload is recorded: as between uploads, but the one
    /// command buffer of the pool is taken.
    pub open spec fn ready_to_submit(&self) -> bool {
        &&& self.cmd_pool.wf()
        &&& self.cmd_pool.recording is None
        &&& self.cmd_pool.allocated == 1
        &&& self.cmd_pool.free@.len() == 0
        &&& self.cmd_pool.queue_id == self.queue_id
        &&& self.fence.state == FenceState::Unsignaled
        &&& !self.fence.raw.dropped()
        &&& !self.staging_buffer.raw.dropped()
        &&& self.staging_buffer.elem_size == 1
        &&& self.staging_buffer.len == self.staging@.len()
        &&& self.submission.queue_id == self.queue_id
        &&& self.submission.lists@.len() == 0
        &&& self.submission.wait_semaphores@.len() == 0
        &&& self.submission.signal_semaphores@.len() == 0
    }

    /// Whether data of the given length can be uploaded: it is not empty
    /// and does not exceed the staging buffer.
    pub open spec fn fits(&self, len: nat) -> bool {
        0 < len <= self.staging@.len()
    }

    /// The state of a loader from what the device created for it: the
    /// command pool and the unsignaled fence, and the staging buffer with
    /// the host's view of its bytes.
    pub fn new(queue_id: QueueId, pool: u64, fence: u64, staging_buffer: u64, staging: Vec<u8>) -> (res:
        Self)
        requires
            staging@.len() <= u64::MAX,
        ensures
            res.wf(),
            res.queue_id == queue_id,
            res.cmd_pool.handle == pool,
            res.fence.raw.value == Some(fence),
            res.staging_buffer.raw.value == Some(staging_buffer),
            res.staging_buffer.kind == BufferKind::Staging,
            res.staging == staging,
    {
        let len = staging.len() as u64;
        LoaderState {
            cmd_pool: Pool::new(pool, queue_id),
            queue_id,
            fence: Fence::new(fence, false),
            staging_buffer: Buffer::new(staging_buffer, BufferKind::Staging, len, 1),
            staging,
            submission: Submission::new(queue_id),
        }
    }

    /// Whether data of the given length can be uploaded.
    pub fn accepts(&self, len: usize) -> (res: bool)
        ensures
            res == self.fits(len as nat),
    {
        0 < len && len <= self.staging.len()
    }

    fn submit(&mut self, queues: &Queues, list: List) -> (res: SubmitOrder)
        requires
            old(self).ready_to_submit(),
            old(self).queue_id.index < queues.families@.len(),
            list.queue_id == old(self).queue_id,
            list.pool == old(self).cmd_pool.handle,
            list.buffer < old(self).cmd_pool.allocated,
        ensures
            final(self).busy(),
            final(self).cmd_pool == old(self).cmd_pool,
            final(self).queue_id == old(self).queue_id,
            final(self).fence.raw == old(self).fence.raw,
            final(self).staging_buffer == old(self).staging_buffer,
            final(self).staging == old(self).staging,
            final(self).submission.lists@ == seq![list],
            res@ == (SubmitOrderView {
                queue_index: old(self).queue_id.index,
                command_buffers: seq![list.buffer],
                wait_semaphores: Seq::empty(),
                signal_semaphores: Seq::empty(),
                fence: old(self).fence.raw.value,
            }),
    {
        self.submission.push_list(list);
        proof {
            assert(self.submission.lists@ =~= seq![list]);
            assert(self.submission.routed());
            assert(self.submission.buffers() =~= seq![list.buffer]);
            assert(self.submission.wait_semaphores@ =~= Seq::empty());
            assert(self.submission.signal_semaphores@ =~= Seq::empty());
        }
        queues.submit(&self.submission, &mut self.fence)
    }

    /// Uploads data into a buffer that was created for it: writes the data
    /// to the staging bytes, records the copy from the staging buffer into
    /// the destination, and returns the order that submits it with the
    /// loader's fence.
    pub fn upload_buffer(&mut self, queues: &Queues, src: &Vec<u8>, destination: &Buffer) -> (res:
        SubmitOrder)
        requires
            old(self).wf(),
            old(self).queue_id.index < queues.families@.len(),
            old(self).fits(src@.len()),
            !destination.raw.dropped(),
            destination.len == src@.len(),
        ensures
            final(self).busy(),
            final(self).queue_id == old(self).queue_id,
            final(self).fence.raw == old(self).fence.raw,
            final(self).staging_buffer == old(self).staging_buffer,
            final(self).staging@ == staged(old(self).staging@, src@),
            final(self).submission.lists@[0].recorded() == buffer_upload(
                old(self).staging_buffer.raw.value->0,
                destination.raw.value->0,
                src@.len(),
            ),
            res@ == (SubmitOrderView {
                queue_index: old(self).queue_id.index,
                command_buffers: seq![final(self).submission.lists@[0].buffer],
                wait_semaphores: Seq::empty(),
                signal_semaphores: Seq::empty(),
                fence: old(self).fence.raw.value,
            }),
    {
        stage(&mut self.staging, src);
        let list = List::new(&mut self.cmd_pool);
        let mut cmd = list.record(&mut self.cmd_pool);
        let ghost copy = crate::cmd::BufferCopy {
            src_range: Range { start: 0u64, end: destination.len },
            dst_offset: 0u64,
        };
        proof {
            assert(copy.scalable(1)) by (nonlinear_arith)
                requires
                    copy.src_range.start == 0,
                    copy.dst_offset == 0,
                    copy.src_range.end <= u64::MAX,
            ;
            assert(copy.scaled(1) == upload_region(src@.len())) by (nonlinear_arith)
                requires
                    copy.src_range.start == 0,
                    copy.dst_offset == 0,
                    copy.src_range.end == src@.len(),
                    copy.src_range.end <= u64::MAX,
                    copy.scaled(1) == (BufferRegion {
                        src: (copy.src_range.start * 1) as u64,
                        dst: (copy.dst_offset * 1) as u64,
                        size: (copy.src_range.end * 1 - copy.src_range.start * 1) as u64,
                    }),
                    upload_region(src@.len()) == (BufferRegion {
                        src: 0,
                        dst: 0,
                        size: src@.len() as u64,
                    }),
            ;
        }
        cmd.copy_buffer(&self.staging_buffer, Range { start: 0, end: destination.len() }, destination, 0);
        let list = cmd.finish(&mut self.cmd_pool);
        proof {
            assert(list.recorded() =~= buffer_upload(
                self.staging_buffer.raw.value->0,
                destination.raw.value->0,
                src@.len(),
            ));
        }
        self.submit(queues, list)
    }

    /// Uploads pixels into an image that was created for them: writes them
    /// to the staging bytes, records the barriers and the copy from the
    /// staging buffer into the image, and returns the order that submits
    /// them with the loader's fence.
    pub fn upload_image(&mut self, queues: &Queues, src: &Vec<u8>, destination: &Image) -> (res:
        SubmitOrder)
        requires
            old(self).wf(),
            old(self).queue_id.index < queues.families@.len(),
            old(self).fits(src@.len()),
            !destination.backing.dropped(),
        ensures
            final(self).busy(),
            final(self).queue_id == old(self).queue_id,
            final(self).fence.raw == old(self).fence.raw,
            final(self).staging_buffer == old(self).staging_buffer,
            final(self).staging@ == staged(old(self).staging@, src@),
            final(self).submission.lists@[0].recorded() == image_upload(
                old(self).staging_buffer.raw.value->0,
                destination,
            ),
            res@ == (SubmitOrderView {
                queue_index: old(self).queue_id.index,
                command_buffers: seq![final(self).submission.lists@[0].buffer],
                wait_semaphores: Seq::empty(),
                signal_semaphores: Seq::empty(),
                fence: old(self).fence.raw.value,
            }),
    {
        stage(&mut self.staging, src);
        let list = List::new(&mut self.cmd_pool);
        let mut cmd = list.record(&mut self.cmd_pool);
        let mut first: Vec<Barrier> = Vec::new();
        first.push(
            image_barrier(
                destination,
                Range { start: ImageAccess::Empty, end: ImageAccess::TransferWrite },
                Range { start: ImageLayout::Undefined, end: ImageLayout::TransferDstOptimal },
            ),
        );
        proof {
            assert(first@ =~= seq![before_transfer(image_handle(destination))]);
        }
        cmd.pipeline_barrier(Range { start: Stage::BottomOfPipe, end: Stage::Transfer }, first);
        cmd.copy_buffer_to_image(
            &self.staging_buffer,
            0,
            destination,
            ImageLayout::TransferDstOptimal,
        );
        let mut second: Vec<Barrier> = Vec::new();
        second.push(
            image_barrier(
                destination,
                Range { start: ImageAccess::TransferWrite, end: ImageAccess::Empty },
                Range {
                    start: ImageLayout::TransferDstOptimal,
                    end: ImageLayout::ShaderReadOnlyOptimal,
                },
            ),
        );
        proof {
            assert(second@ =~= seq![after_transfer(image_handle(destination))]);
        }
        cmd.pipeline_barrier(Range { start: Stage::Transfer, end: Stage::TopOfPipe }, second);
        let list = cmd.finish(&mut self.cmd_pool);
        proof {
            assert(list.recorded() =~= image_upload(
                self.staging_buffer.raw.value->0,
                destination,
            ));
        }
        self.submit(queues, list)
    }

    /// Notes that the host waited for the loader's fence: the fence is
    /// reset and the upload's command buffer goes back to the pool, so
    /// that the next upload can use the staging buffer.
    pub fn upload_finished(&mut self)
        requires
            old(self).busy(),
        ensures
            final(self).wf(),
            final(self).queue_id == old(self).queue_id,
            final(self).fence.raw == old(self).fence.raw,
            final(self).staging_buffer == old(self).staging_buffer,
            final(self).staging == old(self).staging,
            final(self).cmd_pool.handle == old(self).cmd_pool.handle,
            final(self).cmd_pool.allocated == old(self).cmd_pool.allocated,
            final(self).cmd_pool.free@ == old(self).cmd_pool.free@.push(
                old(self).submission.lists@[0].buffer,
            ),
    {
        self.fence.wait_and_reset();
        let mut lists = self.submission.clear();
        let list = lists.pop().unwrap();
        let _ = list.release(&mut self.cmd_pool);
    }
}

} // verus!
