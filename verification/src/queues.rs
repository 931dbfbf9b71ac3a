//! Discovery of the device's queues and submission of work to them.

use vstd::prelude::*;
use crate::backend::{
    backend_family_id, classify_present_error, family_number, present_failure, SwapchainFailure,
};
use crate::cmd::List;
use crate::sync::{Fence, FenceState, Semaphore};
use crate::types::Stage;
use crate::util::copy_of;

verus! {

/// Uniquely identifies a single command queue of a graphics device.
#[derive(Debug, Clone, Copy, PartialEq, Eq, Structural)]
pub struct QueueId {
    pub index: usize,
    pub family_id: usize,
}

impl QueueId {
    /// Returns the underlying backend queue family ID.
    pub fn as_backend(&self) -> (res: gfx_hal::queue::QueueFamilyId)
        ensures
            family_number(res) == self.family_id,
    {
        backend_family_id(self.family_id)
    }
}

/// What the device reports of a queue family, with the number of queues
/// that were opened in it.
#[derive(Debug, Clone, Copy, PartialEq, Eq, Structural)]
pub struct QueueFamily {
    pub id: usize,
    pub graphics: bool,
    pub compute: bool,
    pub opened: usize,
}

impl QueueFamily {
    /// Whether the family is for transfers alone: it takes neither
    /// graphics nor compute commands.
    pub open spec fn transfer_only(&self) -> bool {
        !self.graphics && !self.compute
    }
}

/// Whether `index` is the first position of `flags` that holds `true`.
pub open spec fn first_set(flags: Seq<bool>, index: int) -> bool {
    &&& 0 <= index < flags.len()
    &&& flags[index]
    &&& forall|j: int| 0 <= j < index ==> !flags[j]
}

/// Every family has a queue that was opened.
pub open spec fn all_opened(families: Seq<QueueFamily>) -> bool {
    forall|i: int| 0 <= i < families.len() ==> (#[trigger] families[i]).opened > 0
}

/// Structure for accessing the graphics, compute, and transfer queues of
/// a device: one queue for each family that was asked for.
pub struct Queues {
    pub families: Vec<QueueFamily>,
}

impl Queues {
    /// For each family, whether it takes graphics commands.
    pub open spec fn graphics_flags(&self) -> Seq<bool> {
        Seq::new(self.families@.len(), |i: int| self.families@[i].graphics)
    }

    /// For each family, whether it is for transfers alone.
    pub open spec fn transfer_flags(&self) -> Seq<bool> {
        Seq::new(self.families@.len(), |i: int| self.families@[i].transfer_only())
    }

    /// Whether some family takes graphics commands.
    pub open spec fn has_graphics(&self) -> bool {
        exists|i: int| 0 <= i < self.families@.len() && (#[trigger] self.families@[i]).graphics
    }

    /// Whether some family is for transfers alone.
    pub open spec fn has_transfer_only(&self) -> bool {
        exists|i: int|
            0 <= i < self.families@.len() && (#[trigger] self.families@[i]).transfer_only()
    }

    /// Whether `id` names the queue at its index.
    pub open spec fn names(&self, id: QueueId) -> bool {
        id.index < self.families@.len() && id.family_id == self.families@[id.index as int].id
    }

    /// Whether the adapter opened a queue in every family.
    pub fn opened_all(families: &Vec<QueueFamily>) -> (res: bool)
        ensures
            res == all_opened(families@),
    {
        let mut i: usize = 0;
        while i < families.len()
            invariant
                i <= families.len(),
                forall|j: int| 0 <= j < i ==> (#[trigger] families@[j]).opened > 0,
            decreases families.len() - i,
        {
            if families[i].opened == 0 {
                return false;
            }
            i += 1;
        }
        true
    }

    /// Creates a new set of queues from the families that were asked for,
    /// in each of which the adapter must have opened a queue.
    pub fn new(families: Vec<QueueFamily>) -> (res: Self)
        requires
            all_opened(families@),
        ensures
            res.families == families,
    {
        Queues { families }
    }

    /// The first queue for which the flag is set, if there is one.
    fn find_first(&self, flags: &Vec<bool>) -> (res: Option<QueueId>)
        requires
            flags@.len() == self.families@.len(),
        ensures
            res is Some <==> exists|i: int| 0 <= i < flags@.len() && flags@[i],
            res is Some ==> first_set(flags@, res->0.index as int) && self.names(res->0),
    {
        let mut i: usize = 0;
        while i < self.families.len()
            invariant
                i <= self.families.len(),
                flags@.len() == self.families@.len(),
                forall|j: int| 0 <= j < i ==> !flags@[j],
            decreases self.families.len() - i,
        {
            if flags[i] {
                return Some(QueueId { index: i, family_id: self.families[i].id });
            }
            i += 1;
        }
        None
    }

    /// Finds a queue suitable for graphics commands: the first whose
    /// family takes them, or `None` where the device has none.
    pub fn try_find_graphics_queue(&self) -> (res: Option<QueueId>)
        ensures
            res is Some <==> self.has_graphics(),
            res is Some ==> first_set(self.graphics_flags(), res->0.index as int) && self.names(
                res->0,
            ),
    {
        let mut flags: Vec<bool> = Vec::new();
        let mut i: usize = 0;
        while i < self.families.len()
            invariant
                i <= self.families.len(),
                flags@.len() == i,
                forall|j: int| 0 <= j < i ==> flags@[j] == self.families@[j].graphics,
            decreases self.families.len() - i,
        {
            flags.push(self.families[i].graphics);
            i += 1;
        }
        proof {
            assert(flags@ =~= self.graphics_flags());
            if self.has_graphics() {
                let k = choose|k: int|
                    0 <= k < self.families@.len() && (#[trigger] self.families@[k]).graphics;
                assert(flags@[k]);
            }
            if exists|i: int| 0 <= i < flags@.len() && flags@[i] {
                let k = choose|k: int| 0 <= k < flags@.len() && flags@[k];
                assert(self.families@[k].graphics);
            }
        }
        self.find_first(&flags)
    }

    /// Finds a queue suitable for graphics commands: the first whose
    /// family takes them.
    pub fn find_graphics_queue(&self) -> (res: QueueId)
        requires
            self.has_graphics(),
        ensures
            first_set(self.graphics_flags(), res.index as int),
            self.names(res),
    {
        self.try_find_graphics_queue().unwrap()
    }

    /// Finds a queue suitable for transfer commands: the first whose
    /// family is for transfers alone, else the graphics queue, or `None`
    /// where the device has neither.
    pub fn try_find_transfer_queue(&self) -> (res: Option<QueueId>)
        ensures
            res is Some <==> self.has_transfer_only() || self.has_graphics(),
            res is Some && self.has_transfer_only() ==> first_set(
                self.transfer_flags(),
                res->0.index as int,
            ),
            res is Some && !self.has_transfer_only() ==> first_set(
                self.graphics_flags(),
                res->0.index as int,
            ),
            res is Some ==> self.names(res->0),
    {
        let mut flags: Vec<bool> = Vec::new();
        let mut i: usize = 0;
        while i < self.families.len()
            invariant
                i <= self.families.len(),
                flags@.len() == i,
                forall|j: int| 0 <= j < i ==> flags@[j] == self.families@[j].transfer_only(),
            decreases self.families.len() - i,
        {
            flags.push(!self.families[i].graphics && !self.families[i].compute);
            i += 1;
        }
        proof {
            assert(flags@ =~= self.transfer_flags());
            if self.has_transfer_only() {
                let k = choose|k: int|
                    0 <= k < self.families@.len() && (
                    #[trigger] self.families@[k]).transfer_only();
                assert(flags@[k]);
            }
            if exists|i: int| 0 <= i < flags@.len() && flags@[i] {
                let k = choose|k: int| 0 <= k < flags@.len() && flags@[k];
                assert(self.families@[k].transfer_only());
            }
        }
        match self.find_first(&flags) {
            Some(id) => Some(id),
            None => self.try_find_graphics_queue(),
        }
    }

    /// Finds a queue suitable for transfer commands: the first whose
    /// family is for transfers alone, else the graphics queue.
    pub fn find_transfer_queue(&self) -> (res: QueueId)
        requires
            self.has_transfer_only() || self.has_graphics(),
        ensures
            self.has_transfer_only() ==> first_set(self.transfer_flags(), res.index as int),
            !self.has_transfer_only() ==> first_set(self.graphics_flags(), res.index as int),
            self.names(res),
    {
        self.try_find_transfer_queue().unwrap()
    }

    /// Finds a queue that can present to a surface, given for each family
    /// whether the surface supports it: the first that is supported, or
    /// `None` where none is.
    pub fn try_find_present_queue(&self, supported: &Vec<bool>) -> (res: Option<QueueId>)
        requires
            supported@.len() == self.families@.len(),
        ensures
            res is Some <==> exists|i: int| 0 <= i < supported@.len() && supported@[i],
            res is Some ==> first_set(supported@, res->0.index as int) && self.names(res->0),
    {
        self.find_first(supported)
    }

    /// Finds a queue that can present to a surface, given for each family
    /// whether the surface supports it: the first that is supported.
    pub fn find_present_queue(&self, supported: &Vec<bool>) -> (res: QueueId)
        requires
            supported@.len() == self.families@.len(),
            exists|i: int| 0 <= i < supported@.len() && supported@[i],
        ensures
            first_set(supported@, res.index as int),
            self.names(res),
    {
        self.find_first(supported).unwrap()
    }

    /// Whether the queues can take a submission: it has a command list,
    /// all its lists are for one queue, and the queue it names exists.
    pub open spec fn accepts(&self, submission: &Submission) -> bool {
        &&& submission.routed()
        &&& submission.queue_id.index < self.families@.len()
    }

    /// Whether the queues can take a submission.
    pub fn can_submit(&self, submission: &Submission) -> (res: bool)
        ensures
            res == self.accepts(submission),
    {
        submission.is_routed() && submission.queue_id.index < self.families.len()
    }

    /// Turns a submission into the order for the device's queue and hands
    /// the fence to it: the fence is signaled when the commands have
    /// finished executing.
    pub fn submit(&self, submission: &Submission, fence: &mut Fence) -> (res: SubmitOrder)
        requires
            self.accepts(submission),
            old(fence).state == FenceState::Unsignaled,
            !old(fence).raw.dropped(),
        ensures
            res@ == submission.order(old(fence).raw.value),
            final(fence).state == FenceState::Pending,
            final(fence).raw == old(fence).raw,
    {
        let handle = fence.as_backend();
        fence.mark_submitted();
        submission.to_order(Some(handle))
    }

    /// Turns a submission into the order for the device's queue, with no
    /// fence to signal.
    pub fn submit_unfenced(&self, submission: &Submission) -> (res: SubmitOrder)
        requires
            self.accepts(submission),
        ensures
            res@ == submission.order(None),
    {
        submission.to_order(None)
    }

    /// The order for the device to present an image of a swapchain on the
    /// given queue once the semaphores are signaled.
    pub fn present(
        &self,
        queue_id: QueueId,
        swapchain: u64,
        image_index: u32,
        wait_for: &Vec<u64>,
    ) -> (res: PresentOrder)
        requires
            queue_id.index < self.families@.len(),
        ensures
            res.queue_index == queue_id.index,
            res.swapchain == swapchain,
            res.image_index == image_index,
            res.wait_semaphores@ == wait_for@,
    {
        let wait_semaphores = copy_of(wait_for);
        PresentOrder { queue_index: queue_id.index, swapchain, image_index, wait_semaphores }
    }
}

/// Describes a submission of one or more command buffers to a command
/// queue on the graphics device.
pub struct Submission {
    /// ID of the command queue to submit to.
    pub queue_id: QueueId,
    /// Command lists to submit to the queue.
    pub lists: Vec<List>,
    /// Semaphores to wait on before executing the commands in the
    /// submission, each with the stage that waits.
    pub wait_semaphores: Vec<(u64, Stage)>,
    /// Semaphores to signal when the commands in the submission have
    /// finished executing.
    pub signal_semaphores: Vec<u64>,
}

/// What the device's queue is handed for a submission.
pub struct SubmitOrder {
    pub queue_index: usize,
    pub command_buffers: Vec<u64>,
    pub wait_semaphores: Vec<(u64, Stage)>,
    pub signal_semaphores: Vec<u64>,
    pub fence: Option<u64>,
}

/// A submit order as contracts speak of it.
pub struct SubmitOrderView {
    pub queue_index: usize,
    pub command_buffers: Seq<u64>,
    pub wait_semaphores: Seq<(u64, Stage)>,
    pub signal_semaphores: Seq<u64>,
    pub fence: Option<u64>,
}

impl View for SubmitOrder {
    type V = SubmitOrderView;

    open spec fn view(&self) -> SubmitOrderView {
        SubmitOrderView {
            queue_index: self.queue_index,
            command_buffers: self.command_buffers@,
            wait_semaphores: self.wait_semaphores@,
            signal_semaphores: self.signal_semaphores@,
            fence: self.fence,
        }
    }
}

/// What the device's queue is handed to present an image.
pub struct PresentOrder {
    pub queue_index: usize,
    pub swapchain: u64,
    pub image_index: u32,
    pub wait_semaphores: Vec<u64>,
}

impl Submission {
    /// An empty submission to the given queue.
    pub fn new(queue_id: QueueId) -> (res: Self)
        ensures
            res.queue_id == queue_id,
            res.lists@.len() == 0,
            res.wait_semaphores@.len() == 0,
            res.signal_semaphores@.len() == 0,
    {
        Submission {
            queue_id,
            lists: Vec::new(),
            wait_semaphores: Vec::new(),
            signal_semaphores: Vec::new(),
        }
    }

    /// Whether the submission has a command list and all its lists are
    /// recorded for the same queue.
    pub open spec fn routed(&self) -> bool {
        &&& self.lists@.len() > 0
        &&& forall|i: int|
            0 <= i < self.lists@.len() ==> (#[trigger] self.lists@[i]).queue_id
                == self.lists@[0].queue_id
    }

    /// The command buffers of the submission's lists, in order.
    pub open spec fn buffers(&self) -> Seq<u64> {
        Seq::new(self.lists@.len(), |i: int| self.lists@[i].buffer)
    }

    /// The order that the submission stands for, with the given fence.
    pub open spec fn order(&self, fence: Option<u64>) -> SubmitOrderView {
        SubmitOrderView {
            queue_index: self.queue_id.index,
            command_buffers: self.buffers(),
            wait_semaphores: self.wait_semaphores@,
            signal_semaphores: self.signal_semaphores@,
            fence,
        }
    }

    /// Whether the submission has a command list and all its lists are
    /// recorded for the same queue.
    pub fn is_routed(&self) -> (res: bool)
        ensures
            res == self.routed(),
    {
        if self.lists.len() == 0 {
            return false;
        }
        let first = self.lists[0].queue_id();
        let mut i: usize = 0;
        while i < self.lists.len()
            invariant
                i <= self.lists.len(),
                self.lists@.len() > 0,
                first == self.lists@[0].queue_id,
                forall|j: int| 0 <= j < i ==> (#[trigger] self.lists@[j]).queue_id == first,
            decreases self.lists.len() - i,
        {
            if self.lists[i].queue_id() != first {
                return false;
            }
            i += 1;
        }
        true
    }

    /// Adds a recorded command list.
    pub fn push_list(&mut self, list: List)
        ensures
            final(self).lists@ == old(self).lists@.push(list),
            final(self).queue_id == old(self).queue_id,
            final(self).wait_semaphores == old(self).wait_semaphores,
            final(self).signal_semaphores == old(self).signal_semaphores,
    {
        self.lists.push(list);
    }

    /// Makes the given stage of the submission's commands wait for a
    /// semaphore.
    pub fn wait_for(&mut self, semaphore: &Semaphore, stage: Stage)
        requires
            !semaphore.raw.dropped(),
        ensures
            final(self).wait_semaphores@ == old(self).wait_semaphores@.push(
                (semaphore.raw.value->0, stage),
            ),
            final(self).queue_id == old(self).queue_id,
            final(self).lists == old(self).lists,
            final(self).signal_semaphores == old(self).signal_semaphores,
    {
        self.wait_semaphores.push((semaphore.as_backend(), stage));
    }

    /// Makes the submission signal a semaphore when its commands have
    /// finished executing.
    pub fn signal(&mut self, semaphore: &Semaphore)
        requires
            !semaphore.raw.dropped(),
        ensures
            final(self).signal_semaphores@ == old(self).signal_semaphores@.push(
                semaphore.raw.value->0,
            ),
            final(self).queue_id == old(self).queue_id,
            final(self).lists == old(self).lists,
            final(self).wait_semaphores == old(self).wait_semaphores,
    {
        self.signal_semaphores.push(semaphore.as_backend());
    }

    /// Empties the submission for the next frame and hands back the
    /// command lists that it held.
    pub fn clear(&mut self) -> (res: Vec<List>)
        ensures
            res == old(self).lists,
            final(self).queue_id == old(self).queue_id,
            final(self).lists@.len() == 0,
            final(self).wait_semaphores@.len() == 0,
            final(self).signal_semaphores@.len() == 0,
    {
        let mut lists: Vec<List> = Vec::new();
        core::mem::swap(&mut self.lists, &mut lists);
        self.wait_semaphores.clear();
        self.signal_semaphores.clear();
        lists
    }

    fn to_order(&self, fence: Option<u64>) -> (res: SubmitOrder)
        ensures
            res@ == self.order(fence),
    {
        let mut command_buffers: Vec<u64> = Vec::new();
        let mut i: usize = 0;
        while i < self.lists.len()
            invariant
                i <= self.lists.len(),
                command_buffers@.len() == i,
                forall|j: int| 0 <= j < i ==> command_buffers@[j] == self.lists@[j].buffer,
            decreases self.lists.len() - i,
        {
            command_buffers.push(self.lists[i].as_backend());
            i += 1;
        }
        let wait_semaphores = copy_of(&self.wait_semaphores);
        let signal_semaphores = copy_of(&self.signal_semaphores);
        proof {
            assert(command_buffers@ =~= self.buffers());
        }
        SubmitOrder {
            queue_index: self.queue_id.index,
            command_buffers,
            wait_semaphores,
            signal_semaphores,
            fence,
        }
    }
}

/// A submission whose command lists are recorded for two different queues
/// is not accepted by any set of queues, so it never reaches the device.
pub proof fn lemma_mixed_queues_refused(queues: &Queues, submission: &Submission, i: int, j: int)
    requires
        0 <= i < submission.lists@.len(),
        0 <= j < submission.lists@.len(),
        submission.lists@[i].queue_id != submission.lists@[j].queue_id,
    ensures
        !submission.routed(),
        !queues.accepts(submission),
{
    if submission.routed() {
        assert(submission.lists@[i].queue_id == submission.lists@[0].queue_id);
        assert(submission.lists@[j].queue_id == submission.lists@[0].queue_id);
    }
}

/// Why an image could not be presented.
#[derive(Debug, Clone, Copy, PartialEq, Eq, Structural)]
pub enum PresentFailure {
    /// The swapchain no longer matches its surface and must be created
    /// anew.
    OutOfDate,
    /// The device failed; there is no recovery.
    Device(SwapchainFailure),
}

/// What the device's queue answers to a present order.
#[derive(Debug, Clone, Copy, PartialEq, Eq, Structural)]
pub enum Presented {
    /// Presented, and the swapchain matches its surface.
    Done,
    /// Presented, but the swapchain no longer matches its surface exactly.
    Suboptimal,
    /// Not presented.
    Failed(SwapchainFailure),
}

/// The result of a presentation, one of three: success, a swapchain that
/// is out of date, or a device error. A swapchain that presented but no
/// longer matches its surface counts as out of date.
pub open spec fn present_result(answer: Presented) -> Result<(), PresentFailure> {
    match answer {
        Presented::Done => Ok(()),
        Presented::Suboptimal => Err(PresentFailure::OutOfDate),
        Presented::Failed(SwapchainFailure::OutOfDate) => Err(PresentFailure::OutOfDate),
        Presented::Failed(failure) => Err(PresentFailure::Device(failure)),
    }
}

/// Sorts the device's answer to a present order into the three results.
pub fn settle_present(answer: Presented) -> (res: Result<(), PresentFailure>)
    ensures
        res == present_result(answer),
{
    match answer {
        Presented::Done => Ok(()),
        Presented::Suboptimal => Err(PresentFailure::OutOfDate),
        Presented::Failed(SwapchainFailure::OutOfDate) => Err(PresentFailure::OutOfDate),
        Presented::Failed(failure) => Err(PresentFailure::Device(failure)),
    }
}

/// What gfx-hal's answer to a present order stands for.
pub open spec fn presented_of(
    raw: Result<Option<gfx_hal::window::Suboptimal>, gfx_hal::window::PresentError>,
) -> Presented {
    match raw {
        Ok(None) => Presented::Done,
        Ok(Some(_)) => Presented::Suboptimal,
        Err(err) => Presented::Failed(present_failure(err)),
    }
}

/// Sorts gfx-hal's answer to a present order into the three results.
pub fn settle_backend_present(
    raw: Result<Option<gfx_hal::window::Suboptimal>, gfx_hal::window::PresentError>,
) -> (res: Result<(), PresentFailure>)
    ensures
        res == present_result(presented_of(raw)),
{
    let answer = match raw {
        Ok(None) => Presented::Done,
        Ok(Some(_)) => Presented::Suboptimal,
        Err(err) => Presented::Failed(classify_present_error(err)),
    };
    settle_present(answer)
}

} // verus!
