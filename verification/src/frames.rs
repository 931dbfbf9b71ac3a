//! Rotation of the per-frame resources: the host reuses a slot's fence,
//! semaphores and command buffers only after it has waited for the frame
//! that used the slot before.

use vstd::prelude::*;
use crate::chain::{following, Chain};
use crate::sync::FenceState;
use crate::types::Stage;
use crate::util::copy_of;

verus! {

/// Number of frames that the host prepares while the device still works
/// on earlier ones.
pub const FRAMES_IN_FLIGHT: usize = 3;

/// Where the host stands in the current frame.
#[derive(Debug, Clone, Copy, PartialEq, Eq, Structural)]
pub enum Phase {
    /// Between frames.
    Idle,
    /// The frame has its slot and waits for the slot's fence.
    Waiting,
    /// The slot's fence was waited for and reset: the slot's resources are
    /// the host's to change.
    Recording,
}

/// What the device's queue is handed for a frame.
pub struct FrameOrder {
    pub command_buffers: Vec<u64>,
    pub wait_semaphore: u64,
    pub wait_stage: Stage,
    pub signal_semaphore: u64,
    pub fence: u64,
}

/// A frame's order as contracts speak of it.
pub struct FrameOrderView {
    pub command_buffers: Seq<u64>,
    pub wait_semaphore: u64,
    pub wait_stage: Stage,
    pub signal_semaphore: u64,
    pub fence: u64,
}

impl View for FrameOrder {
    type V = FrameOrderView;

    open spec fn view(&self) -> FrameOrderView {
        FrameOrderView {
            command_buffers: self.command_buffers@,
            wait_semaphore: self.wait_semaphore,
            wait_stage: self.wait_stage,
            signal_semaphore: self.signal_semaphore,
            fence: self.fence,
        }
    }
}

/// The per-frame resources, one slot for each frame in flight.
pub struct Frames {
    pub fences: Chain,
    pub acquire_semaphores: Chain,
    pub render_semaphores: Chain,
    pub states: Vec<FenceState>,
    pub submissions: Vec<Vec<u64>>,
    pub phase: Phase,
}

/// The slots as contracts speak of them.
pub struct FramesView {
    pub fences: Seq<u64>,
    pub acquire_semaphores: Seq<u64>,
    pub render_semaphores: Seq<u64>,
    pub position: int,
    pub states: Seq<FenceState>,
    pub submissions: Seq<Seq<u64>>,
    pub phase: Phase,
}

impl View for Frames {
    type V = FramesView;

    open spec fn view(&self) -> FramesView {
        FramesView {
            fences: self.fences@,
            acquire_semaphores: self.acquire_semaphores@,
            render_semaphores: self.render_semaphores@,
            position: self.fences.position(),
            states: self.states@,
            submissions: Seq::new(self.submissions@.len(), |i: int| self.submissions@[i]@),
            phase: self.phase,
        }
    }
}

impl FramesView {
    /// Number of slots.
    pub open spec fn slots(self) -> int {
        self.fences.len() as int
    }

    /// There is a slot, every slot has all its resources, and the fence of
    /// a slot is unsignaled only while the host records into that slot,
    /// which then holds no command buffers of an earlier frame.
    pub open spec fn wf(self) -> bool {
        &&& self.slots() > 0
        &&& self.acquire_semaphores.len() == self.slots()
        &&& self.render_semaphores.len() == self.slots()
        &&& self.states.len() == self.slots()
        &&& self.submissions.len() == self.slots()
        &&& 0 <= self.position < self.slots()
        &&& forall|i: int|
            0 <= i < self.slots() ==> ((#[trigger] self.states[i]) == FenceState::Unsignaled
                <==> self.phase == Phase::Recording && i == self.position)
        &&& self.phase == Phase::Recording ==> self.submissions[self.position].len() == 0
    }

    /// The slots after a frame took the next one.
    pub open spec fn begun(self) -> FramesView {
        FramesView {
            position: following(self.position, self.slots()),
            phase: Phase::Waiting,
            ..self
        }
    }

    /// The slots after the host waited for the current slot's fence and
    /// reset it: the command buffers of the frame that used the slot are
    /// released.
    pub open spec fn waited(self) -> FramesView {
        FramesView {
            states: self.states.update(self.position, FenceState::Unsignaled),
            submissions: self.submissions.update(self.position, Seq::empty()),
            phase: Phase::Recording,
            ..self
        }
    }

    /// The slots after the frame's commands were submitted with the
    /// current slot's fence.
    pub open spec fn submitted(self, commands: Seq<u64>) -> FramesView {
        FramesView {
            states: self.states.update(self.position, FenceState::Pending),
            submissions: self.submissions.update(self.position, commands),
            phase: Phase::Idle,
            ..self
        }
    }

    /// The order for a frame's commands: they wait at the colour output
    /// for the slot's first semaphore, signal its second, and signal the
    /// slot's fence.
    pub open spec fn order(self, commands: Seq<u64>) -> FrameOrderView {
        FrameOrderView {
            command_buffers: commands,
            wait_semaphore: self.acquire_semaphores[self.position],
            wait_stage: Stage::ColorAttachmentOutput,
            signal_semaphore: self.render_semaphores[self.position],
            fence: self.fences[self.position],
        }
    }

    /// The slots after a whole frame with the given commands.
    pub open spec fn after_frame(self, commands: Seq<u64>) -> FramesView {
        self.begun().waited().submitted(commands)
    }

    /// The slots after one frame for each entry of `frames`.
    pub open spec fn after_frames(self, frames: Seq<Seq<u64>>) -> FramesView
        decreases frames.len(),
    {
        if frames.len() == 0 {
            self
        } else {
            self.after_frames(frames.drop_last()).after_frame(frames.last())
        }
    }
}

/// The slot that is `steps` slots behind slot `position` in a ring of
/// `len` slots, for no more steps than there are slots.
pub open spec fn slot_after(position: int, steps: int, len: int) -> int {
    if position + steps < len {
        position + steps
    } else {
        position + steps - len
    }
}

impl Frames {
    /// The chains move together.
    pub open spec fn wf(&self) -> bool {
        &&& self.fences.wf()
        &&& self.acquire_semaphores.wf()
        &&& self.render_semaphores.wf()
        &&& self.acquire_semaphores.position() == self.fences.position()
        &&& self.render_semaphores.position() == self.fences.position()
        &&& self@.wf()
    }

    /// Slots from the fences and the two semaphores of each frame. The
    /// fences must have been created signaled, so that the first wait on
    /// each returns at once.
    pub fn new(fences: &Vec<u64>, acquire_semaphores: &Vec<u64>, render_semaphores: &Vec<u64>) -> (res:
        Self)
        requires
            fences@.len() > 0,
            acquire_semaphores@.len() == fences@.len(),
            render_semaphores@.len() == fences@.len(),
        ensures
            res.wf(),
            res@.fences == fences@,
            res@.acquire_semaphores == acquire_semaphores@,
            res@.render_semaphores == render_semaphores@,
            res@.position == 0,
            res@.phase == Phase::Idle,
            forall|i: int| 0 <= i < fences@.len() ==> res@.states[i] == FenceState::Signaled,
            forall|i: int| 0 <= i < fences@.len() ==> res@.submissions[i].len() == 0,
    {
        let mut states: Vec<FenceState> = Vec::new();
        let mut submissions: Vec<Vec<u64>> = Vec::new();
        let mut i: usize = 0;
        while i < fences.len()
            invariant
                i <= fences.len(),
                states@.len() == i,
                submissions@.len() == i,
                forall|j: int| 0 <= j < i ==> states@[j] == FenceState::Signaled,
                forall|j: int| 0 <= j < i ==> (#[trigger] submissions@[j])@.len() == 0,
            decreases fences.len() - i,
        {
            states.push(FenceState::Signaled);
            submissions.push(Vec::new());
            i += 1;
        }
        Frames {
            fences: Chain::new(fences),
            acquire_semaphores: Chain::new(acquire_semaphores),
            render_semaphores: Chain::new(render_semaphores),
            states,
            submissions,
            phase: Phase::Idle,
        }
    }

    /// Number of slots.
    pub fn len(&self) -> (res: usize)
        ensures
            res == self@.slots(),
    {
        self.fences.len()
    }

    /// Where the host stands in the current frame.
    pub fn phase(&self) -> (res: Phase)
        ensures
            res == self@.phase,
    {
        self.phase
    }

    /// The slot of the current frame.
    pub fn slot(&self) -> (res: usize)
        ensures
            res == self@.position,
    {
        self.fences.index()
    }

    /// Moves on to the next slot and returns its fence, for which the host
    /// has to wait before it touches anything else of the slot.
    pub fn begin_frame(&mut self) -> (res: u64)
        requires
            old(self).wf(),
            old(self)@.phase == Phase::Idle,
        ensures
            final(self).wf(),
            final(self)@ == old(self)@.begun(),
            res == final(self)@.fences[final(self)@.position],
            final(self)@.states[final(self)@.position] != FenceState::Unsignaled,
    {
        let fence = self.fences.next();
        let _ = self.acquire_semaphores.next();
        let _ = self.render_semaphores.next();
        self.phase = Phase::Waiting;
        proof {
            assert(self@.submissions =~= old(self)@.submissions);
            assert(self@ == old(self)@.begun());
        }
        fence
    }

    /// Notes that the host waited for the current slot's fence and reset
    /// it. Returns the command buffers of the frame that used the slot
    /// before, which the device has finished with.
    pub fn fence_waited(&mut self) -> (res: Vec<u64>)
        requires
            old(self).wf(),
            old(self)@.phase == Phase::Waiting,
        ensures
            final(self).wf(),
            final(self)@ == old(self)@.waited(),
            res@ == old(self)@.submissions[old(self)@.position],
    {
        let slot = self.fences.index();
        self.states.set(slot, FenceState::Unsignaled);
        let released = self.submissions.remove(slot);
        self.submissions.insert(slot, Vec::new());
        self.phase = Phase::Recording;
        proof {
            assert(self@.submissions =~= old(self)@.submissions.update(
                slot as int,
                Seq::empty(),
            ));
            assert(self@.states =~= old(self)@.waited().states);
            assert(self@ == old(self)@.waited());
        }
        released
    }

    /// Keeps the frame's command buffers with the current slot and
    /// returns the order that submits them with the slot's semaphores and
    /// fence.
    pub fn submit_frame(&mut self, commands: Vec<u64>) -> (res: FrameOrder)
        requires
            old(self).wf(),
            old(self)@.phase == Phase::Recording,
        ensures
            final(self).wf(),
            final(self)@ == old(self)@.submitted(commands@),
            res@ == old(self)@.order(commands@),
    {
        let slot = self.fences.index();
        let command_buffers = copy_of(&commands);
        let order = FrameOrder {
            command_buffers,
            wait_semaphore: self.acquire_semaphores.current(),
            wait_stage: Stage::ColorAttachmentOutput,
            signal_semaphore: self.render_semaphores.current(),
            fence: self.fences.current(),
        };
        self.states.set(slot, FenceState::Pending);
        let _ = self.submissions.remove(slot);
        self.submissions.insert(slot, commands);
        self.phase = Phase::Idle;
        proof {
            assert(self@.submissions =~= old(self)@.submissions.update(slot as int, commands@));
            assert(self@.states =~= old(self)@.submitted(commands@).states);
            assert(self@ == old(self)@.submitted(commands@));
        }
        order
    }
}

/// A whole frame keeps the slots well-formed, touches the slot that it
/// moved to and no other, and touches that slot only after its fence was
/// waited for and reset.
pub proof fn lemma_frame_touches_its_slot(s: FramesView, commands: Seq<u64>)
    requires
        s.wf(),
        s.phase == Phase::Idle,
    ensures
        s.begun().wf(),
        s.begun().submissions == s.submissions,
        s.begun().states == s.states,
        s.begun().waited().wf(),
        s.begun().waited().states[s.begun().position] == FenceState::Unsignaled,
        s.after_frame(commands).wf(),
        s.after_frame(commands).phase == Phase::Idle,
        s.after_frame(commands).position == following(s.position, s.slots()),
        s.after_frame(commands).slots() == s.slots(),
        forall|i: int|
            0 <= i < s.slots() && i != following(s.position, s.slots()) ==> {
                &&& #[trigger] s.after_frame(commands).submissions[i] == s.submissions[i]
                &&& s.after_frame(commands).states[i] == s.states[i]
            },
{
}

/// Over fewer frames than there are slots, the slot that was current
/// before them is left alone: its command buffers and its fence are as
/// they were, however many frames the device still works on.
pub proof fn lemma_slot_rests_for_a_round(s: FramesView, frames: Seq<Seq<u64>>)
    requires
        s.wf(),
        s.phase == Phase::Idle,
        frames.len() < s.slots(),
    ensures
        s.after_frames(frames).wf(),
        s.after_frames(frames).phase == Phase::Idle,
        s.after_frames(frames).slots() == s.slots(),
        s.after_frames(frames).position == slot_after(s.position, frames.len() as int, s.slots()),
        s.after_frames(frames).submissions[s.position] == s.submissions[s.position],
        s.after_frames(frames).states[s.position] == s.states[s.position],
    decreases frames.len(),
{
    if frames.len() > 0 {
        lemma_slot_rests_for_a_round(s, frames.drop_last());
        lemma_frame_touches_its_slot(s.after_frames(frames.drop_last()), frames.last());
    }
}

} // verus!
