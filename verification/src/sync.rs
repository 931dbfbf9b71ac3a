//! Host-side bookkeeping of fences and semaphores.

use vstd::prelude::*;
use crate::droppable::Droppable;

verus! {

/// What the host knows of a fence.
#[derive(Debug, Clone, Copy, PartialEq, Eq, Structural)]
pub enum FenceState {
    /// Not signaled, and no submitted work will signal it.
    Unsignaled,
    /// Handed to a submission that signals it when the work completes.
    Pending,
    /// Signaled.
    Signaled,
}

/// Binary signal between the device and the host.
pub struct Fence {
    pub raw: Droppable<u64>,
    pub state: FenceState,
}

impl Fence {
    /// Wraps a fence that the device created, signaled or not.
    pub fn new(handle: u64, signaled: bool) -> (res: Self)
        ensures
            res.raw.value == Some(handle),
            res.state == if signaled {
                FenceState::Signaled
            } else {
                FenceState::Unsignaled
            },
    {
        Fence {
            raw: Droppable::new(handle),
            state: if signaled {
                FenceState::Signaled
            } else {
                FenceState::Unsignaled
            },
        }
    }

    /// The device's handle of the fence.
    pub fn as_backend(&self) -> (res: u64)
        requires
            !self.raw.dropped(),
        ensures
            Some(res) == self.raw.value,
    {
        *self.raw.get()
    }

    /// What the host knows of the fence.
    pub fn state(&self) -> (res: FenceState)
        ensures
            res == self.state,
    {
        self.state
    }

    /// Whether a host wait on the fence returns: it does unless the fence is
    /// unsignaled with nothing submitted that would signal it.
    pub fn can_wait(&self) -> (res: bool)
        ensures
            res == (self.state != FenceState::Unsignaled),
    {
        match self.state {
            FenceState::Unsignaled => false,
            _ => true,
        }
    }

    /// Whether the fence may be reset: not while submitted work is still
    /// going to signal it.
    pub fn can_reset(&self) -> (res: bool)
        ensures
            res == (self.state != FenceState::Pending),
    {
        match self.state {
            FenceState::Pending => false,
            _ => true,
        }
    }

    /// Notes that the fence was handed to a submission.
    pub fn mark_submitted(&mut self)
        requires
            old(self).state == FenceState::Unsignaled,
        ensures
            final(self).state == FenceState::Pending,
            final(self).raw == old(self).raw,
    {
        self.state = FenceState::Pending;
    }

    /// Notes that the host waited for the fence, which is signaled from
    /// then on.
    pub fn wait(&mut self)
        requires
            old(self).state != FenceState::Unsignaled,
        ensures
            final(self).state == FenceState::Signaled,
            final(self).raw == old(self).raw,
    {
        self.state = FenceState::Signaled;
    }

    /// Returns the fence to the unsignaled state.
    pub fn reset(&mut self)
        requires
            old(self).state != FenceState::Pending,
        ensures
            final(self).state == FenceState::Unsignaled,
            final(self).raw == old(self).raw,
    {
        self.state = FenceState::Unsignaled;
    }

    /// Waits for the fence and resets it, so that the next submission can
    /// be given the fence again.
    pub fn wait_and_reset(&mut self)
        requires
            old(self).state != FenceState::Unsignaled,
        ensures
            final(self).state == FenceState::Unsignaled,
            final(self).raw == old(self).raw,
    {
        self.wait();
        self.reset();
    }

    /// Gives up the device's fence: returns its handle the first time, for
    /// the device to destroy, and `None` from then on, leaving the fence
    /// as it was.
    pub fn destroy(&mut self) -> (res: Option<u64>)
        ensures
            res == old(self).raw.value,
            final(self).raw.dropped(),
            final(self).state == old(self).state,
            old(self).raw.dropped() ==> *final(self) == *old(self),
    {
        self.raw.take()
    }
}

/// Signal that orders work between submissions on the device; the host
/// sees nothing of its state.
pub struct Semaphore {
    pub raw: Droppable<u64>,
}

impl Semaphore {
    /// Wraps a semaphore that the device created.
    pub fn new(handle: u64) -> (res: Self)
        ensures
            res.raw.value == Some(handle),
    {
        Semaphore { raw: Droppable::new(handle) }
    }

    /// The device's handle of the semaphore.
    pub fn as_backend(&self) -> (res: u64)
        requires
            !self.raw.dropped(),
        ensures
            Some(res) == self.raw.value,
    {
        *self.raw.get()
    }

    /// Gives up the device's semaphore: returns its handle the first time,
    /// for the device to destroy, and `None` from then on.
    pub fn destroy(&mut self) -> (res: Option<u64>)
        ensures
            res == old(self).raw.value,
            final(self).raw.dropped(),
            old(self).raw.dropped() ==> *final(self) == *old(self),
    {
        self.raw.take()
    }
}

} // verus!
