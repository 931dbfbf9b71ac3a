//! An optional backing handle that is emptied when it is destroyed.

use vstd::prelude::*;

verus! {

/// Holder of a backend handle that can be destroyed at most once.
///
/// The holder starts out live. `take` hands the handle out for the
/// matching backend destroy call and leaves the holder empty, so a second
/// `take` finds nothing to destroy.
pub struct Droppable<T> {
    pub value: Option<T>,
}

impl<T> Droppable<T> {
    /// Whether the handle has been taken out already.
    pub open spec fn dropped(&self) -> bool {
        self.value is None
    }

    /// Wraps a live handle.
    pub fn new(value: T) -> (res: Self)
        ensures
            res.value == Some(value),
            !res.dropped(),
    {
        Droppable { value: Some(value) }
    }

    /// A holder whose handle is already gone.
    pub fn empty() -> (res: Self)
        ensures
            res.value == None::<T>,
            res.dropped(),
    {
        Droppable { value: None }
    }

    /// Whether the handle has been taken out already.
    pub fn is_dropped(&self) -> (res: bool)
        ensures
            res == self.dropped(),
    {
        self.value.is_none()
    }

    /// Borrows the live handle.
    pub fn get(&self) -> (res: &T)
        requires
            !self.dropped(),
        ensures
            Some(*res) == self.value,
    {
        self.value.as_ref().unwrap()
    }

    /// Takes the handle out, leaving the holder empty.
    ///
    /// Returns the handle to destroy the first time and `None` on every
    /// later call.
    pub fn take(&mut self) -> (res: Option<T>)
        ensures
            res == old(self).value,
            final(self).dropped(),
            old(self).dropped() ==> res is None && *final(self) == *old(self),
    {
        self.value.take()
    }
}

} // verus!
