//! Cyclic rotation over a fixed set of frame resources.

use vstd::prelude::*;

verus! {

/// The ring's slots, kept in smallvec's inline-first vector: up to four
/// handles live in the struct itself, more move to the heap.
#[verifier::external_body]
pub struct Slots {
    inner: smallvec::SmallVec<[u64; 4]>,
}

/// The handles that the slots hold, in order.
pub uninterp spec fn slots_of(v: Slots) -> Seq<u64>;

/// `SmallVec::new`: a vector that holds nothing.
#[verifier::external_body]
fn slots_new() -> (res: Slots)
    ensures
        slots_of(res) == Seq::<u64>::empty(),
{
    Slots { inner: smallvec::SmallVec::new() }
}

/// `SmallVec::push`: appends the item behind the items already held.
#[verifier::external_body]
fn slots_push(v: &mut Slots, item: u64)
    ensures
        slots_of(*final(v)) == slots_of(*old(v)).push(item),
{
    v.inner.push(item)
}

/// `SmallVec::len`: the number of items held.
#[verifier::external_body]
fn slots_len(v: &Slots) -> (res: usize)
    ensures
        res == slots_of(*v).len(),
{
    v.inner.len()
}

/// `SmallVec`'s `Index<usize>`: the item at a position below the length.
#[verifier::external_body]
fn slots_get(v: &Slots, at: usize) -> (res: u64)
    requires
        at < slots_of(*v).len(),
    ensures
        res == slots_of(*v)[at as int],
{
    v.inner[at]
}

/// The slot behind slot `position` in a ring of `len` slots: the first
/// slot follows the last.
pub open spec fn following(position: int, len: int) -> int {
    if position + 1 < len {
        position + 1
    } else {
        0
    }
}

/// Ring of resource handles that hands them out one after the other,
/// starting over after the last.
pub struct Chain {
    items: Slots,
    index: usize,
}

impl Chain {
    /// The handles in the ring, in slot order.
    pub closed spec fn view(&self) -> Seq<u64> {
        slots_of(self.items)
    }

    /// The slot that `current` reads.
    pub closed spec fn position(&self) -> int {
        self.index as int
    }

    /// The position stays inside the ring, or at zero while it is empty.
    pub closed spec fn wf(&self) -> bool {
        if slots_of(self.items).len() == 0 {
            self.index == 0
        } else {
            self.index < slots_of(self.items).len()
        }
    }

    /// Builds a ring that holds the given handles, positioned on the first.
    pub fn new(handles: &Vec<u64>) -> (res: Self)
        ensures
            res.wf(),
            res@ == handles@,
            res.position() == 0,
    {
        let mut items = slots_new();
        let mut i: usize = 0;
        while i < handles.len()
            invariant
                i <= handles.len(),
                slots_of(items) == handles@.subrange(0, i as int),
            decreases handles.len() - i,
        {
            slots_push(&mut items, handles[i]);
            proof {
                assert(handles@.subrange(0, i as int).push(handles@[i as int])
                    =~= handles@.subrange(0, i + 1));
            }
            i += 1;
        }
        proof {
            assert(handles@.subrange(0, handles@.len() as int) =~= handles@);
        }
        Chain { items, index: 0 }
    }

    /// Number of slots in the ring.
    pub fn len(&self) -> (res: usize)
        ensures
            res == self@.len(),
    {
        slots_len(&self.items)
    }

    /// The slot that `current` reads.
    pub fn index(&self) -> (res: usize)
        ensures
            res == self.position(),
            self.wf() && self@.len() > 0 ==> res < self@.len(),
            self.wf() && self@.len() == 0 ==> res == 0,
    {
        self.index
    }

    /// The handle in the current slot.
    pub fn current(&self) -> (res: u64)
        requires
            self.wf(),
            self@.len() > 0,
        ensures
            res == self@[self.position()],
    {
        slots_get(&self.items, self.index)
    }

    /// Moves on to the slot after the current one, wrapping around behind
    /// the last, and returns the handle found there.
    pub fn next(&mut self) -> (res: u64)
        requires
            old(self).wf(),
            old(self)@.len() > 0,
        ensures
            final(self).wf(),
            final(self)@ == old(self)@,
            final(self).position() == (old(self).position() + 1) % (old(self)@.len() as int),
            final(self).position() == following(old(self).position(), old(self)@.len() as int),
            res == final(self)@[final(self).position()],
    {
        let len = slots_len(&self.items);
        if self.index + 1 < len {
            proof {
                vstd::arithmetic::div_mod::lemma_small_mod((self.index + 1) as nat, len as nat);
            }
            self.index = self.index + 1;
        } else {
            proof {
                assert(self.index + 1 == len);
                vstd::arithmetic::div_mod::lemma_mod_self_0(len as int);
            }
            self.index = 0;
        }
        slots_get(&self.items, self.index)
    }
}

} // verus!
