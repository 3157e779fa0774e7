//! The hand-off primitive: a single-assignment, single-consumption cell.

use vstd::prelude::*;

verus! {

/// A hand-off cell that is either empty or holding one resource handle.
///
/// One slot stands between the one-shot initializer and the interrupt
/// handler: the initializer stores a handle into the empty slot, and the
/// handler later removes it. The slot also counts how many removals were
/// attempted, so a harness can check that the hand-off happened exactly
/// once.
pub struct SharedSlot<T> {
    contents: Option<T>,
    take_count: u64,
}

impl<T> SharedSlot<T> {
    /// The handle currently held, if any.
    pub closed spec fn contents(&self) -> Option<T> {
        self.contents
    }

    /// How many times `take` has been called on this slot.
    pub closed spec fn takes(&self) -> u64 {
        self.take_count
    }

    /// Whether the slot currently holds a handle.
    pub open spec fn is_holding(&self) -> bool {
        self.contents() is Some
    }

    /// A freshly constructed slot holds nothing and has never been taken
    /// from.
    pub fn new() -> (s: Self)
        ensures
            s.contents() is None,
            s.takes() == 0,
    {
        SharedSlot { contents: None, take_count: 0 }
    }

    /// Store a handle into the slot, which must currently be empty.
    ///
    /// The single-shot initialization protocol guarantees emptiness; a
    /// second store into the same slot would be a logic error, so callers
    /// outside verified code must check `is_empty` first.
    pub fn publish(&mut self, handle: T)
        requires
            old(self).contents() is None,
        ensures
            final(self).contents() == Some(handle),
            final(self).takes() == old(self).takes(),
    {
        self.contents = Some(handle);
    }

    /// Remove and return the slot's contents, leaving the slot empty.
    ///
    /// A take on an already-empty slot signals emptiness by returning
    /// `None` rather than anything that could pass for a handle.
    pub fn take(&mut self) -> (r: Option<T>)
        requires
            old(self).takes() < u64::MAX,
        ensures
            r == old(self).contents(),
            final(self).contents() is None,
            final(self).takes() == old(self).takes() + 1,
    {
        self.take_count = self.take_count + 1;
        self.contents.take()
    }

    /// How many removals have been attempted so far.
    pub fn take_count(&self) -> (r: u64)
        ensures
            r == self.takes(),
    {
        self.take_count
    }

    /// Borrow the held handle without removing it, if there is one.
    pub fn peek(&self) -> (r: Option<&T>)
        ensures
            r is Some <==> self.is_holding(),
            r matches Some(h) ==> self.contents() == Some(*h),
    {
        self.contents.as_ref()
    }

    /// Whether the slot is currently empty, for callers that cannot see
    /// the ghost state.
    pub fn is_empty(&self) -> (r: bool)
        ensures
            r == (self.contents() is None),
    {
        self.contents.is_none()
    }
}

} // verus!
