//! Model of the interrupt controller for the timer's interrupt line.
//!
//! The controller enforces the one correctness-critical ordering of the
//! whole program: the line can only be unmasked once both hand-off slots
//! are holding their handles, so the handler's first run can never find a
//! slot empty.

use crate::slot::SharedSlot;
use vstd::prelude::*;

verus! {

/// Raised when unmasking is attempted before both handles have been
/// published.
#[derive(Clone, Copy, Debug, PartialEq, Eq, Structural)]
pub enum OrderingFault {
    UnmaskBeforePublish,
}

/// The interrupt controller's state for the one interrupt line in use.
pub struct InterruptController {
    priority: Option<u8>,
    unmasked: bool,
    pending: bool,
}

impl InterruptController {
    /// The priority level assigned to the line, if one has been set.
    pub closed spec fn priority(&self) -> Option<u8> {
        self.priority
    }

    /// Whether the line is unmasked, i.e. whether the hardware may
    /// deliver its interrupt.
    pub closed spec fn is_unmasked(&self) -> bool {
        self.unmasked
    }

    /// Whether an instance of the interrupt is latched as pending.
    pub closed spec fn is_pending(&self) -> bool {
        self.pending
    }

    /// The controller as it comes out of reset: no priority assigned, the
    /// line masked, and possibly an instance already latched by hardware.
    pub fn new(latched_pending: bool) -> (c: Self)
        ensures
            c.priority() is None,
            !c.is_unmasked(),
            c.is_pending() == latched_pending,
    {
        InterruptController { priority: None, unmasked: false, pending: latched_pending }
    }

    /// Assign a priority level to the line.
    pub fn set_priority(&mut self, level: u8)
        ensures
            final(self).priority() == Some(level),
            final(self).is_unmasked() == old(self).is_unmasked(),
            final(self).is_pending() == old(self).is_pending(),
    {
        self.priority = Some(level);
    }

    /// Unmask the line, but only once both hand-off slots are holding a
    /// handle.
    ///
    /// An unmask attempted before both publishes is refused and leaves
    /// the line masked: interrupts must not become deliverable while a
    /// slot is still empty.
    pub fn unmask<P, T>(
        &mut self,
        led_slot: &SharedSlot<P>,
        timer_slot: &SharedSlot<T>,
    ) -> (r: Result<(), OrderingFault>)
        ensures
            r is Ok <==> led_slot.is_holding() && timer_slot.is_holding(),
            r is Ok ==> final(self).is_unmasked(),
            r is Err ==> final(self).is_unmasked() == old(self).is_unmasked(),
            final(self).priority() == old(self).priority(),
            final(self).is_pending() == old(self).is_pending(),
    {
        if led_slot.is_empty() || timer_slot.is_empty() {
            Err(OrderingFault::UnmaskBeforePublish)
        } else {
            self.unmasked = true;
            Ok(())
        }
    }

    /// Clear any already-latched pending instance of the interrupt.
    pub fn unpend(&mut self)
        ensures
            !final(self).is_pending(),
            final(self).priority() == old(self).priority(),
            final(self).is_unmasked() == old(self).is_unmasked(),
    {
        self.pending = false;
    }

    /// Whether an instance of the interrupt is latched as pending.
    pub fn pending(&self) -> (r: bool)
        ensures
            r == self.is_pending(),
    {
        self.pending
    }

    /// The priority level assigned to the line, if one has been set.
    pub fn priority_level(&self) -> (r: Option<u8>)
        ensures
            r == self.priority(),
    {
        self.priority
    }

    /// Whether the hardware may deliver the line's interrupt.
    pub fn can_deliver(&self) -> (r: bool)
        ensures
            r == self.is_unmasked(),
    {
        self.unmasked
    }
}

} // verus!
