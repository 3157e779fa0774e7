//! The timer-expiry interrupt handler: a two-state machine.
//!
//! The handler starts `Uninitialized`. On its first invocation it takes
//! the pin and timer handles out of the two hand-off slots into its own
//! storage and becomes `Armed`; this is the only synchronized access it
//! ever performs. Every invocation, first and later ones alike, toggles
//! the pin once and acknowledges the timer's expiry once. Driver faults
//! reported by either operation are deliberately discarded: at interrupt
//! level there is nobody to hand an error to, and leaving the expiry
//! unacknowledged would re-raise the interrupt indefinitely.

use crate::device::{LedPin, TimerDevice};
use crate::slot::SharedSlot;
use vstd::prelude::*;

verus! {

/// The handler's persistent private storage.
pub enum HandlerState {
    /// Handles not yet taken out of the hand-off slots.
    Uninitialized,
    /// Handles held locally; the steady state for the rest of the
    /// process lifetime.
    Armed { led: LedPin, timer: TimerDevice },
}

/// The interrupt-level state machine that blinks the LED.
pub struct Handler {
    state: HandlerState,
}

/// The pin level reached after `n` toggles starting from `initial_on`.
pub open spec fn toggled(initial_on: bool, n: nat) -> bool
    decreases n,
{
    if n == 0 {
        initial_on
    } else {
        !toggled(initial_on, (n - 1) as nat)
    }
}

/// Toggling is its own inverse: after `n` toggles the level is back at
/// its initial value when `n` is even, and at the opposite value when
/// `n` is odd.
pub proof fn lemma_toggle_parity(initial_on: bool, n: nat)
    ensures
        toggled(initial_on, n) == (if n % 2 == 0 {
            initial_on
        } else {
            !initial_on
        }),
    decreases n,
{
    if n > 0 {
        lemma_toggle_parity(initial_on, (n - 1) as nat);
    }
}

/// The pin an invocation will operate on: the locally stored one when the
/// handler is armed, otherwise the one waiting in the hand-off slot.
pub open spec fn source_led(h: Handler, led_slot: SharedSlot<LedPin>) -> LedPin
    recommends
        h.is_armed() || led_slot.is_holding(),
{
    if h.is_armed() {
        h.armed_led()
    } else {
        led_slot.contents().unwrap()
    }
}

/// The timer an invocation will operate on, chosen like `source_led`.
pub open spec fn source_timer(h: Handler, timer_slot: SharedSlot<TimerDevice>) -> TimerDevice
    recommends
        h.is_armed() || timer_slot.is_holding(),
{
    if h.is_armed() {
        h.armed_timer()
    } else {
        timer_slot.contents().unwrap()
    }
}

impl Handler {
    /// Whether the handles have been taken into local storage.
    pub closed spec fn is_armed(&self) -> bool {
        self.state is Armed
    }

    /// The locally stored pin, meaningful once armed.
    pub closed spec fn armed_led(&self) -> LedPin {
        self.state->led
    }

    /// The locally stored timer, meaningful once armed.
    pub closed spec fn armed_timer(&self) -> TimerDevice {
        self.state->timer
    }

    /// A handler as registered at reset: nothing taken yet.
    pub fn new() -> (h: Self)
        ensures
            !h.is_armed(),
    {
        Handler { state: HandlerState::Uninitialized }
    }

    /// One interrupt invocation.
    ///
    /// On the first invocation the handler takes both handles out of the
    /// slots (the initializer's publish-before-unmask ordering guarantees
    /// they are holding) and becomes armed. Every invocation toggles the
    /// pin once and acknowledges the timer once; reported driver faults
    /// are discarded by policy.
    pub fn on_timer_expiry(
        &mut self,
        led_slot: &mut SharedSlot<LedPin>,
        timer_slot: &mut SharedSlot<TimerDevice>,
    )
        requires
            !old(self).is_armed() ==> {
                &&& old(led_slot).is_holding()
                &&& old(timer_slot).is_holding()
                &&& old(led_slot).takes() < u64::MAX
                &&& old(timer_slot).takes() < u64::MAX
            },
            source_led(*old(self), *old(led_slot)).toggles() < u64::MAX,
            source_timer(*old(self), *old(timer_slot)).acks() < u64::MAX,
        ensures
            final(self).is_armed(),
            ({
                let led0 = source_led(*old(self), *old(led_slot));
                &&& final(self).armed_led().on() == !led0.on()
                &&& final(self).armed_led().toggles() == led0.toggles() + 1
                &&& final(self).armed_led().reports_fault() == led0.reports_fault()
            }),
            ({
                let tim0 = source_timer(*old(self), *old(timer_slot));
                &&& final(self).armed_timer().acks() == tim0.acks() + 1
                &&& final(self).armed_timer().freq() == tim0.freq()
                &&& final(self).armed_timer().listening() == tim0.listening()
                &&& final(self).armed_timer().reports_fault() == tim0.reports_fault()
            }),
            old(self).is_armed() ==> {
                &&& *final(led_slot) == *old(led_slot)
                &&& *final(timer_slot) == *old(timer_slot)
            },
            !old(self).is_armed() ==> {
                &&& final(led_slot).contents() is None
                &&& final(led_slot).takes() == old(led_slot).takes() + 1
                &&& final(timer_slot).contents() is None
                &&& final(timer_slot).takes() == old(timer_slot).takes() + 1
            },
    {
        match &mut self.state {
            HandlerState::Armed { led, timer } => {
                let _ = led.toggle();
                let _ = timer.acknowledge();
            }
            HandlerState::Uninitialized => {
                let mut led = led_slot.take().unwrap();
                let mut timer = timer_slot.take().unwrap();
                let _ = led.toggle();
                let _ = timer.acknowledge();
                self.state = HandlerState::Armed { led, timer };
            }
        }
    }

    /// Whether the handler is armed.
    pub fn armed(&self) -> (r: bool)
        ensures
            r == self.is_armed(),
    {
        match &self.state {
            HandlerState::Armed { .. } => true,
            HandlerState::Uninitialized => false,
        }
    }

    /// The locally stored pin, or `None` before the first invocation.
    pub fn led(&self) -> (r: Option<&LedPin>)
        ensures
            r is Some <==> self.is_armed(),
            r matches Some(l) ==> *l == self.armed_led(),
    {
        match &self.state {
            HandlerState::Armed { led, .. } => Some(led),
            HandlerState::Uninitialized => None,
        }
    }

    /// The locally stored timer, or `None` before the first invocation.
    pub fn timer(&self) -> (r: Option<&TimerDevice>)
        ensures
            r is Some <==> self.is_armed(),
            r matches Some(t) ==> *t == self.armed_timer(),
    {
        match &self.state {
            HandlerState::Armed { timer, .. } => Some(timer),
            HandlerState::Uninitialized => None,
        }
    }
}

} // verus!
