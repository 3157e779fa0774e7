//! The one-shot startup sequence.
//!
//! Runs once at power-on with interrupts globally masked, so the whole
//! body is a single critical section: it acquires the peripherals,
//! configures clock, pin and timer, publishes both handles into the
//! hand-off slots, and only then lets the interrupt controller unmask the
//! timer's line. Publishing strictly before unmasking is the single
//! correctness-critical ordering of the program.

use crate::controller::InterruptController;
use crate::device::{ClockTree, LedPin, TimerDevice};
use crate::slot::SharedSlot;
use crate::TIMER_IRQ_PRIORITY;
use vstd::prelude::*;

verus! {

/// Why initialization halted, when it did.
///
/// Every variant is fatal: there is no recovery path, the idle loop is
/// never reached and the LED never blinks.
#[derive(Clone, Copy, Debug, PartialEq, Eq, Structural)]
pub enum InitFault {
    /// The peripheral sets were already acquired by someone else.
    AlreadyAcquired,
    /// The clock tree cannot derive the requested system clock.
    ClockUnattainable,
    /// The timer cannot expire at the requested rate at this system
    /// clock.
    TimerUnrepresentable,
}

/// Exclusive access to the device's peripheral sets, handed out at most
/// once per power-on.
pub struct DeviceAccess {
    taken: bool,
}

impl DeviceAccess {
    /// Whether the peripheral sets have already been handed out.
    pub closed spec fn is_taken(&self) -> bool {
        self.taken
    }

    /// The access state as it is at power-on: nothing handed out yet.
    pub fn power_on() -> (a: Self)
        ensures
            !a.is_taken(),
    {
        DeviceAccess { taken: false }
    }

    /// Claim exclusive access to the peripheral sets. Succeeds only the
    /// first time.
    pub fn acquire(&mut self) -> (granted: bool)
        ensures
            granted == !old(self).is_taken(),
            final(self).is_taken(),
    {
        let granted = !self.taken;
        self.taken = true;
        granted
    }
}

/// Whether an initialization attempt with these inputs succeeds: the
/// peripherals must still be available, the system clock derivable, and
/// the timer rate non-zero and representable at that clock.
pub open spec fn init_succeeds(
    access: DeviceAccess,
    sysclk_hz: u32,
    timer_freq_hz: u32,
) -> bool {
    &&& !access.is_taken()
    &&& sysclk_hz > 0
    &&& 0 < timer_freq_hz <= sysclk_hz
}

/// The startup sequence, in its required order: acquire the peripherals,
/// configure the clock, configure the pin and publish it, configure the
/// timer, enable its expiry interrupt source and publish it, then set the
/// line's priority, unmask it, and clear any pending instance hardware
/// may have latched.
///
/// The pin comes up driving low and nothing has been toggled or
/// acknowledged yet. On a fault the sequence stops where it is: nothing
/// published on acquisition or clock faults, only the pin published on a
/// timer fault, and the line is never unmasked.
pub fn initialize(
    access: &mut DeviceAccess,
    led_slot: &mut SharedSlot<LedPin>,
    timer_slot: &mut SharedSlot<TimerDevice>,
    ctrl: &mut InterruptController,
    sysclk_hz: u32,
    timer_freq_hz: u32,
) -> (r: Result<(), InitFault>)
    requires
        old(led_slot).contents() is None,
        old(timer_slot).contents() is None,
    ensures
        final(access).is_taken(),
        r is Ok <==> init_succeeds(*old(access), sysclk_hz, timer_freq_hz),
        r == Err::<(), InitFault>(InitFault::AlreadyAcquired) <==> old(access).is_taken(),
        r == Err::<(), InitFault>(InitFault::ClockUnattainable) <==> !old(access).is_taken()
            && sysclk_hz == 0,
        r == Err::<(), InitFault>(InitFault::TimerUnrepresentable) <==> !old(access).is_taken()
            && sysclk_hz > 0 && !(0 < timer_freq_hz <= sysclk_hz),
        r is Ok ==> {
            &&& final(led_slot).contents() matches Some(l) && !l.on() && l.toggles() == 0
                && !l.reports_fault()
            &&& final(timer_slot).contents() matches Some(t) && t.freq() == timer_freq_hz
                && t.listening() && t.acks() == 0 && !t.reports_fault()
            &&& final(ctrl).priority() == Some(TIMER_IRQ_PRIORITY)
            &&& final(ctrl).is_unmasked()
            &&& !final(ctrl).is_pending()
        },
        final(led_slot).takes() == old(led_slot).takes(),
        final(timer_slot).takes() == old(timer_slot).takes(),
        r is Err ==> {
            &&& final(timer_slot).contents() is None
            &&& *final(ctrl) == *old(ctrl)
        },
        r == Err::<(), InitFault>(InitFault::TimerUnrepresentable) ==> {
            &&& final(led_slot).contents() matches Some(l)
            &&& !l.on()
            &&& l.toggles() == 0
            &&& !l.reports_fault()
        },
        (r is Err && r != Err::<(), InitFault>(
            InitFault::TimerUnrepresentable,
        )) ==> final(led_slot).contents() is None,
{
    if !access.acquire() {
        return Err(InitFault::AlreadyAcquired);
    }
    let clock = match ClockTree::configure(sysclk_hz) {
        Ok(c) => c,
        Err(_) => {
            return Err(InitFault::ClockUnattainable);
        },
    };
    let led = LedPin::configure(false);
    led_slot.publish(led);
    let mut timer = match TimerDevice::configure(timer_freq_hz, &clock) {
        Ok(t) => t,
        Err(_) => {
            return Err(InitFault::TimerUnrepresentable);
        },
    };
    timer.listen();
    timer_slot.publish(timer);
    ctrl.set_priority(TIMER_IRQ_PRIORITY);
    let _ = ctrl.unmask(led_slot, timer_slot);
    ctrl.unpend();
    Ok(())
}

} // verus!
