//! The whole device in one value: slots, controller and handler, with the
//! invariant that makes the hand-off safe.
//!
//! The invariant says: whenever the timer's interrupt line is unmasked,
//! either the handler is already armed or both hand-off slots are still
//! holding their handles. Boot establishes it (publish strictly before
//! unmask) and every interrupt delivery preserves it, so the handler's
//! first take can never find a slot empty.

use crate::controller::InterruptController;
use crate::device::{LedPin, TimerDevice};
use crate::handler::{source_led, source_timer, toggled, Handler};
use crate::init::{initialize, DeviceAccess, InitFault};
use crate::slot::SharedSlot;
use crate::TIMER_IRQ_PRIORITY;
use vstd::prelude::*;

verus! {

/// The composed device: the two hand-off slots, the interrupt controller
/// for the timer's line, and the handler's persistent state.
pub struct System {
    led_slot: SharedSlot<LedPin>,
    timer_slot: SharedSlot<TimerDevice>,
    ctrl: InterruptController,
    handler: Handler,
}

impl System {
    /// The hand-off slot for the pin handle.
    pub closed spec fn led_slot(&self) -> SharedSlot<LedPin> {
        self.led_slot
    }

    /// The hand-off slot for the timer handle.
    pub closed spec fn timer_slot(&self) -> SharedSlot<TimerDevice> {
        self.timer_slot
    }

    /// The interrupt controller's state.
    pub closed spec fn controller(&self) -> InterruptController {
        self.ctrl
    }

    /// The handler's state.
    pub closed spec fn handler(&self) -> Handler {
        self.handler
    }

    /// The ordering invariant: once the line is unmasked, an arriving
    /// interrupt always finds its handles — locally if the handler is
    /// armed, in the slots otherwise.
    pub open spec fn wf(&self) -> bool {
        self.controller().is_unmasked() ==> (self.handler().is_armed() || (
        self.led_slot().is_holding() && self.timer_slot().is_holding()))
    }

    /// Power the device on and run the startup sequence.
    ///
    /// The controller comes out of reset with an instance of the
    /// interrupt conservatively assumed latched; the sequence clears it.
    /// On success the system is well formed, the line is unmasked, both
    /// handles sit in their slots untouched, and the handler has not run
    /// yet.
    pub fn boot(sysclk_hz: u32, timer_freq_hz: u32) -> (r: Result<System, InitFault>)
        ensures
            r is Ok <==> sysclk_hz > 0 && 0 < timer_freq_hz <= sysclk_hz,
            r == Err::<System, InitFault>(InitFault::ClockUnattainable) <==> sysclk_hz == 0,
            r == Err::<System, InitFault>(InitFault::TimerUnrepresentable) <==> sysclk_hz > 0
                && !(0 < timer_freq_hz <= sysclk_hz),
            r matches Ok(s) ==> {
                &&& s.wf()
                &&& s.controller().is_unmasked()
                &&& s.controller().priority() == Some(TIMER_IRQ_PRIORITY)
                &&& !s.controller().is_pending()
                &&& !s.handler().is_armed()
                &&& s.led_slot().contents() matches Some(l)
                &&& !l.on()
                &&& l.toggles() == 0
                &&& !l.reports_fault()
                &&& s.timer_slot().contents() matches Some(t)
                &&& t.freq() == timer_freq_hz
                &&& t.listening()
                &&& t.acks() == 0
                &&& !t.reports_fault()
                &&& s.led_slot().takes() == 0
                &&& s.timer_slot().takes() == 0
            },
    {
        let mut access = DeviceAccess::power_on();
        let mut led_slot = SharedSlot::<LedPin>::new();
        let mut timer_slot = SharedSlot::<TimerDevice>::new();
        let mut ctrl = InterruptController::new(true);
        let handler = Handler::new();
        match initialize(
            &mut access,
            &mut led_slot,
            &mut timer_slot,
            &mut ctrl,
            sysclk_hz,
            timer_freq_hz,
        ) {
            Ok(()) => Ok(System { led_slot, timer_slot, ctrl, handler }),
            Err(fault) => Err(fault),
        }
    }

    /// One hardware interrupt delivery attempt.
    ///
    /// While the line is masked the controller delivers nothing and the
    /// system does not change. Once unmasked, a delivery runs the handler
    /// for one invocation: the pin is toggled once, the expiry is
    /// acknowledged once, and on the first invocation the handles move
    /// out of the slots into the handler.
    pub fn fire_timer_interrupt(&mut self)
        requires
            old(self).wf(),
            old(self).controller().is_unmasked() ==> {
                &&& source_led(old(self).handler(), old(self).led_slot()).toggles() < u64::MAX
                &&& source_timer(old(self).handler(), old(self).timer_slot()).acks() < u64::MAX
            },
            (old(self).controller().is_unmasked() && !old(self).handler().is_armed()) ==> {
                &&& old(self).led_slot().takes() < u64::MAX
                &&& old(self).timer_slot().takes() < u64::MAX
            },
        ensures
            final(self).wf(),
            final(self).controller() == old(self).controller(),
            !old(self).controller().is_unmasked() ==> *final(self) == *old(self),
            old(self).controller().is_unmasked() ==> {
                let led0 = source_led(old(self).handler(), old(self).led_slot());
                let tim0 = source_timer(old(self).handler(), old(self).timer_slot());
                &&& final(self).handler().is_armed()
                &&& final(self).handler().armed_led().on() == !led0.on()
                &&& final(self).handler().armed_led().toggles() == led0.toggles() + 1
                &&& final(self).handler().armed_led().reports_fault() == led0.reports_fault()
                &&& final(self).handler().armed_timer().acks() == tim0.acks() + 1
                &&& final(self).handler().armed_timer().freq() == tim0.freq()
                &&& final(self).handler().armed_timer().listening() == tim0.listening()
                &&& final(self).handler().armed_timer().reports_fault() == tim0.reports_fault()
            },
            (old(self).controller().is_unmasked() && old(self).handler().is_armed()) ==> {
                &&& final(self).led_slot() == old(self).led_slot()
                &&& final(self).timer_slot() == old(self).timer_slot()
            },
            (old(self).controller().is_unmasked() && !old(self).handler().is_armed()) ==> {
                &&& final(self).led_slot().contents() is None
                &&& final(self).led_slot().takes() == old(self).led_slot().takes() + 1
                &&& final(self).timer_slot().contents() is None
                &&& final(self).timer_slot().takes() == old(self).timer_slot().takes() + 1
            },
    {
        if self.ctrl.can_deliver() {
            self.handler.on_timer_expiry(&mut self.led_slot, &mut self.timer_slot);
        }
    }

    /// Deliver `n` consecutive timer expiries.
    ///
    /// Over any such run: the pin is toggled exactly once per expiry, so
    /// its level ends at `toggled` of its start; the timer is
    /// acknowledged exactly once per expiry; and the slots are taken from
    /// exactly once in total if the run starts unarmed, and never again
    /// once armed.
    pub fn run_expiries(&mut self, n: u64)
        requires
            old(self).wf(),
            old(self).controller().is_unmasked(),
            source_led(old(self).handler(), old(self).led_slot()).toggles() + n <= u64::MAX,
            source_timer(old(self).handler(), old(self).timer_slot()).acks() + n <= u64::MAX,
            !old(self).handler().is_armed() ==> {
                &&& old(self).led_slot().takes() < u64::MAX
                &&& old(self).timer_slot().takes() < u64::MAX
            },
        ensures
            final(self).wf(),
            final(self).controller() == old(self).controller(),
            n == 0 ==> *final(self) == *old(self),
            n > 0 ==> {
                let led0 = source_led(old(self).handler(), old(self).led_slot());
                let tim0 = source_timer(old(self).handler(), old(self).timer_slot());
                &&& final(self).handler().is_armed()
                &&& final(self).handler().armed_led().on() == toggled(led0.on(), n as nat)
                &&& final(self).handler().armed_led().toggles() == led0.toggles() + n
                &&& final(self).handler().armed_led().reports_fault() == led0.reports_fault()
                &&& final(self).handler().armed_timer().acks() == tim0.acks() + n
                &&& final(self).handler().armed_timer().freq() == tim0.freq()
                &&& final(self).handler().armed_timer().listening() == tim0.listening()
                &&& final(self).handler().armed_timer().reports_fault() == tim0.reports_fault()
            },
            (n > 0 && old(self).handler().is_armed()) ==> {
                &&& final(self).led_slot() == old(self).led_slot()
                &&& final(self).timer_slot() == old(self).timer_slot()
            },
            (n > 0 && !old(self).handler().is_armed()) ==> {
                &&& final(self).led_slot().contents() is None
                &&& final(self).led_slot().takes() == old(self).led_slot().takes() + 1
                &&& final(self).timer_slot().contents() is None
                &&& final(self).timer_slot().takes() == old(self).timer_slot().takes() + 1
            },
    {
        let ghost led0 = source_led(old(self).handler(), old(self).led_slot());
        let ghost tim0 = source_timer(old(self).handler(), old(self).timer_slot());
        let mut i: u64 = 0;
        while i < n
            invariant
                i <= n,
                self.wf(),
                self.controller() == old(self).controller(),
                self.controller().is_unmasked(),
                led0 == source_led(old(self).handler(), old(self).led_slot()),
                tim0 == source_timer(old(self).handler(), old(self).timer_slot()),
                led0.toggles() + n <= u64::MAX,
                tim0.acks() + n <= u64::MAX,
                i == 0 ==> *self == *old(self),
                i == 0 && !old(self).handler().is_armed() ==> {
                    &&& self.led_slot().takes() < u64::MAX
                    &&& self.timer_slot().takes() < u64::MAX
                },
                i > 0 ==> {
                    &&& self.handler().is_armed()
                    &&& self.handler().armed_led().on() == toggled(led0.on(), i as nat)
                    &&& self.handler().armed_led().toggles() == led0.toggles() + i
                    &&& self.handler().armed_led().reports_fault() == led0.reports_fault()
                    &&& self.handler().armed_timer().acks() == tim0.acks() + i
                    &&& self.handler().armed_timer().freq() == tim0.freq()
                    &&& self.handler().armed_timer().listening() == tim0.listening()
                    &&& self.handler().armed_timer().reports_fault() == tim0.reports_fault()
                },
                (i > 0 && old(self).handler().is_armed()) ==> {
                    &&& self.led_slot() == old(self).led_slot()
                    &&& self.timer_slot() == old(self).timer_slot()
                },
                (i > 0 && !old(self).handler().is_armed()) ==> {
                    &&& self.led_slot().contents() is None
                    &&& self.led_slot().takes() == old(self).led_slot().takes() + 1
                    &&& self.timer_slot().contents() is None
                    &&& self.timer_slot().takes() == old(self).timer_slot().takes() + 1
                },
            decreases n - i,
        {
            proof {
                reveal_with_fuel(toggled, 2);
            }
            self.fire_timer_interrupt();
            i = i + 1;
        }
    }

    /// The pin's current level, read wherever the pin currently lives:
    /// in the handler once armed, in its hand-off slot before that.
    pub fn observed_led_on(&self) -> (r: Option<bool>)
        ensures
            r is Some <==> (self.handler().is_armed() || self.led_slot().is_holding()),
            r matches Some(b) ==> b == source_led(self.handler(), self.led_slot()).on(),
    {
        match self.handler.led() {
            Some(l) => Some(l.is_on()),
            None => match self.led_slot.peek() {
                Some(l) => Some(l.is_on()),
                None => None,
            },
        }
    }

    /// How many times the pin has been toggled, read wherever the pin
    /// currently lives.
    pub fn led_toggle_count(&self) -> (r: Option<u64>)
        ensures
            r is Some <==> (self.handler().is_armed() || self.led_slot().is_holding()),
            r matches Some(c) ==> c == source_led(self.handler(), self.led_slot()).toggles(),
    {
        match self.handler.led() {
            Some(l) => Some(l.toggle_count()),
            None => match self.led_slot.peek() {
                Some(l) => Some(l.toggle_count()),
                None => None,
            },
        }
    }

    /// How many expiries have been acknowledged, read wherever the timer
    /// currently lives.
    pub fn timer_ack_count(&self) -> (r: Option<u64>)
        ensures
            r is Some <==> (self.handler().is_armed() || self.timer_slot().is_holding()),
            r matches Some(c) ==> c == source_timer(self.handler(), self.timer_slot()).acks(),
    {
        match self.handler.timer() {
            Some(t) => Some(t.ack_count()),
            None => match self.timer_slot.peek() {
                Some(t) => Some(t.ack_count()),
                None => None,
            },
        }
    }

    /// The timer's configured expiry rate, read wherever the timer
    /// currently lives.
    pub fn timer_rate_hz(&self) -> (r: Option<u32>)
        ensures
            r is Some <==> (self.handler().is_armed() || self.timer_slot().is_holding()),
            r matches Some(f) ==> f == source_timer(self.handler(), self.timer_slot()).freq(),
    {
        match self.handler.timer() {
            Some(t) => Some(t.freq_hz()),
            None => match self.timer_slot.peek() {
                Some(t) => Some(t.freq_hz()),
                None => None,
            },
        }
    }

    /// Whether the handler has armed itself.
    pub fn handler_armed(&self) -> (r: bool)
        ensures
            r == self.handler().is_armed(),
    {
        self.handler.armed()
    }

    /// Whether the timer's interrupt line is unmasked.
    pub fn interrupts_unmasked(&self) -> (r: bool)
        ensures
            r == self.controller().is_unmasked(),
    {
        self.ctrl.can_deliver()
    }

    /// How many removals the pin's hand-off slot has seen.
    pub fn led_slot_take_count(&self) -> (r: u64)
        ensures
            r == self.led_slot().takes(),
    {
        self.led_slot.take_count()
    }

    /// How many removals the timer's hand-off slot has seen.
    pub fn timer_slot_take_count(&self) -> (r: u64)
        ensures
            r == self.timer_slot().takes(),
    {
        self.timer_slot.take_count()
    }

    /// Whether the pin's hand-off slot is empty.
    pub fn led_slot_empty(&self) -> (r: bool)
        ensures
            r == !self.led_slot().is_holding(),
    {
        self.led_slot.is_empty()
    }

    /// Whether the timer's hand-off slot is empty.
    pub fn timer_slot_empty(&self) -> (r: bool)
        ensures
            r == !self.timer_slot().is_holding(),
    {
        self.timer_slot.is_empty()
    }
}

} // verus!
