//! Plain-value models of the hardware collaborators: the clock tree, the
//! LED output pin and the periodic timer.
//!
//! Each model records exactly what the blink logic reads of the real
//! peripheral — the pin's logical level and how often it was toggled, the
//! timer's configured rate and how often its expiry was acknowledged — and
//! can be programmed to report the transient driver faults that the
//! handler deliberately discards.

use vstd::prelude::*;

verus! {

/// Raised when the clock tree cannot derive the requested system clock.
#[derive(Clone, Copy, Debug, PartialEq, Eq, Structural)]
pub enum ClockFault {
    Unattainable,
}

/// Raised by the timer driver: either the requested rate cannot be
/// represented at the configured system clock, or acknowledging an expiry
/// reported a transient hardware fault.
#[derive(Clone, Copy, Debug, PartialEq, Eq, Structural)]
pub enum TimerFault {
    Unrepresentable,
    Acknowledge,
}

/// Raised by the pin driver when driving the output line reported a
/// transient fault.
#[derive(Clone, Copy, Debug, PartialEq, Eq, Structural)]
pub enum PinFault {
    Drive,
}

/// A configured clock tree, produced once during initialization and
/// consumed by peripheral configuration.
pub struct ClockTree {
    sysclk_hz: u32,
}

impl ClockTree {
    /// The system clock rate the tree was frozen at, in hertz.
    pub closed spec fn sysclk(&self) -> u32 {
        self.sysclk_hz
    }

    /// Derive a clock tree for the requested system clock rate.
    ///
    /// A rate of zero cannot be derived from any oscillator and is the
    /// fatal configuration fault: startup halts on it.
    pub fn configure(requested_hz: u32) -> (r: Result<ClockTree, ClockFault>)
        ensures
            r is Ok <==> requested_hz > 0,
            r matches Ok(c) ==> c.sysclk() == requested_hz,
    {
        if requested_hz > 0 {
            Ok(ClockTree { sysclk_hz: requested_hz })
        } else {
            Err(ClockFault::Unattainable)
        }
    }
}

/// Exclusive handle over one GPIO pin configured as push-pull output.
///
/// The model keeps the pin's logical level and a count of toggle calls so
/// a harness can observe what the real pin would have done.
pub struct LedPin {
    on: bool,
    toggle_count: u64,
    drive_fault: bool,
}

impl LedPin {
    /// The pin's current logical output level.
    pub closed spec fn on(&self) -> bool {
        self.on
    }

    /// How many times the pin has been toggled.
    pub closed spec fn toggles(&self) -> u64 {
        self.toggle_count
    }

    /// Whether the driver is programmed to report a fault on each toggle.
    pub closed spec fn reports_fault(&self) -> bool {
        self.drive_fault
    }

    /// Configure the pin as a push-pull output at a known initial level.
    pub fn configure(initial_on: bool) -> (p: Self)
        ensures
            p.on() == initial_on,
            p.toggles() == 0,
            !p.reports_fault(),
    {
        LedPin { on: initial_on, toggle_count: 0, drive_fault: false }
    }

    /// Program the driver model to report a fault on each toggle.
    ///
    /// The fault is a report, not a refusal: the line is driven first and
    /// the driver reports afterwards, so a faulted toggle still flips the
    /// level and is still recorded.
    pub fn set_drive_fault(&mut self, fault: bool)
        ensures
            final(self).reports_fault() == fault,
            final(self).on() == old(self).on(),
            final(self).toggles() == old(self).toggles(),
    {
        self.drive_fault = fault;
    }

    /// Flip the pin's output level, reporting the programmed driver fault
    /// if there is one.
    pub fn toggle(&mut self) -> (r: Result<(), PinFault>)
        requires
            old(self).toggles() < u64::MAX,
        ensures
            final(self).on() == !old(self).on(),
            final(self).toggles() == old(self).toggles() + 1,
            final(self).reports_fault() == old(self).reports_fault(),
            r is Err <==> old(self).reports_fault(),
    {
        self.on = !self.on;
        self.toggle_count = self.toggle_count + 1;
        if self.drive_fault {
            Err(PinFault::Drive)
        } else {
            Ok(())
        }
    }

    /// The pin's current logical level.
    pub fn is_on(&self) -> (r: bool)
        ensures
            r == self.on(),
    {
        self.on
    }

    /// How many toggles have been recorded.
    pub fn toggle_count(&self) -> (r: u64)
        ensures
            r == self.toggles(),
    {
        self.toggle_count
    }
}

/// Exclusive handle over one hardware countdown timer configured to raise
/// an expiry condition at a fixed rate.
pub struct TimerDevice {
    freq_hz: u32,
    listening: bool,
    ack_count: u64,
    ack_fault: bool,
}

impl TimerDevice {
    /// The configured expiry rate, in hertz.
    pub closed spec fn freq(&self) -> u32 {
        self.freq_hz
    }

    /// Whether the expiry event is enabled as an interrupt source.
    pub closed spec fn listening(&self) -> bool {
        self.listening
    }

    /// How many expiries have been acknowledged.
    pub closed spec fn acks(&self) -> u64 {
        self.ack_count
    }

    /// Whether the driver is programmed to report a fault on each
    /// acknowledge.
    pub closed spec fn reports_fault(&self) -> bool {
        self.ack_fault
    }

    /// Configure a timer to expire periodically at the requested rate.
    ///
    /// The rate must be non-zero and representable in the timer's
    /// countdown range at the configured system clock: the counter cannot
    /// expire more often than once per clock cycle.
    pub fn configure(freq_hz: u32, clock: &ClockTree) -> (r: Result<TimerDevice, TimerFault>)
        ensures
            r is Ok <==> 0 < freq_hz <= clock.sysclk(),
            r matches Ok(t) ==> {
                &&& t.freq() == freq_hz
                &&& !t.listening()
                &&& t.acks() == 0
                &&& !t.reports_fault()
            },
            r is Err ==> r == Err::<TimerDevice, TimerFault>(TimerFault::Unrepresentable),
    {
        if 0 < freq_hz && freq_hz <= clock.sysclk_hz {
            Ok(TimerDevice { freq_hz, listening: false, ack_count: 0, ack_fault: false })
        } else {
            Err(TimerFault::Unrepresentable)
        }
    }

    /// Enable the expiry event as an interrupt source.
    pub fn listen(&mut self)
        ensures
            final(self).listening(),
            final(self).freq() == old(self).freq(),
            final(self).acks() == old(self).acks(),
            final(self).reports_fault() == old(self).reports_fault(),
    {
        self.listening = true;
    }

    /// Program the driver model to report a fault on each acknowledge.
    ///
    /// As with the pin, the fault is a report: the expiry condition is
    /// cleared and the acknowledge is recorded either way.
    pub fn set_ack_fault(&mut self, fault: bool)
        ensures
            final(self).reports_fault() == fault,
            final(self).freq() == old(self).freq(),
            final(self).listening() == old(self).listening(),
            final(self).acks() == old(self).acks(),
    {
        self.ack_fault = fault;
    }

    /// Acknowledge one expiry: clear the hardware flag that raised the
    /// interrupt and re-arm the countdown, reporting the programmed
    /// driver fault if there is one.
    pub fn acknowledge(&mut self) -> (r: Result<(), TimerFault>)
        requires
            old(self).acks() < u64::MAX,
        ensures
            final(self).acks() == old(self).acks() + 1,
            final(self).freq() == old(self).freq(),
            final(self).listening() == old(self).listening(),
            final(self).reports_fault() == old(self).reports_fault(),
            r is Err <==> old(self).reports_fault(),
    {
        self.ack_count = self.ack_count + 1;
        if self.ack_fault {
            Err(TimerFault::Acknowledge)
        } else {
            Ok(())
        }
    }

    /// The configured expiry rate, in hertz.
    pub fn freq_hz(&self) -> (r: u32)
        ensures
            r == self.freq(),
    {
        self.freq_hz
    }

    /// Whether the expiry interrupt source is enabled.
    pub fn is_listening(&self) -> (r: bool)
        ensures
            r == self.listening(),
    {
        self.listening
    }

    /// How many acknowledges have been recorded.
    pub fn ack_count(&self) -> (r: u64)
        ensures
            r == self.acks(),
    {
        self.ack_count
    }
}

} // verus!
