//! Core logic of a timer-interrupt LED blinker.
//!
//! A one-shot initializer configures a clock, an output pin and a periodic
//! timer, publishes the pin and timer handles into two shared hand-off
//! slots, and only then unmasks the timer's interrupt line. The interrupt
//! handler takes both handles out of the slots on its first run and from
//! then on toggles the pin and acknowledges the timer on every expiry.
//!
//! The hardware collaborators (clock tree, pin driver, timer peripheral,
//! interrupt controller) are modelled here as plain-value devices so that
//! the hand-off protocol, the handler state machine and the ordering
//! invariant — the interrupt line is unmasked only after both handles are
//! published — can be stated and proved.

use vstd::prelude::*;

pub mod controller;
pub mod device;
pub mod handler;
pub mod init;
pub mod slot;
pub mod system;

verus! {

/// Target system clock rate, in hertz.
pub const SYS_CLOCK_HZ: u32 = 8_000_000;

/// Rate at which the timer expires and the LED toggles, in hertz.
pub const TIMER_FREQ_HZ: u32 = 5;

/// Priority level given to the timer's interrupt line.
pub const TIMER_IRQ_PRIORITY: u8 = 1;

} // verus!
