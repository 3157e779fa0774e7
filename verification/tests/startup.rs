//! The startup sequence, its fault cases, and the full blink scenario.

use blinky::controller::InterruptController;
use blinky::device::{ClockFault, ClockTree, LedPin, TimerDevice, TimerFault};
use blinky::init::{initialize, DeviceAccess, InitFault};
use blinky::slot::SharedSlot;
use blinky::system::System;
use blinky::{SYS_CLOCK_HZ, TIMER_FREQ_HZ, TIMER_IRQ_PRIORITY};

#[test]
fn end_to_end_ten_firings() {
    // Timer at 5 Hz; ten expiries toggle the LED ten times, acknowledge
    // ten times, and leave the level where it started (even toggles).
    let mut sys = System::boot(SYS_CLOCK_HZ, TIMER_FREQ_HZ).expect("reference configuration");
    let initial = sys.observed_led_on().expect("pin published");
    assert!(!initial);
    assert!(sys.interrupts_unmasked());
    assert!(!sys.handler_armed());

    sys.run_expiries(10);

    assert_eq!(sys.led_toggle_count(), Some(10));
    assert_eq!(sys.timer_ack_count(), Some(10));
    assert_eq!(sys.observed_led_on(), Some(initial));
    assert_eq!(sys.timer_rate_hz(), Some(TIMER_FREQ_HZ));
    assert!(sys.handler_armed());
    assert_eq!(sys.led_slot_take_count(), 1);
    assert_eq!(sys.timer_slot_take_count(), 1);
    assert!(sys.led_slot_empty());
    assert!(sys.timer_slot_empty());
}

#[test]
fn odd_number_of_firings_leaves_level_flipped() {
    let mut sys = System::boot(SYS_CLOCK_HZ, TIMER_FREQ_HZ).expect("reference configuration");
    let initial = sys.observed_led_on().expect("pin published");
    sys.run_expiries(7);
    assert_eq!(sys.observed_led_on(), Some(!initial));
    assert_eq!(sys.led_toggle_count(), Some(7));
}

#[test]
fn zero_firings_change_nothing() {
    let mut sys = System::boot(SYS_CLOCK_HZ, TIMER_FREQ_HZ).expect("reference configuration");
    sys.run_expiries(0);
    assert!(!sys.handler_armed());
    assert_eq!(sys.led_toggle_count(), Some(0));
    assert_eq!(sys.timer_ack_count(), Some(0));
    assert_eq!(sys.led_slot_take_count(), 0);
}

#[test]
fn boot_zero_sysclk_is_clock_fault() {
    assert_eq!(System::boot(0, TIMER_FREQ_HZ).err(), Some(InitFault::ClockUnattainable));
}

#[test]
fn boot_zero_timer_rate_is_timer_fault() {
    assert_eq!(System::boot(SYS_CLOCK_HZ, 0).err(), Some(InitFault::TimerUnrepresentable));
}

#[test]
fn boot_rate_faster_than_sysclk_is_timer_fault() {
    assert_eq!(System::boot(5, 6).err(), Some(InitFault::TimerUnrepresentable));
}

#[test]
fn boot_rate_equal_to_sysclk_is_accepted() {
    let sys = System::boot(5, 5).expect("rate at the countdown limit");
    assert_eq!(sys.timer_rate_hz(), Some(5));
}

#[test]
fn clock_zero_rate_unattainable() {
    assert_eq!(ClockTree::configure(0).err(), Some(ClockFault::Unattainable));
    assert!(ClockTree::configure(SYS_CLOCK_HZ).is_ok());
}

#[test]
fn timer_rate_bounds_checked_against_clock() {
    let clock = ClockTree::configure(100).expect("non-zero clock");
    assert_eq!(TimerDevice::configure(0, &clock).err(), Some(TimerFault::Unrepresentable));
    assert_eq!(TimerDevice::configure(101, &clock).err(), Some(TimerFault::Unrepresentable));
    let timer = TimerDevice::configure(100, &clock).expect("at the limit");
    assert_eq!(timer.freq_hz(), 100);
    assert_eq!(timer.ack_count(), 0);
}

#[test]
fn double_acquisition_is_fatal() {
    let mut access = DeviceAccess::power_on();
    assert!(access.acquire());

    let mut led_slot: SharedSlot<LedPin> = SharedSlot::new();
    let mut timer_slot: SharedSlot<TimerDevice> = SharedSlot::new();
    let mut ctrl = InterruptController::new(false);
    let r = initialize(
        &mut access,
        &mut led_slot,
        &mut timer_slot,
        &mut ctrl,
        SYS_CLOCK_HZ,
        TIMER_FREQ_HZ,
    );
    assert_eq!(r, Err(InitFault::AlreadyAcquired));
    assert!(led_slot.is_empty());
    assert!(timer_slot.is_empty());
    assert!(!ctrl.can_deliver());
}

#[test]
fn initialize_publishes_then_unmasks() {
    let mut access = DeviceAccess::power_on();
    let mut led_slot: SharedSlot<LedPin> = SharedSlot::new();
    let mut timer_slot: SharedSlot<TimerDevice> = SharedSlot::new();
    let mut ctrl = InterruptController::new(true);
    let r = initialize(
        &mut access,
        &mut led_slot,
        &mut timer_slot,
        &mut ctrl,
        SYS_CLOCK_HZ,
        TIMER_FREQ_HZ,
    );
    assert_eq!(r, Ok(()));
    assert!(!led_slot.is_empty());
    assert!(!timer_slot.is_empty());
    assert!(ctrl.can_deliver());
    assert!(!ctrl.pending());
    assert_eq!(ctrl.priority_level(), Some(TIMER_IRQ_PRIORITY));

    let timer = timer_slot.take().expect("published");
    assert!(timer.is_listening());
    assert_eq!(timer.freq_hz(), TIMER_FREQ_HZ);
    let pin = led_slot.take().expect("published");
    assert!(!pin.is_on());
    assert_eq!(pin.toggle_count(), 0);
}

#[test]
fn timer_fault_leaves_line_masked() {
    // Clock derivable, rate not: the pin is already published, but the
    // sequence stops before the unmask step.
    let mut access = DeviceAccess::power_on();
    let mut led_slot: SharedSlot<LedPin> = SharedSlot::new();
    let mut timer_slot: SharedSlot<TimerDevice> = SharedSlot::new();
    let mut ctrl = InterruptController::new(false);
    let r = initialize(&mut access, &mut led_slot, &mut timer_slot, &mut ctrl, 5, 6);
    assert_eq!(r, Err(InitFault::TimerUnrepresentable));
    assert!(!led_slot.is_empty());
    assert!(timer_slot.is_empty());
    assert!(!ctrl.can_deliver());
}
