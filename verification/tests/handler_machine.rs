//! The interrupt handler's state machine, driven with device doubles.

use blinky::device::{ClockTree, LedPin, PinFault, TimerDevice, TimerFault};
use blinky::handler::Handler;
use blinky::slot::SharedSlot;

fn published_slots(initial_on: bool) -> (SharedSlot<LedPin>, SharedSlot<TimerDevice>) {
    let mut led_slot: SharedSlot<LedPin> = SharedSlot::new();
    let mut timer_slot: SharedSlot<TimerDevice> = SharedSlot::new();
    led_slot.publish(LedPin::configure(initial_on));
    let clock = ClockTree::configure(8_000_000).expect("non-zero clock");
    let mut timer = TimerDevice::configure(5, &clock).expect("5 Hz at 8 MHz");
    timer.listen();
    timer_slot.publish(timer);
    (led_slot, timer_slot)
}

#[test]
fn handler_arms_on_first_invocation() {
    let (mut led_slot, mut timer_slot) = published_slots(false);
    let mut handler = Handler::new();
    assert!(!handler.armed());

    handler.on_timer_expiry(&mut led_slot, &mut timer_slot);
    assert!(handler.armed());
    assert!(led_slot.is_empty());
    assert!(timer_slot.is_empty());
}

#[test]
fn toggle_parity_over_invocations() {
    // Initial level high: after an odd number of invocations the level is
    // low, after an even number it is back high.
    let initial_on = true;
    let (mut led_slot, mut timer_slot) = published_slots(initial_on);
    let mut handler = Handler::new();

    for k in 1u64..=6 {
        handler.on_timer_expiry(&mut led_slot, &mut timer_slot);
        let led = handler.led().expect("armed after first invocation");
        let expected = if k % 2 == 0 { initial_on } else { !initial_on };
        assert_eq!(led.is_on(), expected);
        assert_eq!(led.toggle_count(), k);
    }
}

#[test]
fn ack_recorded_every_invocation_with_toggle_fault() {
    // The pin driver is programmed to report a fault on every toggle; the
    // timer must still be acknowledged exactly once per invocation.
    let mut led_slot: SharedSlot<LedPin> = SharedSlot::new();
    let mut timer_slot: SharedSlot<TimerDevice> = SharedSlot::new();
    let mut pin = LedPin::configure(false);
    pin.set_drive_fault(true);
    led_slot.publish(pin);
    let clock = ClockTree::configure(8_000_000).expect("non-zero clock");
    timer_slot.publish(TimerDevice::configure(5, &clock).expect("5 Hz at 8 MHz"));

    let mut handler = Handler::new();
    for k in 1u64..=4 {
        handler.on_timer_expiry(&mut led_slot, &mut timer_slot);
        let timer = handler.timer().expect("armed after first invocation");
        assert_eq!(timer.ack_count(), k);
    }
}

#[test]
fn ack_fault_discarded_and_still_recorded() {
    // The timer driver reports a fault on every acknowledge; the handler
    // discards it and keeps toggling and acknowledging.
    let mut led_slot: SharedSlot<LedPin> = SharedSlot::new();
    let mut timer_slot: SharedSlot<TimerDevice> = SharedSlot::new();
    led_slot.publish(LedPin::configure(false));
    let clock = ClockTree::configure(8_000_000).expect("non-zero clock");
    let mut timer = TimerDevice::configure(5, &clock).expect("5 Hz at 8 MHz");
    timer.set_ack_fault(true);
    timer_slot.publish(timer);

    let mut handler = Handler::new();
    for k in 1u64..=3 {
        handler.on_timer_expiry(&mut led_slot, &mut timer_slot);
        assert_eq!(handler.timer().expect("armed").ack_count(), k);
        assert_eq!(handler.led().expect("armed").toggle_count(), k);
    }
}

#[test]
fn first_take_happens_exactly_once() {
    let (mut led_slot, mut timer_slot) = published_slots(false);
    let mut handler = Handler::new();

    for _ in 0..5 {
        handler.on_timer_expiry(&mut led_slot, &mut timer_slot);
    }
    // Both slots were taken from on the first invocation only.
    assert_eq!(led_slot.take_count(), 1);
    assert_eq!(timer_slot.take_count(), 1);
    assert!(led_slot.is_empty());
    assert!(timer_slot.is_empty());
}

#[test]
fn pin_toggle_flips_and_counts() {
    let mut pin = LedPin::configure(false);
    assert_eq!(pin.toggle(), Ok(()));
    assert!(pin.is_on());
    assert_eq!(pin.toggle(), Ok(()));
    assert!(!pin.is_on());
    assert_eq!(pin.toggle_count(), 2);
}

#[test]
fn pin_drive_fault_reported_but_level_driven() {
    let mut pin = LedPin::configure(false);
    pin.set_drive_fault(true);
    assert_eq!(pin.toggle(), Err(PinFault::Drive));
    assert!(pin.is_on());
    assert_eq!(pin.toggle_count(), 1);
}

#[test]
fn timer_ack_fault_reported_but_recorded() {
    let clock = ClockTree::configure(100).expect("non-zero clock");
    let mut timer = TimerDevice::configure(10, &clock).expect("10 Hz at 100 Hz");
    timer.set_ack_fault(true);
    assert_eq!(timer.acknowledge(), Err(TimerFault::Acknowledge));
    assert_eq!(timer.ack_count(), 1);
}

#[test]
fn timer_listen_enables_expiry_source() {
    let clock = ClockTree::configure(100).expect("non-zero clock");
    let mut timer = TimerDevice::configure(10, &clock).expect("10 Hz at 100 Hz");
    assert!(!timer.is_listening());
    timer.listen();
    assert!(timer.is_listening());
    assert_eq!(timer.freq_hz(), 10);
}
