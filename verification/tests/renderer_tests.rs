use led_button::led::LedController;
use led_button::led::TickEvent;
use led_button::press::PressType;
use led_button::queue::EventQueue;
use led_button::renderer::drain_pending;
use led_button::renderer::poll_cycle;

#[test]
fn waiting_event_wins_the_race() {
    let mut led = LedController::new();
    let mut queue = EventQueue::new();
    assert!(queue.try_push(PressType::Short));
    assert!(poll_cycle(&mut led, &mut queue));
    assert_eq!(led.current_brightness(), 100);
    assert_eq!(queue.len(), 0);
}

#[test]
fn empty_queue_lets_the_timer_fire() {
    let mut led = LedController::new();
    led.tick(TickEvent::Press(PressType::Short));
    led.tick(TickEvent::Press(PressType::Long));
    assert_eq!(led.current_brightness(), 100);
    let mut queue = EventQueue::new();
    // Blinking races a timer; with nothing queued the timer branch wins and
    // the phase flips.
    assert!(poll_cycle(&mut led, &mut queue));
    assert_eq!(led.current_brightness(), 0);
}

#[test]
fn off_and_on_wait_for_a_press() {
    let mut led = LedController::new();
    let mut queue = EventQueue::new();
    // Off has no timer and the queue is empty: nothing happens.
    assert!(!poll_cycle(&mut led, &mut queue));
    assert_eq!(led.current_brightness(), 0);
    led.tick(TickEvent::Press(PressType::Short));
    assert!(!poll_cycle(&mut led, &mut queue));
    assert_eq!(led.current_brightness(), 100);
}

#[test]
fn draining_applies_presses_in_arrival_order() {
    let mut led = LedController::new();
    let mut queue = EventQueue::new();
    // Off --Short--> On --Long--> Blinking(true).
    assert!(queue.try_push(PressType::Short));
    assert!(queue.try_push(PressType::Long));
    drain_pending(&mut led, &mut queue);
    assert_eq!(queue.len(), 0);
    assert_eq!(led.current_brightness(), 100);
    // The same presses in the other order end Off instead.
    let mut led2 = LedController::new();
    let mut queue2 = EventQueue::new();
    assert!(queue2.try_push(PressType::Long));
    assert!(queue2.try_push(PressType::Short));
    drain_pending(&mut led2, &mut queue2);
    assert_eq!(led2.current_brightness(), 0);
}
