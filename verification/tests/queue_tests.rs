use led_button::press::PressType;
use led_button::queue::EventQueue;
use led_button::queue::QUEUE_CAPACITY;

#[test]
fn new_queue_is_empty() {
    let mut q = EventQueue::new();
    assert_eq!(q.len(), 0);
    assert_eq!(q.try_pop(), None);
}

#[test]
fn events_come_out_in_arrival_order() {
    let mut q = EventQueue::new();
    assert!(q.try_push(PressType::Short));
    assert!(q.try_push(PressType::Long));
    assert!(q.try_push(PressType::Double));
    assert_eq!(q.try_pop(), Some(PressType::Short));
    assert_eq!(q.try_pop(), Some(PressType::Long));
    assert_eq!(q.try_pop(), Some(PressType::Double));
    assert_eq!(q.try_pop(), None);
}

#[test]
fn fifth_push_backs_up_until_one_drains() {
    // The renderer is busy: four short presses pile up unconsumed.
    let mut q = EventQueue::new();
    for _ in 0..QUEUE_CAPACITY {
        assert!(q.try_push(PressType::Short));
    }
    assert_eq!(q.len(), QUEUE_CAPACITY);
    // A fifth press does not fit: the producer is held back and no event is
    // dropped or duplicated.
    assert!(!q.try_push(PressType::Long));
    assert_eq!(q.len(), QUEUE_CAPACITY);
    // The renderer drains one event; the waiting producer now succeeds.
    assert_eq!(q.try_pop(), Some(PressType::Short));
    assert!(q.try_push(PressType::Long));
    // Order is still arrival order.
    assert_eq!(q.try_pop(), Some(PressType::Short));
    assert_eq!(q.try_pop(), Some(PressType::Short));
    assert_eq!(q.try_pop(), Some(PressType::Short));
    assert_eq!(q.try_pop(), Some(PressType::Long));
    assert_eq!(q.try_pop(), None);
}

#[test]
fn push_after_pop_reuses_the_slot() {
    let mut q = EventQueue::new();
    for round in 0..10 {
        let p = if round % 2 == 0 { PressType::Short } else { PressType::Long };
        assert!(q.try_push(p));
        assert_eq!(q.try_pop(), Some(p));
    }
    assert_eq!(q.len(), 0);
}
