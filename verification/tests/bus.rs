use wand_control::button::ButtonEvent;
use wand_control::conn::ble::LovenseMessage;
use wand_control::event_queue::{Event, EventBus, EVENT_QUEUE_CAPACITY};

#[test]
fn new_bus_is_empty() {
    let mut bus = EventBus::new();
    assert_eq!(bus.len(), 0);
    assert_eq!(bus.poll(), None);
    assert_eq!(EVENT_QUEUE_CAPACITY, 64);
}

#[test]
fn sixty_fifth_event_is_dropped() {
    let mut bus = EventBus::new();
    for n in 0..65u8 {
        bus.publish(Event::SetPwm(n));
    }
    assert_eq!(bus.len(), 64);
    let mut seen = 0u8;
    while let Some(event) = bus.poll() {
        assert_eq!(event, Event::SetPwm(seen));
        seen += 1;
    }
    assert_eq!(seen, 64);
    assert_eq!(bus.len(), 0);
}

#[test]
fn events_come_out_in_the_order_they_went_in() {
    let mut bus = EventBus::new();
    bus.publish(Event::Button(ButtonEvent::SingleClick, 6));
    bus.publish(Event::Lovense(LovenseMessage::Vibrate(9)));
    bus.publish(Event::Null);
    assert_eq!(bus.len(), 3);
    assert_eq!(bus.poll(), Some(Event::Button(ButtonEvent::SingleClick, 6)));
    assert_eq!(bus.poll(), Some(Event::Lovense(LovenseMessage::Vibrate(9))));
    assert_eq!(bus.poll(), Some(Event::Null));
    assert_eq!(bus.poll(), None);
}

#[test]
fn a_drained_bus_takes_events_again() {
    let mut bus = EventBus::new();
    for round in 0..5u8 {
        for n in 0..70u8 {
            bus.publish(Event::SetPwm(n.wrapping_add(round)));
        }
        assert_eq!(bus.len(), 64);
        for n in 0..64u8 {
            assert_eq!(bus.poll(), Some(Event::SetPwm(n.wrapping_add(round))));
        }
        assert_eq!(bus.poll(), None);
    }
}

#[test]
fn a_full_bus_takes_one_event_for_each_one_taken_out() {
    let mut bus = EventBus::new();
    for n in 0..64u8 {
        bus.publish(Event::SetPwm(n));
    }
    bus.publish(Event::SetPwm(200));
    assert_eq!(bus.poll(), Some(Event::SetPwm(0)));
    bus.publish(Event::SetPwm(201));
    bus.publish(Event::SetPwm(202));
    assert_eq!(bus.len(), 64);
    for n in 1..64u8 {
        assert_eq!(bus.poll(), Some(Event::SetPwm(n)));
    }
    assert_eq!(bus.poll(), Some(Event::SetPwm(201)));
    assert_eq!(bus.poll(), None);
}

#[test]
fn split_hands_out_the_same_queue() {
    let mut bus = EventBus::new();
    bus.publish(Event::SetPwm(1));
    bus.publish(Event::SetPwm(2));
    let (tx, rx) = bus.split();
    assert_eq!(tx.capacity(), 64);
    assert_eq!(rx.len(), 2);
    assert!(tx.try_send(Event::SetPwm(3)).is_ok());
    assert_eq!(rx.recv(), Some(Event::SetPwm(1)));
    assert_eq!(rx.recv(), Some(Event::SetPwm(2)));
    assert_eq!(rx.recv(), Some(Event::SetPwm(3)));
    drop(tx);
    assert_eq!(rx.recv(), None);
}

#[test]
fn default_event_is_the_placeholder() {
    assert_eq!(Event::default(), Event::Null);
}

#[test]
fn button_pairs_become_button_events() {
    assert_eq!(Event::from((ButtonEvent::DoubleClick, 7)), Event::Button(ButtonEvent::DoubleClick, 7));
    let event: Event = (ButtonEvent::SingleClick, -1).into();
    assert_eq!(event, Event::Button(ButtonEvent::SingleClick, -1));
}
