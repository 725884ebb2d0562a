use axpoll::IoEvents;
use axraw::events::{readiness, wants_wakeup, IN_BIT, OUT_BIT};

#[test]
fn readiness_sets_the_bits_of_its_events() {
    assert_eq!(readiness(false, false).bits(), 0);
    assert_eq!(readiness(true, false).bits(), IoEvents::IN.bits());
    assert_eq!(readiness(false, true).bits(), IoEvents::OUT.bits());
    assert_eq!(readiness(true, true).bits(), (IoEvents::IN | IoEvents::OUT).bits());
}

#[test]
fn only_input_and_output_are_woken() {
    assert!(wants_wakeup(IoEvents::IN));
    assert!(wants_wakeup(IoEvents::OUT | IoEvents::HUP));
    assert!(!wants_wakeup(IoEvents::ERR | IoEvents::HUP));
    assert!(!wants_wakeup(IoEvents::empty()));
}

#[test]
fn the_bits_are_those_of_the_flags() {
    assert_eq!(IoEvents::IN.bits(), IN_BIT);
    assert_eq!(IoEvents::OUT.bits(), OUT_BIT);
}
