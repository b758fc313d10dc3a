use desktop_indicator::hub::{Phase, Step, Subscription};

#[test]
fn replay_comes_first_then_live_values_in_order() {
    let mut sub: Subscription<u32> = Subscription::new();
    assert_eq!(sub.phase_now(), Phase::Joining);
    assert_eq!(sub.replay(10), Step::Deliver(10));
    assert_eq!(sub.phase_now(), Phase::Live);
    assert_eq!(sub.receive(Some(11)), Step::Deliver(11));
    assert_eq!(sub.receive(Some(12)), Step::Deliver(12));
    assert!(sub.is_open());
}

#[test]
fn duplicate_of_replayed_state_is_delivered() {
    let mut sub: Subscription<u32> = Subscription::new();
    assert_eq!(sub.replay(3), Step::Deliver(3));
    assert_eq!(sub.receive(Some(3)), Step::Deliver(3));
}

#[test]
fn sentinel_stops_subscription() {
    let mut sub: Subscription<u32> = Subscription::new();
    sub.replay(1);
    assert_eq!(sub.receive(None), Step::Stop);
    assert_eq!(sub.phase_now(), Phase::Closed);
    assert!(!sub.is_open());
}

#[test]
fn second_sentinel_is_harmless() {
    let mut sub: Subscription<u32> = Subscription::new();
    sub.replay(1);
    assert_eq!(sub.receive(None), Step::Stop);
    assert_eq!(sub.receive(None), Step::Stop);
    assert_eq!(sub.receive(Some(9)), Step::Stop);
    assert_eq!(sub.phase_now(), Phase::Closed);
}
