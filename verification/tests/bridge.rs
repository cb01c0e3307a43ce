use quad_bt::bridge::EventBridge;
use quad_bt::Message;

#[test]
fn new_bridge_has_no_session() {
    let mut bridge = EventBridge::new(5);
    assert_eq!(bridge.binding(), None);
    assert_eq!(bridge.opened(), 0);
    assert_eq!(bridge.retention(), 5);
    assert!(bridge.try_recv(0).is_none());
}

#[test]
fn without_a_binding_a_message_is_dropped() {
    let mut bridge = EventBridge::new(5);
    bridge.deliver(Message::Connected);
    let session = bridge.open();
    assert!(bridge.try_recv(session).is_none());
}

#[test]
fn sessions_are_numbered_in_the_order_opened() {
    let mut bridge = EventBridge::new(5);
    assert_eq!(bridge.open(), 0);
    assert_eq!(bridge.binding(), Some(0));
    assert_eq!(bridge.open(), 1);
    assert_eq!(bridge.open(), 2);
    assert_eq!(bridge.binding(), Some(2));
    assert_eq!(bridge.opened(), 3);
}

#[test]
fn a_message_goes_to_the_bound_session_only() {
    let mut bridge = EventBridge::new(5);
    let first = bridge.open();
    bridge.deliver(Message::Data(vec![1]));
    let second = bridge.open();
    bridge.deliver(Message::Data(vec![2]));
    bridge.deliver(Message::Disconnected);
    assert!(matches!(bridge.try_recv(first), Some(Message::Data(b)) if b == vec![1]));
    assert!(bridge.try_recv(first).is_none());
    assert!(matches!(bridge.try_recv(second), Some(Message::Data(b)) if b == vec![2]));
    assert!(matches!(bridge.try_recv(second), Some(Message::Disconnected)));
    assert!(bridge.try_recv(second).is_none());
}

#[test]
fn each_channel_has_the_bound_of_the_bridge() {
    let mut bridge = EventBridge::new(2);
    let session = bridge.open();
    for n in 0..5u8 {
        bridge.deliver(Message::Data(vec![n]));
    }
    assert!(matches!(bridge.try_recv(session), Some(Message::Data(b)) if b == vec![3]));
    assert!(matches!(bridge.try_recv(session), Some(Message::Data(b)) if b == vec![4]));
    assert!(bridge.try_recv(session).is_none());
}

#[test]
fn release_drops_the_channel_and_the_binding() {
    let mut bridge = EventBridge::new(5);
    let first = bridge.open();
    let second = bridge.open();
    bridge.deliver(Message::Connected);
    bridge.release(first);
    assert_eq!(bridge.binding(), Some(second));
    bridge.release(second);
    assert_eq!(bridge.binding(), None);
    assert!(bridge.try_recv(second).is_none());
    bridge.deliver(Message::Connected);
    assert!(bridge.try_recv(second).is_none());
    bridge.release(7);
    assert_eq!(bridge.opened(), 2);
    assert_eq!(bridge.open(), 2);
}
