use quad_bt::channel::Channel;
use quad_bt::Message;

fn data(n: u8) -> Message {
    Message::Data(vec![n])
}

fn drain(channel: &mut Channel) -> Vec<Message> {
    let mut out = Vec::new();
    while let Some(m) = channel.try_recv() {
        out.push(m);
    }
    out
}

fn payloads(messages: &[Message]) -> Vec<Option<u8>> {
    messages
        .iter()
        .map(|m| match m {
            Message::Data(bytes) => Some(bytes[0]),
            _ => None,
        })
        .collect()
}

#[test]
fn empty_channel_has_nothing_pending() {
    let mut channel = Channel::new(20);
    assert_eq!(channel.len(), 0);
    assert_eq!(channel.retention(), 20);
    assert!(channel.try_recv().is_none());
    assert!(channel.try_recv().is_none());
}

#[test]
fn messages_leave_in_the_order_they_came() {
    let mut channel = Channel::new(20);
    channel.push(Message::Connected);
    channel.push(Message::Data(vec![1, 2]));
    channel.push(Message::Data(vec![3, 4]));
    channel.push(Message::Disconnected);
    assert_eq!(channel.len(), 4);
    assert!(matches!(channel.try_recv(), Some(Message::Connected)));
    assert!(matches!(channel.try_recv(), Some(Message::Data(b)) if b == vec![1, 2]));
    assert!(matches!(channel.try_recv(), Some(Message::Data(b)) if b == vec![3, 4]));
    assert!(matches!(channel.try_recv(), Some(Message::Disconnected)));
    assert!(channel.try_recv().is_none());
    assert_eq!(channel.len(), 0);
}

#[test]
fn exactly_the_bound_is_retained_without_loss() {
    let mut channel = Channel::new(20);
    for n in 0..20 {
        channel.push(data(n));
    }
    let out = drain(&mut channel);
    assert_eq!(payloads(&out), (0..20).map(Some).collect::<Vec<_>>());
}

#[test]
fn beyond_the_bound_the_oldest_data_is_dropped_not_the_newest() {
    let mut channel = Channel::new(20);
    for n in 0..25 {
        channel.push(data(n));
    }
    assert_eq!(channel.len(), 20);
    let out = drain(&mut channel);
    assert_eq!(payloads(&out), (5..25).map(Some).collect::<Vec<_>>());
}

#[test]
fn control_messages_are_never_dropped_by_backpressure() {
    let mut channel = Channel::new(2);
    channel.push(Message::Connected);
    channel.push(data(0));
    channel.push(Message::Disconnected);
    channel.push(data(1));
    channel.push(Message::Connected);
    channel.push(data(2));
    channel.push(data(3));
    channel.push(Message::Disconnected);
    let out = drain(&mut channel);
    assert_eq!(
        payloads(&out),
        vec![None, None, None, Some(2), Some(3), None]
    );
    assert!(matches!(out[0], Message::Connected));
    assert!(matches!(out[1], Message::Disconnected));
    assert!(matches!(out[2], Message::Connected));
    assert!(matches!(out[5], Message::Disconnected));
}

#[test]
fn many_control_messages_are_all_kept() {
    let mut channel = Channel::new(1);
    for _ in 0..100 {
        channel.push(Message::Connected);
    }
    assert_eq!(channel.len(), 100);
}

#[test]
fn a_bound_of_zero_retains_no_data() {
    let mut channel = Channel::new(0);
    channel.push(data(1));
    channel.push(Message::Connected);
    channel.push(data(2));
    let out = drain(&mut channel);
    assert_eq!(out.len(), 1);
    assert!(matches!(out[0], Message::Connected));
}

#[test]
fn a_bound_of_one_keeps_the_latest_data() {
    let mut channel = Channel::new(1);
    channel.push(data(1));
    channel.push(data(2));
    channel.push(data(3));
    let out = drain(&mut channel);
    assert_eq!(payloads(&out), vec![Some(3)]);
}

#[test]
fn draining_makes_room_again() {
    let mut channel = Channel::new(2);
    channel.push(data(1));
    channel.push(data(2));
    assert!(matches!(channel.try_recv(), Some(Message::Data(b)) if b == vec![1]));
    channel.push(data(3));
    let out = drain(&mut channel);
    assert_eq!(payloads(&out), vec![Some(2), Some(3)]);
}

#[test]
fn eviction_takes_the_oldest_data_even_behind_control_messages() {
    let mut channel = Channel::new(2);
    channel.push(Message::Connected);
    channel.push(Message::Connected);
    channel.push(data(1));
    channel.push(data(2));
    channel.push(data(3));
    let out = drain(&mut channel);
    assert_eq!(payloads(&out), vec![None, None, Some(2), Some(3)]);
}

#[test]
fn is_data_tells_data_from_control() {
    assert!(data(1).is_data());
    assert!(Message::Data(Vec::new()).is_data());
    assert!(!Message::Connected.is_data());
    assert!(!Message::Disconnected.is_data());
}
