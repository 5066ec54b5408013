use service_manager::bus::{extract_frame, format_event, EventChannel, RecvOutcome};

fn recv_message(channel: &EventChannel, rx: &mut service_manager::bus::EventReceiver) -> String {
    match channel.recv(rx) {
        RecvOutcome::Message(m) => m,
        RecvOutcome::Lagged => panic!("unexpected lag"),
        RecvOutcome::Empty => panic!("unexpected empty channel"),
    }
}

#[test]
fn frame_carries_topic_and_payload_verbatim() {
    let frame = format_event("home/services/led_manager/command", "{\"action\":\"on\"}");
    assert_eq!(frame, "topic 'home/services/led_manager/command': {\"action\":\"on\"}");
}

#[test]
fn frame_reads_back_what_it_was_built_from() {
    let frame = format_event("a/b/status", "{\"status\": \"ok\"}");
    let (topic, payload) = extract_frame(&frame).unwrap();
    assert_eq!(topic, "a/b/status");
    assert_eq!(payload, "{\"status\": \"ok\"}");
}

#[test]
fn text_without_frame_leader_extracts_nothing() {
    assert!(extract_frame("just some log line").is_none());
    assert!(extract_frame("topic 'no separator here").is_none());
}

#[test]
fn subscriber_sees_every_later_message_in_order() {
    let mut channel = EventChannel::new(100);
    let mut rx = channel.subscribe();
    channel.send("one".to_string());
    channel.send("two".to_string());
    channel.send("three".to_string());
    assert_eq!(recv_message(&channel, &mut rx), "one");
    assert_eq!(recv_message(&channel, &mut rx), "two");
    assert_eq!(recv_message(&channel, &mut rx), "three");
    assert!(matches!(channel.recv(&mut rx), RecvOutcome::Empty));
}

#[test]
fn late_subscriber_sees_no_replay() {
    let mut channel = EventChannel::new(100);
    channel.send("before".to_string());
    let mut rx = channel.subscribe();
    assert!(matches!(channel.recv(&mut rx), RecvOutcome::Empty));
    channel.send("after".to_string());
    assert_eq!(recv_message(&channel, &mut rx), "after");
    assert!(matches!(channel.recv(&mut rx), RecvOutcome::Empty));
}

#[test]
fn independent_subscribers_each_get_the_stream() {
    let mut channel = EventChannel::new(100);
    let mut a = channel.subscribe();
    let mut b = channel.subscribe();
    channel.send("m".to_string());
    assert_eq!(recv_message(&channel, &mut a), "m");
    // a slow or disconnected peer does not affect the other
    assert_eq!(recv_message(&channel, &mut b), "m");
    assert!(matches!(channel.recv(&mut a), RecvOutcome::Empty));
}

#[test]
fn a_full_window_drops_the_oldest_unread_message() {
    let mut channel = EventChannel::new(2);
    let mut rx = channel.subscribe();
    channel.send("one".to_string());
    channel.send("two".to_string());
    channel.send("three".to_string());
    // the receiver fell behind: it is told so, then reads what is retained
    assert!(matches!(channel.recv(&mut rx), RecvOutcome::Lagged));
    assert_eq!(recv_message(&channel, &mut rx), "two");
    assert_eq!(recv_message(&channel, &mut rx), "three");
    assert!(matches!(channel.recv(&mut rx), RecvOutcome::Empty));
}

#[test]
fn keeping_up_avoids_any_loss() {
    let mut channel = EventChannel::new(2);
    let mut rx = channel.subscribe();
    for i in 0..10 {
        channel.send(format!("m{}", i));
        assert_eq!(recv_message(&channel, &mut rx), format!("m{}", i));
    }
}
