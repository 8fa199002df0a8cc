use uwebsockets_rs::lifecycle::LifecycleError;
use uwebsockets_rs::lifecycle::WsActivity;
use uwebsockets_rs::lifecycle::WsLifecycle;
use uwebsockets_rs::lifecycle::WsPhase;
use uwebsockets_rs::websocket::Broker;
use uwebsockets_rs::websocket::Opcode;
use uwebsockets_rs::websocket::SendStatus;
use uwebsockets_rs::websocket::WebSocketStruct;

#[test]
fn send_flushes_when_peer_keeps_up() {
    let mut ws = WebSocketStruct::new(None, 1024);
    assert_eq!(ws.send(b"hello", Opcode::Text), SendStatus::Success);
    assert_eq!(ws.outbox.len(), 1);
    assert_eq!(ws.outbox[0].payload, b"hello".to_vec());
    assert_eq!(ws.outbox[0].opcode, Opcode::Text);
    assert!(ws.outbox[0].fin);
    assert!(!ws.outbox[0].compress);
    assert_eq!(ws.get_buffered_amount(), 0);
}

#[test]
fn backpressure_then_drop_then_drain_recovers() {
    let mut ws = WebSocketStruct::new(None, 4);
    ws.peer_ready = false;
    assert_eq!(ws.send(b"abc", Opcode::Binary), SendStatus::Backpressure);
    assert_eq!(ws.get_buffered_amount(), 3);
    // Past the threshold the message is dropped, not queued.
    assert_eq!(ws.send(b"de", Opcode::Binary), SendStatus::Dropped);
    assert_eq!(ws.get_buffered_amount(), 3);
    assert_eq!(ws.outbox.len(), 1);
    // After the drain notification a retry succeeds.
    ws.drain();
    assert_eq!(ws.send(b"de", Opcode::Binary), SendStatus::Success);
    assert_eq!(ws.outbox.len(), 2);
}

#[test]
fn echo_round_trip_is_byte_identical() {
    // One peer sends a Text message; the far handler echoes it with
    // send_with_options(msg, opcode, compress = false, fin = true); the
    // payload survives both directions unchanged.
    let sent = b"round trip \xf0\x9f\x8e\xaf bytes";
    let mut sender = WebSocketStruct::new(None, 1024);
    assert_eq!(sender.send(sent, Opcode::Text), SendStatus::Success);
    let on_the_wire = sender.outbox[0].payload.clone();
    assert_eq!(on_the_wire, sent.to_vec());

    let mut receiver = WebSocketStruct::new(None, 1024);
    receiver.deliver_message(&on_the_wire, Opcode::Text, false);
    let received = receiver.inbox[0].payload.clone();
    assert_eq!(received, sent.to_vec());

    // The echo leg.
    assert_eq!(
        receiver.send_with_options(&received, Opcode::Text, false, true),
        SendStatus::Success
    );
    assert_eq!(receiver.outbox[0].payload, sent.to_vec());
    assert!(receiver.outbox[0].fin);
    assert!(!receiver.outbox[0].compress);
}

#[test]
fn fragment_sends_use_the_documented_opcodes() {
    let mut ws = WebSocketStruct::new(None, 1024);
    ws.send_first_fragment(b"one", false);
    ws.send_fragment(b"two", false);
    ws.send_last_fragment(b"three", false);
    ws.send_first_fragment_with_opcode(b"four", true, Opcode::Text);
    assert_eq!(ws.outbox[0].opcode, Opcode::Binary);
    assert!(!ws.outbox[0].fin);
    assert_eq!(ws.outbox[1].opcode, Opcode::Continuation);
    assert!(!ws.outbox[1].fin);
    assert_eq!(ws.outbox[2].opcode, Opcode::Continuation);
    assert!(ws.outbox[2].fin);
    assert_eq!(ws.outbox[3].opcode, Opcode::Text);
    assert!(ws.outbox[3].compress);
    assert!(!ws.outbox[3].fin);
}

#[test]
fn unsubscribe_twice_is_idempotent() {
    let mut ws = WebSocketStruct::new(None, 1024);
    assert!(ws.subscribe(b"room1"));
    assert!(ws.is_subscribed(b"room1"));
    assert!(ws.unsubscribe(b"room1"));
    assert!(!ws.is_subscribed(b"room1"));
    let topics_after_first = ws.iterate_topics().clone();
    // The second unsubscribe is a no-op, not a fault.
    assert!(!ws.unsubscribe(b"room1"));
    assert!(!ws.is_subscribed(b"room1"));
    assert_eq!(ws.iterate_topics().clone(), topics_after_first);
}

#[test]
fn subscribe_twice_keeps_one_membership() {
    let mut ws = WebSocketStruct::new(None, 1024);
    assert!(ws.subscribe(b"news"));
    assert!(ws.subscribe(b"news"));
    assert_eq!(ws.iterate_topics().len(), 1);
    assert!(ws.unsubscribe(b"news"));
    assert!(!ws.is_subscribed(b"news"));
}

#[test]
fn publish_reaches_all_subscribers_including_publisher() {
    let mut broker = Broker::new();
    let mut publisher = WebSocketStruct::new(Some(1), 1024);
    publisher.subscribe(b"room1");
    let mut member = WebSocketStruct::new(Some(2), 1024);
    member.subscribe(b"room1");
    member.subscribe(b"other");
    let outsider = WebSocketStruct::new(Some(3), 1024);
    broker.add(publisher);
    broker.add(member);
    broker.add(outsider);

    assert!(broker.publish(b"room1", b"hi", Opcode::Binary, false));

    assert_eq!(broker.connections[0].inbox.len(), 1);
    assert_eq!(broker.connections[0].inbox[0].payload, b"hi".to_vec());
    assert_eq!(broker.connections[1].inbox.len(), 1);
    assert_eq!(broker.connections[1].inbox[0].payload, b"hi".to_vec());
    assert_eq!(broker.connections[2].inbox.len(), 0);
}

#[test]
fn publish_without_subscribers_is_a_no_op() {
    let mut broker = Broker::new();
    broker.add(WebSocketStruct::new(None, 1024));
    assert!(broker.publish(b"empty-room", b"hi", Opcode::Text, false));
    assert_eq!(broker.connections[0].inbox.len(), 0);
}

#[test]
fn close_records_code_and_reason() {
    let mut ws = WebSocketStruct::new(None, 1024);
    ws.end(1000, Some(b"bye"));
    assert!(ws.closed);
    assert_eq!(ws.close_code, Some(1000));
    assert_eq!(ws.close_message, Some(b"bye".to_vec()));

    let mut ws2 = WebSocketStruct::new(None, 1024);
    ws2.close();
    assert!(ws2.closed);
    assert_eq!(ws2.close_code, None);
}

#[test]
fn cork_hands_back_the_closure_token() {
    let mut ws = WebSocketStruct::new(None, 1024);
    assert_eq!(ws.cork(55), 55);
}

#[test]
fn user_data_token_is_kept() {
    let ws = WebSocketStruct::new(Some(99), 1024);
    assert_eq!(ws.get_user_data(), Some(99));
    let anon = WebSocketStruct::new(None, 1024);
    assert_eq!(anon.get_user_data(), None);
}

#[test]
fn lifecycle_open_fires_once_before_anything() {
    let mut lc = WsLifecycle::new();
    // Nothing may fire before `open`.
    assert_eq!(lc.deliver_activity(WsActivity::Message), Err(LifecycleError::NotOpened));
    assert_eq!(lc.deliver_close(), Err(LifecycleError::NotOpened));
    // `open` fires exactly once.
    assert!(lc.deliver_open().is_ok());
    assert_eq!(lc.deliver_open(), Err(LifecycleError::AlreadyOpened));
    // Interleaved events flow while active.
    assert_eq!(lc.deliver_activity(WsActivity::Message), Ok(WsActivity::Message));
    assert_eq!(lc.deliver_activity(WsActivity::Ping), Ok(WsActivity::Ping));
    assert_eq!(lc.deliver_activity(WsActivity::Pong), Ok(WsActivity::Pong));
    assert_eq!(lc.deliver_activity(WsActivity::Drain), Ok(WsActivity::Drain));
    // `close` fires exactly once; afterwards nothing fires.
    assert!(lc.deliver_close().is_ok());
    assert_eq!(lc.phase, WsPhase::Closed);
    assert_eq!(lc.deliver_close(), Err(LifecycleError::AlreadyClosed));
    assert_eq!(lc.deliver_activity(WsActivity::Message), Err(LifecycleError::AlreadyClosed));
    assert_eq!(lc.deliver_open(), Err(LifecycleError::AlreadyClosed));
}
