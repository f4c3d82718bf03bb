use chatd::{
    broadcast_message, connect_client, deliver_chat_message, disconnect_client, format_chat_line,
    generate_client_id, reader_step, writer_after_send, writer_step, ChatError, ChatHub,
    InboundFrame, PersistOutcome, ReaderAction, RecvOutcome, Store, User, WriterAction,
    WriterEvent, BUS_CAPACITY,
};

fn user(name: &str, uuid: u128) -> User {
    User {
        username: name.to_string(),
        password_hash: "x".repeat(60),
        invitation_code: "welcome".to_string(),
        user_uuid: uuid,
    }
}

fn recv_message(hub: &ChatHub, r: &mut chatd::ChatReceiver) -> String {
    match hub.recv(r) {
        RecvOutcome::Message(m) => m,
        RecvOutcome::Empty => panic!("expected a message, bus was empty"),
        RecvOutcome::Lagged => panic!("expected a message, receiver lagged"),
    }
}

#[test]
fn broadcast_reaches_all_subscribers_in_send_order() {
    let mut hub = ChatHub::new(BUS_CAPACITY);
    let mut a = hub.subscribe();
    let mut b = hub.subscribe();
    let mut c = hub.subscribe();
    // Connection A publishes two lines; everyone, A included, sees both in
    // send order.
    hub.publish("alice: hi".to_string());
    hub.publish("alice: there".to_string());
    for r in [&mut a, &mut b, &mut c] {
        assert_eq!(recv_message(&hub, r), "alice: hi");
        assert_eq!(recv_message(&hub, r), "alice: there");
        assert!(matches!(hub.recv(r), RecvOutcome::Empty));
    }
}

#[test]
fn late_subscriber_sees_only_later_lines() {
    let mut hub = ChatHub::new(BUS_CAPACITY);
    hub.publish("early".to_string());
    let mut r = hub.subscribe();
    hub.publish("late".to_string());
    assert_eq!(recv_message(&hub, &mut r), "late");
    assert!(matches!(hub.recv(&mut r), RecvOutcome::Empty));
}

#[test]
fn slow_receiver_lags_past_capacity_and_resumes_at_oldest_retained() {
    let mut hub = ChatHub::new(2);
    let mut r = hub.subscribe();
    for line in ["a", "b", "c", "d", "e"] {
        hub.publish(line.to_string());
    }
    assert!(matches!(hub.recv(&mut r), RecvOutcome::Lagged));
    assert_eq!(recv_message(&hub, &mut r), "d");
    assert_eq!(recv_message(&hub, &mut r), "e");
    assert!(matches!(hub.recv(&mut r), RecvOutcome::Empty));
}

#[test]
fn persistence_failure_does_not_stop_broadcast() {
    let mut saved_hub = ChatHub::new(BUS_CAPACITY);
    let mut failed_hub = ChatHub::new(BUS_CAPACITY);
    let mut r_saved = saved_hub.subscribe();
    let mut r_failed = failed_hub.subscribe();
    broadcast_message(&mut saved_hub, PersistOutcome::Saved, "bob: hi".to_string());
    broadcast_message(&mut failed_hub, PersistOutcome::Failed, "bob: hi".to_string());
    assert_eq!(recv_message(&saved_hub, &mut r_saved), "bob: hi");
    assert_eq!(recv_message(&failed_hub, &mut r_failed), "bob: hi");
    assert_eq!(saved_hub.sent, failed_hub.sent);
}

#[test]
fn deliver_persists_and_broadcasts_independently() {
    let mut store = Store::new();
    let mut hub = ChatHub::new(BUS_CAPACITY);
    let mut r = hub.subscribe();
    deliver_chat_message(&mut store, &mut hub, "hi", "bob: hi".to_string(), 7, 1000);
    assert_eq!(store.messages.len(), 1);
    assert_eq!(store.messages[0].message, "hi");
    assert_eq!(store.messages[0].user_uuid, Some(7));
    assert_eq!(store.messages[0].created_at, 1000);
    assert_eq!(recv_message(&hub, &mut r), "bob: hi");
}

#[test]
fn reader_step_parses_text_frame_and_formats_line() {
    let frame =
        InboundFrame::Text(r#"{"message":"hi there","ip":"1.2.3.4","mac":"aa:bb"}"#.to_string());
    match reader_step(&frame, "bob") {
        ReaderAction::Publish(body, line) => {
            assert_eq!(body, "hi there");
            assert_eq!(line, "bob: hi there");
        }
        _ => panic!("a parseable text frame must be published"),
    }
}

#[test]
fn reader_step_ignores_unparseable_text() {
    let garbled = InboundFrame::Text("not json".to_string());
    assert!(matches!(reader_step(&garbled, "bob"), ReaderAction::Ignore));
    let missing_mac = InboundFrame::Text(r#"{"message":"hi","ip":"1.2.3.4"}"#.to_string());
    assert!(matches!(reader_step(&missing_mac, "bob"), ReaderAction::Ignore));
    let wrong_type = InboundFrame::Text(r#"{"message":5,"ip":"1.2.3.4","mac":"aa"}"#.to_string());
    assert!(matches!(reader_step(&wrong_type, "bob"), ReaderAction::Ignore));
}

#[test]
fn reader_step_disconnects_on_close_and_skips_other_frames() {
    assert!(matches!(reader_step(&InboundFrame::Close, "bob"), ReaderAction::Disconnect));
    assert!(matches!(reader_step(&InboundFrame::Other, "bob"), ReaderAction::Ignore));
}

#[test]
fn chat_line_formatting_is_exact() {
    assert_eq!(format_chat_line("alice", "hello"), "alice: hello");
    assert_eq!(format_chat_line("", ""), ": ");
}

#[test]
fn connect_registers_and_replays_history() {
    let mut store = Store::new();
    store.users.push(user("alice", 1));
    store.save_message_to_db("first", 1, 10);
    store.save_message_to_db("second", 1, 20);
    let mut hub = ChatHub::new(BUS_CAPACITY);
    hub.publish("old line".to_string());
    let client = connect_client(&store, &mut hub, 1, "conn-1".to_string())
        .expect("known user must connect");
    assert_eq!(client.username, "alice");
    assert_eq!(client.client_id, "conn-1");
    assert_eq!(client.history, vec!["alice: first".to_string(), "alice: second".to_string()]);
    assert_eq!(hub.clients, vec!["conn-1".to_string()]);
    // The fresh receiver sees only lines published after connecting.
    let mut r = client.receiver;
    assert!(matches!(hub.recv(&mut r), RecvOutcome::Empty));
    hub.publish("alice: hi".to_string());
    assert_eq!(recv_message(&hub, &mut r), "alice: hi");
}

#[test]
fn connect_unknown_user_is_refused() {
    let store = Store::new();
    let mut hub = ChatHub::new(BUS_CAPACITY);
    let refused = connect_client(&store, &mut hub, 99, "conn-9".to_string());
    assert!(matches!(refused, Err(ChatError::UnknownUser)));
    assert!(hub.clients.is_empty());
}

#[test]
fn disconnect_removes_registry_entry() {
    let mut hub = ChatHub::new(BUS_CAPACITY);
    hub.register("conn-1".to_string());
    hub.register("conn-2".to_string());
    disconnect_client(&mut hub, "conn-1");
    assert_eq!(hub.clients, vec!["conn-2".to_string()]);
    // Removing it again changes nothing.
    disconnect_client(&mut hub, "conn-1");
    assert_eq!(hub.clients, vec!["conn-2".to_string()]);
}

#[test]
fn registering_twice_keeps_one_entry() {
    let mut hub = ChatHub::new(BUS_CAPACITY);
    hub.register("conn-1".to_string());
    hub.register("conn-1".to_string());
    assert_eq!(hub.clients, vec!["conn-1".to_string()]);
}

#[test]
fn writer_loop_pings_forwards_and_cleans_up() {
    assert!(matches!(writer_step(WriterEvent::PingTick), WriterAction::SendPing));
    match writer_step(WriterEvent::Received("bob: hi".to_string())) {
        WriterAction::Forward(line) => assert_eq!(line, "bob: hi"),
        WriterAction::SendPing => panic!("a received line must be forwarded"),
    }
    let mut hub = ChatHub::new(BUS_CAPACITY);
    hub.register("conn-1".to_string());
    assert!(writer_after_send(&mut hub, "conn-1", true));
    assert_eq!(hub.clients, vec!["conn-1".to_string()]);
    assert!(!writer_after_send(&mut hub, "conn-1", false));
    assert!(hub.clients.is_empty());
}

#[test]
fn client_ids_are_uuid_shaped() {
    let id = generate_client_id();
    assert_eq!(id.len(), 36);
    for (i, c) in id.chars().enumerate() {
        if i == 8 || i == 13 || i == 18 || i == 23 {
            assert_eq!(c, '-');
        } else {
            assert!(c.is_ascii_hexdigit() && !c.is_ascii_uppercase());
        }
    }
    assert_ne!(generate_client_id(), id);
}
