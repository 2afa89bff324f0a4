use relay::hub::{Hub, RecvOutcome, DEFAULT_CAPACITY};
use relay::session::{format_message, session_step, SessionAction, SessionEvent, SessionState};

fn published_line(action: SessionAction) -> String {
    match action {
        SessionAction::PublishLine(m) => m,
        _ => panic!("expected a line to publish"),
    }
}

fn written_line(action: SessionAction) -> String {
    match action {
        SessionAction::WriteLine(m) => m,
        _ => panic!("expected a line to write"),
    }
}

#[test]
fn formats_line_with_peer_address_prefix() {
    let peer = String::from("127.0.0.1:9000");
    let line = String::from("hello");
    assert_eq!(format_message(&peer, &line), "127.0.0.1:9000: hello");
}

#[test]
fn successful_handshake_activates_and_subscribes() {
    let peer = String::from("10.0.0.7:50000");
    let (state, action) = session_step(SessionState::Handshaking, &peer, SessionEvent::HandshakeDone);
    assert_eq!(state, SessionState::Active);
    assert!(matches!(action, SessionAction::OpenSubscription));
}

#[test]
fn silent_session_still_handles_deliveries() {
    let peer = String::from("10.0.0.7:50000");
    let mut state = SessionState::Active;
    for i in 0..5 {
        let delivery = SessionEvent::HubDelivery(format!("other: msg {}", i));
        let (next, action) = session_step(state, &peer, delivery);
        assert_eq!(next, SessionState::Active);
        assert_eq!(written_line(action), format!("other: msg {}", i));
        state = next;
    }
}

#[test]
fn session_without_deliveries_still_publishes() {
    let peer = String::from("10.0.0.7:50000");
    let mut state = SessionState::Active;
    for i in 0..5 {
        let input = SessionEvent::LineArrived(format!("line {}", i));
        let (next, action) = session_step(state, &peer, input);
        assert_eq!(next, SessionState::Active);
        assert_eq!(published_line(action), format!("10.0.0.7:50000: line {}", i));
        state = next;
    }
}

#[test]
fn delivery_gap_is_absorbed_silently() {
    let peer = String::from("10.0.0.7:50000");
    let (state, action) = session_step(SessionState::Active, &peer, SessionEvent::DeliveryGap);
    assert_eq!(state, SessionState::Active);
    assert!(matches!(action, SessionAction::Stay));
}

#[test]
fn end_of_stream_closes_only_this_session() {
    let peer = String::from("10.0.0.7:50000");
    let (state, action) = session_step(SessionState::Active, &peer, SessionEvent::EndOfStream);
    assert_eq!(state, SessionState::Closed);
    assert!(matches!(action, SessionAction::EndSession));
}

#[test]
fn read_error_closes_session() {
    let peer = String::from("10.0.0.7:50000");
    let (state, action) = session_step(SessionState::Active, &peer, SessionEvent::ReadFailed);
    assert_eq!(state, SessionState::Closed);
    assert!(matches!(action, SessionAction::EndSession));
}

#[test]
fn write_error_closes_session() {
    let peer = String::from("10.0.0.7:50000");
    let (state, action) = session_step(SessionState::Active, &peer, SessionEvent::WriteFailed);
    assert_eq!(state, SessionState::Closed);
    assert!(matches!(action, SessionAction::EndSession));
}

#[test]
fn closed_is_terminal() {
    let peer = String::from("10.0.0.7:50000");
    let (state, action) = session_step(
        SessionState::Closed,
        &peer,
        SessionEvent::LineArrived(String::from("too late")),
    );
    assert_eq!(state, SessionState::Closed);
    assert!(matches!(action, SessionAction::Stay));
}

#[test]
fn relay_hello_to_earlier_clients_but_not_later_ones() {
    let mut hub = Hub::new(DEFAULT_CAPACITY);
    let peer_a = String::from("192.168.1.4:41000");
    let peer_b = String::from("192.168.1.5:41001");
    let peer_c = String::from("192.168.1.6:41002");

    // B and C connect first and subscribe on activation.
    let (state_b, action_b) = session_step(SessionState::Handshaking, &peer_b, SessionEvent::HandshakeDone);
    assert!(matches!(action_b, SessionAction::OpenSubscription));
    let mut sub_b = hub.subscribe();
    let (_state_c, action_c) = session_step(SessionState::Handshaking, &peer_c, SessionEvent::HandshakeDone);
    assert!(matches!(action_c, SessionAction::OpenSubscription));
    let mut sub_c = hub.subscribe();

    // A connects and sends `hello`.
    let (state_a, action_a) = session_step(SessionState::Handshaking, &peer_a, SessionEvent::HandshakeDone);
    assert_eq!(state_a, SessionState::Active);
    let mut _sub_a = hub.subscribe();
    let (_, publish) = session_step(state_a, &peer_a, SessionEvent::LineArrived(String::from("hello")));
    hub.publish(published_line(publish));

    // B and C each receive exactly the prefixed line and write it out
    // followed by a newline terminator.
    for (sub, peer) in [(&mut sub_b, &peer_b), (&mut sub_c, &peer_c)] {
        let delivered = match hub.recv(sub) {
            RecvOutcome::Message(m) => m,
            _ => panic!("expected a delivery"),
        };
        assert_eq!(delivered, "192.168.1.4:41000: hello");
        let (next, action) = session_step(state_b, peer, SessionEvent::HubDelivery(delivered));
        assert_eq!(next, SessionState::Active);
        assert_eq!(written_line(action), "192.168.1.4:41000: hello");
        assert!(matches!(hub.recv(sub), RecvOutcome::Empty));
    }

    // D connects after the message and receives nothing from it.
    let peer_d = String::from("192.168.1.7:41003");
    let (_state_d, action_d) = session_step(SessionState::Handshaking, &peer_d, SessionEvent::HandshakeDone);
    assert!(matches!(action_d, SessionAction::OpenSubscription));
    let mut sub_d = hub.subscribe();
    assert!(matches!(hub.recv(&mut sub_d), RecvOutcome::Empty));
}

#[test]
fn failed_handshake_does_not_block_the_next_connection() {
    let mut hub = Hub::new(DEFAULT_CAPACITY);

    // A malformed handshake attempt: the session closes without ever
    // subscribing, and nothing is published.
    let peer_bad = String::from("203.0.113.9:55555");
    let (state_bad, action_bad) =
        session_step(SessionState::Handshaking, &peer_bad, SessionEvent::HandshakeFailed);
    assert_eq!(state_bad, SessionState::Closed);
    assert!(matches!(action_bad, SessionAction::EndSession));

    // A subsequent, well-formed connection succeeds and relays normally.
    let peer_good = String::from("203.0.113.10:55556");
    let (state_good, action_good) =
        session_step(SessionState::Handshaking, &peer_good, SessionEvent::HandshakeDone);
    assert_eq!(state_good, SessionState::Active);
    assert!(matches!(action_good, SessionAction::OpenSubscription));
    let mut sub = hub.subscribe();

    let (_, publish) =
        session_step(state_good, &peer_good, SessionEvent::LineArrived(String::from("hi")));
    hub.publish(published_line(publish));
    match hub.recv(&mut sub) {
        RecvOutcome::Message(m) => assert_eq!(m, "203.0.113.10:55556: hi"),
        _ => panic!("expected a delivery"),
    }
}
