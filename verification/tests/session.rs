use blazechat::message::{stamp_message, ClientMessage, ServerMessage};
use blazechat::metrics::Metrics;
use blazechat::session::{Session, SessionAction, SessionEvent, SessionPhase};
use std::sync::Arc;

fn broadcast(room: &str) -> Arc<ServerMessage> {
    let input = ClientMessage {
        room: room.to_string(),
        user: "u".to_string(),
        text: "t".to_string(),
        client_ts_ns: 1,
        sequence: 2,
    };
    Arc::new(stamp_message("one", input, 3, 4))
}

fn join(session: &mut Session, counts: &mut Metrics, room: &str) {
    session.step(counts, SessionEvent::Text("{}".to_string()));
    session.step(counts, SessionEvent::Published(room.to_string()));
}

#[test]
fn sessions_are_counted_while_open() {
    let mut counts = Metrics::default();
    let mut a = Session::open(&mut counts);
    let mut b = Session::open(&mut counts);
    assert_eq!((counts.connections, counts.accepted), (2, 2));
    assert!(matches!(a.step(&mut counts, SessionEvent::PeerGone), SessionAction::Close));
    assert_eq!((counts.connections, counts.accepted), (1, 2));
    assert!(matches!(b.step(&mut counts, SessionEvent::BroadcastClosed), SessionAction::Close));
    assert_eq!((counts.connections, counts.accepted), (0, 2));
    assert_eq!(a.phase(), SessionPhase::Closed);
    assert!(!a.accepts(&SessionEvent::PeerGone));
}

#[test]
fn clients_join_the_rooms_that_they_publish_to() {
    let mut counts = Metrics::default();
    let mut session = Session::open(&mut counts);
    match session.step(&mut counts, SessionEvent::Text("{\"x\"}".to_string())) {
        SessionAction::Publish(json) => assert_eq!(json, "{\"x\"}"),
        _ => panic!("the text is not published"),
    }
    assert_eq!(session.phase(), SessionPhase::Publishing);
    assert!(!session.is_in("lobby"));
    let action = session.step(&mut counts, SessionEvent::Published("lobby".to_string()));
    assert!(matches!(action, SessionAction::Receive));
    assert!(session.is_in("lobby"));
    assert!(!session.is_in("attic"));
}

#[test]
fn rejected_messages_join_no_room() {
    let mut counts = Metrics::default();
    let mut session = Session::open(&mut counts);
    session.step(&mut counts, SessionEvent::Text("?".to_string()));
    let action = session.step(&mut counts, SessionEvent::Rejected);
    assert!(matches!(action, SessionAction::Receive));
    let action = session.step(&mut counts, SessionEvent::Broadcast(broadcast("lobby")));
    assert!(matches!(action, SessionAction::Receive));
    assert_eq!(session.phase(), SessionPhase::Idle);
}

#[test]
fn messages_of_joined_rooms_are_delivered() {
    let mut counts = Metrics::default();
    let mut session = Session::open(&mut counts);
    join(&mut session, &mut counts, "lobby");
    match session.step(&mut counts, SessionEvent::Broadcast(broadcast("lobby"))) {
        SessionAction::Encode(message) => assert_eq!(message.id, 3),
        _ => panic!("the message is not passed on"),
    }
    match session.step(&mut counts, SessionEvent::Encoded("json".to_string())) {
        SessionAction::Send(json) => assert_eq!(json, "json"),
        _ => panic!("the message is not sent"),
    }
    assert_eq!(counts.delivered, 0);
    assert!(matches!(session.step(&mut counts, SessionEvent::Sent), SessionAction::Receive));
    assert_eq!(counts.delivered, 1);
}

#[test]
fn messages_of_other_rooms_go_by() {
    let mut counts = Metrics::default();
    let mut session = Session::open(&mut counts);
    join(&mut session, &mut counts, "lobby");
    let action = session.step(&mut counts, SessionEvent::Broadcast(broadcast("attic")));
    assert!(matches!(action, SessionAction::Receive));
    assert_eq!(counts.delivered, 0);
}

#[test]
fn messages_that_cannot_be_encoded_are_passed_over() {
    let mut counts = Metrics::default();
    let mut session = Session::open(&mut counts);
    join(&mut session, &mut counts, "lobby");
    session.step(&mut counts, SessionEvent::Broadcast(broadcast("lobby")));
    let action = session.step(&mut counts, SessionEvent::EncodeFailed);
    assert!(matches!(action, SessionAction::Receive));
    assert_eq!((counts.delivered, counts.connections), (0, 1));
}

#[test]
fn pings_are_answered_and_not_counted() {
    let mut counts = Metrics::default();
    let mut session = Session::open(&mut counts);
    match session.step(&mut counts, SessionEvent::Ping(vec![1, 2, 3])) {
        SessionAction::Pong(payload) => assert_eq!(payload, vec![1, 2, 3]),
        _ => panic!("the ping is not answered"),
    }
    assert!(matches!(session.step(&mut counts, SessionEvent::Sent), SessionAction::Receive));
    assert_eq!(counts.delivered, 0);
}

#[test]
fn failed_sends_end_the_session() {
    let mut counts = Metrics::default();
    let mut session = Session::open(&mut counts);
    session.step(&mut counts, SessionEvent::Ping(vec![]));
    assert!(matches!(session.step(&mut counts, SessionEvent::SendFailed), SessionAction::Close));
    assert_eq!(counts.connections, 0);
    let mut other = Session::open(&mut counts);
    join(&mut other, &mut counts, "lobby");
    other.step(&mut counts, SessionEvent::Broadcast(broadcast("lobby")));
    other.step(&mut counts, SessionEvent::Encoded("json".to_string()));
    assert!(matches!(other.step(&mut counts, SessionEvent::SendFailed), SessionAction::Close));
    assert_eq!((counts.connections, counts.delivered), (0, 0));
}

#[test]
fn skipped_messages_are_dropped() {
    let mut counts = Metrics::default();
    let mut session = Session::open(&mut counts);
    assert!(matches!(session.step(&mut counts, SessionEvent::Lagged(7)), SessionAction::Receive));
    session.step(&mut counts, SessionEvent::Lagged(5));
    assert_eq!(counts.dropped, 12);
    assert!(matches!(session.step(&mut counts, SessionEvent::OtherFrame), SessionAction::Receive));
}

#[test]
fn sessions_accept_what_they_wait_for() {
    let mut counts = Metrics::default();
    let mut session = Session::open(&mut counts);
    assert!(session.accepts(&SessionEvent::Lagged(1)));
    assert!(!session.accepts(&SessionEvent::Sent));
    session.step(&mut counts, SessionEvent::Text("{}".to_string()));
    assert!(session.accepts(&SessionEvent::Rejected));
    assert!(!session.accepts(&SessionEvent::PeerGone));
}

#[test]
fn messages_are_sent_in_order() {
    let mut counts = Metrics::default();
    let mut session = Session::open(&mut counts);
    join(&mut session, &mut counts, "lobby");
    join(&mut session, &mut counts, "attic");
    let mut sent = Vec::new();
    for room in ["lobby", "cellar", "attic", "porch", "lobby"] {
        let action = session.step(&mut counts, SessionEvent::Broadcast(broadcast(room)));
        let SessionAction::Encode(message) = action else { continue };
        if message.room == "attic" {
            session.step(&mut counts, SessionEvent::EncodeFailed);
            continue;
        }
        let json = format!("{} {}", sent.len(), message.room);
        match session.step(&mut counts, SessionEvent::Encoded(json)) {
            SessionAction::Send(text) => sent.push(text),
            _ => panic!("the message is not sent"),
        }
        session.step(&mut counts, SessionEvent::Sent);
    }
    assert_eq!(sent, vec!["0 lobby", "1 lobby"]);
    assert_eq!(counts.delivered, 2);
}
