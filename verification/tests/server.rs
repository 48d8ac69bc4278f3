use blazechat::clock::{timestamp_ns, unix_time_ns};
use blazechat::config::{settings, settings_with_id, Environment};
use blazechat::message::{
    admit_message, publish_client_message, stamp_message, ClientMessage, PublishError,
    MAX_FRAME_SIZE, MAX_MESSAGE_SIZE, REDIS_CHANNEL,
};
use blazechat::metrics::{health, metrics, Metrics};
use blazechat::readiness::{RedisWait, WaitAction, WaitEvent, WaitOutcome, ATTEMPT_PAUSE_SECS};
use blazechat::subscriber::{RelayAction, RelayEvent, RelayPhase, RETRY_PAUSE_MILLIS};
use blazechat::text::{parse_size, push_decimal};

fn message(room: &str, user: &str, text: &str) -> ClientMessage {
    ClientMessage {
        room: room.to_string(),
        user: user.to_string(),
        text: text.to_string(),
        client_ts_ns: 11,
        sequence: 22,
    }
}

fn no_environment() -> Environment {
    Environment { bind_addr: None, redis_url: None, instance_id: None, fanout_capacity: None }
}

#[test]
fn timestamps_are_reduced_to_64_bits() {
    assert_eq!(timestamp_ns(None), 0);
    assert_eq!(timestamp_ns(Some(1_725_029_869_000_000_007)), 1_725_029_869_000_000_007);
    assert_eq!(timestamp_ns(Some((1 << 64) + 5)), 5);
}

#[test]
fn unix_time_follows_the_clock() {
    let before = std::time::UNIX_EPOCH.elapsed().unwrap().as_nanos() as u64;
    let now = unix_time_ns();
    let after = std::time::UNIX_EPOCH.elapsed().unwrap().as_nanos() as u64;
    assert!(before <= now && now <= after);
}

#[test]
fn decimals_are_written() {
    let mut text = String::from("n=");
    push_decimal(&mut text, 0);
    push_decimal(&mut text, 1_020_304);
    push_decimal(&mut text, u64::MAX);
    assert_eq!(text, "n=0102030418446744073709551615");
}

#[test]
fn sizes_are_read_as_the_standard_library_reads_them() {
    let texts = [
        "", "+", "-", "0", "+0", "007", "65536", "+12", "-1", "1 ", " 1", "1_000", "12a", "++1",
        "1+", "18446744073709551615", "18446744073709551616", "184467440737095516150", "1\u{661}",
        "\u{e9}", "99999999999999999999999",
    ];
    for text in texts {
        assert_eq!(parse_size(text), text.parse::<usize>().ok(), "{text:?}");
    }
    assert_eq!(parse_size("65536"), Some(65_536));
}

#[test]
fn decimals_are_read_back() {
    for n in [0, 9, 10, 99, 100, 65_536, usize::MAX] {
        let mut text = String::new();
        push_decimal(&mut text, n as u64);
        assert_eq!(text, n.to_string());
        assert_eq!(parse_size(&text), Some(n));
    }
}

#[test]
fn settings_have_defaults() {
    let config = settings_with_id(no_environment(), 0x67e55044_10b1_426f_9247_bb680e5fe0c8);
    assert_eq!(config.bind_addr, "0.0.0.0:8080");
    assert_eq!(config.redis_url, "redis://127.0.0.1:6379/");
    assert_eq!(config.instance_id, "67e55044-10b1-426f-9247-bb680e5fe0c8");
    assert_eq!(config.fanout_capacity, 65_536);
}

#[test]
fn settings_follow_the_environment() {
    let environment = Environment {
        bind_addr: Some("127.0.0.1:9".to_string()),
        redis_url: Some("redis://r/".to_string()),
        instance_id: Some("a".to_string()),
        fanout_capacity: Some("128".to_string()),
    };
    let config = settings(environment);
    assert_eq!(config.bind_addr, "127.0.0.1:9");
    assert_eq!(config.redis_url, "redis://r/");
    assert_eq!(config.instance_id, "a");
    assert_eq!(config.fanout_capacity, 128);
}

#[test]
fn named_instances_keep_their_names() {
    let named = || Environment { instance_id: Some(String::new()), ..no_environment() };
    assert_eq!(settings(named()).instance_id, "");
    assert_eq!(settings_with_id(named(), 5).instance_id, "");
}

#[test]
fn capacity_that_is_no_size_is_ignored() {
    let environment =
        Environment { fanout_capacity: Some("many".to_string()), ..no_environment() };
    assert_eq!(settings(environment).fanout_capacity, 65_536);
}

#[test]
fn unnamed_instances_get_random_names() {
    let a = settings(no_environment()).instance_id;
    let b = settings(no_environment()).instance_id;
    assert_ne!(a, b);
    let id = uuid::Uuid::parse_str(&a).unwrap();
    assert_eq!(id.get_version_num(), 4);
    assert_eq!(id.to_string(), a);
}

#[test]
fn published_messages_are_stamped() {
    let before = unix_time_ns();
    let published = publish_client_message("one", Some(message("r", "u", "t"))).unwrap();
    assert_eq!(published.instance, "one");
    assert_eq!(published.room, "r");
    assert_eq!(published.user, "u");
    assert_eq!(published.text, "t");
    assert_eq!(published.client_ts_ns, 11);
    assert_eq!(published.sequence, 22);
    assert!(published.server_ts_ns >= before);
    assert_eq!((published.id >> 76) & 0xf, 4);
    assert_eq!((published.id >> 62) & 0x3, 2);
    let again = publish_client_message("one", Some(message("r", "u", "t"))).unwrap();
    assert_ne!(published.id, again.id);
}

#[test]
fn stamps_are_kept() {
    let stamped = stamp_message("one", message("r", "u", "t"), 3, 4);
    assert_eq!((stamped.id, stamped.server_ts_ns), (3, 4));
}

#[test]
fn fields_may_be_as_long_as_the_limits() {
    let longest = message(&"r".repeat(128), &"u".repeat(128), &"t".repeat(16_384));
    assert!(admit_message(Some(longest)).is_ok());
}

#[test]
fn fields_are_measured_in_bytes() {
    assert!(admit_message(Some(message(&"\u{e9}".repeat(64), "u", "t"))).is_ok());
    let error = admit_message(Some(message(&"\u{e9}".repeat(65), "u", "t"))).unwrap_err();
    assert_eq!(error, PublishError::InvalidFieldLength);
}

#[test]
fn empty_and_overlong_fields_are_refused() {
    let refused = [
        message("", "u", "t"),
        message("r", "", "t"),
        message("r", "u", ""),
        message(&"r".repeat(129), "u", "t"),
        message("r", &"u".repeat(129), "t"),
        message("r", "u", &"t".repeat(16_385)),
    ];
    for input in refused {
        let error = publish_client_message("one", Some(input)).unwrap_err();
        assert_eq!(error, PublishError::InvalidFieldLength);
        assert_eq!(error.message(), "invalid field length");
    }
}

#[test]
fn texts_that_are_no_messages_are_refused() {
    let error = publish_client_message("one", None).unwrap_err();
    assert_eq!(error, PublishError::InvalidJson);
    assert_eq!(error.message(), "invalid JSON");
}

#[test]
fn publication_is_counted_and_names_the_room() {
    let mut counts = Metrics::default();
    let stamped = stamp_message("one", message("lobby", "u", "t"), 3, 4);
    assert_eq!(stamped.confirm_published(&mut counts), "lobby");
    assert_eq!(counts, Metrics { published: 1, ..Metrics::default() });
}

#[test]
fn constants_of_the_protocol() {
    assert_eq!(REDIS_CHANNEL, "blazechat:v1:messages");
    assert_eq!(MAX_MESSAGE_SIZE, 64 * 1024);
    assert_eq!(MAX_FRAME_SIZE, 64 * 1024);
    assert_eq!(ATTEMPT_PAUSE_SECS, 1);
    assert_eq!(RETRY_PAUSE_MILLIS, 250);
}

#[test]
fn counters_wrap_around() {
    let mut counts = Metrics { dropped: u64::MAX, published: u64::MAX, ..Metrics::default() };
    counts.count_dropped(3);
    counts.count_published();
    counts.count_delivered();
    counts.uncount_session();
    assert_eq!(counts.dropped, 2);
    assert_eq!(counts.published, 0);
    assert_eq!(counts.delivered, 1);
    assert_eq!(counts.connections, u64::MAX);
    counts.count_session();
    assert_eq!((counts.connections, counts.accepted), (0, 1));
}

#[test]
fn health_reports_the_counters() {
    let counts =
        Metrics { connections: 1, accepted: 2, published: 3, delivered: 4, dropped: 5 };
    let answer = health("one", &counts);
    assert_eq!(answer.status, "ok");
    assert_eq!(answer.instance, "one");
    assert_eq!(answer.connections, 1);
    assert_eq!(answer.accepted, 2);
    assert_eq!(answer.published, 3);
    assert_eq!(answer.delivered, 4);
    assert_eq!(answer.dropped, 5);
}

#[test]
fn metrics_report_the_counters() {
    let counts =
        Metrics { connections: 1, accepted: 20, published: 300, delivered: 0, dropped: u64::MAX };
    assert_eq!(
        metrics(&counts),
        "blazechat_connections 1\n\
         blazechat_connections_accepted_total 20\n\
         blazechat_messages_published_total 300\n\
         blazechat_messages_delivered_total 0\n\
         blazechat_messages_dropped_total 18446744073709551615\n"
    );
}

/// Tries Redis until the wait is over; each try is refused (`None`) or answered.
fn wait_with(tries: &mut dyn FnMut(u32) -> Option<Result<String, ()>>) -> (WaitOutcome, u32, u32) {
    let (mut wait, mut action) = RedisWait::begin();
    let mut pauses = 0;
    let mut answer = None;
    loop {
        let event = match action {
            WaitAction::Connect => {
                answer = tries(wait.attempt);
                if answer.is_some() { WaitEvent::Connected } else { WaitEvent::ConnectFailed }
            }
            WaitAction::Ping => match answer.take().unwrap() {
                Ok(text) => WaitEvent::Answered(text),
                Err(()) => WaitEvent::PingFailed,
            },
            WaitAction::Pause => {
                pauses += 1;
                WaitEvent::Paused
            }
            WaitAction::Finish(outcome) => return (outcome, wait.attempt, pauses),
        };
        assert!(wait.accepts(&event));
        action = wait.step(event);
    }
}

#[test]
fn redis_is_ready_at_once() {
    let outcome = wait_with(&mut |_| Some(Ok("PONG".to_string())));
    assert_eq!(outcome, (WaitOutcome::Ready, 1, 0));
}

#[test]
fn redis_is_ready_after_a_while() {
    let outcome = wait_with(&mut |attempt| match attempt {
        1..=3 => None,
        4 => Some(Ok("pong".to_string())),
        _ => Some(Ok("PONG".to_string())),
    });
    assert_eq!(outcome, (WaitOutcome::Ready, 5, 4));
}

#[test]
fn redis_is_never_reached() {
    assert_eq!(wait_with(&mut |_| None), (WaitOutcome::Unreachable, 30, 29));
}

#[test]
fn redis_never_answers_as_it_should() {
    let outcome = wait_with(&mut |_| Some(Ok("LOADING".to_string())));
    assert_eq!(outcome, (WaitOutcome::NotReady, 30, 30));
}

#[test]
fn redis_answers_with_an_error() {
    let outcome = wait_with(&mut |attempt| if attempt < 3 { None } else { Some(Err(())) });
    assert_eq!(outcome, (WaitOutcome::PingError, 3, 2));
}

#[test]
fn wait_accepts_what_it_waits_for() {
    let (wait, _) = RedisWait::begin();
    assert!(wait.accepts(&WaitEvent::Connected));
    assert!(!wait.accepts(&WaitEvent::Paused));
    assert!(!wait.accepts(&WaitEvent::Answered("PONG".to_string())));
    assert!(!RedisWait { attempt: 31, ..wait }.accepts(&WaitEvent::Connected));
}

#[test]
fn subscriber_relays_what_arrives() {
    let (mut phase, action) = RelayPhase::begin();
    assert!(matches!(action, RelayAction::Connect));
    let action = phase.step(RelayEvent::Connected);
    assert!(matches!(action, RelayAction::Subscribe("blazechat:v1:messages")));
    assert!(matches!(phase.step(RelayEvent::Subscribed), RelayAction::Await));
    let arrived = stamp_message("two", message("lobby", "u", "t"), 7, 8);
    match phase.step(RelayEvent::Arrived(arrived)) {
        RelayAction::Relay(relayed) => assert_eq!((relayed.id, relayed.room.as_str()), (7, "lobby")),
        _ => panic!("the message is not relayed"),
    }
    assert!(matches!(phase.step(RelayEvent::Garbled), RelayAction::Await));
    assert!(matches!(phase.step(RelayEvent::Ended), RelayAction::Connect));
    assert_eq!(phase, RelayPhase::Connecting);
}

#[test]
fn subscriber_pauses_after_failures() {
    let (mut phase, _) = RelayPhase::begin();
    assert!(matches!(phase.step(RelayEvent::Failed), RelayAction::Pause));
    assert!(!phase.accepts(&RelayEvent::Connected));
    assert!(phase.accepts(&RelayEvent::Paused));
    assert!(matches!(phase.step(RelayEvent::Paused), RelayAction::Connect));
    phase.step(RelayEvent::Connected);
    assert!(matches!(phase.step(RelayEvent::Failed), RelayAction::Pause));
}
