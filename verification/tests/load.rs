use blazechat::bench::{
    name_room, name_user, pauses_after, Args, BenchClient, ClientAction, ClientEvent,
    ClientOutcome, ClientPhase, Counters, Incoming, Mode, BATCH_PAUSE_MILLIS, DEFAULT_CONNECTIONS,
    DEFAULT_DURATION, DEFAULT_MESSAGES_PER_SECOND, DEFAULT_ROOMS, DEFAULT_URL, DEFAULT_WARMUP,
};
use blazechat::latency::{merge_all, LatencyHistogram, LatencySummary};
use blazechat::message::{admit_message, ClientMessage};
use blazechat::report::{millis_text, report};

const SECOND: u128 = 1_000_000_000;

fn args() -> Args {
    Args {
        url: DEFAULT_URL.to_string(),
        connections: DEFAULT_CONNECTIONS,
        duration: DEFAULT_DURATION,
        warmup: DEFAULT_WARMUP,
        messages_per_second: DEFAULT_MESSAGES_PER_SECOND,
        rooms: DEFAULT_ROOMS,
        mode: Mode::Throughput,
    }
}

/// A client whose time runs from 5 and whose warm-up from 7.
fn running(id: usize, counters: &mut Counters) -> BenchClient {
    let mut client = BenchClient::new(id, &args());
    assert!(matches!(client.step(counters, ClientEvent::Connected), ClientAction::Gather));
    let gathered = ClientEvent::Gathered { deadline_base_ns: 5, measure_base_ns: 7 };
    assert!(client.accepts(&gathered));
    assert!(matches!(client.step(counters, gathered), ClientAction::Wait));
    client
}

fn text(user: &str, at: u128, sent: u64, unix_ns: u64) -> ClientEvent {
    ClientEvent::Text {
        arrived_ns: at,
        message: Some(Incoming { user: user.to_string(), client_ts_ns: sent }),
        checked_ns: at,
        unix_ns,
    }
}

fn look(client: &mut BenchClient, counters: &mut Counters, event: ClientEvent) {
    assert!(client.accepts(&event));
    assert!(matches!(client.step(counters, event), ClientAction::ReadClock));
    let clock = ClientEvent::Clock { now_ns: 6 };
    assert!(matches!(client.step(counters, clock), ClientAction::Wait));
}

fn measured(client: BenchClient) -> LatencyHistogram {
    client.into_histogram().unwrap()
}

#[test]
fn defaults_of_the_load_generator() {
    let args = args();
    assert_eq!(args.url, "ws://127.0.0.1:8080/ws");
    assert_eq!((args.connections, args.duration, args.warmup), (1_000, 30, 10));
    assert_eq!((args.messages_per_second, args.rooms), (10, 16));
    assert_eq!(BATCH_PAUSE_MILLIS, 20);
}

#[test]
fn clients_are_named_and_dealt_to_rooms() {
    assert_eq!(name_user(0), "bench-0");
    assert_eq!(name_user(1_234), "bench-1234");
    assert_eq!(name_room(5, 16), "room-5");
    assert_eq!(name_room(21, 16), "room-5");
    assert_eq!(name_room(21, 1), "room-0");
    assert_eq!(name_room(21, 0), "room-0");
}

#[test]
fn pauses_come_after_full_batches() {
    let pauses: Vec<usize> = (0..1_000).filter(|id| pauses_after(*id)).collect();
    assert_eq!(pauses, vec![249, 499, 749, 999]);
}

#[test]
fn messages_are_spread_over_the_second() {
    assert_eq!(BenchClient::new(0, &args()).interval_ns(), Some(100_000_000));
    let fast = Args { messages_per_second: 2_000_000_000, ..args() };
    assert_eq!(BenchClient::new(0, &fast).interval_ns(), Some(0));
    let third = Args { messages_per_second: 3, ..args() };
    assert_eq!(BenchClient::new(0, &third).interval_ns(), Some(333_333_333));
}

#[test]
fn nothing_is_sent_where_connections_are_tested() {
    let silent = Args { mode: Mode::Connections, ..args() };
    assert_eq!(BenchClient::new(0, &silent).interval_ns(), None);
    let idle = Args { messages_per_second: 0, ..args() };
    let mut client = BenchClient::new(0, &idle);
    assert_eq!(client.interval_ns(), None);
    let mut counters = Counters::default();
    client.step(&mut counters, ClientEvent::Connected);
    client.step(
        &mut counters,
        ClientEvent::Gathered { deadline_base_ns: 0, measure_base_ns: 0 },
    );
    assert!(!client.accepts(&ClientEvent::Tick { now_ns: 1, unix_ns: 1 }));
    assert!(client.accepts(&ClientEvent::OtherFrame));
}

#[test]
fn clients_that_cannot_connect_wait_for_the_others() {
    let mut counters = Counters::default();
    let mut client = BenchClient::new(0, &args());
    let action = client.step(&mut counters, ClientEvent::ConnectFailed);
    assert!(matches!(action, ClientAction::Gather));
    assert_eq!(client.phase(), ClientPhase::GatheringUnconnected);
    let gathered = ClientEvent::Gathered { deadline_base_ns: 0, measure_base_ns: 0 };
    let action = client.step(&mut counters, gathered);
    assert!(matches!(action, ClientAction::Finish(ClientOutcome::NotConnected)));
    assert_eq!(counters, Counters { errors: 1, ..Counters::default() });
    assert!(client.into_histogram().is_none());
}

#[test]
fn time_runs_from_the_gathering() {
    let mut counters = Counters::default();
    let client = running(3, &mut counters);
    assert_eq!(client.deadline_ns(), 5 + 40 * SECOND);
    assert_eq!(counters, Counters { connected: 1, ..Counters::default() });
}

#[test]
fn times_that_cannot_be_counted_are_not_accepted() {
    let mut counters = Counters::default();
    let mut client = BenchClient::new(0, &Args { warmup: u64::MAX, ..args() });
    client.step(&mut counters, ClientEvent::Connected);
    let gathered = ClientEvent::Gathered { deadline_base_ns: 0, measure_base_ns: 0 };
    assert!(!client.accepts(&gathered));
    let mut client = BenchClient::new(0, &args());
    client.step(&mut counters, ClientEvent::Connected);
    let gathered = ClientEvent::Gathered { deadline_base_ns: u128::MAX, measure_base_ns: 0 };
    assert!(!client.accepts(&gathered));
}

#[test]
fn messages_are_numbered_from_one() {
    let mut counters = Counters::default();
    let mut client = running(17, &mut counters);
    for number in 1..=3 {
        let tick = ClientEvent::Tick { now_ns: 20, unix_ns: 1_000 + number };
        assert!(client.accepts(&tick));
        match client.step(&mut counters, tick) {
            ClientAction::Encode(message) => {
                assert_eq!(message.sequence, number);
                assert_eq!(message.client_ts_ns, 1_000 + number);
                assert_eq!(message.user, "bench-17");
                assert_eq!(message.room, "room-1");
                assert_eq!(message.text, "BlazeChat benchmark payload");
            }
            _ => panic!("no message is made"),
        }
        match client.step(&mut counters, ClientEvent::Encoded(format!("json {number}"))) {
            ClientAction::Send(json) => assert_eq!(json, format!("json {number}")),
            _ => panic!("the message is not sent"),
        }
        look(&mut client, &mut counters, ClientEvent::Sent { now_ns: 30 });
    }
    assert_eq!(counters.sent, 0);
}

#[test]
fn sent_messages_are_counted_after_the_warmup() {
    let mut counters = Counters::default();
    let mut client = running(0, &mut counters);
    for (at, sent) in [(7 + 10 * SECOND - 1, 0), (7 + 10 * SECOND, 1), (20 * SECOND, 2)] {
        client.step(&mut counters, ClientEvent::Tick { now_ns: 20, unix_ns: 1 });
        client.step(&mut counters, ClientEvent::Encoded(String::new()));
        look(&mut client, &mut counters, ClientEvent::Sent { now_ns: at });
        assert_eq!(counters.sent, sent);
    }
}

#[test]
fn own_messages_are_measured_after_the_warmup() {
    let late = 20 * SECOND;
    let mut counters = Counters::default();
    let mut client = running(3, &mut counters);
    look(&mut client, &mut counters, text("bench-3", 20, 0, 5_000_000));
    assert_eq!((counters.wire_received, counters.received), (0, 0));
    look(&mut client, &mut counters, text("bench-4", late, 0, 5_000_000));
    assert_eq!((counters.wire_received, counters.received), (1, 0));
    look(&mut client, &mut counters, text("bench-3", late, 1_000, 5_002_999));
    assert_eq!((counters.wire_received, counters.received), (2, 1));
    look(&mut client, &mut counters, text("bench-3", late, 0, 999));
    look(&mut client, &mut counters, text("bench-3", late, 10, 5));
    assert_eq!((counters.wire_received, counters.received), (4, 1));
    let garbled =
        ClientEvent::Text { arrived_ns: late, message: None, checked_ns: late, unix_ns: 1 };
    look(&mut client, &mut counters, garbled);
    assert_eq!((counters.wire_received, counters.received), (5, 1));
    let crossing = ClientEvent::Text {
        arrived_ns: 7,
        message: Some(Incoming { user: "bench-3".to_string(), client_ts_ns: 0 }),
        checked_ns: late,
        unix_ns: 7_000,
    };
    look(&mut client, &mut counters, crossing);
    assert_eq!((counters.wire_received, counters.received), (5, 2));
    client.step(&mut counters, ClientEvent::DeadlineReached);
    let histogram = measured(client);
    assert_eq!(histogram.len(), 2);
    assert_eq!(histogram.max(), 5_003);
}

#[test]
fn overlong_latencies_are_received_and_not_kept() {
    let mut counters = Counters::default();
    let mut client = running(3, &mut counters);
    look(&mut client, &mut counters, text("bench-3", 20 * SECOND, 0, 67_108_864_000));
    assert_eq!(counters.received, 1);
    look(&mut client, &mut counters, text("bench-3", 20 * SECOND, 0, 67_108_863_999));
    assert_eq!(counters.received, 2);
    client.step(&mut counters, ClientEvent::DeadlineReached);
    assert_eq!(measured(client).len(), 1);
}

#[test]
fn clients_stop_at_their_deadline() {
    let deadline = 5 + 40 * SECOND;
    let mut counters = Counters::default();
    let finish = |action| matches!(action, ClientAction::Finish(ClientOutcome::Finished));
    let mut a = running(0, &mut counters);
    assert!(finish(a.step(&mut counters, ClientEvent::DeadlineReached)));
    let mut b = running(1, &mut counters);
    assert!(finish(b.step(&mut counters, ClientEvent::Tick { now_ns: deadline, unix_ns: 0 })));
    let mut c = running(2, &mut counters);
    c.step(&mut counters, ClientEvent::OtherFrame);
    assert!(finish(c.step(&mut counters, ClientEvent::Clock { now_ns: deadline })));
    let mut d = running(3, &mut counters);
    d.step(&mut counters, ClientEvent::OtherFrame);
    let clock = ClientEvent::Clock { now_ns: deadline - 1 };
    assert!(matches!(d.step(&mut counters, clock), ClientAction::Wait));
    assert_eq!(counters, Counters { connected: 4, ..Counters::default() });
}

#[test]
fn broken_connections_are_errors_and_keep_the_histogram() {
    let mut counters = Counters::default();
    let mut a = running(0, &mut counters);
    let action = a.step(&mut counters, ClientEvent::Disconnected);
    assert!(matches!(action, ClientAction::Finish(ClientOutcome::Finished)));
    let mut b = running(1, &mut counters);
    b.step(&mut counters, ClientEvent::Tick { now_ns: 20, unix_ns: 0 });
    b.step(&mut counters, ClientEvent::Encoded(String::new()));
    let action = b.step(&mut counters, ClientEvent::SendFailed);
    assert!(matches!(action, ClientAction::Finish(ClientOutcome::Finished)));
    assert_eq!(counters.errors, 2);
    assert!(measured(a).is_empty());
    assert!(measured(b).is_empty());
}

#[test]
fn messages_that_cannot_be_encoded_end_the_client() {
    let mut counters = Counters::default();
    let mut client = running(0, &mut counters);
    client.step(&mut counters, ClientEvent::Tick { now_ns: 20, unix_ns: 0 });
    let action = client.step(&mut counters, ClientEvent::EncodeFailed);
    assert!(matches!(action, ClientAction::Finish(ClientOutcome::NotEncoded)));
    assert_eq!(counters.errors, 0);
    assert!(client.into_histogram().is_none());
}

#[test]
fn histograms_begin_empty() {
    let histogram = LatencyHistogram::new();
    assert!(histogram.is_empty());
    assert_eq!(histogram.len(), 0);
    assert_eq!(histogram.summary(), None);
}

#[test]
fn histograms_refuse_what_they_have_no_place_for() {
    let mut histogram = LatencyHistogram::new();
    histogram.record(67_108_864);
    histogram.record(u64::MAX);
    assert!(histogram.is_empty());
    histogram.record(67_108_863);
    histogram.record(60_000_000);
    assert_eq!(histogram.len(), 2);
    assert_eq!(histogram.max(), 67_108_863);
}

#[test]
fn histograms_keep_three_digits() {
    for (value, top) in [
        (1, 1),
        (2_047, 2_047),
        (2_048, 2_049),
        (4_095, 4_095),
        (4_096, 4_099),
        (1_000_000, 1_000_447),
    ] {
        let mut histogram = LatencyHistogram::new();
        histogram.record(value);
        assert_eq!(histogram.max(), top);
        assert_eq!(histogram.value_at_percentile(50), top);
    }
}

#[test]
fn percentiles_part_the_contents() {
    let mut histogram = LatencyHistogram::new();
    for value in 1..=100 {
        histogram.record(value);
    }
    assert_eq!(
        histogram.summary(),
        Some(LatencySummary { p50_us: 50, p95_us: 95, p99_us: 99, max_us: 100 })
    );
    for count in [1u64, 2, 3, 7, 20, 99, 101, 200, 1_999] {
        let mut histogram = LatencyHistogram::new();
        for value in 1..=count {
            histogram.record(value);
        }
        for percent in 1..=99u8 {
            let value = histogram.value_at_percentile(percent);
            assert!(100 * value >= u64::from(percent) * count);
            assert!(100 * (value - 1) <= u64::from(percent) * count);
        }
    }
}

#[test]
fn histograms_are_merged() {
    let mut a = LatencyHistogram::new();
    a.record(10);
    a.record(10);
    let mut b = LatencyHistogram::new();
    b.record(500);
    let empty = LatencyHistogram::new();
    let merged = merge_all(&vec![None, Some(a), Some(empty), None, Some(b)]);
    assert_eq!(merged.len(), 3);
    assert_eq!(merged.max(), 500);
    assert_eq!(merged.value_at_percentile(50), 10);
    assert_eq!(merged.value_at_percentile(99), 500);
    assert!(merge_all(&vec![None]).is_empty());
}

#[test]
fn milliseconds_have_three_decimals() {
    for us in [0, 7, 10, 99, 100, 999, 1_000, 1_001, 123_456, 1_000_447, 67_108_863] {
        assert_eq!(millis_text(us), format!("{:.3}", us as f64 / 1000.0));
    }
    assert_eq!(millis_text(12_034), "12.034");
}

#[test]
fn report_lists_everything() {
    let counters = Counters { connected: 9, sent: 80, wire_received: 700, received: 60, errors: 1 };
    let latencies = LatencySummary { p50_us: 1_500, p95_us: 2_049, p99_us: 30_015, max_us: 40_000 };
    let text =
        report(Mode::Throughput, 10, "0.125", &counters, "2.67", "23.33", Some(latencies));
    assert_eq!(
        text,
        "mode=Throughput\n\
         requested_connections=10\n\
         connected=9\n\
         connect_seconds=0.125\n\
         sent=80\n\
         received=60\n\
         wire_received=700\n\
         errors=1\n\
         published_messages_per_second=2.67\n\
         delivered_messages_per_second=23.33\n\
         latency_p50_ms=1.500\n\
         latency_p95_ms=2.049\n\
         latency_p99_ms=30.015\n\
         latency_max_ms=40.000\n"
    );
}

#[test]
fn report_leaves_latencies_out_where_there_are_none() {
    let text = report(Mode::Connections, 0, "0.000", &Counters::default(), "0.00", "0.00", None);
    assert!(text.starts_with("mode=Connections\nrequested_connections=0\nconnected=0\n"));
    assert!(text.ends_with("delivered_messages_per_second=0.00\n"));
}

#[test]
fn messages_of_clients_are_within_the_limits() {
    let mut counters = Counters::default();
    let mut client = running(usize::MAX, &mut counters);
    match client.step(&mut counters, ClientEvent::Tick { now_ns: 20, unix_ns: 1 }) {
        ClientAction::Encode(message) => {
            let received = ClientMessage {
                room: message.room,
                user: message.user,
                text: message.text.to_string(),
                client_ts_ns: message.client_ts_ns,
                sequence: message.sequence,
            };
            assert!(admit_message(Some(received)).is_ok());
        }
        _ => panic!("no message is made"),
    }
}
