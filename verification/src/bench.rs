//! A load generator's client: when it sends, what it measures, and when it stops.
//!
//! A client connects, waits until all clients have tried to, and then sends messages at a steady
//! rate and measures how long they take to come back, until its time is up. The caller reports what
//! happened as a `ClientEvent` and then carries out the `ClientAction` that the client answers with.
//! Times are in nanoseconds from a moment that the caller picks, except where they are said to be
//! Unix times.

use crate::latency::{level, recorded, LatencyHistogram, CAPACITY_US};
use crate::metrics::counted;
use crate::text::{decimal, push_decimal};
use vstd::multiset::Multiset;
use vstd::prelude::*;

verus! {

/// The server that is tested unless told otherwise.
pub const DEFAULT_URL: &'static str = "ws://127.0.0.1:8080/ws";

/// How many clients there are unless told otherwise.
pub const DEFAULT_CONNECTIONS: usize = 1_000;

/// For how many seconds is measured unless told otherwise.
pub const DEFAULT_DURATION: u64 = 30;

/// For how many seconds is not yet measured unless told otherwise.
pub const DEFAULT_WARMUP: u64 = 10;

/// How many messages a client sends in a second unless told otherwise.
pub const DEFAULT_MESSAGES_PER_SECOND: u64 = 10;

/// How many rooms there are unless told otherwise.
pub const DEFAULT_ROOMS: usize = 16;

/// After how many clients a pause is made before more are started.
pub const CLIENTS_PER_BATCH: usize = 250;

/// How long that pause is, in milliseconds.
pub const BATCH_PAUSE_MILLIS: u64 = 20;

/// The text of each message.
pub const PAYLOAD: &'static str = "BlazeChat benchmark payload";

/// The nanoseconds in a second.
pub const NANOS_PER_SEC: u64 = 1_000_000_000;

/// What is tested.
#[derive(Clone, Copy, Debug, PartialEq, Eq, Structural)]
pub enum Mode {
    /// How many clients can be connected: they send nothing.
    Connections,
    /// How many messages can be sent.
    Throughput,
}

/// How to test.
#[derive(Clone, Debug)]
pub struct Args {
    pub url: String,
    pub connections: usize,
    pub duration: u64,
    pub warmup: u64,
    pub messages_per_second: u64,
    pub rooms: usize,
    pub mode: Mode,
}

/// A message as a client of the load generator sends it.
#[derive(Clone, Debug)]
pub struct Outgoing {
    pub room: String,
    pub user: String,
    pub text: &'static str,
    pub client_ts_ns: u64,
    pub sequence: u64,
}

/// What a client of the load generator reads of a message that it is sent.
#[derive(Clone, Debug)]
pub struct Incoming {
    pub user: String,
    pub client_ts_ns: u64,
}

/// What the load generator counts.
#[derive(Clone, Copy, Debug, PartialEq, Eq, Structural)]
pub struct Counters {
    /// Clients that connected.
    pub connected: u64,
    /// Messages that were sent while it was measured.
    pub sent: u64,
    /// Texts that came in while it was measured.
    pub wire_received: u64,
    /// Messages whose way back took a measurable time.
    pub received: u64,
    /// Connections that did not come about or broke off.
    pub errors: u64,
}

impl Default for Counters {
    fn default() -> (counters: Self)
        ensures
            counters == (Counters {
                connected: 0,
                sent: 0,
                wire_received: 0,
                received: 0,
                errors: 0,
            }),
    {
        Counters { connected: 0, sent: 0, wire_received: 0, received: 0, errors: 0 }
    }
}

/// How a client ended.
#[derive(Clone, Copy, Debug, PartialEq, Eq, Structural)]
pub enum ClientOutcome {
    /// It ran, until its time was up or its connection broke off.
    Finished,
    /// It could not connect.
    NotConnected,
    /// It could not encode a message.
    NotEncoded,
}

/// What a client is waiting for.
#[derive(Clone, Copy, Debug, PartialEq, Eq, Structural)]
pub enum ClientPhase {
    /// Whether a connection comes about.
    Connecting,
    /// The other clients, having connected.
    Gathering,
    /// The other clients, having failed to connect.
    GatheringUnconnected,
    /// The next frame, the next tick, or the end of its time.
    Running,
    /// The wire form of a message.
    Encoding,
    /// Whether a message was sent.
    Sending,
    /// The time, to see whether there is any left.
    Checking,
    /// Nothing: the client has ended.
    Over(ClientOutcome),
}

/// What can happen to a client.
pub enum ClientEvent {
    /// The connection came about.
    Connected,
    /// The connection did not come about.
    ConnectFailed,
    /// All clients have tried to connect. The client's time runs from the first of the two times
    /// that the clock was read then, and its warm-up from the second.
    Gathered { deadline_base_ns: u128, measure_base_ns: u128 },
    /// The client's time is up.
    DeadlineReached,
    /// A text came in at one time, encoded this message or none, was looked at at a second time,
    /// and then it was this Unix time.
    Text { arrived_ns: u128, message: Option<Incoming>, checked_ns: u128, unix_ns: u64 },
    /// A frame of another kind came in.
    OtherFrame,
    /// The connection broke off.
    Disconnected,
    /// It is time to send, at this time, and then it is this Unix time.
    Tick { now_ns: u128, unix_ns: u64 },
    /// The message was encoded.
    Encoded(String),
    /// The message could not be encoded.
    EncodeFailed,
    /// The message was sent, and then it was this time.
    Sent { now_ns: u128 },
    /// The message could not be sent.
    SendFailed,
    /// The time, as it was asked for.
    Clock { now_ns: u128 },
}

/// What a client asks for.
pub enum ClientAction {
    /// Wait until all clients have tried to connect.
    Gather,
    /// Wait for the next frame, the next tick, or the end of the client's time.
    Wait,
    /// Encode this message.
    Encode(Outgoing),
    /// Send this text.
    Send(String),
    /// Read the clock.
    ReadClock,
    /// End the client.
    Finish(ClientOutcome),
}

/// The contents of an `Outgoing`.
pub struct OutgoingView {
    pub room: Seq<char>,
    pub user: Seq<char>,
    pub text: Seq<char>,
    pub client_ts_ns: u64,
    pub sequence: u64,
}

/// The contents of an `Incoming`.
pub struct IncomingView {
    pub user: Seq<char>,
    pub client_ts_ns: u64,
}

/// The contents of a `ClientEvent`.
pub enum ClientEventView {
    Connected,
    ConnectFailed,
    Gathered { deadline_base_ns: u128, measure_base_ns: u128 },
    DeadlineReached,
    Text { arrived_ns: u128, message: Option<IncomingView>, checked_ns: u128, unix_ns: u64 },
    OtherFrame,
    Disconnected,
    Tick { now_ns: u128, unix_ns: u64 },
    Encoded(Seq<char>),
    EncodeFailed,
    Sent { now_ns: u128 },
    SendFailed,
    Clock { now_ns: u128 },
}

/// The contents of a `ClientAction`.
pub enum ClientActionView {
    Gather,
    Wait,
    Encode(OutgoingView),
    Send(Seq<char>),
    ReadClock,
    Finish(ClientOutcome),
}

impl View for Outgoing {
    type V = OutgoingView;

    open spec fn view(&self) -> OutgoingView {
        OutgoingView {
            room: self.room@,
            user: self.user@,
            text: self.text@,
            client_ts_ns: self.client_ts_ns,
            sequence: self.sequence,
        }
    }
}

impl View for Incoming {
    type V = IncomingView;

    open spec fn view(&self) -> IncomingView {
        IncomingView { user: self.user@, client_ts_ns: self.client_ts_ns }
    }
}

impl View for ClientEvent {
    type V = ClientEventView;

    open spec fn view(&self) -> ClientEventView {
        match *self {
            ClientEvent::Connected => ClientEventView::Connected,
            ClientEvent::ConnectFailed => ClientEventView::ConnectFailed,
            ClientEvent::Gathered { deadline_base_ns, measure_base_ns } =>
                ClientEventView::Gathered { deadline_base_ns, measure_base_ns },
            ClientEvent::DeadlineReached => ClientEventView::DeadlineReached,
            ClientEvent::Text { arrived_ns, message, checked_ns, unix_ns } =>
                ClientEventView::Text {
                    arrived_ns,
                    message: match message {
                        Some(incoming) => Some(incoming@),
                        None => None,
                    },
                    checked_ns,
                    unix_ns,
                },
            ClientEvent::OtherFrame => ClientEventView::OtherFrame,
            ClientEvent::Disconnected => ClientEventView::Disconnected,
            ClientEvent::Tick { now_ns, unix_ns } => ClientEventView::Tick { now_ns, unix_ns },
            ClientEvent::Encoded(text) => ClientEventView::Encoded(text@),
            ClientEvent::EncodeFailed => ClientEventView::EncodeFailed,
            ClientEvent::Sent { now_ns } => ClientEventView::Sent { now_ns },
            ClientEvent::SendFailed => ClientEventView::SendFailed,
            ClientEvent::Clock { now_ns } => ClientEventView::Clock { now_ns },
        }
    }
}

impl View for ClientAction {
    type V = ClientActionView;

    open spec fn view(&self) -> ClientActionView {
        match *self {
            ClientAction::Gather => ClientActionView::Gather,
            ClientAction::Wait => ClientActionView::Wait,
            ClientAction::Encode(message) => ClientActionView::Encode(message@),
            ClientAction::Send(text) => ClientActionView::Send(text@),
            ClientAction::ReadClock => ClientActionView::ReadClock,
            ClientAction::Finish(outcome) => ClientActionView::Finish(outcome),
        }
    }
}

/// The name of the user that a client is.
pub open spec fn user_name(id: nat) -> Seq<char> {
    "bench-"@ + decimal(id)
}

/// The number of the room that a client is in: the clients are dealt out to the rooms in turn, and
/// there is at least one room.
pub open spec fn room_number(id: nat, rooms: nat) -> nat {
    if rooms == 0 {
        0
    } else {
        id % rooms
    }
}

/// The name of the room that a client is in.
pub open spec fn room_name(id: nat, rooms: nat) -> Seq<char> {
    "room-"@ + decimal(room_number(id, rooms))
}

/// How many nanoseconds a client lets pass between two messages; none where it sends none.
pub open spec fn send_interval(mode: Mode, messages_per_second: u64) -> Option<u64> {
    if mode == Mode::Throughput && messages_per_second > 0 {
        Some((NANOS_PER_SEC / messages_per_second) as u64)
    } else {
        None
    }
}

/// How many whole microseconds lie between two Unix times; none where the later one is not later.
pub open spec fn latency_us(sent_ns: u64, received_ns: u64) -> u64 {
    if received_ns >= sent_ns {
        ((received_ns - sent_ns) / 1_000) as u64
    } else {
        0
    }
}

/// The name of the user that a client is.
pub fn name_user(id: usize) -> (name: String)
    ensures
        name@ == user_name(id as nat),
{
    let mut name = "bench-".to_owned();
    push_decimal(&mut name, id as u64);
    name
}

/// The name of the room that a client is in.
pub fn name_room(id: usize, rooms: usize) -> (name: String)
    ensures
        name@ == room_name(id as nat, rooms as nat),
{
    let number: usize = if rooms == 0 {
        0
    } else {
        id % rooms
    };
    let mut name = "room-".to_owned();
    push_decimal(&mut name, number as u64);
    name
}

/// Whether a pause is made after a client is started: after each full batch of them.
pub fn pauses_after(id: usize) -> (pauses: bool)
    ensures
        pauses == ((id + 1) % (CLIENTS_PER_BATCH as int) == 0),
        pauses == ((id + 1) % 250 == 0),
{
    id % CLIENTS_PER_BATCH == CLIENTS_PER_BATCH - 1
}

/// A client of the load generator.
pub struct BenchClient {
    user: String,
    room: String,
    warmup: u64,
    duration: u64,
    interval_ns: Option<u64>,
    phase: ClientPhase,
    deadline_ns: u128,
    measure_after_ns: u128,
    sequence: u64,
    histogram: LatencyHistogram,
}

/// The contents of a `BenchClient`.
pub struct BenchClientView {
    /// The name of the user that it is.
    pub user: Seq<char>,
    /// The name of the room that it is in.
    pub room: Seq<char>,
    /// For how many seconds it does not measure yet.
    pub warmup: u64,
    /// For how many seconds it then measures.
    pub duration: u64,
    /// How many nanoseconds pass between two messages, if it sends any.
    pub interval_ns: Option<u64>,
    /// What it is waiting for.
    pub phase: ClientPhase,
    /// When its time is up.
    pub deadline_ns: u128,
    /// When it begins to measure.
    pub measure_after_ns: u128,
    /// The number of the last message that it made.
    pub sequence: u64,
    /// The latencies that it measured, in microseconds, to the precision at which they are kept.
    pub latencies: Multiset<u64>,
}

impl BenchClientView {
    /// A client that has not connected yet.
    pub open spec fn made(id: nat, args: Args) -> BenchClientView {
        BenchClientView {
            user: user_name(id),
            room: room_name(id, args.rooms as nat),
            warmup: args.warmup,
            duration: args.duration,
            interval_ns: send_interval(args.mode, args.messages_per_second),
            phase: ClientPhase::Connecting,
            deadline_ns: 0,
            measure_after_ns: 0,
            sequence: 0,
            latencies: Multiset::empty(),
        }
    }

    /// Whether an event is one that the client waits for. It waits for ticks only if it sends.
    pub open spec fn expects(self, event: ClientEventView) -> bool {
        match event {
            ClientEventView::Connected | ClientEventView::ConnectFailed => self.phase
                == ClientPhase::Connecting,
            ClientEventView::Gathered { .. } => self.phase == ClientPhase::Gathering || self.phase
                == ClientPhase::GatheringUnconnected,
            ClientEventView::DeadlineReached
            | ClientEventView::Text { .. }
            | ClientEventView::OtherFrame
            | ClientEventView::Disconnected => self.phase == ClientPhase::Running,
            ClientEventView::Tick { .. } => self.phase == ClientPhase::Running
                && self.interval_ns is Some,
            ClientEventView::Encoded(_) | ClientEventView::EncodeFailed => self.phase
                == ClientPhase::Encoding,
            ClientEventView::Sent { .. } | ClientEventView::SendFailed => self.phase
                == ClientPhase::Sending,
            ClientEventView::Clock { .. } => self.phase == ClientPhase::Checking,
        }
    }

    /// How many nanoseconds the client runs in all.
    pub open spec fn run_ns(self) -> int {
        (self.warmup + self.duration) * NANOS_PER_SEC
    }

    /// How many nanoseconds the client does not measure yet.
    pub open spec fn warmup_ns(self) -> int {
        self.warmup * NANOS_PER_SEC
    }

    /// Whether what an event makes of the client can be counted: its times in 128 bits, its
    /// seconds and its messages in 64.
    pub open spec fn has_room_for(self, event: ClientEventView) -> bool {
        match event {
            ClientEventView::Gathered { deadline_base_ns, measure_base_ns } => self.phase
                == ClientPhase::Gathering ==> {
                &&& self.warmup + self.duration <= u64::MAX
                &&& deadline_base_ns + self.run_ns() <= u128::MAX
                &&& measure_base_ns + self.warmup_ns() <= u128::MAX
            },
            ClientEventView::Tick { now_ns, .. } => now_ns < self.deadline_ns ==> self.sequence
                < u64::MAX,
            _ => true,
        }
    }

    /// The client in another phase.
    pub open spec fn in_phase(self, phase: ClientPhase) -> BenchClientView {
        BenchClientView { phase, ..self }
    }

    /// The latency that an event lets the client measure: that of a message of its own that comes
    /// back after the warm-up, if it takes at least a microsecond.
    pub open spec fn sample(self, event: ClientEventView) -> Option<u64> {
        match event {
            ClientEventView::Text { message: Some(message), checked_ns, unix_ns, .. } => {
                let latency = latency_us(message.client_ts_ns, unix_ns);
                if message.user == self.user && checked_ns >= self.measure_after_ns && latency > 0 {
                    Some(latency)
                } else {
                    None
                }
            },
            _ => None,
        }
    }

    /// The latencies once one more was measured; those too long for the histogram are not kept.
    pub open spec fn with_latency(self, latency: u64) -> Multiset<u64> {
        if latency < CAPACITY_US {
            self.latencies.insert(level(latency as nat) as u64)
        } else {
            self.latencies
        }
    }

    /// The message that the client makes next.
    pub open spec fn next_message(self, unix_ns: u64) -> OutgoingView {
        OutgoingView {
            room: self.room,
            user: self.user,
            text: PAYLOAD@,
            client_ts_ns: unix_ns,
            sequence: (self.sequence + 1) as u64,
        }
    }

    /// What an event makes of the client.
    pub open spec fn next(self, event: ClientEventView) -> BenchClientView {
        match event {
            ClientEventView::Connected => self.in_phase(ClientPhase::Gathering),
            ClientEventView::ConnectFailed => self.in_phase(ClientPhase::GatheringUnconnected),
            ClientEventView::Gathered { deadline_base_ns, measure_base_ns } => if self.phase
                == ClientPhase::Gathering {
                BenchClientView {
                    phase: ClientPhase::Running,
                    deadline_ns: (deadline_base_ns + self.run_ns()) as u128,
                    measure_after_ns: (measure_base_ns + self.warmup_ns()) as u128,
                    ..self
                }
            } else {
                self.in_phase(ClientPhase::Over(ClientOutcome::NotConnected))
            },
            ClientEventView::Text { .. } => BenchClientView {
                phase: ClientPhase::Checking,
                latencies: match self.sample(event) {
                    Some(latency) => self.with_latency(latency),
                    None => self.latencies,
                },
                ..self
            },
            ClientEventView::Tick { now_ns, .. } => if now_ns >= self.deadline_ns {
                self.in_phase(ClientPhase::Over(ClientOutcome::Finished))
            } else {
                BenchClientView {
                    phase: ClientPhase::Encoding,
                    sequence: (self.sequence + 1) as u64,
                    ..self
                }
            },
            ClientEventView::Encoded(_) => self.in_phase(ClientPhase::Sending),
            ClientEventView::EncodeFailed => self.in_phase(
                ClientPhase::Over(ClientOutcome::NotEncoded),
            ),
            ClientEventView::OtherFrame | ClientEventView::Sent { .. } => self.in_phase(
                ClientPhase::Checking,
            ),
            ClientEventView::Clock { now_ns } => if now_ns >= self.deadline_ns {
                self.in_phase(ClientPhase::Over(ClientOutcome::Finished))
            } else {
                self.in_phase(ClientPhase::Running)
            },
            ClientEventView::DeadlineReached
            | ClientEventView::Disconnected
            | ClientEventView::SendFailed => self.in_phase(
                ClientPhase::Over(ClientOutcome::Finished),
            ),
        }
    }

    /// What the client asks for upon an event.
    pub open spec fn action(self, event: ClientEventView) -> ClientActionView {
        match event {
            ClientEventView::Tick { now_ns, unix_ns } if now_ns < self.deadline_ns =>
                ClientActionView::Encode(self.next_message(unix_ns)),
            ClientEventView::Encoded(text) => ClientActionView::Send(text),
            _ => match self.next(event).phase {
                ClientPhase::Running => ClientActionView::Wait,
                ClientPhase::Checking => ClientActionView::ReadClock,
                ClientPhase::Over(outcome) => ClientActionView::Finish(outcome),
                _ => ClientActionView::Gather,
            },
        }
    }

    /// What an event makes of the counters.
    pub open spec fn tally(self, counters: Counters, event: ClientEventView) -> Counters {
        match event {
            ClientEventView::Connected => Counters {
                connected: counted(counters.connected, 1),
                ..counters
            },
            ClientEventView::ConnectFailed
            | ClientEventView::Disconnected
            | ClientEventView::SendFailed => Counters {
                errors: counted(counters.errors, 1),
                ..counters
            },
            ClientEventView::Text { arrived_ns, .. } => Counters {
                wire_received: if arrived_ns >= self.measure_after_ns {
                    counted(counters.wire_received, 1)
                } else {
                    counters.wire_received
                },
                received: if self.sample(event) is Some {
                    counted(counters.received, 1)
                } else {
                    counters.received
                },
                ..counters
            },
            ClientEventView::Sent { now_ns } => if now_ns >= self.measure_after_ns {
                Counters { sent: counted(counters.sent, 1), ..counters }
            } else {
                counters
            },
            _ => counters,
        }
    }
}

impl View for BenchClient {
    type V = BenchClientView;

    closed spec fn view(&self) -> BenchClientView {
        BenchClientView {
            user: self.user@,
            room: self.room@,
            warmup: self.warmup,
            duration: self.duration,
            interval_ns: self.interval_ns,
            phase: self.phase,
            deadline_ns: self.deadline_ns,
            measure_after_ns: self.measure_after_ns,
            sequence: self.sequence,
            latencies: recorded(self.histogram),
        }
    }
}

impl BenchClient {
    /// Whether the client's histogram has the bounds used for latencies.
    pub closed spec fn wf(self) -> bool {
        self.histogram.wf()
    }

    /// A client that has not connected yet.
    pub fn new(id: usize, args: &Args) -> (client: BenchClient)
        ensures
            client.wf(),
            client@ == BenchClientView::made(id as nat, *args),
            client@.user == user_name(id as nat),
            client@.room == room_name(id as nat, args.rooms as nat),
            client@.warmup == args.warmup,
            client@.duration == args.duration,
            client@.interval_ns == send_interval(args.mode, args.messages_per_second),
            client@.phase == ClientPhase::Connecting,
            client@.sequence == 0,
            client@.latencies == Multiset::<u64>::empty(),
    {
        let interval_ns = if args.mode == Mode::Throughput && args.messages_per_second > 0 {
            Some(NANOS_PER_SEC / args.messages_per_second)
        } else {
            None
        };
        BenchClient {
            user: name_user(id),
            room: name_room(id, args.rooms),
            warmup: args.warmup,
            duration: args.duration,
            interval_ns,
            phase: ClientPhase::Connecting,
            deadline_ns: 0,
            measure_after_ns: 0,
            sequence: 0,
            histogram: LatencyHistogram::new(),
        }
    }

    /// What the client is waiting for.
    pub fn phase(&self) -> (phase: ClientPhase)
        ensures
            phase == self@.phase,
    {
        self.phase
    }

    /// How many nanoseconds pass between two messages, if the client sends any.
    pub fn interval_ns(&self) -> (interval_ns: Option<u64>)
        ensures
            interval_ns == self@.interval_ns,
    {
        self.interval_ns
    }

    /// When the client's time is up.
    pub fn deadline_ns(&self) -> (deadline_ns: u128)
        ensures
            deadline_ns == self@.deadline_ns,
    {
        self.deadline_ns
    }

    /// Whether an event is one that the client waits for and can take.
    pub fn accepts(&self, event: &ClientEvent) -> (accepted: bool)
        ensures
            accepted == (self@.expects(event@) && self@.has_room_for(event@)),
    {
        match event {
            ClientEvent::Connected | ClientEvent::ConnectFailed => self.phase
                == ClientPhase::Connecting,
            ClientEvent::Gathered { deadline_base_ns, measure_base_ns } => {
                if self.phase != ClientPhase::Gathering {
                    return self.phase == ClientPhase::GatheringUnconnected;
                }
                match self.warmup.checked_add(self.duration) {
                    Some(seconds) => {
                        let run_ns: u128 = seconds as u128 * NANOS_PER_SEC as u128;
                        let warmup_ns: u128 = self.warmup as u128 * NANOS_PER_SEC as u128;
                        *deadline_base_ns <= u128::MAX - run_ns && *measure_base_ns <= u128::MAX
                            - warmup_ns
                    },
                    None => false,
                }
            },
            ClientEvent::DeadlineReached
            | ClientEvent::Text { .. }
            | ClientEvent::OtherFrame
            | ClientEvent::Disconnected => self.phase == ClientPhase::Running,
            ClientEvent::Tick { now_ns, .. } => self.phase == ClientPhase::Running
                && self.interval_ns.is_some() && (*now_ns >= self.deadline_ns || self.sequence
                < u64::MAX),
            ClientEvent::Encoded(_) | ClientEvent::EncodeFailed => self.phase
                == ClientPhase::Encoding,
            ClientEvent::Sent { .. } | ClientEvent::SendFailed => self.phase
                == ClientPhase::Sending,
            ClientEvent::Clock { .. } => self.phase == ClientPhase::Checking,
        }
    }

    /// The client's histogram, if the client ran to its end.
    pub fn into_histogram(self) -> (histogram: Option<LatencyHistogram>)
        requires
            self.wf(),
        ensures
            match histogram {
                Some(kept) => {
                    &&& self@.phase == ClientPhase::Over(ClientOutcome::Finished)
                    &&& kept.wf()
                    &&& recorded(kept) == self@.latencies
                },
                None => self@.phase != ClientPhase::Over(ClientOutcome::Finished),
            },
    {
        if self.phase == ClientPhase::Over(ClientOutcome::Finished) {
            Some(self.histogram)
        } else {
            None
        }
    }

    /// Ends the client.
    fn finish(&mut self, outcome: ClientOutcome) -> (action: ClientAction)
        ensures
            final(self)@ == old(self)@.in_phase(ClientPhase::Over(outcome)),
            final(self).wf() == old(self).wf(),
            action@ == ClientActionView::Finish(outcome),
    {
        self.phase = ClientPhase::Over(outcome);
        ClientAction::Finish(outcome)
    }

    /// Takes in a text that came back, as a message or none.
    fn take_text(
        &mut self,
        counters: &mut Counters,
        arrived_ns: u128,
        message: Option<Incoming>,
        checked_ns: u128,
        unix_ns: u64,
    )
        requires
            old(self).wf(),
        ensures
            final(self).wf(),
            ({
                let event = (ClientEvent::Text { arrived_ns, message, checked_ns, unix_ns })@;
                let next = old(self)@.next(event);
                &&& *final(counters) == old(self)@.tally(*old(counters), event)
                &&& final(self)@ == (BenchClientView {
                    latencies: final(self)@.latencies,
                    ..next
                })
                &&& old(self)@.latencies.len() < u64::MAX ==> final(self)@ == next
            }),
    {
        if arrived_ns >= self.measure_after_ns {
            counters.wire_received = counters.wire_received.wrapping_add(1);
        }
        if let Some(incoming) = message {
            if incoming.user == self.user && checked_ns >= self.measure_after_ns {
                let latency: u64 = unix_ns.saturating_sub(incoming.client_ts_ns) / 1_000;
                if latency > 0 {
                    self.histogram.record(latency);
                    counters.received = counters.received.wrapping_add(1);
                }
            }
        }
        self.phase = ClientPhase::Checking;
    }

    /// Takes an event in, and says what to do next. Past as many latencies as 64 bits can count
    /// nothing is said of those that are kept.
    pub fn step(&mut self, counters: &mut Counters, event: ClientEvent) -> (action: ClientAction)
        requires
            old(self).wf(),
            old(self)@.expects(event@),
            old(self)@.has_room_for(event@),
        ensures
            final(self).wf(),
            final(self)@ == (BenchClientView {
                latencies: final(self)@.latencies,
                ..old(self)@.next(event@)
            }),
            old(self)@.latencies.len() < u64::MAX || !(event is Text) ==> final(self)@ == old(
                self,
            )@.next(event@),
            *final(counters) == old(self)@.tally(*old(counters), event@),
            action@ == old(self)@.action(event@),
            event matches ClientEvent::Tick { now_ns, unix_ns } ==> if now_ns < old(
                self,
            )@.deadline_ns {
                &&& action matches ClientAction::Encode(message)
                &&& message.room@ == old(self)@.room
                &&& message.user@ == old(self)@.user
                &&& message.text@ == PAYLOAD@
                &&& message.client_ts_ns == unix_ns
                &&& message.sequence == old(self)@.sequence + 1
                &&& final(self)@.sequence == old(self)@.sequence + 1
            } else {
                action == ClientAction::Finish(ClientOutcome::Finished)
            },
            event matches ClientEvent::Encoded(text) ==> (action matches ClientAction::Send(json)
                && json@ == text@),
    {
        match event {
            ClientEvent::Connected => {
                counters.connected = counters.connected.wrapping_add(1);
                self.phase = ClientPhase::Gathering;
                ClientAction::Gather
            },
            ClientEvent::ConnectFailed => {
                counters.errors = counters.errors.wrapping_add(1);
                self.phase = ClientPhase::GatheringUnconnected;
                ClientAction::Gather
            },
            ClientEvent::Gathered { deadline_base_ns, measure_base_ns } => {
                if self.phase != ClientPhase::Gathering {
                    return self.finish(ClientOutcome::NotConnected);
                }
                let run_ns: u128 = (self.warmup + self.duration) as u128 * NANOS_PER_SEC as u128;
                let warmup_ns: u128 = self.warmup as u128 * NANOS_PER_SEC as u128;
                self.deadline_ns = deadline_base_ns + run_ns;
                self.measure_after_ns = measure_base_ns + warmup_ns;
                self.phase = ClientPhase::Running;
                ClientAction::Wait
            },
            ClientEvent::DeadlineReached => self.finish(ClientOutcome::Finished),
            ClientEvent::Text { arrived_ns, message, checked_ns, unix_ns } => {
                self.take_text(counters, arrived_ns, message, checked_ns, unix_ns);
                ClientAction::ReadClock
            },
            ClientEvent::OtherFrame => {
                self.phase = ClientPhase::Checking;
                ClientAction::ReadClock
            },
            ClientEvent::Disconnected | ClientEvent::SendFailed => {
                counters.errors = counters.errors.wrapping_add(1);
                self.finish(ClientOutcome::Finished)
            },
            ClientEvent::Tick { now_ns, unix_ns } => {
                if now_ns >= self.deadline_ns {
                    return self.finish(ClientOutcome::Finished);
                }
                self.sequence = self.sequence + 1;
                self.phase = ClientPhase::Encoding;
                ClientAction::Encode(
                    Outgoing {
                        room: self.room.clone(),
                        user: self.user.clone(),
                        text: PAYLOAD,
                        client_ts_ns: unix_ns,
                        sequence: self.sequence,
                    },
                )
            },
            ClientEvent::Encoded(text) => {
                self.phase = ClientPhase::Sending;
                ClientAction::Send(text)
            },
            ClientEvent::EncodeFailed => self.finish(ClientOutcome::NotEncoded),
            ClientEvent::Sent { now_ns } => {
                if now_ns >= self.measure_after_ns {
                    counters.sent = counters.sent.wrapping_add(1);
                }
                self.phase = ClientPhase::Checking;
                ClientAction::ReadClock
            },
            ClientEvent::Clock { now_ns } => {
                if now_ns >= self.deadline_ns {
                    return self.finish(ClientOutcome::Finished);
                }
                self.phase = ClientPhase::Running;
                ClientAction::Wait
            },
        }
    }
}

} // verus!
