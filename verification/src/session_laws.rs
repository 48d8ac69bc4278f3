//! What holds of sessions over time, and of all sessions of a server together.

use crate::message::{ClientMessageView, ServerMessageView};
use crate::metrics::{counted, Metrics};
use crate::session::{
    SessionAction, SessionActionView, SessionEvent, SessionEventView, SessionPhase, SessionView,
};
use vstd::prelude::*;

verus! {

impl SessionView {
    /// What a series of events makes of the session.
    pub open spec fn after(self, events: Seq<SessionEventView>) -> SessionView
        decreases events.len(),
    {
        if events.len() == 0 {
            self
        } else {
            self.after(events.drop_last()).next(events.last())
        }
    }

    /// Whether each event of a series is one that the session waits for when it comes.
    pub open spec fn admits(self, events: Seq<SessionEventView>) -> bool
        decreases events.len(),
    {
        events.len() > 0 ==> {
            &&& self.admits(events.drop_last())
            &&& self.after(events.drop_last()).phase.expects(events.last())
        }
    }

    /// What a series of events makes of the counters.
    pub open spec fn tally_all(self, metrics: Metrics, events: Seq<SessionEventView>) -> Metrics
        decreases events.len(),
    {
        if events.len() == 0 {
            metrics
        } else {
            self.after(events.drop_last()).tally(
                self.tally_all(metrics, events.drop_last()),
                events.last(),
            )
        }
    }

    /// How many messages of a series reached the client.
    pub open spec fn deliveries(self, events: Seq<SessionEventView>) -> nat
        decreases events.len(),
    {
        if events.len() == 0 {
            0
        } else {
            let before = self.deliveries(events.drop_last());
            if events.last() == SessionEventView::Sent && self.after(events.drop_last()).phase
                == SessionPhase::Delivering {
                before + 1
            } else {
                before
            }
        }
    }

    /// How many messages of a series were for a room that the session was in.
    pub open spec fn addressed(self, events: Seq<SessionEventView>) -> nat
        decreases events.len(),
    {
        if events.len() == 0 {
            0
        } else {
            let before = self.addressed(events.drop_last());
            match events.last() {
                SessionEventView::Broadcast(message) => if self.after(
                    events.drop_last(),
                ).rooms.contains(message.room) {
                    before + 1
                } else {
                    before
                },
                _ => before,
            }
        }
    }

    /// How many messages of a series were for a room that the session was in, but could not be
    /// encoded or sent.
    pub open spec fn failures(self, events: Seq<SessionEventView>) -> nat
        decreases events.len(),
    {
        if events.len() == 0 {
            0
        } else {
            let before = self.failures(events.drop_last());
            let phase = self.after(events.drop_last()).phase;
            if events.last() == SessionEventView::EncodeFailed || (events.last()
                == SessionEventView::SendFailed && phase == SessionPhase::Delivering) {
                before + 1
            } else {
                before
            }
        }
    }

    /// The messages of a series that were for a room that the session was in, in order.
    pub open spec fn passed(self, events: Seq<SessionEventView>) -> Seq<ServerMessageView>
        decreases events.len(),
    {
        if events.len() == 0 {
            Seq::empty()
        } else {
            let before = self.passed(events.drop_last());
            match events.last() {
                SessionEventView::Broadcast(message) => if self.after(
                    events.drop_last(),
                ).rooms.contains(message.room) {
                    before.push(message)
                } else {
                    before
                },
                _ => before,
            }
        }
    }

    /// What the session asks for in a series of events.
    pub open spec fn actions(self, events: Seq<SessionEventView>) -> Seq<SessionActionView>
        decreases events.len(),
    {
        if events.len() == 0 {
            Seq::empty()
        } else {
            self.actions(events.drop_last()).push(
                self.after(events.drop_last()).action(events.last()),
            )
        }
    }

    /// Whether each answer to a request to encode is what an encoder, which may fail, makes of the
    /// message that was to be encoded.
    pub open spec fn encoded_by(
        self,
        events: Seq<SessionEventView>,
        encoder: spec_fn(ServerMessageView) -> Option<Seq<char>>,
    ) -> bool
        decreases events.len(),
    {
        events.len() > 0 ==> {
            &&& self.encoded_by(events.drop_last(), encoder)
            &&& match events.last() {
                SessionEventView::Encoded(text) => encoder(self.passed(events.drop_last()).last())
                    == Some(text),
                SessionEventView::EncodeFailed => encoder(self.passed(events.drop_last()).last())
                    is None,
                _ => true,
            }
        }
    }

    /// The messages of a series for which the session has had an answer to its request to encode.
    pub open spec fn answered(self, events: Seq<SessionEventView>) -> Seq<ServerMessageView> {
        if self.after(events).phase == SessionPhase::Encoding {
            self.passed(events).drop_last()
        } else {
            self.passed(events)
        }
    }

    /// How many messages are on their way to the client.
    pub open spec fn in_flight(self) -> nat {
        if self.phase == SessionPhase::Encoding || self.phase == SessionPhase::Delivering {
            1
        } else {
            0
        }
    }
}

/// How many messages a series of events says were skipped.
pub open spec fn skipped(events: Seq<SessionEventView>) -> nat
    decreases events.len(),
{
    if events.len() == 0 {
        0
    } else {
        let before = skipped(events.drop_last());
        match events.last() {
            SessionEventView::Lagged(count) => before + count as nat,
            _ => before,
        }
    }
}

/// The messages that a series of actions asks to encode.
pub open spec fn encode_requests(actions: Seq<SessionActionView>) -> Seq<ServerMessageView>
    decreases actions.len(),
{
    if actions.len() == 0 {
        Seq::empty()
    } else {
        match actions.last() {
            SessionActionView::Encode(message) => encode_requests(actions.drop_last()).push(
                message,
            ),
            _ => encode_requests(actions.drop_last()),
        }
    }
}

/// The texts that a series of actions asks to send.
pub open spec fn send_requests(actions: Seq<SessionActionView>) -> Seq<Seq<char>>
    decreases actions.len(),
{
    if actions.len() == 0 {
        Seq::empty()
    } else {
        match actions.last() {
            SessionActionView::Send(text) => send_requests(actions.drop_last()).push(text),
            _ => send_requests(actions.drop_last()),
        }
    }
}

/// What an encoder makes of messages, in order; those on which it fails are left out.
pub open spec fn encodings(
    messages: Seq<ServerMessageView>,
    encoder: spec_fn(ServerMessageView) -> Option<Seq<char>>,
) -> Seq<Seq<char>>
    decreases messages.len(),
{
    if messages.len() == 0 {
        Seq::empty()
    } else {
        match encoder(messages.last()) {
            Some(text) => encodings(messages.drop_last(), encoder).push(text),
            None => encodings(messages.drop_last(), encoder),
        }
    }
}

/// The texts that come in, in a series of events.
pub open spec fn texts_in(events: Seq<SessionEventView>) -> Seq<Seq<char>>
    decreases events.len(),
{
    if events.len() == 0 {
        Seq::empty()
    } else {
        match events.last() {
            SessionEventView::Text(text) => texts_in(events.drop_last()).push(text),
            _ => texts_in(events.drop_last()),
        }
    }
}

/// The payloads of the pings that come in, in a series of events.
pub open spec fn pings_in(events: Seq<SessionEventView>) -> Seq<Seq<u8>>
    decreases events.len(),
{
    if events.len() == 0 {
        Seq::empty()
    } else {
        match events.last() {
            SessionEventView::Ping(payload) => pings_in(events.drop_last()).push(payload),
            _ => pings_in(events.drop_last()),
        }
    }
}

/// The texts that a series of actions asks to publish.
pub open spec fn publish_requests(actions: Seq<SessionActionView>) -> Seq<Seq<char>>
    decreases actions.len(),
{
    if actions.len() == 0 {
        Seq::empty()
    } else {
        match actions.last() {
            SessionActionView::Publish(text) => publish_requests(actions.drop_last()).push(text),
            _ => publish_requests(actions.drop_last()),
        }
    }
}

/// The payloads of the pongs that a series of actions asks for.
pub open spec fn pong_requests(actions: Seq<SessionActionView>) -> Seq<Seq<u8>>
    decreases actions.len(),
{
    if actions.len() == 0 {
        Seq::empty()
    } else {
        match actions.last() {
            SessionActionView::Pong(payload) => pong_requests(actions.drop_last()).push(payload),
            _ => pong_requests(actions.drop_last()),
        }
    }
}

/// Every text that comes in is asked to be published and every ping to be answered with its own
/// payload, whatever the state of the session: each once and in order, and nothing else is.
pub proof fn every_text_is_published_and_every_ping_answered(
    session: SessionView,
    events: Seq<SessionEventView>,
)
    ensures
        publish_requests(session.actions(events)) == texts_in(events),
        pong_requests(session.actions(events)) == pings_in(events),
    decreases events.len(),
{
    if events.len() > 0 {
        every_text_is_published_and_every_ping_answered(session, events.drop_last());
        assert(session.actions(events).drop_last() =~= session.actions(events.drop_last()));
    }
}

/// Upon every event a session waits for the outcome of what it asks for.
pub proof fn session_waits_for_what_it_asked(session: SessionView, event: SessionEventView)
    requires
        session.phase.expects(event),
    ensures
        ({
            let phase = session.next(event).phase;
            let action = session.action(event);
            &&& action is Receive <==> phase == SessionPhase::Idle
            &&& action is Publish <==> phase == SessionPhase::Publishing
            &&& action is Pong <==> phase == SessionPhase::Answering
            &&& action is Encode <==> phase == SessionPhase::Encoding
            &&& action is Send <==> phase == SessionPhase::Delivering
            &&& action is Close <==> phase == SessionPhase::Closed
        }),
{
}

/// A session can take in whatever may come of what it asked for: any frame and any message while it
/// receives, and success as well as failure of everything else.
pub proof fn session_takes_every_outcome(
    text: Seq<char>,
    payload: Seq<u8>,
    message: ServerMessageView,
    skipped: u64,
)
    ensures
        SessionPhase::Idle.expects(SessionEventView::Text(text)),
        SessionPhase::Idle.expects(SessionEventView::Ping(payload)),
        SessionPhase::Idle.expects(SessionEventView::OtherFrame),
        SessionPhase::Idle.expects(SessionEventView::PeerGone),
        SessionPhase::Idle.expects(SessionEventView::Broadcast(message)),
        SessionPhase::Idle.expects(SessionEventView::Lagged(skipped)),
        SessionPhase::Idle.expects(SessionEventView::BroadcastClosed),
        SessionPhase::Publishing.expects(SessionEventView::Published(text)),
        SessionPhase::Publishing.expects(SessionEventView::Rejected),
        SessionPhase::Answering.expects(SessionEventView::Sent),
        SessionPhase::Answering.expects(SessionEventView::SendFailed),
        SessionPhase::Encoding.expects(SessionEventView::Encoded(text)),
        SessionPhase::Encoding.expects(SessionEventView::EncodeFailed),
        SessionPhase::Delivering.expects(SessionEventView::Sent),
        SessionPhase::Delivering.expects(SessionEventView::SendFailed),
{
}

/// An outcome is taken in only by a session that waits for it.
pub proof fn outcomes_are_awaited(phase: SessionPhase, event: SessionEventView)
    requires
        phase.expects(event),
    ensures
        phase != SessionPhase::Closed,
        phase == SessionPhase::Publishing <==> event is Published || event is Rejected,
        phase == SessionPhase::Encoding <==> event is Encoded || event is EncodeFailed,
        phase == SessionPhase::Answering || phase == SessionPhase::Delivering <==> event is Sent
            || event is SendFailed,
{
}

/// A session ends when the client is gone, when it cannot be written to and when there will be no
/// more messages. Nothing else ends it: no rejected message, no failed encoding and no lag.
pub proof fn session_ends_only_with_its_connection(session: SessionView, event: SessionEventView)
    requires
        session.phase.expects(event),
    ensures
        session.next(event).phase == SessionPhase::Closed <==> event is PeerGone
            || event is SendFailed || event is BroadcastClosed,
{
}

/// A session never leaves a room, and joins one only by publishing to it.
pub proof fn rooms_are_joined_by_publishing(session: SessionView, event: SessionEventView)
    requires
        session.phase.expects(event),
    ensures
        forall|room: Seq<char>| #[trigger]
            session.next(event).rooms.contains(room) <==> session.rooms.contains(room) || event
                == SessionEventView::Published(room),
{
}

/// The contents of events and actions are all that they carry.
pub proof fn session_views_are_whole(event: SessionEvent, action: SessionAction)
    ensures
        event is Text <==> event@ is Text,
        event matches SessionEvent::Text(text) ==> event@ == SessionEventView::Text(text@),
        event is Published <==> event@ is Published,
        event matches SessionEvent::Published(room) ==> event@ == SessionEventView::Published(
            room@,
        ),
        event is Rejected <==> event@ is Rejected,
        event is Ping <==> event@ is Ping,
        event matches SessionEvent::Ping(payload) ==> event@ == SessionEventView::Ping(payload@),
        event is OtherFrame <==> event@ is OtherFrame,
        event is PeerGone <==> event@ is PeerGone,
        event is Broadcast <==> event@ is Broadcast,
        event matches SessionEvent::Broadcast(message) ==> event@ == SessionEventView::Broadcast(
            message@,
        ),
        event is Encoded <==> event@ is Encoded,
        event matches SessionEvent::Encoded(text) ==> event@ == SessionEventView::Encoded(text@),
        event is EncodeFailed <==> event@ is EncodeFailed,
        event is Sent <==> event@ is Sent,
        event is SendFailed <==> event@ is SendFailed,
        event is Lagged <==> event@ is Lagged,
        event matches SessionEvent::Lagged(skipped) ==> event@ == SessionEventView::Lagged(skipped),
        event is BroadcastClosed <==> event@ is BroadcastClosed,
        action is Receive <==> action@ is Receive,
        action is Publish <==> action@ is Publish,
        action matches SessionAction::Publish(text) ==> action@ == SessionActionView::Publish(
            text@,
        ),
        action is Pong <==> action@ is Pong,
        action matches SessionAction::Pong(payload) ==> action@ == SessionActionView::Pong(
            payload@,
        ),
        action is Encode <==> action@ is Encode,
        action matches SessionAction::Encode(message) ==> action@ == SessionActionView::Encode(
            message@,
        ),
        action is Send <==> action@ is Send,
        action matches SessionAction::Send(text) ==> action@ == SessionActionView::Send(text@),
        action is Close <==> action@ is Close,
{
}

/// A session is in exactly the rooms to which its client has published.
pub proof fn rooms_are_those_published_to(events: Seq<SessionEventView>)
    requires
        SessionView::opened().admits(events),
    ensures
        forall|room: Seq<char>| #[trigger]
            SessionView::opened().after(events).rooms.contains(room) <==> events.contains(
                SessionEventView::Published(room),
            ),
    decreases events.len(),
{
    if events.len() > 0 {
        let earlier = events.drop_last();
        rooms_are_those_published_to(earlier);
        let before = SessionView::opened().after(earlier);
        let now = SessionView::opened().after(events);
        assert forall|room: Seq<char>| #[trigger] now.rooms.contains(room) <==> events.contains(
            SessionEventView::Published(room),
        ) by {
            let sign = SessionEventView::Published(room);
            assert(before.rooms.contains(room) <==> earlier.contains(sign));
            if earlier.contains(sign) {
                let i = choose|i: int| 0 <= i < earlier.len() && earlier[i] == sign;
                assert(events[i] == sign);
            }
            if events.contains(sign) && events.last() != sign {
                let i = choose|i: int| 0 <= i < events.len() && events[i] == sign;
                assert(earlier[i] == sign);
            }
            if events.last() == sign {
                assert(events[events.len() - 1] == sign);
            }
        }
    }
}

/// A session passes a message on to its client exactly if the client has published to the
/// message's room before; any other message it lets go by.
pub proof fn messages_pass_iff_client_published_to_their_room(
    events: Seq<SessionEventView>,
    message: ServerMessageView,
)
    requires
        SessionView::opened().admits(events.push(SessionEventView::Broadcast(message))),
    ensures
        ({
            let action = SessionView::opened().after(events).action(
                SessionEventView::Broadcast(message),
            );
            if events.contains(SessionEventView::Published(message.room)) {
                action == SessionActionView::Encode(message)
            } else {
                action == SessionActionView::Receive
            }
        }),
{
    let broadcast = SessionEventView::Broadcast(message);
    assert(events.push(broadcast).drop_last() =~= events);
    rooms_are_those_published_to(events);
    assert(SessionView::opened().after(events).rooms.contains(message.room) <==> events.contains(
        SessionEventView::Published(message.room),
    ));
}

/// A client that publishes a message is sent that message when it comes back, whatever else has
/// happened in between.
pub proof fn publisher_is_sent_its_own_message(
    events: Seq<SessionEventView>,
    input: ClientMessageView,
    instance: Seq<char>,
    id: u128,
    server_ts_ns: u64,
)
    requires
        events.contains(SessionEventView::Published(input.room)),
        SessionView::opened().admits(
            events.push(SessionEventView::Broadcast(input.stamped(instance, id, server_ts_ns))),
        ),
    ensures
        SessionView::opened().after(events).action(
            SessionEventView::Broadcast(input.stamped(instance, id, server_ts_ns)),
        ) == SessionActionView::Encode(input.stamped(instance, id, server_ts_ns)),
{
    messages_pass_iff_client_published_to_their_room(
        events,
        input.stamped(instance, id, server_ts_ns),
    );
}

/// A session leaves the count of open sessions one higher while it is open and as it was once it
/// has ended. It counts each message that reached its client as delivered and each skipped one as
/// dropped, and neither opens sessions nor publishes.
#[verifier::spinoff_prover]
pub proof fn session_keeps_the_books(metrics: Metrics, events: Seq<SessionEventView>)
    requires
        SessionView::opened().admits(events),
    ensures
        ({
            let session = SessionView::opened().after(events);
            let books = SessionView::opened().tally_all(metrics.with_session(), events);
            &&& books.connections == if session.phase == SessionPhase::Closed {
                metrics.connections
            } else {
                counted(metrics.connections, 1)
            }
            &&& books.accepted == counted(metrics.accepted, 1)
            &&& books.published == metrics.published
            &&& books.delivered == (metrics.delivered + SessionView::opened().deliveries(events))
                % 0x1_0000_0000_0000_0000
            &&& books.dropped == (metrics.dropped + skipped(events)) % 0x1_0000_0000_0000_0000
        }),
    decreases events.len(),
{
    if events.len() > 0 {
        let earlier = events.drop_last();
        session_keeps_the_books(metrics, earlier);
        let before = SessionView::opened().after(earlier);
        let books = SessionView::opened().tally_all(metrics.with_session(), earlier);
        lemma_tally(before, books, events.last());
        lemma_wrapped_sum(
            metrics.delivered as int,
            SessionView::opened().deliveries(earlier) as int,
            1,
        );
        if let SessionEventView::Lagged(more) = events.last() {
            lemma_wrapped_sum(metrics.dropped as int, skipped(earlier) as int, more as int);
        }
    }
}

/// A sum that starts again from zero goes on the same from there.
proof fn lemma_wrapped_sum(start: int, count: int, more: int)
    ensures
        ((start + count) % 0x1_0000_0000_0000_0000 + more) % 0x1_0000_0000_0000_0000 == (start + (
        count + more)) % 0x1_0000_0000_0000_0000,
{
}

/// What one event makes of the counters.
proof fn lemma_tally(session: SessionView, metrics: Metrics, event: SessionEventView)
    requires
        session.phase.expects(event),
    ensures
        ({
            let books = session.tally(metrics, event);
            &&& books.connections == if session.next(event).phase == SessionPhase::Closed {
                (metrics.connections - 1) % 0x1_0000_0000_0000_0000
            } else {
                metrics.connections as int
            }
            &&& books.accepted == metrics.accepted
            &&& books.published == metrics.published
            &&& books.delivered == if event == SessionEventView::Sent && session.phase
                == SessionPhase::Delivering {
                (metrics.delivered + 1) % 0x1_0000_0000_0000_0000
            } else {
                metrics.delivered as int
            }
            &&& books.dropped == match event {
                SessionEventView::Lagged(more) => (metrics.dropped + more)
                    % 0x1_0000_0000_0000_0000,
                _ => metrics.dropped as int,
            }
        }),
{
}

/// Of every message for a room that the session was in it is known what became of it: it reached
/// the client, it could not be encoded or sent, or it is on its way. None is lost, and none is
/// delivered twice.
pub proof fn addressed_messages_are_accounted_for(events: Seq<SessionEventView>)
    requires
        SessionView::opened().admits(events),
    ensures
        ({
            let opened = SessionView::opened();
            opened.addressed(events) == opened.deliveries(events) + opened.failures(events)
                + opened.after(events).in_flight()
        }),
    decreases events.len(),
{
    if events.len() > 0 {
        addressed_messages_are_accounted_for(events.drop_last());
    }
}

/// A session asks to encode the messages for rooms that it was in when they came, and no others,
/// each once and in order. The texts that it asks to send are the encodings of these, again each
/// once and in order.
pub proof fn sent_texts_encode_the_messages_in_order(
    events: Seq<SessionEventView>,
    encoder: spec_fn(ServerMessageView) -> Option<Seq<char>>,
)
    requires
        SessionView::opened().admits(events),
        SessionView::opened().encoded_by(events, encoder),
    ensures
        ({
            let opened = SessionView::opened();
            &&& encode_requests(opened.actions(events)) == opened.passed(events)
            &&& send_requests(opened.actions(events)) == encodings(
                opened.answered(events),
                encoder,
            )
        }),
    decreases events.len(),
{
    if events.len() > 0 {
        let opened = SessionView::opened();
        let earlier = events.drop_last();
        sent_texts_encode_the_messages_in_order(earlier, encoder);
        lemma_encoding_was_passed(earlier);
        assert(opened.actions(events).drop_last() =~= opened.actions(earlier));
        if opened.after(events).phase == SessionPhase::Encoding {
            assert(opened.passed(events).drop_last() =~= opened.passed(earlier));
        }
    }
}

/// A session that waits for an encoding has passed a message on.
proof fn lemma_encoding_was_passed(events: Seq<SessionEventView>)
    requires
        SessionView::opened().admits(events),
    ensures
        SessionView::opened().after(events).phase == SessionPhase::Encoding
            ==> SessionView::opened().passed(events).len() > 0,
{
}

/// Once a session has ended nothing more can happen to it.
pub proof fn ended_session_expects_nothing(event: SessionEventView)
    ensures
        !SessionPhase::Closed.expects(event),
{
}

/// A session asks for its end exactly when it has ended.
pub proof fn session_ends_when_it_asks_to(session: SessionView, event: SessionEventView)
    requires
        session.phase.expects(event),
    ensures
        session.action(event) == SessionActionView::Close <==> session.next(event).phase
            == SessionPhase::Closed,
{
}

/// What can happen at a server.
pub enum ServerEvent {
    /// A session opens, under a number that no session had before.
    Open(nat),
    /// Something happens to a session.
    Step(nat, SessionEventView),
    /// A message is handed to Redis.
    Publish,
}

/// A server: its sessions, ended ones included, and its counters.
pub struct ServerView {
    pub sessions: Map<nat, SessionView>,
    pub metrics: Metrics,
}

impl ServerView {
    /// A server that has just been started.
    pub open spec fn started() -> ServerView {
        ServerView {
            sessions: Map::empty(),
            metrics: Metrics { connections: 0, accepted: 0, published: 0, delivered: 0, dropped: 0 },
        }
    }

    /// Whether an event can happen.
    pub open spec fn expects(self, event: ServerEvent) -> bool {
        match event {
            ServerEvent::Open(number) => !self.sessions.dom().contains(number),
            ServerEvent::Step(number, event) => self.sessions.dom().contains(number)
                && self.sessions[number].phase.expects(event),
            ServerEvent::Publish => true,
        }
    }

    /// What an event makes of the server.
    pub open spec fn next(self, event: ServerEvent) -> ServerView {
        match event {
            ServerEvent::Open(number) => ServerView {
                sessions: self.sessions.insert(number, SessionView::opened()),
                metrics: self.metrics.with_session(),
            },
            ServerEvent::Step(number, event) => ServerView {
                sessions: self.sessions.insert(number, self.sessions[number].next(event)),
                metrics: self.sessions[number].tally(self.metrics, event),
            },
            ServerEvent::Publish => ServerView { metrics: self.metrics.with_published(), ..self },
        }
    }

    /// What a series of events makes of the server.
    pub open spec fn after(self, events: Seq<ServerEvent>) -> ServerView
        decreases events.len(),
    {
        if events.len() == 0 {
            self
        } else {
            self.after(events.drop_last()).next(events.last())
        }
    }

    /// Whether each event of a series can happen when it comes.
    pub open spec fn admits(self, events: Seq<ServerEvent>) -> bool
        decreases events.len(),
    {
        events.len() > 0 ==> {
            &&& self.admits(events.drop_last())
            &&& self.after(events.drop_last()).expects(events.last())
        }
    }

    /// The sessions that are open.
    pub open spec fn open_sessions(self) -> Set<nat> {
        self.sessions.dom().filter(
            |number: nat| self.sessions[number].phase != SessionPhase::Closed,
        )
    }
}

/// However the events of its sessions interleave, a server counts as connections the sessions
/// that are open, and as accepted the sessions that were ever opened.
pub proof fn connections_are_the_open_sessions(events: Seq<ServerEvent>)
    requires
        ServerView::started().admits(events),
    ensures
        ({
            let server = ServerView::started().after(events);
            &&& server.sessions.dom().finite()
            &&& server.metrics.connections == server.open_sessions().len()
                % 0x1_0000_0000_0000_0000
            &&& server.metrics.accepted == server.sessions.dom().len() % 0x1_0000_0000_0000_0000
        }),
    decreases events.len(),
{
    if events.len() == 0 {
        assert(ServerView::started().after(events).open_sessions() =~= Set::empty());
    } else {
        connections_are_the_open_sessions(events.drop_last());
        let before = ServerView::started().after(events.drop_last());
        lemma_server_counts(before, events.last());
    }
}

/// A counter that starts again from zero counts on the same up and down.
proof fn lemma_wrapped(count: int)
    ensures
        (count % 0x1_0000_0000_0000_0000 + 1) % 0x1_0000_0000_0000_0000 == (count + 1)
            % 0x1_0000_0000_0000_0000,
        (count % 0x1_0000_0000_0000_0000 - 1) % 0x1_0000_0000_0000_0000 == (count - 1)
            % 0x1_0000_0000_0000_0000,
{
}

/// What an event makes of the sessions of a server: of those that there are, and of those that are
/// open.
proof fn lemma_open_sessions(before: ServerView, event: ServerEvent)
    requires
        before.sessions.dom().finite(),
        before.expects(event),
    ensures
        ({
            let server = before.next(event);
            let ended = event matches ServerEvent::Step(number, event)
                && server.sessions[number].phase == SessionPhase::Closed;
            let opened: int = if event is Open {
                1
            } else {
                0
            };
            let closed: int = if ended {
                1
            } else {
                0
            };
            &&& server.sessions.dom().finite()
            &&& server.sessions.dom().len() == before.sessions.dom().len() + opened
            &&& server.open_sessions().len() == before.open_sessions().len() + opened - closed
        }),
{
    let server = before.next(event);
    before.sessions.dom().lemma_len_filter(
        |number: nat| before.sessions[number].phase != SessionPhase::Closed,
    );
    match event {
        ServerEvent::Open(number) => {
            assert(server.sessions.dom() =~= before.sessions.dom().insert(number));
            assert(server.open_sessions() =~= before.open_sessions().insert(number));
        },
        ServerEvent::Step(number, event) => {
            assert(before.open_sessions().contains(number));
            assert(server.sessions.dom() =~= before.sessions.dom());
            if server.sessions[number].phase == SessionPhase::Closed {
                assert(server.open_sessions() =~= before.open_sessions().remove(number));
            } else {
                assert(server.open_sessions() =~= before.open_sessions());
            }
        },
        ServerEvent::Publish => {
            assert(server.open_sessions() =~= before.open_sessions());
        },
    }
}

/// An event leaves a server's counters of sessions right.
proof fn lemma_server_counts(before: ServerView, event: ServerEvent)
    requires
        before.sessions.dom().finite(),
        before.metrics.connections == before.open_sessions().len() % 0x1_0000_0000_0000_0000,
        before.metrics.accepted == before.sessions.dom().len() % 0x1_0000_0000_0000_0000,
        before.expects(event),
    ensures
        ({
            let server = before.next(event);
            &&& server.sessions.dom().finite()
            &&& server.metrics.connections == server.open_sessions().len()
                % 0x1_0000_0000_0000_0000
            &&& server.metrics.accepted == server.sessions.dom().len() % 0x1_0000_0000_0000_0000
        }),
{
    lemma_open_sessions(before, event);
    lemma_wrapped(before.open_sessions().len() as int);
    lemma_wrapped(before.sessions.dom().len() as int);
}

} // verus!
