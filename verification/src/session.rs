//! A client's session: which rooms it is in, what it is sent, and when it ends.
//!
//! A session waits for whatever comes first, a frame from the client or a message from the other
//! sessions. The caller reports what happened as a `SessionEvent` and then carries out the
//! `SessionAction` that the session answers with.

use crate::message::{ServerMessage, ServerMessageView};
use crate::metrics::Metrics;
use std::sync::Arc;
use vstd::hash_set::StringHashSet;
use vstd::prelude::*;

verus! {

/// What a session is waiting for.
#[derive(Clone, Copy, Debug, PartialEq, Eq, Structural)]
pub enum SessionPhase {
    /// The next frame or message.
    Idle,
    /// Whether a message of the client's was published.
    Publishing,
    /// Whether the answer to a ping was sent.
    Answering,
    /// The wire form of a message for the client.
    Encoding,
    /// Whether a message was sent to the client.
    Delivering,
    /// Nothing: the session has ended.
    Closed,
}

/// What can happen to a session.
pub enum SessionEvent {
    /// The client sent a text frame.
    Text(String),
    /// The client's message was published to this room.
    Published(String),
    /// The client's message was not published.
    Rejected,
    /// The client sent a ping with this payload.
    Ping(Vec<u8>),
    /// The client sent a frame of another kind.
    OtherFrame,
    /// The client closed the connection, or it broke off.
    PeerGone,
    /// A message was broadcast to all sessions.
    Broadcast(Arc<ServerMessage>),
    /// The message was encoded.
    Encoded(String),
    /// The message could not be encoded.
    EncodeFailed,
    /// The frame was sent.
    Sent,
    /// The frame could not be sent.
    SendFailed,
    /// So many messages were skipped, since the session was too slow for them.
    Lagged(u64),
    /// There will be no more messages.
    BroadcastClosed,
}

/// What a session asks for.
pub enum SessionAction {
    /// Wait for the next frame or message.
    Receive,
    /// Publish the message that this text encodes.
    Publish(String),
    /// Send a pong with this payload.
    Pong(Vec<u8>),
    /// Encode this message.
    Encode(Arc<ServerMessage>),
    /// Send this text.
    Send(String),
    /// End the session.
    Close,
}

/// The contents of a `SessionEvent`.
pub enum SessionEventView {
    Text(Seq<char>),
    Published(Seq<char>),
    Rejected,
    Ping(Seq<u8>),
    OtherFrame,
    PeerGone,
    Broadcast(ServerMessageView),
    Encoded(Seq<char>),
    EncodeFailed,
    Sent,
    SendFailed,
    Lagged(u64),
    BroadcastClosed,
}

/// The contents of a `SessionAction`.
pub enum SessionActionView {
    Receive,
    Publish(Seq<char>),
    Pong(Seq<u8>),
    Encode(ServerMessageView),
    Send(Seq<char>),
    Close,
}

impl View for SessionEvent {
    type V = SessionEventView;

    open spec fn view(&self) -> SessionEventView {
        match self {
            SessionEvent::Text(text) => SessionEventView::Text(text@),
            SessionEvent::Published(room) => SessionEventView::Published(room@),
            SessionEvent::Rejected => SessionEventView::Rejected,
            SessionEvent::Ping(payload) => SessionEventView::Ping(payload@),
            SessionEvent::OtherFrame => SessionEventView::OtherFrame,
            SessionEvent::PeerGone => SessionEventView::PeerGone,
            SessionEvent::Broadcast(message) => SessionEventView::Broadcast(message@),
            SessionEvent::Encoded(text) => SessionEventView::Encoded(text@),
            SessionEvent::EncodeFailed => SessionEventView::EncodeFailed,
            SessionEvent::Sent => SessionEventView::Sent,
            SessionEvent::SendFailed => SessionEventView::SendFailed,
            SessionEvent::Lagged(skipped) => SessionEventView::Lagged(*skipped),
            SessionEvent::BroadcastClosed => SessionEventView::BroadcastClosed,
        }
    }
}

impl View for SessionAction {
    type V = SessionActionView;

    open spec fn view(&self) -> SessionActionView {
        match self {
            SessionAction::Receive => SessionActionView::Receive,
            SessionAction::Publish(text) => SessionActionView::Publish(text@),
            SessionAction::Pong(payload) => SessionActionView::Pong(payload@),
            SessionAction::Encode(message) => SessionActionView::Encode(message@),
            SessionAction::Send(text) => SessionActionView::Send(text@),
            SessionAction::Close => SessionActionView::Close,
        }
    }
}

/// A client's session.
pub struct Session {
    phase: SessionPhase,
    rooms: StringHashSet,
}

/// The contents of a `Session`.
pub struct SessionView {
    /// What it is waiting for.
    pub phase: SessionPhase,
    /// The rooms whose messages it is sent.
    pub rooms: Set<Seq<char>>,
}

impl View for Session {
    type V = SessionView;

    closed spec fn view(&self) -> SessionView {
        SessionView { phase: self.phase, rooms: self.rooms@ }
    }
}

impl SessionPhase {
    /// Whether an event is one that a session waits for in this phase.
    pub open spec fn expects(self, event: SessionEventView) -> bool {
        match event {
            SessionEventView::Text(_)
            | SessionEventView::Ping(_)
            | SessionEventView::OtherFrame
            | SessionEventView::PeerGone
            | SessionEventView::Broadcast(_)
            | SessionEventView::Lagged(_)
            | SessionEventView::BroadcastClosed => self == SessionPhase::Idle,
            SessionEventView::Published(_) | SessionEventView::Rejected => self
                == SessionPhase::Publishing,
            SessionEventView::Encoded(_) | SessionEventView::EncodeFailed => self
                == SessionPhase::Encoding,
            SessionEventView::Sent | SessionEventView::SendFailed => self
                == SessionPhase::Answering || self == SessionPhase::Delivering,
        }
    }
}

impl SessionView {
    /// A session that has just been opened: it is in no room.
    pub open spec fn opened() -> SessionView {
        SessionView { phase: SessionPhase::Idle, rooms: Set::empty() }
    }

    /// The session in another phase.
    pub open spec fn in_phase(self, phase: SessionPhase) -> SessionView {
        SessionView { phase, ..self }
    }

    /// What an event makes of the session.
    pub open spec fn next(self, event: SessionEventView) -> SessionView {
        match event {
            SessionEventView::Text(_) => self.in_phase(SessionPhase::Publishing),
            SessionEventView::Published(room) => SessionView {
                phase: SessionPhase::Idle,
                rooms: self.rooms.insert(room),
            },
            SessionEventView::Ping(_) => self.in_phase(SessionPhase::Answering),
            SessionEventView::Broadcast(message) => if self.rooms.contains(message.room) {
                self.in_phase(SessionPhase::Encoding)
            } else {
                self
            },
            SessionEventView::Encoded(_) => self.in_phase(SessionPhase::Delivering),
            SessionEventView::PeerGone
            | SessionEventView::SendFailed
            | SessionEventView::BroadcastClosed => self.in_phase(SessionPhase::Closed),
            SessionEventView::Rejected
            | SessionEventView::OtherFrame
            | SessionEventView::EncodeFailed
            | SessionEventView::Sent
            | SessionEventView::Lagged(_) => self.in_phase(SessionPhase::Idle),
        }
    }

    /// What the session asks for upon an event.
    pub open spec fn action(self, event: SessionEventView) -> SessionActionView {
        match event {
            SessionEventView::Text(text) => SessionActionView::Publish(text),
            SessionEventView::Ping(payload) => SessionActionView::Pong(payload),
            SessionEventView::Broadcast(message) => if self.rooms.contains(message.room) {
                SessionActionView::Encode(message)
            } else {
                SessionActionView::Receive
            },
            SessionEventView::Encoded(text) => SessionActionView::Send(text),
            SessionEventView::PeerGone
            | SessionEventView::SendFailed
            | SessionEventView::BroadcastClosed => SessionActionView::Close,
            SessionEventView::Published(_)
            | SessionEventView::Rejected
            | SessionEventView::OtherFrame
            | SessionEventView::EncodeFailed
            | SessionEventView::Sent
            | SessionEventView::Lagged(_) => SessionActionView::Receive,
        }
    }

    /// What an event makes of the counters: a message that reaches the client is counted as
    /// delivered, skipped messages as dropped, and the session no longer once it ends.
    pub open spec fn tally(self, metrics: Metrics, event: SessionEventView) -> Metrics {
        match event {
            SessionEventView::Sent => if self.phase == SessionPhase::Delivering {
                metrics.with_delivered()
            } else {
                metrics
            },
            SessionEventView::Lagged(skipped) => metrics.with_dropped(skipped),
            SessionEventView::PeerGone
            | SessionEventView::SendFailed
            | SessionEventView::BroadcastClosed => metrics.without_session(),
            _ => metrics,
        }
    }
}

impl Session {
    /// Opens a session and counts it.
    pub fn open(metrics: &mut Metrics) -> (session: Session)
        ensures
            session@ == SessionView::opened(),
            session@.phase == SessionPhase::Idle,
            session@.rooms == Set::<Seq<char>>::empty(),
            *final(metrics) == old(metrics).with_session(),
    {
        metrics.count_session();
        Session { phase: SessionPhase::Idle, rooms: StringHashSet::new() }
    }

    /// What the session is waiting for.
    pub fn phase(&self) -> (phase: SessionPhase)
        ensures
            phase == self@.phase,
    {
        self.phase
    }

    /// Whether the session is in a room.
    pub fn is_in(&self, room: &str) -> (joined: bool)
        ensures
            joined == self@.rooms.contains(room@),
    {
        self.rooms.contains(room)
    }

    /// Whether an event is one that the session waits for.
    pub fn accepts(&self, event: &SessionEvent) -> (accepted: bool)
        ensures
            accepted == self@.phase.expects(event@),
    {
        match event {
            SessionEvent::Text(_)
            | SessionEvent::Ping(_)
            | SessionEvent::OtherFrame
            | SessionEvent::PeerGone
            | SessionEvent::Broadcast(_)
            | SessionEvent::Lagged(_)
            | SessionEvent::BroadcastClosed => self.phase == SessionPhase::Idle,
            SessionEvent::Published(_) | SessionEvent::Rejected => self.phase
                == SessionPhase::Publishing,
            SessionEvent::Encoded(_) | SessionEvent::EncodeFailed => self.phase
                == SessionPhase::Encoding,
            SessionEvent::Sent | SessionEvent::SendFailed => self.phase == SessionPhase::Answering
                || self.phase == SessionPhase::Delivering,
        }
    }

    /// Ends the session.
    fn close(&mut self, metrics: &mut Metrics) -> (action: SessionAction)
        ensures
            final(self)@ == old(self)@.in_phase(SessionPhase::Closed),
            *final(metrics) == old(metrics).without_session(),
            action@ == SessionActionView::Close,
    {
        self.phase = SessionPhase::Closed;
        metrics.uncount_session();
        SessionAction::Close
    }

    /// Takes an event in, and says what to do next.
    pub fn step(&mut self, metrics: &mut Metrics, event: SessionEvent) -> (action: SessionAction)
        requires
            old(self)@.phase.expects(event@),
        ensures
            final(self)@ == old(self)@.next(event@),
            *final(metrics) == old(self)@.tally(*old(metrics), event@),
            action@ == old(self)@.action(event@),
            event matches SessionEvent::Text(text) ==> (action matches SessionAction::Publish(json)
                && json@ == text@),
            event matches SessionEvent::Ping(payload) ==> (action matches SessionAction::Pong(
                answer,
            ) && answer@ == payload@),
            event matches SessionEvent::Broadcast(message) ==> if old(self)@.rooms.contains(
                message.room@,
            ) {
                action == SessionAction::Encode(message)
            } else {
                action == SessionAction::Receive
            },
            event matches SessionEvent::Encoded(text) ==> (action matches SessionAction::Send(
                json,
            ) && json@ == text@),
            event matches SessionEvent::Published(room) ==> final(self)@.rooms == old(
                self,
            )@.rooms.insert(room@),
            !(event is Published) ==> final(self)@.rooms == old(self)@.rooms,
    {
        match event {
            SessionEvent::Text(text) => {
                self.phase = SessionPhase::Publishing;
                SessionAction::Publish(text)
            },
            SessionEvent::Published(room) => {
                self.rooms.insert(room);
                self.phase = SessionPhase::Idle;
                SessionAction::Receive
            },
            SessionEvent::Ping(payload) => {
                self.phase = SessionPhase::Answering;
                SessionAction::Pong(payload)
            },
            SessionEvent::Broadcast(message) => {
                if !self.rooms.contains(message.room.as_str()) {
                    return SessionAction::Receive;
                }
                self.phase = SessionPhase::Encoding;
                SessionAction::Encode(message)
            },
            SessionEvent::Encoded(text) => {
                self.phase = SessionPhase::Delivering;
                SessionAction::Send(text)
            },
            SessionEvent::Sent => {
                if self.phase == SessionPhase::Delivering {
                    metrics.count_delivered();
                }
                self.phase = SessionPhase::Idle;
                SessionAction::Receive
            },
            SessionEvent::Lagged(skipped) => {
                metrics.count_dropped(skipped);
                self.phase = SessionPhase::Idle;
                SessionAction::Receive
            },
            SessionEvent::Rejected | SessionEvent::OtherFrame | SessionEvent::EncodeFailed => {
                self.phase = SessionPhase::Idle;
                SessionAction::Receive
            },
            SessionEvent::PeerGone | SessionEvent::SendFailed | SessionEvent::BroadcastClosed => {
                self.close(metrics)
            },
        }
    }
}

} // verus!
