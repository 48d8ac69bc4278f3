//! Relaying what other instances publish on Redis to the sessions of this one.
//!
//! The subscriber never gives up: where a connection or a subscription fails it pauses and begins
//! anew, and where the stream of messages ends it begins anew at once. The caller reports what
//! came of the last `RelayAction` as a `RelayEvent`.

use crate::message::{ServerMessage, ServerMessageView, REDIS_CHANNEL};
use vstd::prelude::*;

verus! {

/// How long the subscriber pauses after a failure, in milliseconds.
pub const RETRY_PAUSE_MILLIS: u64 = 250;

/// What the subscriber is waiting for.
#[derive(Clone, Copy, Debug, PartialEq, Eq, Structural)]
pub enum RelayPhase {
    /// Whether a connection comes about.
    Connecting,
    /// Whether the subscription comes about.
    Subscribing,
    /// The next message.
    Streaming,
    /// The end of a pause.
    Pausing,
}

/// What can happen to the subscriber.
pub enum RelayEvent {
    /// The connection came about.
    Connected,
    /// The subscription came about.
    Subscribed,
    /// The connection or the subscription did not come about.
    Failed,
    /// A message arrived.
    Arrived(ServerMessage),
    /// Something arrived that is no message.
    Garbled,
    /// The stream of messages ended.
    Ended,
    /// The pause is over.
    Paused,
}

/// What the subscriber asks for.
pub enum RelayAction {
    /// Connect.
    Connect,
    /// Subscribe to this channel.
    Subscribe(&'static str),
    /// Wait for the next message.
    Await,
    /// Hand this message to all sessions, if there are any, and wait for the next.
    Relay(ServerMessage),
    /// Pause for `RETRY_PAUSE_MILLIS`.
    Pause,
}

/// The contents of a `RelayEvent`.
pub enum RelayEventView {
    Connected,
    Subscribed,
    Failed,
    Arrived(ServerMessageView),
    Garbled,
    Ended,
    Paused,
}

/// The contents of a `RelayAction`.
pub enum RelayActionView {
    Connect,
    Subscribe(Seq<char>),
    Await,
    Relay(ServerMessageView),
    Pause,
}

impl View for RelayEvent {
    type V = RelayEventView;

    open spec fn view(&self) -> RelayEventView {
        match self {
            RelayEvent::Connected => RelayEventView::Connected,
            RelayEvent::Subscribed => RelayEventView::Subscribed,
            RelayEvent::Failed => RelayEventView::Failed,
            RelayEvent::Arrived(message) => RelayEventView::Arrived(message@),
            RelayEvent::Garbled => RelayEventView::Garbled,
            RelayEvent::Ended => RelayEventView::Ended,
            RelayEvent::Paused => RelayEventView::Paused,
        }
    }
}

impl View for RelayAction {
    type V = RelayActionView;

    open spec fn view(&self) -> RelayActionView {
        match self {
            RelayAction::Connect => RelayActionView::Connect,
            RelayAction::Subscribe(channel) => RelayActionView::Subscribe(channel@),
            RelayAction::Await => RelayActionView::Await,
            RelayAction::Relay(message) => RelayActionView::Relay(message@),
            RelayAction::Pause => RelayActionView::Pause,
        }
    }
}

impl RelayPhase {
    /// Whether an event is one that this phase waits for.
    pub open spec fn expects(self, event: RelayEventView) -> bool {
        match event {
            RelayEventView::Connected => self == RelayPhase::Connecting,
            RelayEventView::Subscribed => self == RelayPhase::Subscribing,
            RelayEventView::Failed => self == RelayPhase::Connecting || self
                == RelayPhase::Subscribing,
            RelayEventView::Arrived(_) | RelayEventView::Garbled | RelayEventView::Ended => self
                == RelayPhase::Streaming,
            RelayEventView::Paused => self == RelayPhase::Pausing,
        }
    }

    /// The phase after an event.
    pub open spec fn next(self, event: RelayEventView) -> RelayPhase {
        match event {
            RelayEventView::Connected => RelayPhase::Subscribing,
            RelayEventView::Subscribed
            | RelayEventView::Arrived(_)
            | RelayEventView::Garbled => RelayPhase::Streaming,
            RelayEventView::Failed => RelayPhase::Pausing,
            RelayEventView::Ended | RelayEventView::Paused => RelayPhase::Connecting,
        }
    }

    /// Whether an event is one that this phase waits for.
    pub fn accepts(&self, event: &RelayEvent) -> (accepted: bool)
        ensures
            accepted == self.expects(event@),
    {
        match event {
            RelayEvent::Connected => *self == RelayPhase::Connecting,
            RelayEvent::Subscribed => *self == RelayPhase::Subscribing,
            RelayEvent::Failed => *self == RelayPhase::Connecting || *self
                == RelayPhase::Subscribing,
            RelayEvent::Arrived(_) | RelayEvent::Garbled | RelayEvent::Ended => *self
                == RelayPhase::Streaming,
            RelayEvent::Paused => *self == RelayPhase::Pausing,
        }
    }

    /// Takes an event in, and says what to do next.
    pub fn step(&mut self, event: RelayEvent) -> (action: RelayAction)
        requires
            old(self).expects(event@),
        ensures
            *final(self) == old(self).next(event@),
            action@ == relay_action(event@),
            event matches RelayEvent::Arrived(message) ==> action == RelayAction::Relay(message)
                && *final(self) == RelayPhase::Streaming,
            event is Garbled ==> action is Await && *final(self) == RelayPhase::Streaming,
    {
        match event {
            RelayEvent::Connected => {
                *self = RelayPhase::Subscribing;
                RelayAction::Subscribe(REDIS_CHANNEL)
            },
            RelayEvent::Subscribed | RelayEvent::Garbled => {
                *self = RelayPhase::Streaming;
                RelayAction::Await
            },
            RelayEvent::Arrived(message) => {
                *self = RelayPhase::Streaming;
                RelayAction::Relay(message)
            },
            RelayEvent::Failed => {
                *self = RelayPhase::Pausing;
                RelayAction::Pause
            },
            RelayEvent::Ended | RelayEvent::Paused => {
                *self = RelayPhase::Connecting;
                RelayAction::Connect
            },
        }
    }

    /// Starts to relay.
    pub fn begin() -> (started: (RelayPhase, RelayAction))
        ensures
            started.0 == RelayPhase::Connecting,
            started.1@ == RelayActionView::Connect,
    {
        (RelayPhase::Connecting, RelayAction::Connect)
    }

    /// The phase after a series of events.
    pub open spec fn after(self, events: Seq<RelayEventView>) -> RelayPhase
        decreases events.len(),
    {
        if events.len() == 0 {
            self
        } else {
            self.after(events.drop_last()).next(events.last())
        }
    }

    /// Whether each event of a series is one that is waited for when it comes.
    pub open spec fn admits(self, events: Seq<RelayEventView>) -> bool
        decreases events.len(),
    {
        events.len() > 0 ==> {
            &&& self.admits(events.drop_last())
            &&& self.after(events.drop_last()).expects(events.last())
        }
    }
}

/// What is asked for upon an event.
pub open spec fn relay_action(event: RelayEventView) -> RelayActionView {
    match event {
        RelayEventView::Connected => RelayActionView::Subscribe(REDIS_CHANNEL@),
        RelayEventView::Subscribed | RelayEventView::Garbled => RelayActionView::Await,
        RelayEventView::Arrived(message) => RelayActionView::Relay(message),
        RelayEventView::Failed => RelayActionView::Pause,
        RelayEventView::Ended | RelayEventView::Paused => RelayActionView::Connect,
    }
}

/// The messages that arrive in a series of events.
pub open spec fn arrived(events: Seq<RelayEventView>) -> Seq<ServerMessageView>
    decreases events.len(),
{
    if events.len() == 0 {
        Seq::empty()
    } else {
        match events.last() {
            RelayEventView::Arrived(message) => arrived(events.drop_last()).push(message),
            _ => arrived(events.drop_last()),
        }
    }
}

/// The messages that a series of actions hands to the sessions.
pub open spec fn relayed(actions: Seq<RelayActionView>) -> Seq<ServerMessageView>
    decreases actions.len(),
{
    if actions.len() == 0 {
        Seq::empty()
    } else {
        match actions.last() {
            RelayActionView::Relay(message) => relayed(actions.drop_last()).push(message),
            _ => relayed(actions.drop_last()),
        }
    }
}

/// Every message that arrives is handed to the sessions once, in the order of arrival, and
/// nothing else is.
pub proof fn what_arrives_is_relayed(events: Seq<RelayEventView>)
    ensures
        relayed(events.map_values(|event: RelayEventView| relay_action(event))) == arrived(events),
    decreases events.len(),
{
    if events.len() > 0 {
        let asked = |event: RelayEventView| relay_action(event);
        what_arrives_is_relayed(events.drop_last());
        assert(events.map_values(asked).drop_last() =~= events.drop_last().map_values(asked));
    }
}

/// Upon every event the subscriber waits for the outcome of what it asks for. In particular it goes
/// on to read the stream after each message and after each piece of garbage.
pub proof fn subscriber_waits_for_what_it_asked(phase: RelayPhase, event: RelayEventView)
    requires
        phase.expects(event),
    ensures
        relay_action(event) is Connect <==> phase.next(event) == RelayPhase::Connecting,
        relay_action(event) is Subscribe <==> phase.next(event) == RelayPhase::Subscribing,
        relay_action(event) is Await || relay_action(event) is Relay <==> phase.next(event)
            == RelayPhase::Streaming,
        relay_action(event) is Pause <==> phase.next(event) == RelayPhase::Pausing,
{
}

/// The subscriber can take in whatever may come of what it asked for, and nothing else.
pub proof fn subscriber_takes_every_outcome(phase: RelayPhase, event: RelayEventView)
    ensures
        phase.expects(event) <==> match phase {
            RelayPhase::Connecting => event is Connected || event is Failed,
            RelayPhase::Subscribing => event is Subscribed || event is Failed,
            RelayPhase::Streaming => event is Arrived || event is Garbled || event is Ended,
            RelayPhase::Pausing => event is Paused,
        },
{
}

/// The subscriber connects at the start, after each pause and when a stream has ended; it subscribes
/// to the one channel of all instances as soon as it is connected, and pauses if that fails.
pub proof fn subscriber_never_gives_up(event: RelayEventView)
    ensures
        relay_action(event) is Connect <==> event is Ended || event is Paused,
        relay_action(event) is Subscribe <==> event is Connected,
        relay_action(event) matches RelayActionView::Subscribe(channel) ==> channel
            == "blazechat:v1:messages"@,
        relay_action(event) is Pause <==> event is Failed,
        relay_action(event) is Relay <==> event is Arrived,
{
}

/// However many messages and pieces of garbage come in on a subscription, all of them are taken in,
/// and the stream is still read after them.
pub proof fn subscription_carries_any_stream(stream: Seq<RelayEventView>)
    requires
        forall|i: int|
            0 <= i < stream.len() ==> (#[trigger] stream[i] is Arrived || stream[i] is Garbled),
    ensures
        ({
            let events = seq![RelayEventView::Connected, RelayEventView::Subscribed] + stream;
            &&& RelayPhase::Connecting.admits(events)
            &&& RelayPhase::Connecting.after(events) == RelayPhase::Streaming
            &&& arrived(events) == arrived(stream)
        }),
    decreases stream.len(),
{
    let start = seq![RelayEventView::Connected, RelayEventView::Subscribed];
    let events = start + stream;
    if stream.len() == 0 {
        assert(events =~= start);
        assert(start.drop_last() =~= seq![RelayEventView::Connected]);
        assert(start.drop_last().drop_last() =~= Seq::<RelayEventView>::empty());
        reveal_with_fuel(RelayPhase::admits, 3);
        reveal_with_fuel(RelayPhase::after, 3);
        reveal_with_fuel(arrived, 3);
    } else {
        assert forall|i: int| 0 <= i < stream.drop_last().len() implies (
            #[trigger] stream.drop_last()[i] is Arrived || stream.drop_last()[i] is Garbled) by {
            assert(stream.drop_last()[i] == stream[i]);
        }
        subscription_carries_any_stream(stream.drop_last());
        assert(events.drop_last() =~= start + stream.drop_last());
        assert(events.last() == stream[stream.len() - 1]);
    }
}

/// The contents of events and actions are all that they carry.
pub proof fn relay_views_are_whole(event: RelayEvent, action: RelayAction)
    ensures
        event is Connected <==> event@ is Connected,
        event is Subscribed <==> event@ is Subscribed,
        event is Failed <==> event@ is Failed,
        event is Arrived <==> event@ is Arrived,
        event matches RelayEvent::Arrived(message) ==> event@ == RelayEventView::Arrived(message@),
        event is Garbled <==> event@ is Garbled,
        event is Ended <==> event@ is Ended,
        event is Paused <==> event@ is Paused,
        action is Connect <==> action@ is Connect,
        action is Subscribe <==> action@ is Subscribe,
        action matches RelayAction::Subscribe(channel) ==> action@ == RelayActionView::Subscribe(
            channel@,
        ),
        action is Await <==> action@ is Await,
        action is Relay <==> action@ is Relay,
        action matches RelayAction::Relay(message) ==> action@ == RelayActionView::Relay(message@),
        action is Pause <==> action@ is Pause,
{
}

/// The subscriber pauses after a failure, and only then.
pub proof fn subscriber_pauses_after_failures_only(event: RelayEventView)
    ensures
        relay_action(event) == RelayActionView::Pause <==> event == RelayEventView::Failed,
{
}

/// Messages arrive only after a subscription that followed a connection, with no failure and no
/// end of the stream since.
pub proof fn messages_arrive_on_a_live_subscription(events: Seq<RelayEventView>)
    requires
        RelayPhase::Connecting.admits(events),
        RelayPhase::Connecting.after(events) == RelayPhase::Streaming,
    ensures
        exists|k: int|
            {
                &&& 1 <= k < events.len()
                &&& events[k - 1] == RelayEventView::Connected
                &&& #[trigger] events[k] == RelayEventView::Subscribed
                &&& forall|j: int|
                    k < j < events.len() ==> (#[trigger] events[j] is Arrived
                        || events[j] is Garbled)
            },
    decreases events.len(),
{
    let earlier = events.drop_last();
    if events.last() == RelayEventView::Subscribed {
        assert(RelayPhase::Connecting.after(earlier) == RelayPhase::Subscribing);
        assert(earlier.len() > 0);
        assert(earlier.last() == RelayEventView::Connected);
        assert(events[events.len() - 2] == RelayEventView::Connected);
        assert(events[events.len() - 1] == RelayEventView::Subscribed);
    } else {
        messages_arrive_on_a_live_subscription(earlier);
        let k = choose|k: int|
            {
                &&& 1 <= k < earlier.len()
                &&& earlier[k - 1] == RelayEventView::Connected
                &&& #[trigger] earlier[k] == RelayEventView::Subscribed
                &&& forall|j: int|
                    k < j < earlier.len() ==> (#[trigger] earlier[j] is Arrived
                        || earlier[j] is Garbled)
            };
        assert(events[k] == RelayEventView::Subscribed);
        assert forall|j: int| k < j < events.len() implies (#[trigger] events[j] is Arrived
            || events[j] is Garbled) by {
            if j < earlier.len() {
                assert(earlier[j] == events[j]);
            }
        }
    }
}

} // verus!
