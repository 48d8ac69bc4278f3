//! What holds of the load generator's clients over time.

use crate::bench::{
    latency_us, room_name, room_number, send_interval, user_name, Args, BenchClientView,
    ClientAction, ClientActionView, ClientEvent, ClientEventView, ClientOutcome, ClientPhase,
    Counters, Incoming, IncomingView, Mode, Outgoing, OutgoingView, PAYLOAD,
};
use crate::latency::{level_is_exact_for_short_values, level_keeps_three_digits};
use crate::message::{fits, ClientMessageView, MAX_NAME_BYTES, MAX_TEXT_BYTES};
use crate::text::{
    all_digits, decimal, decimal_denotes_number, decimal_has_no_leading_zero,
    decimal_is_injective, decimal_is_short, digits_value, power_of_ten,
};
use vstd::prelude::*;

verus! {

impl BenchClientView {
    /// What a series of events makes of the client.
    pub open spec fn after(self, events: Seq<ClientEventView>) -> BenchClientView
        decreases events.len(),
    {
        if events.len() == 0 {
            self
        } else {
            self.after(events.drop_last()).next(events.last())
        }
    }

    /// Whether each event of a series is one that the client waits for when it comes, and can take.
    pub open spec fn admits(self, events: Seq<ClientEventView>) -> bool
        decreases events.len(),
    {
        events.len() > 0 ==> {
            &&& self.admits(events.drop_last())
            &&& self.after(events.drop_last()).expects(events.last())
            &&& self.after(events.drop_last()).has_room_for(events.last())
        }
    }

    /// What a series of events makes of the counters.
    pub open spec fn tally_all(self, counters: Counters, events: Seq<ClientEventView>) -> Counters
        decreases events.len(),
    {
        if events.len() == 0 {
            counters
        } else {
            self.after(events.drop_last()).tally(
                self.tally_all(counters, events.drop_last()),
                events.last(),
            )
        }
    }

    /// What the client asks for in a series of events.
    pub open spec fn actions(self, events: Seq<ClientEventView>) -> Seq<ClientActionView>
        decreases events.len(),
    {
        if events.len() == 0 {
            Seq::empty()
        } else {
            self.actions(events.drop_last()).push(
                self.after(events.drop_last()).action(events.last()),
            )
        }
    }

    /// How many latencies the client measures in a series of events.
    pub open spec fn samples(self, events: Seq<ClientEventView>) -> nat
        decreases events.len(),
    {
        if events.len() == 0 {
            0
        } else {
            let before = self.samples(events.drop_last());
            if self.after(events.drop_last()).sample(events.last()) is Some {
                before + 1
            } else {
                before
            }
        }
    }

    /// How many messages the client sends after its warm-up in a series of events.
    pub open spec fn sends(self, events: Seq<ClientEventView>) -> nat
        decreases events.len(),
    {
        if events.len() == 0 {
            0
        } else {
            let before = self.sends(events.drop_last());
            match events.last() {
                ClientEventView::Sent { now_ns } => if now_ns >= self.after(
                    events.drop_last(),
                ).measure_after_ns {
                    before + 1
                } else {
                    before
                },
                _ => before,
            }
        }
    }

    /// How many texts come in after the client's warm-up in a series of events.
    pub open spec fn arrivals(self, events: Seq<ClientEventView>) -> nat
        decreases events.len(),
    {
        if events.len() == 0 {
            0
        } else {
            let before = self.arrivals(events.drop_last());
            match events.last() {
                ClientEventView::Text { arrived_ns, .. } => if arrived_ns >= self.after(
                    events.drop_last(),
                ).measure_after_ns {
                    before + 1
                } else {
                    before
                },
                _ => before,
            }
        }
    }

    /// The Unix times of the ticks that come before the client's time is up, in a series of events.
    pub open spec fn ticks(self, events: Seq<ClientEventView>) -> Seq<u64>
        decreases events.len(),
    {
        if events.len() == 0 {
            Seq::empty()
        } else {
            let before = self.ticks(events.drop_last());
            match events.last() {
                ClientEventView::Tick { now_ns, unix_ns } => if now_ns < self.after(
                    events.drop_last(),
                ).deadline_ns {
                    before.push(unix_ns)
                } else {
                    before
                },
                _ => before,
            }
        }
    }
}

/// The messages that a series of actions asks to encode.
pub open spec fn messages_made(actions: Seq<ClientActionView>) -> Seq<OutgoingView>
    decreases actions.len(),
{
    if actions.len() == 0 {
        Seq::empty()
    } else {
        match actions.last() {
            ClientActionView::Encode(message) => messages_made(actions.drop_last()).push(message),
            _ => messages_made(actions.drop_last()),
        }
    }
}

/// The texts that messages are encoded as, in a series of events.
pub open spec fn encoded_texts(events: Seq<ClientEventView>) -> Seq<Seq<char>>
    decreases events.len(),
{
    if events.len() == 0 {
        Seq::empty()
    } else {
        match events.last() {
            ClientEventView::Encoded(text) => encoded_texts(events.drop_last()).push(text),
            _ => encoded_texts(events.drop_last()),
        }
    }
}

/// The texts that a series of actions asks to send.
pub open spec fn sent_texts(actions: Seq<ClientActionView>) -> Seq<Seq<char>>
    decreases actions.len(),
{
    if actions.len() == 0 {
        Seq::empty()
    } else {
        match actions.last() {
            ClientActionView::Send(text) => sent_texts(actions.drop_last()).push(text),
            _ => sent_texts(actions.drop_last()),
        }
    }
}

/// The numbers of the messages that a series of actions encodes.
pub open spec fn numbers(actions: Seq<ClientActionView>) -> Seq<u64>
    decreases actions.len(),
{
    if actions.len() == 0 {
        Seq::empty()
    } else {
        match actions.last() {
            ClientActionView::Encode(message) => numbers(actions.drop_last()).push(
                message.sequence,
            ),
            _ => numbers(actions.drop_last()),
        }
    }
}

/// How often a series of actions waits for the other clients.
pub open spec fn gatherings(actions: Seq<ClientActionView>) -> nat
    decreases actions.len(),
{
    if actions.len() == 0 {
        0
    } else if actions.last() == ClientActionView::Gather {
        gatherings(actions.drop_last()) + 1
    } else {
        gatherings(actions.drop_last())
    }
}

/// A client waits for the others exactly once, before it does anything else, and whether or not it
/// could connect: no other client waits for it in vain.
pub proof fn client_gathers_once(id: nat, args: Args, events: Seq<ClientEventView>)
    requires
        BenchClientView::made(id, args).admits(events),
    ensures
        gatherings(BenchClientView::made(id, args).actions(events)) == if events.len() == 0 {
            0nat
        } else {
            1nat
        },
        events.len() > 0 ==> BenchClientView::made(id, args).actions(events)[0]
            == ClientActionView::Gather,
    decreases events.len(),
{
    let made = BenchClientView::made(id, args);
    if events.len() > 0 {
        client_gathers_once(id, args, events.drop_last());
        lemma_as_many_actions(made, events.drop_last());
        lemma_connecting_is_first(id, args, events.drop_last());
        assert(made.actions(events).drop_last() =~= made.actions(events.drop_last()));
        if events.len() == 1 {
            reveal_with_fuel(gatherings, 2);
            assert(events.drop_last() =~= Seq::<ClientEventView>::empty());
        }
    }
}

/// Each event is answered with one action.
proof fn lemma_as_many_actions(client: BenchClientView, events: Seq<ClientEventView>)
    ensures
        client.actions(events).len() == events.len(),
    decreases events.len(),
{
    if events.len() > 0 {
        lemma_as_many_actions(client, events.drop_last());
    }
}

/// A client is connecting only before anything has happened.
proof fn lemma_connecting_is_first(id: nat, args: Args, events: Seq<ClientEventView>)
    requires
        BenchClientView::made(id, args).admits(events),
    ensures
        BenchClientView::made(id, args).after(events).phase == ClientPhase::Connecting
            <==> events.len() == 0,
{
}

/// A client numbers its messages from 1 on without a gap.
pub proof fn messages_are_numbered_in_turn(id: nat, args: Args, events: Seq<ClientEventView>)
    requires
        BenchClientView::made(id, args).admits(events),
    ensures
        ({
            let made = BenchClientView::made(id, args);
            let sent = numbers(made.actions(events));
            &&& sent.len() == made.after(events).sequence
            &&& forall|i: int| 0 <= i < sent.len() ==> #[trigger] sent[i] == i + 1
        }),
    decreases events.len(),
{
    if events.len() > 0 {
        let made = BenchClientView::made(id, args);
        messages_are_numbered_in_turn(id, args, events.drop_last());
        assert(made.actions(events).drop_last() =~= made.actions(events.drop_last()));
    }
}

/// A series of events leaves a client's names, times of running and pace as they were.
proof fn lemma_lasting(client: BenchClientView, events: Seq<ClientEventView>)
    ensures
        client.after(events).user == client.user,
        client.after(events).room == client.room,
        client.after(events).interval_ns == client.interval_ns,
    decreases events.len(),
{
    if events.len() > 0 {
        lemma_lasting(client, events.drop_last());
    }
}

/// Where connections are tested clients send nothing.
pub proof fn connection_test_sends_nothing(
    id: nat,
    args: Args,
    counters: Counters,
    events: Seq<ClientEventView>,
)
    requires
        args.mode == Mode::Connections || args.messages_per_second == 0,
        BenchClientView::made(id, args).admits(events),
    ensures
        numbers(BenchClientView::made(id, args).actions(events)) == Seq::<u64>::empty(),
        BenchClientView::made(id, args).tally_all(counters, events).sent == counters.sent,
{
    lemma_silent(id, args, counters, events);
}

/// Where connections are tested clients never get as far as to send.
proof fn lemma_silent(id: nat, args: Args, counters: Counters, events: Seq<ClientEventView>)
    requires
        args.mode == Mode::Connections || args.messages_per_second == 0,
        BenchClientView::made(id, args).admits(events),
    ensures
        ({
            let made = BenchClientView::made(id, args);
            &&& made.after(events).phase != ClientPhase::Encoding
            &&& made.after(events).phase != ClientPhase::Sending
            &&& numbers(made.actions(events)) == Seq::<u64>::empty()
            &&& made.tally_all(counters, events).sent == counters.sent
        }),
    decreases events.len(),
{
    if events.len() > 0 {
        let made = BenchClientView::made(id, args);
        lemma_silent(id, args, counters, events.drop_last());
        lemma_lasting(made, events.drop_last());
        assert(made.actions(events).drop_last() =~= made.actions(events.drop_last()));
    }
}

/// A client is counted once, as connected or as an error, and at most once more, as an error when
/// its connection breaks off.
#[verifier::spinoff_prover]
pub proof fn client_is_counted_once(
    id: nat,
    args: Args,
    counters: Counters,
    events: Seq<ClientEventView>,
)
    requires
        BenchClientView::made(id, args).admits(events),
        events.len() > 0,
    ensures
        ({
            let books = BenchClientView::made(id, args).tally_all(counters, events);
            &&& events[0] == ClientEventView::Connected || events[0]
                == ClientEventView::ConnectFailed
            &&& books.connected == (counters.connected + if events[0]
                == ClientEventView::Connected {
                1int
            } else {
                0int
            }) % 0x1_0000_0000_0000_0000
            &&& books.errors == (counters.errors + if events[0]
                == ClientEventView::ConnectFailed || events.last()
                == ClientEventView::Disconnected || events.last() == ClientEventView::SendFailed {
                1int
            } else {
                0int
            }) % 0x1_0000_0000_0000_0000
        }),
    decreases events.len(),
{
    let earlier = events.drop_last();
    if events.len() == 1 {
        assert(earlier =~= Seq::<ClientEventView>::empty());
        reveal_with_fuel(BenchClientView::tally_all, 2);
        reveal_with_fuel(BenchClientView::after, 2);
    } else {
        client_is_counted_once(id, args, counters, earlier);
        lemma_unconnected(id, args, earlier);
        lemma_connecting_is_first(id, args, earlier);
    }
}

/// A client counts each text that comes in and each message that it sends after its warm-up, and
/// of the latter no more than it has made.
pub proof fn client_counts_its_messages(
    id: nat,
    args: Args,
    counters: Counters,
    events: Seq<ClientEventView>,
)
    requires
        BenchClientView::made(id, args).admits(events),
    ensures
        ({
            let made = BenchClientView::made(id, args);
            let books = made.tally_all(counters, events);
            &&& books.wire_received == (counters.wire_received + made.arrivals(events))
                % 0x1_0000_0000_0000_0000
            &&& books.sent == (counters.sent + made.sends(events)) % 0x1_0000_0000_0000_0000
            &&& made.sends(events) <= made.after(events).sequence
        }),
    decreases events.len(),
{
    lemma_counts(BenchClientView::made(id, args), counters, events);
    lemma_sends(id, args, events);
}

/// What a series of events makes of the counters of messages.
#[verifier::spinoff_prover]
proof fn lemma_counts(client: BenchClientView, counters: Counters, events: Seq<ClientEventView>)
    ensures
        client.tally_all(counters, events).wire_received == (counters.wire_received
            + client.arrivals(events)) % 0x1_0000_0000_0000_0000,
        client.tally_all(counters, events).sent == (counters.sent + client.sends(events))
            % 0x1_0000_0000_0000_0000,
    decreases events.len(),
{
    if events.len() > 0 {
        let earlier = events.drop_last();
        lemma_counts(client, counters, earlier);
        let before = client.after(earlier);
        let books = client.tally_all(counters, earlier);
        lemma_count_of_one(before, books, events.last());
        lemma_one_more(counters.wire_received as int, client.arrivals(earlier) as int);
        lemma_one_more(counters.sent as int, client.sends(earlier) as int);
        assert(client.tally_all(counters, events) == before.tally(books, events.last()));
    }
}

/// A count that starts again from zero goes on the same from there.
proof fn lemma_one_more(count: int, more: int)
    ensures
        ((count + more) % 0x1_0000_0000_0000_0000 + 1) % 0x1_0000_0000_0000_0000 == (count + (more
            + 1)) % 0x1_0000_0000_0000_0000,
{
}

/// What one event makes of the counters of messages.
proof fn lemma_count_of_one(client: BenchClientView, counters: Counters, event: ClientEventView)
    ensures
        client.tally(counters, event).wire_received == match event {
            ClientEventView::Text { arrived_ns, .. } => if arrived_ns >= client.measure_after_ns {
                (counters.wire_received + 1) % 0x1_0000_0000_0000_0000
            } else {
                counters.wire_received as int
            },
            _ => counters.wire_received as int,
        },
        client.tally(counters, event).sent == match event {
            ClientEventView::Sent { now_ns } => if now_ns >= client.measure_after_ns {
                (counters.sent + 1) % 0x1_0000_0000_0000_0000
            } else {
                counters.sent as int
            },
            _ => counters.sent as int,
        },
{
}

/// A client counts each latency that it measures as received, and keeps no more of them than that.
#[verifier::spinoff_prover]
pub proof fn client_counts_its_latencies(
    id: nat,
    args: Args,
    counters: Counters,
    events: Seq<ClientEventView>,
)
    requires
        BenchClientView::made(id, args).admits(events),
    ensures
        ({
            let made = BenchClientView::made(id, args);
            let books = made.tally_all(counters, events);
            &&& books.received == (counters.received + made.samples(events))
                % 0x1_0000_0000_0000_0000
            &&& made.after(events).latencies.len() <= made.samples(events)
        }),
    decreases events.len(),
{
    if events.len() > 0 {
        client_counts_its_latencies(id, args, counters, events.drop_last());
        lemma_one_more(
            counters.received as int,
            BenchClientView::made(id, args).samples(events.drop_last()) as int,
        );
    }
}

/// A client has made each message that it sent, and the one that it is sending.
proof fn lemma_sends(id: nat, args: Args, events: Seq<ClientEventView>)
    requires
        BenchClientView::made(id, args).admits(events),
    ensures
        ({
            let made = BenchClientView::made(id, args);
            let phase = made.after(events).phase;
            let pending: nat = if phase == ClientPhase::Encoding || phase == ClientPhase::Sending {
                1
            } else {
                0
            };
            made.sends(events) + pending <= made.after(events).sequence
        }),
    decreases events.len(),
{
    if events.len() > 0 {
        lemma_sends(id, args, events.drop_last());
    }
}

/// A client that could not connect never runs; one whose connection broke off has ended.
proof fn lemma_unconnected(id: nat, args: Args, events: Seq<ClientEventView>)
    requires
        BenchClientView::made(id, args).admits(events),
        events.len() > 0,
    ensures
        ({
            let phase = BenchClientView::made(id, args).after(events).phase;
            &&& events[0] == ClientEventView::ConnectFailed ==> phase
                == ClientPhase::GatheringUnconnected || phase == ClientPhase::Over(
                ClientOutcome::NotConnected,
            )
            &&& events.last() == ClientEventView::Disconnected || events.last()
                == ClientEventView::SendFailed ==> phase is Over
        }),
    decreases events.len(),
{
    if events.len() > 1 {
        lemma_unconnected(id, args, events.drop_last());
    } else {
        assert(events.drop_last() =~= Seq::<ClientEventView>::empty());
        reveal_with_fuel(BenchClientView::after, 2);
    }
}

/// A client that has ended waits for nothing, and asks for its end exactly when it has ended.
pub proof fn client_ends_when_it_asks_to(client: BenchClientView, event: ClientEventView)
    requires
        client.expects(event),
    ensures
        !(client.phase is Over),
        client.action(event) is Finish <==> client.next(event).phase is Over,
{
}

/// Whatever a client does, it looks at the clock before it waits for anything more, and does not
/// wait once its time is up.
pub proof fn client_stops_at_its_deadline(client: BenchClientView, event: ClientEventView)
    requires
        client.expects(event),
        client.action(event) == ClientActionView::Wait,
    ensures
        event is Gathered || (event matches ClientEventView::Clock { now_ns } && now_ns
            < client.deadline_ns),
{
}

/// Upon every event a client waits for the outcome of what it asks for.
pub proof fn client_waits_for_what_it_asked(client: BenchClientView, event: ClientEventView)
    requires
        client.expects(event),
    ensures
        ({
            let phase = client.next(event).phase;
            let action = client.action(event);
            &&& action is Gather <==> phase == ClientPhase::Gathering || phase
                == ClientPhase::GatheringUnconnected
            &&& action is Wait <==> phase == ClientPhase::Running
            &&& action is Encode <==> phase == ClientPhase::Encoding
            &&& action is Send <==> phase == ClientPhase::Sending
            &&& action is ReadClock <==> phase == ClientPhase::Checking
            &&& action is Finish <==> phase is Over
            &&& action matches ClientActionView::Finish(outcome) ==> phase == ClientPhase::Over(
                outcome,
            )
        }),
{
}

/// A client can take in whatever may come of what it asked for, and nothing else. Ticks it awaits
/// only if it sends.
pub proof fn client_takes_every_outcome(client: BenchClientView, event: ClientEventView)
    ensures
        client.expects(event) <==> match client.phase {
            ClientPhase::Connecting => event is Connected || event is ConnectFailed,
            ClientPhase::Gathering | ClientPhase::GatheringUnconnected => event is Gathered,
            ClientPhase::Running => event is DeadlineReached || event is Text || event is OtherFrame
                || event is Disconnected || (event is Tick && client.interval_ns is Some),
            ClientPhase::Encoding => event is Encoded || event is EncodeFailed,
            ClientPhase::Sending => event is Sent || event is SendFailed,
            ClientPhase::Checking => event is Clock,
            ClientPhase::Over(_) => false,
        },
{
}

/// Only numbers that run out keep a client from an event: that of its messages, or its times.
pub proof fn client_has_room_while_numbers_last(client: BenchClientView, event: ClientEventView)
    ensures
        !client.has_room_for(event) <==> {
            ||| event matches ClientEventView::Tick { now_ns, .. } && now_ns < client.deadline_ns
                && client.sequence == 0xffff_ffff_ffff_ffff
            ||| event matches ClientEventView::Gathered { deadline_base_ns, measure_base_ns }
                && client.phase == ClientPhase::Gathering && (client.warmup + client.duration
                > 0xffff_ffff_ffff_ffff || deadline_base_ns + (client.warmup + client.duration)
                * 1_000_000_000 > u128::MAX || measure_base_ns + client.warmup * 1_000_000_000
                > u128::MAX)
        },
{
}

/// A client that connected runs once all have gathered, and one that did not ends then.
pub proof fn client_runs_if_it_connected(client: BenchClientView, event: ClientEventView)
    requires
        client.expects(event),
    ensures
        event is Connected <==> client.next(event).phase == ClientPhase::Gathering,
        event is ConnectFailed <==> client.next(event).phase == ClientPhase::GatheringUnconnected,
        event is Gathered && client.phase == ClientPhase::Gathering ==> client.next(event).phase
            == ClientPhase::Running,
        event is Gathered && client.phase != ClientPhase::Gathering ==> client.next(event).phase
            == ClientPhase::Over(ClientOutcome::NotConnected),
{
}

/// A client that ran ends upon the end of its time, or when its connection breaks off, and for no
/// other reason; the other two ways to end have one reason each.
pub proof fn client_ends_for_these_reasons_only(client: BenchClientView, event: ClientEventView)
    requires
        client.expects(event),
    ensures
        client.action(event) == ClientActionView::Finish(ClientOutcome::Finished) <==> {
            ||| event is DeadlineReached
            ||| event is Disconnected
            ||| event is SendFailed
            ||| event matches ClientEventView::Tick { now_ns, .. } && now_ns >= client.deadline_ns
            ||| event matches ClientEventView::Clock { now_ns } && now_ns >= client.deadline_ns
        },
        client.action(event) == ClientActionView::Finish(ClientOutcome::NotConnected)
            <==> event is Gathered && client.phase == ClientPhase::GatheringUnconnected,
        client.action(event) == ClientActionView::Finish(ClientOutcome::NotEncoded)
            <==> event is EncodeFailed,
{
}

/// A client reads the clock after each frame and after each message sent, and only then. While any
/// time is left when it does, it goes on.
pub proof fn client_goes_on_while_time_is_left(client: BenchClientView, event: ClientEventView)
    requires
        client.expects(event),
    ensures
        client.action(event) is ReadClock <==> event is Text || event is OtherFrame
            || event is Sent,
        event matches ClientEventView::Clock { now_ns } && now_ns < client.deadline_ns
            ==> client.action(event) is Wait,
{
}

/// A running client that sends answers each tick before its time is up, whether it measures yet or
/// not, with a request to encode its next message: one number higher than the last, with the time
/// of the tick, and under its own name and room.
pub proof fn client_sends_at_each_tick(client: BenchClientView, now_ns: u128, unix_ns: u64)
    requires
        client.phase == ClientPhase::Running,
        client.interval_ns is Some,
        now_ns < client.deadline_ns,
        client.sequence < u64::MAX,
    ensures
        ({
            let tick = ClientEventView::Tick { now_ns, unix_ns };
            &&& client.expects(tick)
            &&& client.has_room_for(tick)
            &&& client.next(tick).phase == ClientPhase::Encoding
            &&& client.next(tick).sequence == client.sequence + 1
            &&& client.action(tick) matches ClientActionView::Encode(message)
            &&& message.room == client.room
            &&& message.user == client.user
            &&& message.text == "BlazeChat benchmark payload"@
            &&& message.client_ts_ns == unix_ns
            &&& message.sequence == client.sequence + 1
        }),
{
}

/// A client makes one message at each tick before its time is up, and at no other time. It asks to
/// send what its messages are encoded as, each once and in order, and nothing else.
pub proof fn client_sends_what_it_makes(client: BenchClientView, events: Seq<ClientEventView>)
    requires
        client.admits(events),
    ensures
        ({
            let made = messages_made(client.actions(events));
            let ticks = client.ticks(events);
            &&& made.len() == ticks.len()
            &&& forall|i: int|
                #![trigger made[i]]
                0 <= i < made.len() ==> {
                    &&& made[i].client_ts_ns == ticks[i]
                    &&& made[i].sequence == client.sequence + i + 1
                    &&& made[i].user == client.user
                    &&& made[i].room == client.room
                    &&& made[i].text == "BlazeChat benchmark payload"@
                }
            &&& client.after(events).sequence == client.sequence + made.len()
        }),
        sent_texts(client.actions(events)) == encoded_texts(events),
    decreases events.len(),
{
    if events.len() > 0 {
        client_sends_what_it_makes(client, events.drop_last());
        lemma_lasting(client, events.drop_last());
        assert(client.actions(events).drop_last() =~= client.actions(events.drop_last()));
    }
}

/// A client's time and its warm-up run from the gathering, for as many seconds as it was told to,
/// and are not changed by anything else.
pub proof fn times_run_from_the_gathering(client: BenchClientView, event: ClientEventView)
    requires
        client.expects(event),
        client.has_room_for(event),
    ensures
        client.phase == ClientPhase::Gathering ==> (event matches ClientEventView::Gathered {
            deadline_base_ns,
            measure_base_ns,
        } && {
            &&& client.next(event).deadline_ns - deadline_base_ns == (client.warmup
                + client.duration) * 1_000_000_000
            &&& client.next(event).measure_after_ns - measure_base_ns == client.warmup
                * 1_000_000_000
        }),
        client.phase != ClientPhase::Gathering ==> {
            &&& client.next(event).deadline_ns == client.deadline_ns
            &&& client.next(event).measure_after_ns == client.measure_after_ns
        },
{
}

/// Nothing changes who a client is and what it was told to do. Only a message that it makes changes
/// its number, and only a text that comes in its latencies.
pub proof fn client_keeps_the_rest(client: BenchClientView, event: ClientEventView)
    requires
        client.expects(event),
        client.has_room_for(event),
    ensures
        client.next(event).user == client.user,
        client.next(event).room == client.room,
        client.next(event).warmup == client.warmup,
        client.next(event).duration == client.duration,
        client.next(event).interval_ns == client.interval_ns,
        client.action(event) is Encode ==> client.next(event).sequence == client.sequence + 1,
        !(client.action(event) is Encode) ==> client.next(event).sequence == client.sequence,
        !(event is Text) ==> client.next(event).latencies == client.latencies,
{
}

/// A latency is the time between two moments in whole microseconds: no more than went by, and less
/// than a microsecond short of it. There is none where the clock has not advanced.
pub proof fn latency_is_the_time_between(sent_ns: u64, received_ns: u64)
    ensures
        received_ns >= sent_ns ==> 1_000 * latency_us(sent_ns, received_ns) <= received_ns
            - sent_ns < 1_000 * (latency_us(sent_ns, received_ns) + 1),
        received_ns <= sent_ns ==> latency_us(sent_ns, received_ns) == 0,
{
}

/// It does not matter to a latency when the clock starts.
pub proof fn latency_is_the_same_at_all_times(sent_ns: u64, received_ns: u64, shift: u64)
    requires
        sent_ns + shift <= u64::MAX,
        received_ns + shift <= u64::MAX,
    ensures
        latency_us((sent_ns + shift) as u64, (received_ns + shift) as u64) == latency_us(
            sent_ns,
            received_ns,
        ),
{
}

/// A client measures a message exactly if it is its own, is looked at after the warm-up, and took at
/// least a microsecond to come back; it then measures the time since it was sent, in whole
/// microseconds, whenever that was.
pub proof fn client_measures_the_way_back(
    client: BenchClientView,
    message: IncomingView,
    arrived_ns: u128,
    checked_ns: u128,
    unix_ns: u64,
)
    ensures
        ({
            let text = ClientEventView::Text {
                arrived_ns,
                message: Some(message),
                checked_ns,
                unix_ns,
            };
            &&& client.sample(text) is Some <==> {
                &&& message.user == client.user
                &&& checked_ns >= client.measure_after_ns
                &&& unix_ns >= message.client_ts_ns + 1_000
            }
            &&& client.sample(text) matches Some(latency) ==> 1_000 * latency <= unix_ns
                - message.client_ts_ns < 1_000 * (latency + 1)
        }),
{
}

/// A client measures nothing but messages.
pub proof fn client_measures_messages_only(client: BenchClientView, event: ClientEventView)
    requires
        client.sample(event) is Some,
    ensures
        event matches ClientEventView::Text { message: Some(_), .. },
{
}

/// A latency that was measured is kept, as it is if it is short and to three digits otherwise; those
/// of more than a minute that the histogram has no place for are not. Nothing else is kept.
pub proof fn measured_latencies_are_kept(client: BenchClientView, event: ClientEventView)
    requires
        client.expects(event),
    ensures
        match client.sample(event) {
            Some(latency) => if latency < 67_108_864 {
                exists|kept: u64|
                    {
                        &&& #[trigger] client.latencies.insert(kept) == client.next(event).latencies
                        &&& kept <= latency
                        &&& 1_000 * (latency - kept) <= latency
                        &&& latency < 2_048 ==> kept == latency
                    }
            } else {
                client.next(event).latencies == client.latencies
            },
            None => client.next(event).latencies == client.latencies,
        },
{
    if let Some(latency) = client.sample(event) {
        level_keeps_three_digits(latency as nat);
        level_is_exact_for_short_values(latency as nat);
        if latency < 67_108_864 {
            let kept = crate::latency::level(latency as nat) as u64;
            assert(client.latencies.insert(kept) == client.next(event).latencies);
        }
    }
}

/// A client that sends lets as many whole nanoseconds pass between two messages as a second has for
/// each of those to be sent in it.
pub proof fn messages_are_spread_over_the_second(mode: Mode, messages_per_second: u64)
    ensures
        send_interval(mode, messages_per_second) is Some <==> mode == Mode::Throughput
            && messages_per_second > 0,
        send_interval(mode, messages_per_second) matches Some(interval_ns) ==> interval_ns
            * messages_per_second <= 1_000_000_000 < (interval_ns + 1) * messages_per_second,
{
    if mode == Mode::Throughput && messages_per_second > 0 {
        let second: int = 1_000_000_000;
        let rate = messages_per_second as int;
        vstd::arithmetic::div_mod::lemma_fundamental_div_mod(second, rate);
        let interval = second / rate;
        assert(interval * rate == rate * interval) by (nonlinear_arith);
        assert((interval + 1) * rate == rate * interval + rate) by (nonlinear_arith);
    }
}

/// The name of a user and that of a room are a fixed beginning and then the number, in digits, with
/// no zeros before it. Rooms are numbered below how many there are, and are dealt out in turn.
pub proof fn names_end_in_their_numbers(id: nat, rooms: nat)
    ensures
        user_name(id).take(6) == "bench-"@,
        user_name(id).len() > 6,
        all_digits(user_name(id).skip(6)),
        digits_value(user_name(id).skip(6)) == id,
        id > 0 ==> user_name(id)[6] != '0',
        id == 0 ==> user_name(id).len() == 7,
        room_name(id, rooms).take(5) == "room-"@,
        room_name(id, rooms).len() > 5,
        all_digits(room_name(id, rooms).skip(5)),
        digits_value(room_name(id, rooms).skip(5)) == room_number(id, rooms),
        room_number(id, rooms) > 0 ==> room_name(id, rooms)[5] != '0',
        room_number(id, rooms) == 0 ==> room_name(id, rooms).len() == 6,
        rooms == 0 ==> room_number(id, rooms) == 0,
        rooms > 0 ==> room_number(id, rooms) < rooms,
        id < rooms ==> room_number(id, rooms) == id,
{
    reveal_strlit("bench-");
    reveal_strlit("room-");
    let number = room_number(id, rooms);
    decimal_denotes_number(id);
    decimal_denotes_number(number);
    decimal_has_no_leading_zero(id);
    decimal_has_no_leading_zero(number);
    assert(user_name(id).take(6) =~= "bench-"@);
    assert(user_name(id).skip(6) =~= decimal(id));
    assert(user_name(id)[6] == decimal(id)[0]);
    assert(room_name(id, rooms).take(5) =~= "room-"@);
    assert(room_name(id, rooms).skip(5) =~= decimal(number));
    assert(room_name(id, rooms)[5] == decimal(number)[0]);
    if 0 < rooms {
        vstd::arithmetic::div_mod::lemma_mod_bound(id as int, rooms as int);
        if id < rooms {
            vstd::arithmetic::div_mod::lemma_small_mod(id, rooms);
        }
    }
}

/// The contents of messages, events and actions are all that they carry.
pub proof fn client_views_are_whole(
    outgoing: Outgoing,
    incoming: Incoming,
    event: ClientEvent,
    action: ClientAction,
)
    ensures
        outgoing@.room == outgoing.room@,
        outgoing@.user == outgoing.user@,
        outgoing@.text == outgoing.text@,
        outgoing@.client_ts_ns == outgoing.client_ts_ns,
        outgoing@.sequence == outgoing.sequence,
        incoming@.user == incoming.user@,
        incoming@.client_ts_ns == incoming.client_ts_ns,
        event is Connected <==> event@ is Connected,
        event is ConnectFailed <==> event@ is ConnectFailed,
        event is Gathered <==> event@ is Gathered,
        event matches ClientEvent::Gathered { deadline_base_ns: a, measure_base_ns: b } ==> event@
            == (ClientEventView::Gathered { deadline_base_ns: a, measure_base_ns: b }),
        event is DeadlineReached <==> event@ is DeadlineReached,
        event is Text <==> event@ is Text,
        event matches ClientEvent::Text { arrived_ns, message, checked_ns, unix_ns } ==> {
            &&& event@ matches ClientEventView::Text {
                arrived_ns: a,
                message: m,
                checked_ns: c,
                unix_ns: u,
            }
            &&& a == arrived_ns
            &&& c == checked_ns
            &&& u == unix_ns
            &&& message is Some <==> m is Some
            &&& message matches Some(incoming) ==> m == Some(incoming@)
        },
        event is OtherFrame <==> event@ is OtherFrame,
        event is Disconnected <==> event@ is Disconnected,
        event is Tick <==> event@ is Tick,
        event matches ClientEvent::Tick { now_ns: a, unix_ns: b } ==> event@ == (
        ClientEventView::Tick { now_ns: a, unix_ns: b }),
        event is Encoded <==> event@ is Encoded,
        event matches ClientEvent::Encoded(text) ==> event@ == ClientEventView::Encoded(text@),
        event is EncodeFailed <==> event@ is EncodeFailed,
        event is Sent <==> event@ is Sent,
        event matches ClientEvent::Sent { now_ns: a } ==> event@ == (ClientEventView::Sent {
            now_ns: a,
        }),
        event is SendFailed <==> event@ is SendFailed,
        event is Clock <==> event@ is Clock,
        event matches ClientEvent::Clock { now_ns: a } ==> event@ == (ClientEventView::Clock {
            now_ns: a,
        }),
        action is Gather <==> action@ is Gather,
        action is Wait <==> action@ is Wait,
        action is Encode <==> action@ is Encode,
        action matches ClientAction::Encode(message) ==> action@ == ClientActionView::Encode(
            message@,
        ),
        action is Send <==> action@ is Send,
        action matches ClientAction::Send(text) ==> action@ == ClientActionView::Send(text@),
        action is ReadClock <==> action@ is ReadClock,
        action is Finish <==> action@ is Finish,
        action matches ClientAction::Finish(outcome) ==> action@ == ClientActionView::Finish(
            outcome,
        ),
{
}

/// Different clients are different users.
pub proof fn users_are_distinct(a: nat, b: nat)
    requires
        user_name(a) == user_name(b),
    ensures
        a == b,
{
    lemma_suffixes("bench-"@, decimal(a), decimal(b));
    decimal_is_injective(a, b);
}

/// A client measures no message of another client's.
pub proof fn clients_measure_their_own_messages_only(
    id: nat,
    other: nat,
    args: Args,
    events: Seq<ClientEventView>,
    event: ClientEventView,
)
    requires
        event matches ClientEventView::Text { message: Some(message), .. } && message.user
            == user_name(other),
        id != other,
    ensures
        BenchClientView::made(id, args).after(events).sample(event) is None,
{
    lemma_lasting(BenchClientView::made(id, args), events);
    if user_name(id) == user_name(other) {
        users_are_distinct(id, other);
    }
}

/// Clients share a room exactly if they are dealt to the same one, and no more rooms are used than
/// there are to be, or than one.
pub proof fn rooms_are_dealt_in_turn(a: nat, b: nat, rooms: nat)
    ensures
        room_name(a, rooms) == room_name(b, rooms) <==> room_number(a, rooms) == room_number(
            b,
            rooms,
        ),
        room_number(a, rooms) < if rooms == 0 {
            1
        } else {
            rooms
        },
        room_number(a + rooms, rooms) == room_number(a, rooms),
{
    if room_name(a, rooms) == room_name(b, rooms) {
        lemma_suffixes(
            "room-"@,
            decimal(room_number(a, rooms)),
            decimal(room_number(b, rooms)),
        );
        decimal_is_injective(room_number(a, rooms), room_number(b, rooms));
    }
    if rooms > 0 {
        vstd::arithmetic::div_mod::lemma_mod_add_multiples_vanish(a as int, rooms as int);
    }
}

impl OutgoingView {
    /// The message as the server reads it.
    pub open spec fn as_client_message(self) -> ClientMessageView {
        ClientMessageView {
            room: self.room,
            user: self.user,
            text: self.text,
            client_ts_ns: self.client_ts_ns,
            sequence: self.sequence,
        }
    }
}

/// Every message that a client makes is within the server's limits.
pub proof fn client_messages_are_within_limits(
    id: usize,
    args: Args,
    events: Seq<ClientEventView>,
    event: ClientEventView,
)
    ensures
        fits(user_name(id as nat), MAX_NAME_BYTES),
        fits(room_name(id as nat, args.rooms as nat), MAX_NAME_BYTES),
        fits(PAYLOAD@, MAX_TEXT_BYTES),
        BenchClientView::made(id as nat, args).after(events).action(event) matches
            ClientActionView::Encode(message) ==> message.as_client_message().within_limits(),
{
    let number = room_number(id as nat, args.rooms as nat);
    if args.rooms > 0 {
        vstd::arithmetic::div_mod::lemma_mod_decreases(id as nat, args.rooms as nat);
    }
    reveal_strlit("bench-");
    reveal_strlit("room-");
    reveal_strlit("BlazeChat benchmark payload");
    lemma_numbered_name_fits("bench-"@, id as nat);
    lemma_numbered_name_fits("room-"@, number);
    vstd::utf8::is_ascii_chars_encode_utf8(PAYLOAD@);
    lemma_lasting(BenchClientView::made(id as nat, args), events);
}

/// A short ASCII text with a 64-bit number behind it fits as a name.
proof fn lemma_numbered_name_fits(beginning: Seq<char>, number: nat)
    requires
        number <= u64::MAX,
        beginning.len() <= 100,
        vstd::utf8::is_ascii_chars(beginning),
    ensures
        fits(beginning + decimal(number), MAX_NAME_BYTES),
{
    let name = beginning + decimal(number);
    assert(power_of_ten(20) == 100_000_000_000_000_000_000nat) by {
        reveal_with_fuel(power_of_ten, 21);
    }
    decimal_is_short(number, 20);
    decimal_denotes_number(number);
    assert(vstd::utf8::is_ascii_chars(name));
    vstd::utf8::is_ascii_chars_encode_utf8(name);
}

/// What follows the same beginning is the same if the whole is.
proof fn lemma_suffixes(beginning: Seq<char>, a: Seq<char>, b: Seq<char>)
    requires
        beginning + a == beginning + b,
    ensures
        a == b,
{
    assert((beginning + a).skip(beginning.len() as int) =~= a);
    assert((beginning + b).skip(beginning.len() as int) =~= b);
}

} // verus!
