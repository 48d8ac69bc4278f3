//! Waiting for Redis to come up.
//!
//! The server asks Redis up to thirty times whether it is there, with a pause after each time that
//! it was not. The caller reports what came of the last `WaitAction` as a `WaitEvent`.

use vstd::prelude::*;

verus! {

/// How often Redis is tried.
pub const MAX_ATTEMPTS: u32 = 30;

/// How long the pause between two attempts is, in seconds.
pub const ATTEMPT_PAUSE_SECS: u64 = 1;

/// How the wait for Redis ended.
#[derive(Clone, Copy, Debug, PartialEq, Eq, Structural)]
pub enum WaitOutcome {
    /// Redis is there.
    Ready,
    /// The last attempt could not connect.
    Unreachable,
    /// A ping was answered with an error.
    PingError,
    /// No attempt was answered as it should be.
    NotReady,
}

/// What the wait for Redis is waiting for.
#[derive(Clone, Copy, Debug, PartialEq, Eq, Structural)]
pub enum WaitPhase {
    /// Whether a connection comes about.
    Connecting,
    /// The answer to a ping.
    Pinging,
    /// The end of a pause.
    Pausing,
    /// Nothing: the wait is over.
    Over(WaitOutcome),
}

/// What can happen while Redis is waited for.
pub enum WaitEvent {
    /// The connection came about.
    Connected,
    /// The connection did not come about.
    ConnectFailed,
    /// The ping was answered with this text.
    Answered(String),
    /// The ping was answered with an error.
    PingFailed,
    /// The pause is over.
    Paused,
}

/// What the wait for Redis asks for.
#[derive(Clone, Copy, Debug, PartialEq, Eq, Structural)]
pub enum WaitAction {
    /// Connect.
    Connect,
    /// Send a ping.
    Ping,
    /// Pause for `ATTEMPT_PAUSE_SECS`.
    Pause,
    /// Stop waiting.
    Finish(WaitOutcome),
}

/// The contents of a `WaitEvent`.
pub enum WaitEventView {
    Connected,
    ConnectFailed,
    Answered(Seq<char>),
    PingFailed,
    Paused,
}

impl View for WaitEvent {
    type V = WaitEventView;

    open spec fn view(&self) -> WaitEventView {
        match self {
            WaitEvent::Connected => WaitEventView::Connected,
            WaitEvent::ConnectFailed => WaitEventView::ConnectFailed,
            WaitEvent::Answered(text) => WaitEventView::Answered(text@),
            WaitEvent::PingFailed => WaitEventView::PingFailed,
            WaitEvent::Paused => WaitEventView::Paused,
        }
    }
}

/// The wait for Redis: the number of the attempt, from 1 on, and where it stands.
#[derive(Clone, Copy, Debug, PartialEq, Eq, Structural)]
pub struct RedisWait {
    pub attempt: u32,
    pub phase: WaitPhase,
}

impl WaitPhase {
    /// Whether an event is one that this phase waits for.
    pub open spec fn expects(self, event: WaitEventView) -> bool {
        match event {
            WaitEventView::Connected | WaitEventView::ConnectFailed => self
                == WaitPhase::Connecting,
            WaitEventView::Answered(_) | WaitEventView::PingFailed => self == WaitPhase::Pinging,
            WaitEventView::Paused => self == WaitPhase::Pausing,
        }
    }

    /// What is asked for on the way into this phase.
    pub open spec fn action(self) -> WaitAction {
        match self {
            WaitPhase::Connecting => WaitAction::Connect,
            WaitPhase::Pinging => WaitAction::Ping,
            WaitPhase::Pausing => WaitAction::Pause,
            WaitPhase::Over(outcome) => WaitAction::Finish(outcome),
        }
    }
}

impl RedisWait {
    /// Whether the number of the attempt is one of those allowed.
    pub open spec fn wf(self) -> bool {
        1 <= self.attempt <= MAX_ATTEMPTS
    }

    /// The wait in another phase.
    pub open spec fn in_phase(self, phase: WaitPhase) -> RedisWait {
        RedisWait { phase, ..self }
    }

    /// What an event makes of the wait.
    pub open spec fn next(self, event: WaitEventView) -> RedisWait {
        match event {
            WaitEventView::Connected => self.in_phase(WaitPhase::Pinging),
            WaitEventView::ConnectFailed => if self.attempt < MAX_ATTEMPTS {
                self.in_phase(WaitPhase::Pausing)
            } else {
                self.in_phase(WaitPhase::Over(WaitOutcome::Unreachable))
            },
            WaitEventView::Answered(text) => if text == "PONG"@ {
                self.in_phase(WaitPhase::Over(WaitOutcome::Ready))
            } else {
                self.in_phase(WaitPhase::Pausing)
            },
            WaitEventView::PingFailed => self.in_phase(WaitPhase::Over(WaitOutcome::PingError)),
            WaitEventView::Paused => if self.attempt < MAX_ATTEMPTS {
                RedisWait { attempt: (self.attempt + 1) as u32, phase: WaitPhase::Connecting }
            } else {
                self.in_phase(WaitPhase::Over(WaitOutcome::NotReady))
            },
        }
    }

    /// The wait before the first attempt.
    pub open spec fn begun() -> RedisWait {
        RedisWait { attempt: 1, phase: WaitPhase::Connecting }
    }

    /// Starts to wait.
    pub fn begin() -> (started: (RedisWait, WaitAction))
        ensures
            started.0 == Self::begun(),
            started.0.wf(),
            started.1 == WaitAction::Connect,
    {
        (RedisWait { attempt: 1, phase: WaitPhase::Connecting }, WaitAction::Connect)
    }

    /// Whether an event is one that the wait can take.
    pub fn accepts(&self, event: &WaitEvent) -> (accepted: bool)
        ensures
            accepted == (self.wf() && self.phase.expects(event@)),
    {
        let expected = match event {
            WaitEvent::Connected | WaitEvent::ConnectFailed => self.phase == WaitPhase::Connecting,
            WaitEvent::Answered(_) | WaitEvent::PingFailed => self.phase == WaitPhase::Pinging,
            WaitEvent::Paused => self.phase == WaitPhase::Pausing,
        };
        expected && 1 <= self.attempt && self.attempt <= MAX_ATTEMPTS
    }

    /// Takes an event in, and says what to do next.
    pub fn step(&mut self, event: WaitEvent) -> (action: WaitAction)
        requires
            old(self).wf(),
            old(self).phase.expects(event@),
        ensures
            final(self).wf(),
            *final(self) == old(self).next(event@),
            action == final(self).phase.action(),
    {
        match event {
            WaitEvent::Connected => {
                self.phase = WaitPhase::Pinging;
                WaitAction::Ping
            },
            WaitEvent::ConnectFailed => {
                if self.attempt < MAX_ATTEMPTS {
                    self.phase = WaitPhase::Pausing;
                    WaitAction::Pause
                } else {
                    self.phase = WaitPhase::Over(WaitOutcome::Unreachable);
                    WaitAction::Finish(WaitOutcome::Unreachable)
                }
            },
            WaitEvent::Answered(text) => {
                if text == "PONG".to_owned() {
                    self.phase = WaitPhase::Over(WaitOutcome::Ready);
                    WaitAction::Finish(WaitOutcome::Ready)
                } else {
                    self.phase = WaitPhase::Pausing;
                    WaitAction::Pause
                }
            },
            WaitEvent::PingFailed => {
                self.phase = WaitPhase::Over(WaitOutcome::PingError);
                WaitAction::Finish(WaitOutcome::PingError)
            },
            WaitEvent::Paused => {
                if self.attempt < MAX_ATTEMPTS {
                    self.attempt = self.attempt + 1;
                    self.phase = WaitPhase::Connecting;
                    WaitAction::Connect
                } else {
                    self.phase = WaitPhase::Over(WaitOutcome::NotReady);
                    WaitAction::Finish(WaitOutcome::NotReady)
                }
            },
        }
    }
}

/// What Redis does when it is tried.
pub enum Attempt {
    /// No connection comes about.
    Refused,
    /// The ping is answered with an error.
    Failed,
    /// The ping is answered with this text.
    Answered(Seq<char>),
}

impl Attempt {
    /// Whether Redis is there.
    pub open spec fn is_pong(self) -> bool {
        self == Attempt::Answered("PONG"@)
    }

    /// Whether the attempt decides nothing, so that another follows while any is left.
    pub open spec fn is_undecided(self) -> bool {
        self != Attempt::Failed && !self.is_pong()
    }
}

impl RedisWait {
    /// Where a wait stands after an attempt, before the pause if one follows.
    pub open spec fn answered(self, attempt: Attempt) -> RedisWait {
        match attempt {
            Attempt::Refused => self.next(WaitEventView::ConnectFailed),
            Attempt::Failed => self.next(WaitEventView::Connected).next(WaitEventView::PingFailed),
            Attempt::Answered(text) => self.next(WaitEventView::Connected).next(
                WaitEventView::Answered(text),
            ),
        }
    }

    /// Where a wait stands after an attempt, and after the pause if one follows.
    pub open spec fn tried(self, attempt: Attempt) -> RedisWait {
        if self.answered(attempt).phase == WaitPhase::Pausing {
            self.answered(attempt).next(WaitEventView::Paused)
        } else {
            self.answered(attempt)
        }
    }

    /// Where a wait stands after the attempts that it makes, out of those given.
    pub open spec fn tried_all(self, attempts: Seq<Attempt>) -> RedisWait
        decreases attempts.len(),
    {
        if attempts.len() == 0 {
            self
        } else {
            let before = self.tried_all(attempts.drop_last());
            if before.phase == WaitPhase::Connecting {
                before.tried(attempts.last())
            } else {
                before
            }
        }
    }

    /// How many attempts a wait makes, out of those given.
    pub open spec fn attempts_made(self, attempts: Seq<Attempt>) -> nat
        decreases attempts.len(),
    {
        if attempts.len() == 0 {
            0
        } else {
            let before = self.attempts_made(attempts.drop_last());
            if self.tried_all(attempts.drop_last()).phase == WaitPhase::Connecting {
                before + 1
            } else {
                before
            }
        }
    }

    /// How many pauses a wait makes after the attempts that it makes, out of those given.
    pub open spec fn pauses_made(self, attempts: Seq<Attempt>) -> nat
        decreases attempts.len(),
    {
        if attempts.len() == 0 {
            0
        } else {
            let before = self.pauses_made(attempts.drop_last());
            let wait = self.tried_all(attempts.drop_last());
            if wait.phase == WaitPhase::Connecting && wait.answered(attempts.last()).phase.action()
                == WaitAction::Pause {
                before + 1
            } else {
                before
            }
        }
    }

    /// Whether a wait, out of the attempts given, makes so many, makes so many pauses, and ends so.
    pub open spec fn ends_with(
        self,
        attempts: Seq<Attempt>,
        made: int,
        pauses: int,
        outcome: WaitOutcome,
    ) -> bool {
        &&& self.attempts_made(attempts) == made
        &&& self.pauses_made(attempts) == pauses
        &&& self.tried_all(attempts).attempt == made
        &&& self.tried_all(attempts).phase == WaitPhase::Over(outcome)
    }
}

/// The first attempt that decides something decides the wait: an error ends it, and the right
/// answer makes Redis ready. No attempt is made after that one, and one pause lies between each two.
/// If no attempt decides anything the wait gives up after the last one: at once if that could not
/// connect, and after one more pause if it could.
pub proof fn first_decided_attempt_ends_the_wait(attempts: Seq<Attempt>)
    requires
        attempts.len() == MAX_ATTEMPTS,
    ensures
        forall|k: int|
            0 <= k < attempts.len() && !(#[trigger] attempts[k]).is_undecided() && (forall|j: int|
                0 <= j < k ==> (#[trigger] attempts[j]).is_undecided())
                ==> RedisWait::begun().ends_with(
                attempts,
                k + 1,
                k,
                if attempts[k].is_pong() {
                    WaitOutcome::Ready
                } else {
                    WaitOutcome::PingError
                },
            ),
        (forall|j: int| 0 <= j < attempts.len() ==> (#[trigger] attempts[j]).is_undecided())
            ==> if attempts.last() == Attempt::Refused {
            RedisWait::begun().ends_with(
                attempts,
                MAX_ATTEMPTS as int,
                MAX_ATTEMPTS - 1,
                WaitOutcome::Unreachable,
            )
        } else {
            RedisWait::begun().ends_with(
                attempts,
                MAX_ATTEMPTS as int,
                MAX_ATTEMPTS as int,
                WaitOutcome::NotReady,
            )
        },
{
    assert forall|k: int|
        0 <= k < attempts.len() && !(#[trigger] attempts[k]).is_undecided() && (forall|j: int|
            0 <= j < k ==> (#[trigger] attempts[j]).is_undecided())
        implies RedisWait::begun().ends_with(
        attempts,
        k + 1,
        k,
        if attempts[k].is_pong() {
            WaitOutcome::Ready
        } else {
            WaitOutcome::PingError
        },
    ) by {
        lemma_undecided(attempts.take(k));
        let through = attempts.take(k + 1);
        assert(through.drop_last() =~= attempts.take(k));
        assert(through.last() == attempts[k]);
        lemma_decided(through, attempts, k + 1);
    }
    if forall|j: int| 0 <= j < attempts.len() ==> (#[trigger] attempts[j]).is_undecided() {
        lemma_undecided(attempts.drop_last());
    }
}

/// Undecided attempts, fewer than are allowed, are all made, with a pause after each, and lead to
/// the next attempt.
proof fn lemma_undecided(attempts: Seq<Attempt>)
    requires
        attempts.len() < MAX_ATTEMPTS,
        forall|j: int| 0 <= j < attempts.len() ==> (#[trigger] attempts[j]).is_undecided(),
    ensures
        RedisWait::begun().tried_all(attempts) == (RedisWait {
            attempt: (attempts.len() + 1) as u32,
            phase: WaitPhase::Connecting,
        }),
        RedisWait::begun().attempts_made(attempts) == attempts.len(),
        RedisWait::begun().pauses_made(attempts) == attempts.len(),
    decreases attempts.len(),
{
    if attempts.len() > 0 {
        lemma_undecided(attempts.drop_last());
        assert(attempts.last().is_undecided());
    }
}

/// Once a wait is over neither attempts nor pauses are made.
proof fn lemma_decided(through: Seq<Attempt>, attempts: Seq<Attempt>, k: int)
    requires
        0 <= k <= attempts.len(),
        through == attempts.take(k),
        RedisWait::begun().tried_all(through).phase is Over,
    ensures
        RedisWait::begun().tried_all(attempts) == RedisWait::begun().tried_all(through),
        RedisWait::begun().attempts_made(attempts) == RedisWait::begun().attempts_made(through),
        RedisWait::begun().pauses_made(attempts) == RedisWait::begun().pauses_made(through),
    decreases attempts.len(),
{
    if k == attempts.len() {
        assert(through =~= attempts);
    } else {
        assert(through =~= attempts.drop_last().take(k));
        lemma_decided(through, attempts.drop_last(), k);
    }
}

/// How many more events a wait can take before it is over.
pub open spec fn events_left(wait: RedisWait) -> int {
    match wait.phase {
        WaitPhase::Over(_) => 0,
        WaitPhase::Pausing => 3 * (MAX_ATTEMPTS - wait.attempt) + 1,
        WaitPhase::Pinging => 3 * (MAX_ATTEMPTS - wait.attempt) + 2,
        WaitPhase::Connecting => 3 * (MAX_ATTEMPTS - wait.attempt) + 3,
    }
}

/// The wait for Redis does not go on for ever: each event brings its end nearer.
pub proof fn wait_comes_to_an_end(wait: RedisWait, event: WaitEventView)
    requires
        wait.wf(),
        wait.phase.expects(event),
    ensures
        0 <= events_left(wait.next(event)) < events_left(wait),
{
}

/// A wait can take in whatever may come of what it asked for, and nothing else; and on the way into
/// a phase it asks for what the phase waits for.
pub proof fn wait_takes_every_outcome(phase: WaitPhase, event: WaitEventView)
    ensures
        phase.expects(event) <==> match phase {
            WaitPhase::Connecting => event is Connected || event is ConnectFailed,
            WaitPhase::Pinging => event is Answered || event is PingFailed,
            WaitPhase::Pausing => event is Paused,
            WaitPhase::Over(_) => false,
        },
        phase == WaitPhase::Connecting <==> phase.action() == WaitAction::Connect,
        phase == WaitPhase::Pinging <==> phase.action() == WaitAction::Ping,
        phase == WaitPhase::Pausing <==> phase.action() == WaitAction::Pause,
        phase matches WaitPhase::Over(outcome) ==> phase.action() == WaitAction::Finish(outcome),
{
}

/// Each way to go on and each way to end has its reasons, and no others. A new attempt begins after
/// a pause only, while there is one left of thirty.
pub proof fn wait_goes_on_for_these_reasons_only(wait: RedisWait, event: WaitEventView)
    requires
        wait.wf(),
        wait.phase.expects(event),
    ensures
        ({
            let next = wait.next(event);
            &&& next.phase == WaitPhase::Pinging <==> event is Connected
            &&& next.phase == WaitPhase::Pausing <==> (event is ConnectFailed && wait.attempt < 30)
                || (event matches WaitEventView::Answered(text) && text != "PONG"@)
            &&& next.phase == WaitPhase::Connecting <==> event is Paused && wait.attempt < 30
            &&& next.phase == WaitPhase::Over(WaitOutcome::Ready) <==> event
                == WaitEventView::Answered("PONG"@)
            &&& next.phase == WaitPhase::Over(WaitOutcome::PingError) <==> event is PingFailed
            &&& next.phase == WaitPhase::Over(WaitOutcome::Unreachable) <==> event is ConnectFailed
                && wait.attempt == 30
            &&& next.phase == WaitPhase::Over(WaitOutcome::NotReady) <==> event is Paused
                && wait.attempt == 30
            &&& next.attempt == if next.phase == WaitPhase::Connecting {
                wait.attempt + 1
            } else {
                wait.attempt as int
            }
            &&& next.wf()
        }),
        RedisWait::begun().attempt == 1,
        RedisWait::begun().phase == WaitPhase::Connecting,
        wait.wf() <==> 1 <= wait.attempt <= 30,
{
}

/// The contents of an event are all that it carries.
pub proof fn wait_views_are_whole(event: WaitEvent)
    ensures
        event is Connected <==> event@ is Connected,
        event is ConnectFailed <==> event@ is ConnectFailed,
        event is Answered <==> event@ is Answered,
        event matches WaitEvent::Answered(text) ==> event@ == WaitEventView::Answered(text@),
        event is PingFailed <==> event@ is PingFailed,
        event is Paused <==> event@ is Paused,
{
}

} // verus!
