//! The worker's lifetime: runs until an interrupt, a stretch without
//! activity, or the closing of the activity channel, whichever comes first,
//! then asks the serving loop to stop and waits for it.
//!
//! Times are milliseconds on one monotonic clock, supplied by the caller.
use vstd::prelude::*;

verus! {

/// How long the worker stays up without a call, in milliseconds.
pub const INACTIVITY_TIMEOUT_MS: u64 = 10_000;

/// How long to wait for the serving loop once it has been told to stop, in
/// milliseconds.
pub const SHUTDOWN_GRACE_MS: u64 = 5_000;

#[derive(Clone, Copy, Debug, PartialEq, Eq, Structural)]
pub enum Phase {
    Running,
    ShuttingDown,
    Stopped,
}

/// Which of the racing conditions ended the run.
#[derive(Clone, Copy, Debug, PartialEq, Eq, Structural)]
pub enum Reason {
    Interrupt,
    Inactivity,
    ChannelClosed,
}

/// The first-ready outcome of the supervisor's single wait.
#[derive(Clone, Copy, Debug, PartialEq, Eq, Structural)]
pub enum Event {
    /// An external interrupt signal arrived.
    Interrupt,
    /// A call was served at the given time.
    Activity(u64),
    /// Every sender of the activity channel is gone.
    ChannelClosed,
    /// The inactivity timer fired at the given time.
    Timer(u64),
    /// The serving loop has exited.
    ServingStopped,
    /// The bounded wait for the serving loop to exit has run out.
    GraceExpired,
}

/// What the caller does next.
#[derive(Clone, Copy, Debug, PartialEq, Eq, Structural)]
pub enum Action {
    /// Wait again, with the timer set to the current deadline.
    Wait,
    /// Deliver the shutdown signal to the serving loop, then wait for it.
    SignalShutdown,
    /// Nothing is left to wait for.
    Exit,
}

#[derive(Clone, Copy, Debug, PartialEq, Eq, Structural)]
pub struct Supervisor {
    pub phase: Phase,
    /// Time of the latest activity seen, or of the start.
    pub last_activity: u64,
    /// Allowed time without activity.
    pub timeout: u64,
    /// Set once the run ends for one of the racing conditions.
    pub reason: Option<Reason>,
}

impl Supervisor {
    /// A running supervisor started at `start`.
    pub open spec fn started(start: u64, timeout: u64) -> Supervisor {
        Supervisor { phase: Phase::Running, last_activity: start, timeout, reason: None }
    }

    /// When the inactivity timer fires.
    pub open spec fn deadline_at(self) -> int {
        self.last_activity + self.timeout
    }

    /// Moves to shutting down for `reason`.
    pub open spec fn shut(self, reason: Reason) -> (Supervisor, Action) {
        (Supervisor { phase: Phase::ShuttingDown, reason: Some(reason), ..self }, Action::SignalShutdown)
    }

    /// The state and action after `e`. Only the first condition to end the
    /// run takes effect; later ones are ignored. Activity keeps the latest
    /// time seen.
    pub open spec fn next(self, e: Event) -> (Supervisor, Action) {
        match self.phase {
            Phase::Running => match e {
                Event::Interrupt => self.shut(Reason::Interrupt),
                Event::ChannelClosed => self.shut(Reason::ChannelClosed),
                Event::Activity(t) => (
                    Supervisor {
                        last_activity: if t > self.last_activity { t } else { self.last_activity },
                        ..self
                    },
                    Action::Wait,
                ),
                Event::Timer(now) => if now >= self.deadline_at() {
                    self.shut(Reason::Inactivity)
                } else {
                    (self, Action::Wait)
                },
                Event::ServingStopped => (Supervisor { phase: Phase::Stopped, ..self }, Action::Exit),
                Event::GraceExpired => (self, Action::Wait),
            },
            Phase::ShuttingDown => match e {
                Event::ServingStopped | Event::GraceExpired => (
                    Supervisor { phase: Phase::Stopped, ..self },
                    Action::Exit,
                ),
                _ => (self, Action::Wait),
            },
            Phase::Stopped => (self, Action::Exit),
        }
    }

    /// The state after the events `es`, in order.
    pub open spec fn run(self, es: Seq<Event>) -> Supervisor
        decreases es.len(),
    {
        if es.len() == 0 {
            self
        } else {
            self.next(es[0]).0.run(es.drop_first())
        }
    }

    /// A running supervisor started at `start` that allows `timeout`
    /// milliseconds without activity.
    pub fn new(start: u64, timeout: u64) -> (r: Supervisor)
        ensures
            r == Supervisor::started(start, timeout),
    {
        Supervisor { phase: Phase::Running, last_activity: start, timeout, reason: None }
    }

    /// A running supervisor started at `start` with the standard timeout.
    pub fn with_default_timeout(start: u64) -> (r: Supervisor)
        ensures
            r == Supervisor::started(start, INACTIVITY_TIMEOUT_MS),
    {
        Supervisor::new(start, INACTIVITY_TIMEOUT_MS)
    }

    /// When to set the timer for: the deadline, or the clock's end if the
    /// deadline lies beyond it.
    pub fn deadline(&self) -> (r: u64)
        ensures
            r == if self.deadline_at() <= u64::MAX { self.deadline_at() } else { u64::MAX as int },
    {
        self.last_activity.saturating_add(self.timeout)
    }

    /// Takes in the first-ready event of the wait.
    pub fn step(&mut self, e: Event) -> (r: Action)
        ensures
            (*final(self), r) == old(self).next(e),
    {
        match self.phase {
            Phase::Running => match e {
                Event::Interrupt => self.begin_shutdown(Reason::Interrupt),
                Event::ChannelClosed => self.begin_shutdown(Reason::ChannelClosed),
                Event::Activity(t) => {
                    if t > self.last_activity {
                        self.last_activity = t;
                    }
                    Action::Wait
                },
                Event::Timer(now) => {
                    if now as u128 >= self.last_activity as u128 + self.timeout as u128 {
                        self.begin_shutdown(Reason::Inactivity)
                    } else {
                        Action::Wait
                    }
                },
                Event::ServingStopped => {
                    self.phase = Phase::Stopped;
                    Action::Exit
                },
                Event::GraceExpired => Action::Wait,
            },
            Phase::ShuttingDown => match e {
                Event::ServingStopped | Event::GraceExpired => {
                    self.phase = Phase::Stopped;
                    Action::Exit
                },
                _ => Action::Wait,
            },
            Phase::Stopped => Action::Exit,
        }
    }

    fn begin_shutdown(&mut self, reason: Reason) -> (r: Action)
        ensures
            (*final(self), r) == old(self).shut(reason),
    {
        self.phase = Phase::ShuttingDown;
        self.reason = Some(reason);
        Action::SignalShutdown
    }
}

/// Activity resets the inactivity clock: after a call at time `t`, no timer
/// firing before `t + timeout` ends the run, whenever the supervisor was
/// started.
pub proof fn lemma_activity_defers_shutdown(start: u64, timeout: u64, t: u64, timers: Seq<Event>)
    requires
        forall|i: int| 0 <= i < timers.len() ==> (#[trigger] timers[i] is Timer && timers[i]->Timer_0 < t + timeout),
    ensures
        Supervisor::started(start, timeout).next(Event::Activity(t)).0.run(timers).phase == Phase::Running,
{
    lemma_timers_before_deadline(Supervisor::started(start, timeout).next(Event::Activity(t)).0, timers);
}

proof fn lemma_timers_before_deadline(s: Supervisor, timers: Seq<Event>)
    requires
        s.phase == Phase::Running,
        forall|i: int| 0 <= i < timers.len() ==> (#[trigger] timers[i] is Timer && timers[i]->Timer_0 < s.deadline_at()),
    ensures
        s.run(timers) == s,
    decreases timers.len(),
{
    if timers.len() > 0 {
        assert(timers[0] is Timer);
        let rest = timers.drop_first();
        assert forall|i: int| 0 <= i < rest.len() implies (#[trigger] rest[i] is Timer && rest[i]->Timer_0 < s.deadline_at()) by {
            assert(rest[i] == timers[i + 1]);
        }
        lemma_timers_before_deadline(s, rest);
    }
}

/// An interrupt ends a running supervisor at once, however recent the last
/// activity.
pub proof fn lemma_interrupt_shuts_down(s: Supervisor)
    requires
        s.phase == Phase::Running,
    ensures
        s.next(Event::Interrupt).0.phase == Phase::ShuttingDown,
        s.next(Event::Interrupt).0.reason == Some(Reason::Interrupt),
        s.next(Event::Interrupt).1 == Action::SignalShutdown,
{
}

/// With no call ever received, the timer ends the run exactly when the
/// configured timeout has passed since the start.
pub proof fn lemma_idle_timeout_exact(start: u64, timeout: u64, now: u64)
    ensures
        (Supervisor::started(start, timeout).next(Event::Timer(now)).0.phase == Phase::ShuttingDown)
            <==> now >= start + timeout,
{
}

/// Once the run has ended, no event restarts it or signals shutdown again.
pub proof fn lemma_shutdown_signalled_once(s: Supervisor, es: Seq<Event>)
    requires
        s.phase != Phase::Running,
    ensures
        s.run(es).phase != Phase::Running,
        s.run(es).reason == s.reason,
        forall|i: int|
            0 <= i < es.len() ==> (#[trigger] s.run(es.take(i))).next(es[i]).1 != Action::SignalShutdown,
    decreases es.len(),
{
    if es.len() > 0 {
        let rest = es.drop_first();
        lemma_shutdown_signalled_once(s.next(es[0]).0, rest);
        assert forall|i: int| 0 <= i < es.len() implies (#[trigger] s.run(es.take(i))).next(es[i]).1
            != Action::SignalShutdown by {
            if i > 0 {
                assert(es.take(i).drop_first() == rest.take(i - 1));
                assert(es[i] == rest[i - 1]);
                assert(s.run(es.take(i)) == s.next(es[0]).0.run(rest.take(i - 1)));
            } else {
                assert(es.take(0).len() == 0);
            }
        }
    }
}

} // verus!
