//! A watchdog driven by time stamps instead of real clocks: the engine, the
//! one wait that has not ended yet with its timer, and the record of what the
//! waits did.
//!
//! All instants are in milliseconds on one monotonic scale. A stamp that lies
//! before the latest instant already seen is read as that instant.

use crate::engine::{PendingWait, WaitOutcome, WatchState, Watchdog, alert_for, wait_outcome};
use vstd::prelude::*;

verus! {

/// An inbound event: when it arrived and whom an alert for it would name.
#[derive(Clone, Copy, Debug, PartialEq, Eq, Structural)]
pub struct TimedEvent {
    pub at: u64,
    pub target: u64,
}

/// An alert that was raised: for whom, and the instant its window closed.
#[derive(Clone, Copy, Debug, PartialEq, Eq, Structural)]
pub struct Fired {
    pub target: u64,
    pub at: u64,
}

/// The mathematical state of a timeline.
pub struct Trace {
    /// The engine's state.
    pub state: WatchState,
    /// The latest instant seen.
    pub clock: u64,
    /// The instant of the latest event; 0 before the first.
    pub armed_at: u64,
    /// The wait that has not ended yet, if any.
    pub pending: Option<PendingWait>,
    /// Every alert raised so far, oldest first.
    pub fired: Seq<Fired>,
    /// Every wait that ended on a signal so far, oldest first.
    pub stood_down: Seq<PendingWait>,
}

/// The later of two instants.
pub open spec fn later(a: u64, b: u64) -> u64 {
    if a >= b {
        a
    } else {
        b
    }
}

/// The time from `armed_at` to `now`; none if `now` is not after it.
pub open spec fn since(now: u64, armed_at: u64) -> u64 {
    if now >= armed_at {
        (now - armed_at) as u64
    } else {
        0
    }
}

impl Trace {
    /// The timeline of a fresh engine at instant 0.
    pub open spec fn initial(timeout: u64) -> Trace {
        Trace {
            state: WatchState::initial(timeout),
            clock: 0,
            armed_at: 0,
            pending: None,
            fired: Seq::empty(),
            stood_down: Seq::empty(),
        }
    }

    /// The clock never lies before the latest event, and a wait that has not
    /// ended is the one in the registry, so that the next event's signal
    /// goes to it.
    pub open spec fn wf(self) -> bool {
        &&& self.armed_at <= self.clock
        &&& self.pending is Some ==> self.pending == self.state.current
    }

    /// The number of waits that have not ended: one or none.
    pub open spec fn alive(self) -> nat {
        if self.pending.is_some() {
            1
        } else {
            0
        }
    }

    /// Whether a wait is pending whose window is closed at instant `now`.
    pub open spec fn due(self, now: u64) -> bool {
        self.pending.is_some() && since(later(now, self.clock), self.armed_at)
            >= self.state.timeout
    }

    /// The alert that a wait ending at `now` with `outcome` leaves on record:
    /// none if it was signalled, else one stamped with the end of its window.
    pub open spec fn record(self, wait: PendingWait, outcome: WaitOutcome) -> Option<Fired> {
        match alert_for(wait, outcome) {
            Some(alert) => Some(
                Fired { target: alert.target, at: (self.armed_at + self.state.timeout) as u64 },
            ),
            None => None,
        }
    }

    /// Time passes until `now`: a pending wait whose window has closed by
    /// then times out and raises its alert. The registry is left alone.
    pub open spec fn settle(self, now: u64) -> Trace {
        if self.due(now) {
            Trace {
                state: self.state,
                clock: later(now, self.clock),
                armed_at: self.armed_at,
                pending: None,
                fired: self.fired.push(
                    self.record(self.pending->Some_0, WaitOutcome::TimedOut)->Some_0,
                ),
                stood_down: self.stood_down,
            }
        } else {
            Trace {
                state: self.state,
                clock: later(now, self.clock),
                armed_at: self.armed_at,
                pending: self.pending,
                fired: self.fired,
                stood_down: self.stood_down,
            }
        }
    }

    /// An event arrives: time passes until its instant; a wait that is still
    /// pending then receives this event's signal and ends silently; and the
    /// engine arms a fresh wait.
    pub open spec fn step(self, event: TimedEvent) -> Trace {
        let settled = self.settle(event.at);
        Trace {
            state: settled.state.after_event(event.target),
            clock: settled.clock,
            armed_at: settled.clock,
            pending: Some(settled.state.armed_by(event.target)),
            fired: settled.fired,
            stood_down: match settled.pending {
                Some(wait) => settled.stood_down.push(wait),
                None => settled.stood_down,
            },
        }
    }
}

/// The timeline after all of `events`, taken in order from a fresh engine.
pub open spec fn run(timeout: u64, events: Seq<TimedEvent>) -> Trace
    decreases events.len(),
{
    if events.len() == 0 {
        Trace::initial(timeout)
    } else {
        run(timeout, events.drop_last()).step(events.last())
    }
}

/// The timeline after all of `events`, inspected at instant `until`.
pub open spec fn observe(timeout: u64, events: Seq<TimedEvent>, until: u64) -> Trace {
    run(timeout, events).settle(until)
}

/// An engine together with its clock, its pending wait and the record of
/// what its waits did.
pub struct Timeline {
    engine: Watchdog,
    clock: u64,
    armed_at: u64,
    pending: Option<PendingWait>,
    fired: Vec<Fired>,
    stood_down: Vec<PendingWait>,
}

impl View for Timeline {
    type V = Trace;

    closed spec fn view(&self) -> Trace {
        Trace {
            state: self.engine@,
            clock: self.clock,
            armed_at: self.armed_at,
            pending: self.pending,
            fired: self.fired@,
            stood_down: self.stood_down@,
        }
    }
}

impl Timeline {
    /// A fresh engine with a window of `timeout` milliseconds, at instant 0.
    pub fn new(timeout: u64) -> (timeline: Timeline)
        ensures
            timeline@ == Trace::initial(timeout),
    {
        Timeline {
            engine: Watchdog::new(timeout),
            clock: 0,
            armed_at: 0,
            pending: None,
            fired: Vec::new(),
            stood_down: Vec::new(),
        }
    }

    /// Moves the clock to `now`, or leaves it where `now` lies before it, and
    /// returns the time that the latest event then lies back.
    fn tick(&mut self, now: u64) -> (elapsed: u64)
        ensures
            final(self)@ == (Trace { clock: later(now, old(self)@.clock), ..old(self)@ }),
            elapsed == since(later(now, old(self)@.clock), old(self)@.armed_at),
    {
        if now > self.clock {
            self.clock = now;
        }
        if self.clock >= self.armed_at {
            self.clock - self.armed_at
        } else {
            0
        }
    }

    /// Ends the pending wait `wait` with `outcome`: the engine decides on the
    /// alert, and the wait goes on record as fired or as stood down.
    fn end_wait(&mut self, wait: PendingWait, outcome: WaitOutcome) -> (raised: Option<Fired>)
        requires
            outcome == WaitOutcome::TimedOut ==> since(old(self)@.clock, old(self)@.armed_at)
                >= old(self)@.state.timeout,
        ensures
            raised == old(self)@.record(wait, outcome),
            final(self)@ == (Trace {
                pending: None,
                fired: match raised {
                    Some(f) => old(self)@.fired.push(f),
                    None => old(self)@.fired,
                },
                stood_down: match raised {
                    Some(_) => old(self)@.stood_down,
                    None => old(self)@.stood_down.push(wait),
                },
                ..old(self)@
            }),
    {
        self.pending = None;
        match Watchdog::on_tick_expired(wait, outcome) {
            Some(alert) => {
                let f = Fired { target: alert.target, at: self.armed_at + self.engine.timeout() };
                self.fired.push(f);
                Some(f)
            },
            None => {
                self.stood_down.push(wait);
                None
            },
        }
    }

    /// Lets time pass until `now` and returns the alert that this raises, if
    /// any.
    pub fn advance(&mut self, now: u64) -> (raised: Option<Fired>)
        ensures
            final(self)@ == old(self)@.settle(now),
            raised.is_some() == old(self)@.due(now),
            raised matches Some(f) ==> final(self)@.fired.last() == f,
    {
        let elapsed = self.tick(now);
        match self.pending {
            Some(wait) => {
                if elapsed >= self.engine.timeout() {
                    self.end_wait(wait, WaitOutcome::TimedOut)
                } else {
                    None
                }
            },
            None => None,
        }
    }

    /// Feeds one event. A wait that is still pending ends first: this event's
    /// signal reaches it as long after its arming as the event comes, and its
    /// receive decides between the signal and the deadline. Then the engine
    /// arms the wait for `target`. Returns the alert that a wait raised on
    /// its deadline, if any.
    pub fn event(&mut self, at: u64, target: u64) -> (raised: Option<Fired>)
        ensures
            final(self)@ == old(self)@.step(TimedEvent { at, target }),
            raised.is_some() == old(self)@.due(at),
            raised matches Some(f) ==> final(self)@.fired.last() == f,
    {
        let elapsed = self.tick(at);
        let raised = match self.pending {
            Some(wait) => {
                let outcome = wait_outcome(self.engine.timeout(), Some(elapsed));
                self.end_wait(wait, outcome)
            },
            None => None,
        };
        let action = self.engine.on_event(target);
        self.pending = Some(action.start);
        self.armed_at = self.clock;
        raised
    }

    /// Every alert raised so far, oldest first.
    pub fn fired(&self) -> (alerts: &Vec<Fired>)
        ensures
            alerts@ == self@.fired,
    {
        &self.fired
    }

    /// Every wait that ended on a signal so far, oldest first.
    pub fn stood_down(&self) -> (waits: &Vec<PendingWait>)
        ensures
            waits@ == self@.stood_down,
    {
        &self.stood_down
    }

    /// The wait that has not ended yet, if any.
    pub fn live(&self) -> (wait: Option<PendingWait>)
        ensures
            wait == self@.pending,
    {
        self.pending
    }

    /// The most recently armed wait in the engine's registry, if any.
    pub fn current(&self) -> (wait: Option<PendingWait>)
        ensures
            wait == self@.state.current,
    {
        self.engine.current()
    }

    /// The number of waits that have not ended: never more than one.
    pub fn alive(&self) -> (n: usize)
        ensures
            n == self@.alive(),
    {
        match self.pending {
            Some(_) => 1,
            None => 0,
        }
    }

    /// The latest instant seen.
    pub fn clock(&self) -> (now: u64)
        ensures
            now == self@.clock,
    {
        self.clock
    }
}

/// Feeds `events` in order to a fresh engine with a window of `timeout`
/// milliseconds and inspects the outcome at instant `until`.
pub fn replay(timeout: u64, events: &Vec<TimedEvent>, until: u64) -> (timeline: Timeline)
    ensures
        timeline@ == observe(timeout, events@, until),
{
    let mut timeline = Timeline::new(timeout);
    let mut i: usize = 0;
    while i < events.len()
        invariant
            i <= events.len(),
            timeline@ == run(timeout, events@.take(i as int)),
        decreases events.len() - i,
    {
        let e = events[i];
        timeline.event(e.at, e.target);
        proof {
            let next = events@.take(i + 1);
            assert(next.drop_last() =~= events@.take(i as int));
            assert(next.last() == e);
        }
        i += 1;
    }
    assert(events@.take(i as int) =~= events@);
    timeline.advance(until);
    timeline
}

} // verus!
