//! The watchdog engine: the registry of the one authoritative wait, and the
//! decisions taken when an event arrives or a wait ends.

use vstd::prelude::*;

verus! {

/// How a timed wait ended: it was told to stand down, or its window ran out.
#[derive(Clone, Copy, Debug, PartialEq, Eq, Structural)]
pub enum WaitOutcome {
    Signalled,
    TimedOut,
}

/// One armed wait: the handle under which it was registered and the identity
/// captured from the event that armed it.
#[derive(Clone, Copy, Debug, PartialEq, Eq, Structural)]
pub struct PendingWait {
    pub id: u64,
    pub target: u64,
}

/// An alert that is due for delivery to the identity in `target`.
#[derive(Clone, Copy, Debug, PartialEq, Eq, Structural)]
pub struct Alert {
    pub target: u64,
}

/// What the caller has to do after an event: signal `stand_down` (if any) to
/// abandon its wait, then begin the timed wait `start`. The signal is best
/// effort: the wait it is meant for may have ended already, and then nobody
/// hears it.
#[derive(Clone, Copy, Debug)]
pub struct EventAction {
    pub stand_down: Option<PendingWait>,
    pub start: PendingWait,
}

/// The silence window of an engine built by `default`: ten seconds.
pub const DEFAULT_TIMEOUT_MS: u64 = 10_000;

/// The mathematical state of a watchdog: its window and the one wait whose
/// cancel handle is authoritative.
pub struct WatchState {
    /// Length of the silence window, in milliseconds.
    pub timeout: u64,
    /// The most recently armed wait; none before the first event. Whether
    /// that wait has ended is not the registry's business.
    pub current: Option<PendingWait>,
}

/// The handle that follows `generation`. Handles wrap around after 2^64 events.
pub open spec fn next_handle(generation: u64) -> u64 {
    if generation == u64::MAX {
        0
    } else {
        (generation + 1) as u64
    }
}

/// The receive-with-timeout rule: a wait of `timeout` milliseconds that gets a
/// signal `after` milliseconds (or never, if `None`) is signalled exactly when
/// the signal comes strictly before the window closes.
pub open spec fn wait_result(timeout: u64, signalled_after: Option<u64>) -> WaitOutcome {
    match signalled_after {
        Some(after) if after < timeout => WaitOutcome::Signalled,
        _ => WaitOutcome::TimedOut,
    }
}

/// What the end of `wait` with `outcome` raises: an alert for the identity it
/// captured if its window ran out, nothing if it was signalled. Nothing else
/// has a say, whatever events came in between.
pub open spec fn alert_for(wait: PendingWait, outcome: WaitOutcome) -> Option<Alert> {
    match outcome {
        WaitOutcome::TimedOut => Some(Alert { target: wait.target }),
        WaitOutcome::Signalled => None,
    }
}

impl WatchState {
    /// The state of a freshly built watchdog: nothing armed yet.
    pub open spec fn initial(timeout: u64) -> WatchState {
        WatchState { timeout, current: None }
    }

    /// The handle of the most recently armed wait; 0 before the first event.
    pub open spec fn generation(self) -> u64 {
        match self.current {
            Some(wait) => wait.id,
            None => 0,
        }
    }

    /// The wait that an event for `target` arms.
    pub open spec fn armed_by(self, target: u64) -> PendingWait {
        PendingWait { id: next_handle(self.generation()), target }
    }

    /// The state after an event for `target`.
    pub open spec fn after_event(self, target: u64) -> WatchState {
        WatchState { timeout: self.timeout, current: Some(self.armed_by(target)) }
    }
}

/// Decides how a timed wait ends, given when (if ever) its signal arrived.
pub fn wait_outcome(timeout: u64, signalled_after: Option<u64>) -> (outcome: WaitOutcome)
    ensures
        outcome == wait_result(timeout, signalled_after),
{
    match signalled_after {
        Some(after) => {
            if after < timeout {
                WaitOutcome::Signalled
            } else {
                WaitOutcome::TimedOut
            }
        },
        None => WaitOutcome::TimedOut,
    }
}

/// The engine: the registry of the authoritative wait. It is complete from
/// construction on; there is no way to reach an engine whose registry is
/// absent.
pub struct Watchdog {
    timeout: u64,
    current: Option<PendingWait>,
}

impl View for Watchdog {
    type V = WatchState;

    closed spec fn view(&self) -> WatchState {
        WatchState { timeout: self.timeout, current: self.current }
    }
}

impl Default for Watchdog {
    /// An engine with the default silence window.
    fn default() -> (engine: Watchdog)
        ensures
            engine@ == WatchState::initial(DEFAULT_TIMEOUT_MS),
    {
        Watchdog::new(DEFAULT_TIMEOUT_MS)
    }
}

impl Watchdog {
    /// Builds an engine with a silence window of `timeout` milliseconds.
    pub fn new(timeout: u64) -> (engine: Watchdog)
        ensures
            engine@ == WatchState::initial(timeout),
    {
        Watchdog { timeout, current: None }
    }

    /// The configured silence window, in milliseconds.
    pub fn timeout(&self) -> (t: u64)
        ensures
            t == self@.timeout,
    {
        self.timeout
    }

    /// The most recently armed wait, if any event came yet.
    pub fn current(&self) -> (w: Option<PendingWait>)
        ensures
            w == self@.current,
    {
        self.current
    }

    /// The handle of the most recently armed wait; 0 before the first event.
    pub fn generation(&self) -> (g: u64)
        ensures
            g == self@.generation(),
    {
        match self.current {
            Some(wait) => wait.id,
            None => 0,
        }
    }

    /// Handles an inbound event for `target`: the wait armed by the previous
    /// event is to be signalled, and a fresh wait takes its place in the
    /// registry in the same step.
    pub fn on_event(&mut self, target: u64) -> (action: EventAction)
        ensures
            final(self)@ == old(self)@.after_event(target),
            action.stand_down == old(self)@.current,
            action.start == old(self)@.armed_by(target),
    {
        let stand_down = self.current;
        let generation = self.generation();
        let id: u64 = if generation == u64::MAX {
            0
        } else {
            generation + 1
        };
        let start = PendingWait { id, target };
        self.current = Some(start);
        EventAction { stand_down, start }
    }

    /// Handles the end of `wait`, which a wait reaches once. The outcome of
    /// its receive alone decides: a wait whose window ran out raises the alert
    /// for the identity it captured, also where a later event has replaced it
    /// in the registry meanwhile; a signalled wait raises nothing. The
    /// registry is neither read nor written.
    pub fn on_tick_expired(wait: PendingWait, outcome: WaitOutcome) -> (alert: Option<Alert>)
        ensures
            alert == alert_for(wait, outcome),
    {
        match outcome {
            WaitOutcome::TimedOut => Some(Alert { target: wait.target }),
            WaitOutcome::Signalled => None,
        }
    }
}

} // verus!
