//! What holds of every timeline: no alert while events keep coming, exactly
//! one after the silence, and none ever twice.

use crate::engine::{Alert, PendingWait, WaitOutcome, WatchState, alert_for};
use crate::timeline::{Fired, TimedEvent, Trace, later, observe, run};
use vstd::prelude::*;

verus! {

/// The events come in order, and each comes strictly less than `timeout`
/// after the one before it.
pub open spec fn closely_spaced(events: Seq<TimedEvent>, timeout: u64) -> bool {
    forall|i: int|
        0 < i < events.len() ==> events[i - 1].at <= #[trigger] events[i].at && events[i].at
            - events[i - 1].at < timeout
}

/// Every prefix of a closely spaced sequence is closely spaced.
pub proof fn prefix_is_closely_spaced(events: Seq<TimedEvent>, timeout: u64, n: int)
    requires
        closely_spaced(events, timeout),
        0 <= n <= events.len(),
    ensures
        closely_spaced(events.take(n), timeout),
{
    let prefix = events.take(n);
    assert forall|i: int| 0 < i < prefix.len() implies prefix[i - 1].at <= #[trigger] prefix[i].at
        && prefix[i].at - prefix[i - 1].at < timeout by {
        assert(prefix[i] == events[i]);
        assert(prefix[i - 1] == events[i - 1]);
    }
}

/// After a closely spaced burst nothing has fired, every wait but the last
/// has stood down, and the wait armed by the last event is the live one,
/// armed at that event's instant.
proof fn burst_leaves_last_wait(timeout: u64, events: Seq<TimedEvent>)
    requires
        events.len() > 0,
        closely_spaced(events, timeout),
    ensures
        run(timeout, events).wf(),
        run(timeout, events).fired == Seq::<Fired>::empty(),
        run(timeout, events).stood_down.len() == events.len() - 1,
        events.len() >= 2 ==> run(timeout, events).stood_down.last().target
            == events[events.len() - 2].target,
        run(timeout, events).clock == events.last().at,
        run(timeout, events).armed_at == events.last().at,
        run(timeout, events).state.timeout == timeout,
        run(timeout, events).pending == Some(
            PendingWait {
                id: run(timeout, events).state.generation(),
                target: events.last().target,
            },
        ),
    decreases events.len(),
{
    let before = events.drop_last();
    if before.len() == 0 {
        assert(run(timeout, before) == Trace::initial(timeout));
    } else {
        assert(before.last() == events[events.len() - 2]);
        assert(before =~= events.take(events.len() - 1));
        prefix_is_closely_spaced(events, timeout, events.len() - 1);
        burst_leaves_last_wait(timeout, before);
        assert(events[events.len() - 2].at <= events[events.len() - 1].at);
    }
}

/// Every timeline that events can produce is sound: the clock is never before
/// the latest event, and a wait that has not ended is the one in the
/// registry, the one that the next event signals.
pub proof fn run_is_sound(timeout: u64, events: Seq<TimedEvent>, until: u64)
    ensures
        run(timeout, events).wf(),
        observe(timeout, events, until).wf(),
    decreases events.len(),
{
    if events.len() > 0 {
        run_is_sound(timeout, events.drop_last(), until);
    }
}

/// No double fire: while events come strictly less than `timeout` apart, no
/// alert is raised, and none is raised at an inspection made before the
/// window of the last event has closed. (A window of length 0 is closed the
/// instant it opens, so only the first half holds of it.)
pub proof fn no_double_fire(timeout: u64, events: Seq<TimedEvent>, until: u64)
    requires
        closely_spaced(events, timeout),
    ensures
        run(timeout, events).fired.len() == 0,
        events.len() == 0 || (timeout > 0 && until < events.last().at + timeout) ==> observe(
            timeout,
            events,
            until,
        ).fired.len() == 0,
{
    if events.len() > 0 {
        burst_leaves_last_wait(timeout, events);
    }
}

/// Single fire on silence: one event followed by silence of at least
/// `timeout` raises exactly one alert, for the identity captured at that
/// event, stamped with the end of its window; no wait is left.
pub proof fn single_fire_on_silence(timeout: u64, event: TimedEvent, until: u64)
    requires
        until >= event.at + timeout,
    ensures
        observe(timeout, seq![event], until).fired == seq![
            Fired { target: event.target, at: (event.at + timeout) as u64 },
        ],
        observe(timeout, seq![event], until).pending.is_none(),
{
    let events = seq![event];
    assert(closely_spaced(events, timeout));
    burst_leaves_last_wait(timeout, events);
    assert(observe(timeout, events, until).fired =~= seq![
        Fired { target: event.target, at: (event.at + timeout) as u64 },
    ]);
}

/// Rearm: an event `first`, a second event `second` before the first window
/// has closed, then silence of at least `timeout`: exactly one alert is
/// raised, for the second event's identity, and the first event's wait is the
/// one that stood down. The alert comes a full window after the second
/// event, so the time from the first event to the alert is the gap
/// between the two plus `timeout`; where the gap is half a window, that is
/// one and a half windows.
pub proof fn rearm(timeout: u64, first: TimedEvent, second: TimedEvent, until: u64)
    requires
        first.at <= second.at,
        second.at - first.at < timeout,
        until >= second.at + timeout,
    ensures
        observe(timeout, seq![first, second], until).fired == seq![
            Fired { target: second.target, at: (second.at + timeout) as u64 },
        ],
        observe(timeout, seq![first, second], until).fired[0].at - first.at == (second.at
            - first.at) + timeout,
        2 * (second.at - first.at) >= timeout ==> 2 * (observe(
            timeout,
            seq![first, second],
            until,
        ).fired[0].at - first.at) >= 3 * timeout,
        observe(timeout, seq![first, second], until).stood_down.len() == 1,
        observe(timeout, seq![first, second], until).stood_down[0].target == first.target,
{
    let events = seq![first, second];
    assert(closely_spaced(events, timeout));
    burst_leaves_last_wait(timeout, events);
    assert(observe(timeout, events, until).fired =~= seq![
        Fired { target: second.target, at: (second.at + timeout) as u64 },
    ]);
}

/// No leak: after any closely spaced burst, an inspection made before the
/// last window (of a length above 0) has closed finds exactly one live wait, the one of the last
/// event, and no alert; an inspection at or after its close finds no live
/// wait and exactly one alert, for the last event's identity.
pub proof fn no_leak(timeout: u64, events: Seq<TimedEvent>, until: u64)
    requires
        events.len() > 0,
        closely_spaced(events, timeout),
    ensures
        timeout > 0 && until < events.last().at + timeout ==> {
            &&& observe(timeout, events, until).fired.len() == 0
            &&& observe(timeout, events, until).pending is Some
            &&& observe(timeout, events, until).pending->Some_0.target == events.last().target
        },
        until >= events.last().at + timeout ==> {
            &&& observe(timeout, events, until).pending is None
            &&& observe(timeout, events, until).fired == seq![
                Fired { target: events.last().target, at: (events.last().at + timeout) as u64 },
            ]
        },
{
    burst_leaves_last_wait(timeout, events);
    if until >= events.last().at + timeout {
        assert(observe(timeout, events, until).fired =~= seq![
            Fired { target: events.last().target, at: (events.last().at + timeout) as u64 },
        ]);
    }
}

/// No leak, at every inspection point: after any number `seen` of the events
/// of a closely spaced burst, and before the window of the latest of them has
/// closed, exactly one wait is live and nothing has fired.
pub proof fn one_wait_alive_during_burst(
    timeout: u64,
    events: Seq<TimedEvent>,
    seen: int,
    until: u64,
)
    requires
        closely_spaced(events, timeout),
        0 < seen <= events.len(),
        timeout > 0,
        until < events[seen - 1].at + timeout,
    ensures
        observe(timeout, events.take(seen), until).alive() == 1,
        observe(timeout, events.take(seen), until).fired.len() == 0,
{
    prefix_is_closely_spaced(events, timeout, seen);
    no_leak(timeout, events.take(seen), until);
}

/// No leak, in general: whatever the spacing, every wait that an event armed
/// is accounted for exactly once. It has raised its alert, or it has stood
/// down, or it is the one live wait.
pub proof fn every_wait_is_accounted_for(timeout: u64, events: Seq<TimedEvent>, until: u64)
    ensures
        events.len() == run(timeout, events).fired.len() + run(timeout, events).stood_down.len()
            + run(timeout, events).alive(),
        events.len() == observe(timeout, events, until).fired.len() + observe(
            timeout,
            events,
            until,
        ).stood_down.len() + observe(timeout, events, until).alive(),
    decreases events.len(),
{
    if events.len() > 0 {
        every_wait_is_accounted_for(timeout, events.drop_last(), until);
    }
}

/// Swap, then arm: after an event the wait it armed is the one in the
/// registry, and it is told apart from the wait it replaced even where both
/// name the same identity. The next event therefore signals exactly this
/// wait.
pub proof fn event_installs_the_newest_wait(state: WatchState, target: u64, next: u64)
    ensures
        state.after_event(target).current == Some(state.armed_by(target)),
        state.current != Some(state.armed_by(target)),
        state.after_event(target).after_event(next).current != Some(state.armed_by(target)),
{
}

/// The outcome of a wait's receive alone decides on its alert: a wait that
/// timed out raises the alert for its own identity and a signalled wait
/// raises none, in whatever state the registry is by then. So a signal that
/// comes after the deadline neither takes the alert back nor repeats it.
pub proof fn expiry_is_final(wait: PendingWait, outcome: WaitOutcome)
    ensures
        alert_for(wait, outcome).is_some() <==> outcome == WaitOutcome::TimedOut,
        alert_for(wait, WaitOutcome::TimedOut) == Some(Alert { target: wait.target }),
        alert_for(wait, WaitOutcome::Signalled).is_none(),
{
}

/// Idempotent cancellation, at an event: where no wait is pending (none was
/// armed yet, or the last one has fired), the signal that an event sends is
/// heard by nobody. It raises nothing and stands nothing down, and the event
/// arms its wait as ever.
pub proof fn stale_signal_is_harmless(trace: Trace, event: TimedEvent)
    requires
        trace.pending.is_none(),
    ensures
        trace.step(event).fired == trace.fired,
        trace.step(event).stood_down == trace.stood_down,
        trace.step(event).pending == Some(trace.state.armed_by(event.target)),
{
}

/// Idempotent cancellation, over time: inspecting a timeline twice is the
/// same as inspecting it once at the later instant, so a wait that has
/// already fired or stood down never yields a second alert.
pub proof fn no_duplicate_alert(trace: Trace, first: u64, second: u64)
    ensures
        trace.settle(first).settle(second) == trace.settle(later(first, second)),
        trace.settle(first).settle(second).fired.len() <= trace.fired.len() + 1,
{
}

} // verus!
