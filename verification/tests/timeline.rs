use silence_watchdog::engine::PendingWait;
use silence_watchdog::timeline::{replay, Fired, TimedEvent, Timeline};

const X: u64 = 1001;
const Y: u64 = 2002;

#[test]
fn single_event_then_silence_alerts_once() {
    let mut t = Timeline::new(10_000);
    assert_eq!(t.event(0, X), None);
    assert_eq!(t.advance(9_900), None);
    assert!(t.fired().is_empty());
    assert_eq!(t.alive(), 1);
    assert_eq!(t.advance(12_000), Some(Fired { target: X, at: 10_000 }));
    assert_eq!(t.fired(), &vec![Fired { target: X, at: 10_000 }]);
    assert_eq!(t.alive(), 0);
}

#[test]
fn second_event_rearms_the_window() {
    let mut t = Timeline::new(10_000);
    t.event(0, X);
    assert_eq!(t.event(5_000, Y), None);
    assert_eq!(t.advance(14_999), None);
    assert_eq!(t.advance(15_000), Some(Fired { target: Y, at: 15_000 }));
    assert_eq!(t.advance(1_000_000), None);
    assert_eq!(t.fired(), &vec![Fired { target: Y, at: 15_000 }]);
}

#[test]
fn no_alert_while_events_keep_coming() {
    let mut events = Vec::new();
    let mut at: u64 = 3;
    for i in 0..50u64 {
        events.push(TimedEvent { at, target: i });
        at += 9_999;
    }
    let last = events[49].at;
    let t = replay(10_000, &events, last + 9_999);
    assert!(t.fired().is_empty());
    assert_eq!(t.alive(), 1);
    assert_eq!(t.live(), Some(PendingWait { id: 50, target: 49 }));
}

#[test]
fn one_alert_after_a_burst_and_nothing_left() {
    let events = vec![
        TimedEvent { at: 100, target: 1 },
        TimedEvent { at: 200, target: 2 },
        TimedEvent { at: 1_199, target: 3 },
    ];
    let before = replay(1_000, &events, 2_198);
    assert!(before.fired().is_empty());
    assert_eq!(before.alive(), 1);
    let after = replay(1_000, &events, 2_199);
    assert_eq!(after.fired(), &vec![Fired { target: 3, at: 2_199 }]);
    assert_eq!(after.alive(), 0);
    assert_eq!(after.live(), None);
}

#[test]
fn rearm_at_half_a_window_fires_after_one_and_a_half() {
    let events = vec![TimedEvent { at: 40, target: X }, TimedEvent { at: 540, target: Y }];
    let t = replay(1_000, &events, 5_000);
    assert_eq!(t.fired(), &vec![Fired { target: Y, at: 1_540 }]);
    assert_eq!(t.fired()[0].at - 40, 1_500);
}

#[test]
fn event_at_the_deadline_comes_too_late_to_cancel() {
    let mut t = Timeline::new(1_000);
    t.event(0, X);
    assert_eq!(t.event(1_000, Y), Some(Fired { target: X, at: 1_000 }));
    assert_eq!(t.live(), Some(PendingWait { id: 2, target: Y }));
    assert_eq!(t.advance(2_000), Some(Fired { target: Y, at: 2_000 }));
    assert_eq!(
        t.fired(),
        &vec![Fired { target: X, at: 1_000 }, Fired { target: Y, at: 2_000 }]
    );
}

#[test]
fn separate_silences_fire_once_each() {
    let events = vec![
        TimedEvent { at: 0, target: 1 },
        TimedEvent { at: 50, target: 2 },
        TimedEvent { at: 60, target: 3 },
        TimedEvent { at: 500, target: 4 },
    ];
    let t = replay(100, &events, 599);
    assert_eq!(t.fired(), &vec![Fired { target: 3, at: 160 }]);
    assert_eq!(t.alive(), 1);
    let t = replay(100, &events, 600);
    assert_eq!(
        t.fired(),
        &vec![Fired { target: 3, at: 160 }, Fired { target: 4, at: 600 }]
    );
    assert_eq!(t.alive(), 0);
}

#[test]
fn repeated_inspection_never_duplicates() {
    let mut t = Timeline::new(10);
    t.event(5, X);
    assert_eq!(t.advance(15), Some(Fired { target: X, at: 15 }));
    assert_eq!(t.advance(15), None);
    assert_eq!(t.advance(16), None);
    assert_eq!(t.advance(u64::MAX), None);
    assert_eq!(t.fired().len(), 1);
}

#[test]
fn stamps_that_run_backwards_are_read_as_now() {
    let mut t = Timeline::new(100);
    t.event(1_000, X);
    assert_eq!(t.advance(10), None);
    assert_eq!(t.clock(), 1_000);
    assert_eq!(t.event(900, Y), None);
    assert_eq!(t.clock(), 1_000);
    assert_eq!(t.advance(1_099), None);
    assert_eq!(t.advance(1_100), Some(Fired { target: Y, at: 1_100 }));
}

#[test]
fn empty_replay_is_silent() {
    let t = replay(10, &Vec::new(), u64::MAX);
    assert!(t.fired().is_empty());
    assert_eq!(t.alive(), 0);
    assert_eq!(t.clock(), u64::MAX);
}

#[test]
fn zero_window_fires_at_once() {
    let mut t = Timeline::new(0);
    t.event(7, X);
    assert_eq!(t.advance(7), Some(Fired { target: X, at: 7 }));
}

#[test]
fn window_that_reaches_past_the_scale_never_closes() {
    let mut t = Timeline::new(u64::MAX);
    t.event(1, X);
    assert_eq!(t.advance(u64::MAX), None);
    assert_eq!(t.alive(), 1);
    let mut t = Timeline::new(u64::MAX);
    t.event(0, X);
    assert_eq!(t.advance(u64::MAX), Some(Fired { target: X, at: u64::MAX }));
}

#[test]
fn rearm_stands_the_first_wait_down() {
    let events = vec![TimedEvent { at: 0, target: X }, TimedEvent { at: 5_000, target: Y }];
    let t = replay(10_000, &events, 20_000);
    assert_eq!(t.stood_down(), &vec![PendingWait { id: 1, target: X }]);
    assert_eq!(t.fired(), &vec![Fired { target: Y, at: 15_000 }]);
    assert_eq!(t.alive(), 0);
}

#[test]
fn every_wait_fires_or_stands_down_or_is_live() {
    let events = vec![
        TimedEvent { at: 0, target: 1 },
        TimedEvent { at: 50, target: 2 },
        TimedEvent { at: 60, target: 3 },
        TimedEvent { at: 500, target: 4 },
        TimedEvent { at: 599, target: 5 },
        TimedEvent { at: 699, target: 6 },
    ];
    for until in [0u64, 59, 60, 159, 160, 499, 598, 599, 698, 699, 798, 799, 10_000] {
        let t = replay(100, &events, until);
        assert_eq!(t.fired().len() + t.stood_down().len() + t.alive(), events.len());
        assert!(t.alive() <= 1);
    }
    let t = replay(100, &events, 10_000);
    assert_eq!(
        t.fired(),
        &vec![
            Fired { target: 3, at: 160 },
            Fired { target: 5, at: 699 },
            Fired { target: 6, at: 799 }
        ]
    );
    assert_eq!(
        t.stood_down(),
        &vec![
            PendingWait { id: 1, target: 1 },
            PendingWait { id: 2, target: 2 },
            PendingWait { id: 4, target: 4 }
        ]
    );
}

#[test]
fn one_wait_alive_at_every_point_of_a_burst() {
    let mut t = Timeline::new(1_000);
    let mut at: u64 = 0;
    for i in 0..20u64 {
        t.event(at, i);
        assert_eq!(t.alive(), 1);
        assert_eq!(t.advance(at + 998), None);
        assert_eq!(t.alive(), 1);
        at += 999;
    }
    assert!(t.fired().is_empty());
    assert_eq!(t.stood_down().len(), 19);
    assert_eq!(t.advance(at + 1), Some(Fired { target: 19, at: at + 1 }));
    assert_eq!(t.alive(), 0);
}

#[test]
fn signal_after_the_alert_is_heard_by_nobody() {
    let mut t = Timeline::new(100);
    t.event(0, X);
    assert_eq!(t.advance(100), Some(Fired { target: X, at: 100 }));
    assert_eq!(t.live(), None);
    assert_eq!(t.current(), Some(PendingWait { id: 1, target: X }));
    assert_eq!(t.event(150, Y), None);
    assert!(t.stood_down().is_empty());
    assert_eq!(t.fired(), &vec![Fired { target: X, at: 100 }]);
    assert_eq!(t.live(), Some(PendingWait { id: 2, target: Y }));
}

#[test]
fn pending_wait_is_the_one_in_the_registry() {
    let mut t = Timeline::new(100);
    assert_eq!(t.live(), None);
    assert_eq!(t.current(), None);
    t.event(0, X);
    assert_eq!(t.live(), t.current());
    t.event(50, Y);
    assert_eq!(t.live(), Some(PendingWait { id: 2, target: Y }));
    assert_eq!(t.live(), t.current());
    assert_eq!(t.stood_down(), &vec![PendingWait { id: 1, target: X }]);
}
