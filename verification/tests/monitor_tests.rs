use antigravity_core::error::GatewayError;
use antigravity_core::monitor::{Monitor, MonitorEvent, Outcome, Protocol};

fn event(n: u64) -> MonitorEvent {
    MonitorEvent {
        timestamp: n,
        protocol: Protocol::OpenAi,
        account_id: format!("acct-{}", n),
        outcome: if n % 2 == 0 { Outcome::Success } else { Outcome::Failure(GatewayError::Timeout) },
        latency_ms: n * 10,
    }
}

fn stamps(monitor: &Monitor) -> Vec<u64> {
    monitor.snapshot().iter().map(|e| e.timestamp).collect()
}

#[test]
fn new_monitor_is_empty_and_switched_off() {
    let monitor = Monitor::new(4);
    assert_eq!(monitor.capacity(), 4);
    assert_eq!(monitor.len(), 0);
    assert!(!monitor.is_enabled());
    assert!(monitor.snapshot().is_empty());
}

#[test]
fn record_is_a_no_op_while_switched_off() {
    let mut monitor = Monitor::new(4);
    monitor.record(event(1));
    assert_eq!(monitor.len(), 0);
    monitor.set_enabled(true);
    monitor.record(event(2));
    monitor.set_enabled(false);
    monitor.record(event(3));
    assert_eq!(stamps(&monitor), vec![2]);
}

#[test]
fn ring_keeps_the_most_recent_events_oldest_first() {
    let mut monitor = Monitor::new(3);
    monitor.set_enabled(true);
    for n in 0..5 {
        monitor.record(event(n));
    }
    assert_eq!(stamps(&monitor), vec![2, 3, 4]);
    assert_eq!(monitor.len(), 3);
}

#[test]
fn ring_never_exceeds_its_capacity() {
    let capacity = 7;
    let mut monitor = Monitor::new(capacity);
    monitor.set_enabled(true);
    for n in 0..40u64 {
        monitor.record(event(n));
        assert!(monitor.len() <= capacity);
        let seen = stamps(&monitor);
        let first = if n + 1 > capacity as u64 { n + 1 - capacity as u64 } else { 0 };
        let expected: Vec<u64> = (first..=n).collect();
        assert_eq!(seen, expected);
    }
}

#[test]
fn ring_wraps_around_more_than_once() {
    let mut monitor = Monitor::new(2);
    monitor.set_enabled(true);
    for n in 0..9 {
        monitor.record(event(n));
    }
    assert_eq!(stamps(&monitor), vec![7, 8]);
}

#[test]
fn ring_of_capacity_zero_holds_nothing() {
    let mut monitor = Monitor::new(0);
    monitor.set_enabled(true);
    monitor.record(event(1));
    monitor.record(event(2));
    assert_eq!(monitor.len(), 0);
    assert!(monitor.snapshot().is_empty());
}

#[test]
fn ring_of_capacity_one_holds_the_last_event() {
    let mut monitor = Monitor::new(1);
    monitor.set_enabled(true);
    monitor.record(event(1));
    monitor.record(event(2));
    assert_eq!(stamps(&monitor), vec![2]);
}

#[test]
fn snapshot_copies_every_field() {
    let mut monitor = Monitor::new(2);
    monitor.set_enabled(true);
    monitor.record(event(3));
    let seen = monitor.snapshot();
    assert_eq!(seen.len(), 1);
    assert_eq!(seen[0].timestamp, 3);
    assert_eq!(seen[0].protocol, Protocol::OpenAi);
    assert_eq!(seen[0].account_id, "acct-3");
    assert_eq!(seen[0].outcome, Outcome::Failure(GatewayError::Timeout));
    assert_eq!(seen[0].latency_ms, 30);
    assert_eq!(monitor.len(), 1);
}

#[test]
fn duplicate_event_equals_the_original() {
    let original = event(8);
    let copy = original.duplicate();
    assert_eq!(copy.timestamp, original.timestamp);
    assert_eq!(copy.account_id, original.account_id);
    assert_eq!(copy.outcome, original.outcome);
    assert_eq!(copy.latency_ms, original.latency_ms);
}
