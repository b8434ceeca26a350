use antigravity_core::refresh::{FetchStep, RefreshRegistry, RefreshTicket, RetryPolicy};

#[test]
fn many_requests_for_one_account_start_one_refresh() {
    let mut registry = RefreshRegistry::new();
    let tickets: Vec<RefreshTicket> = (0..8).map(|caller| registry.request("acct", caller)).collect();
    assert_eq!(tickets[0], RefreshTicket::Start);
    assert!(tickets[1..].iter().all(|t| *t == RefreshTicket::Join));
    assert_eq!(tickets.iter().filter(|t| **t == RefreshTicket::Start).count(), 1);
    assert!(registry.is_in_flight("acct"));
}

#[test]
fn every_waiting_caller_observes_the_same_token() {
    let mut registry = RefreshRegistry::new();
    for caller in 0..5 {
        registry.request("acct", caller);
    }
    let deliveries = registry.complete("acct", &Some("fresh-token".to_string()));
    let callers: Vec<u64> = deliveries.iter().map(|d| d.caller).collect();
    assert_eq!(callers, vec![0, 1, 2, 3, 4]);
    assert!(deliveries.iter().all(|d| d.access_token == Some("fresh-token".to_string())));
    assert!(!registry.is_in_flight("acct"));
}

#[test]
fn a_failed_refresh_is_shared_as_well() {
    let mut registry = RefreshRegistry::new();
    registry.request("acct", 1);
    registry.request("acct", 2);
    let deliveries = registry.complete("acct", &None);
    assert_eq!(deliveries.len(), 2);
    assert!(deliveries.iter().all(|d| d.access_token.is_none()));
}

#[test]
fn refreshes_of_different_accounts_do_not_wait_for_each_other() {
    let mut registry = RefreshRegistry::new();
    assert_eq!(registry.request("a", 1), RefreshTicket::Start);
    assert_eq!(registry.request("b", 2), RefreshTicket::Start);
    assert_eq!(registry.request("a", 3), RefreshTicket::Join);
    assert_eq!(registry.request("b", 4), RefreshTicket::Join);
    let deliveries = registry.complete("a", &Some("t".to_string()));
    let callers: Vec<u64> = deliveries.iter().map(|d| d.caller).collect();
    assert_eq!(callers, vec![1, 3]);
    assert!(!registry.is_in_flight("a"));
    assert!(registry.is_in_flight("b"));
    let callers: Vec<u64> =
        registry.complete("b", &Some("u".to_string())).iter().map(|d| d.caller).collect();
    assert_eq!(callers, vec![2, 4]);
}

#[test]
fn a_refresh_after_completion_starts_anew() {
    let mut registry = RefreshRegistry::new();
    assert_eq!(registry.request("a", 1), RefreshTicket::Start);
    registry.complete("a", &Some("t".to_string()));
    assert_eq!(registry.request("a", 2), RefreshTicket::Start);
    assert_eq!(registry.request("a", 3), RefreshTicket::Join);
}

#[test]
fn completing_an_account_nobody_waits_for_delivers_nothing() {
    let mut registry = RefreshRegistry::new();
    registry.request("a", 1);
    assert!(registry.complete("b", &Some("t".to_string())).is_empty());
    assert!(registry.is_in_flight("a"));
}

#[test]
fn the_first_attempt_is_made_at_once() {
    let policy = RetryPolicy { max_attempts: 3, base_delay_ms: 500 };
    assert_eq!(policy.next_fetch_step(0), FetchStep::Attempt { delay_ms: 0 });
}

#[test]
fn pauses_double_after_every_failure() {
    let policy = RetryPolicy { max_attempts: 6, base_delay_ms: 500 };
    assert_eq!(policy.next_fetch_step(1), FetchStep::Attempt { delay_ms: 500 });
    assert_eq!(policy.next_fetch_step(2), FetchStep::Attempt { delay_ms: 1000 });
    assert_eq!(policy.next_fetch_step(3), FetchStep::Attempt { delay_ms: 2000 });
    assert_eq!(policy.next_fetch_step(4), FetchStep::Attempt { delay_ms: 4000 });
    assert_eq!(policy.next_fetch_step(5), FetchStep::Attempt { delay_ms: 8000 });
}

#[test]
fn the_fetch_gives_up_at_the_cap() {
    let policy = RetryPolicy { max_attempts: 3, base_delay_ms: 500 };
    assert_eq!(policy.next_fetch_step(2), FetchStep::Attempt { delay_ms: 1000 });
    assert_eq!(policy.next_fetch_step(3), FetchStep::GiveUp);
    assert_eq!(policy.next_fetch_step(4), FetchStep::GiveUp);
    assert_eq!(policy.next_fetch_step(u32::MAX), FetchStep::GiveUp);
    let never = RetryPolicy { max_attempts: 0, base_delay_ms: 500 };
    assert_eq!(never.next_fetch_step(0), FetchStep::GiveUp);
}

#[test]
fn pauses_are_held_at_the_largest_value() {
    let policy = RetryPolicy { max_attempts: u32::MAX, base_delay_ms: 1 << 62 };
    assert_eq!(policy.next_fetch_step(1), FetchStep::Attempt { delay_ms: 1 << 62 });
    assert_eq!(policy.next_fetch_step(2), FetchStep::Attempt { delay_ms: 1 << 63 });
    assert_eq!(policy.next_fetch_step(3), FetchStep::Attempt { delay_ms: u64::MAX });
    assert_eq!(policy.next_fetch_step(200), FetchStep::Attempt { delay_ms: u64::MAX });
    let odd = RetryPolicy { max_attempts: 100, base_delay_ms: 3 };
    assert_eq!(odd.next_fetch_step(63), FetchStep::Attempt { delay_ms: 3 << 62 });
    assert_eq!(odd.next_fetch_step(64), FetchStep::Attempt { delay_ms: u64::MAX });
    let none = RetryPolicy { max_attempts: 100, base_delay_ms: 0 };
    assert_eq!(none.next_fetch_step(90), FetchStep::Attempt { delay_ms: 0 });
}
