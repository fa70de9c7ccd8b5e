use chat_core::cache::{Cache, TimedCache, DEFAULT_RECORD_LIFETIME_MS, MAX_LIFETIME_MS};
use chat_core::tickets::{TicketError, TicketService, TICKET_LENGTH};

#[test]
fn cache_get_returns_live_value() {
    let mut cache = TimedCache::new();
    cache.set("a".to_string(), 7, Some(1000), 5_000);
    assert_eq!(cache.get(&"a".to_string(), 5_000), Some(7));
    assert_eq!(cache.get(&"a".to_string(), 5_999), Some(7));
    assert_eq!(cache.get(&"b".to_string(), 5_000), None);
}

#[test]
fn cache_expired_entry_is_absent_before_any_sweep() {
    let mut cache = TimedCache::new();
    cache.set("a".to_string(), 7, Some(1000), 5_000);
    assert_eq!(cache.get(&"a".to_string(), 6_000), None);
    assert_eq!(cache.get(&"a".to_string(), 60_000), None);
    // still stored, still invisible
    assert_eq!(cache.remove(&"a".to_string(), 6_000), None);
    assert_eq!(cache.get(&"a".to_string(), 5_500), None);
}

#[test]
fn cache_default_lifetime_applies() {
    let mut cache = TimedCache::new();
    assert_eq!(cache.get_default_lifetime(), DEFAULT_RECORD_LIFETIME_MS);
    cache.set("k".to_string(), 1, None, 0);
    assert_eq!(cache.get(&"k".to_string(), DEFAULT_RECORD_LIFETIME_MS - 1), Some(1));
    assert_eq!(cache.get(&"k".to_string(), DEFAULT_RECORD_LIFETIME_MS), None);
}

#[test]
fn cache_set_overwrites_and_remove_takes_once() {
    let mut cache = TimedCache::with_default_lifetime(100);
    cache.set("k".to_string(), 1, None, 0);
    cache.set("k".to_string(), 2, Some(500), 0);
    assert_eq!(cache.get(&"k".to_string(), 400), Some(2));
    assert_eq!(cache.remove(&"k".to_string(), 400), Some(2));
    assert_eq!(cache.remove(&"k".to_string(), 400), None);
    assert_eq!(cache.get(&"k".to_string(), 400), None);
}

#[test]
fn cache_huge_lifetime_is_clamped_and_saturates() {
    let mut cache = TimedCache::new();
    cache.set("k".to_string(), 3, Some(u64::MAX), 10);
    assert_eq!(cache.get(&"k".to_string(), 10 + MAX_LIFETIME_MS - 1), Some(3));
    assert_eq!(cache.get(&"k".to_string(), 10 + MAX_LIFETIME_MS), None);
    cache.set("s".to_string(), 4, Some(10), u64::MAX - 5);
    assert_eq!(cache.get(&"s".to_string(), u64::MAX - 1), Some(4));
}

#[test]
fn cache_trait_delegates() {
    let mut cache = TimedCache::new();
    Cache::set(&mut cache, "t".to_string(), 9, Some(10), 0);
    assert_eq!(Cache::get(&cache, &"t".to_string(), 5), Some(9));
    assert_eq!(Cache::remove(&mut cache, &"t".to_string(), 5), Some(9));
    assert_eq!(Cache::get(&cache, &"t".to_string(), 5), None);
}

#[test]
fn generated_ticket_is_alphanumeric_of_fixed_length() {
    let mut service = TicketService::default();
    assert_eq!(service.get_ticket_length(), TICKET_LENGTH);
    assert_eq!(service.get_lifetime(), DEFAULT_RECORD_LIFETIME_MS);
    let t = service.generate(42, 0).unwrap();
    assert_eq!(t.chars().count(), 32);
    assert!(t.chars().all(|c| c.is_ascii_alphanumeric()));
    assert_eq!(service.verify(&t, 0), Some(42));
    let other = service.generate(42, 0).unwrap();
    assert_ne!(t, other);
}

#[test]
fn ticket_redeems_exactly_once() {
    let mut service = TicketService::default();
    let t = service.generate(42, 1_000).unwrap();
    assert_eq!(service.remove(&t, 1_001), Some(42));
    for k in 0..100u64 {
        assert_eq!(service.remove(&t, 1_002 + k), None);
    }
    assert_eq!(service.verify(&t, 1_002), None);
}

#[test]
fn expired_ticket_is_not_redeemed() {
    let mut service = TicketService::with_config(10_000, 16);
    let t = service.generate(7, 0).unwrap();
    assert_eq!(t.len(), 16);
    assert_eq!(service.verify(&t, 9_999), Some(7));
    assert_eq!(service.verify(&t, 10_000), None);
    assert_eq!(service.remove(&t, 10_000), None);
    assert_eq!(service.validated_remove(7, &t, 10_000), Err(TicketError::NotFound));
}

#[test]
fn redeem_as_wrong_owner_keeps_ticket() {
    let mut service = TicketService::default();
    let t = service.generate(42, 0).unwrap();
    assert_eq!(service.validated_remove(43, &t, 1), Err(TicketError::OwnershipMismatch));
    assert_eq!(service.verify(&t, 1), Some(42));
    assert_eq!(service.validated_remove(42, &t, 2), Ok(()));
    assert_eq!(service.validated_remove(42, &t, 3), Err(TicketError::NotFound));
}

#[test]
fn issue_with_binds_given_ticket() {
    let mut service = TicketService::with_config(50, 4);
    assert!(service.issue_with(5, "abcd".to_string(), 100));
    assert_eq!(service.verify(&"abcd".to_string(), 149), Some(5));
    assert_eq!(service.verify(&"abcd".to_string(), 150), None);
    assert!(service.issue_with(6, "abcd".to_string(), 200));
    assert_eq!(service.verify(&"abcd".to_string(), 210), Some(6));
}

#[test]
fn revoked_ticket_is_gone() {
    let mut service = TicketService::default();
    let t = service.generate(1, 0).unwrap();
    service.revoke(&t);
    assert_eq!(service.verify(&t, 0), None);
    assert_eq!(service.remove(&t, 0), None);
}

#[test]
fn sweep_keeps_live_entries() {
    let mut cache = TimedCache::new();
    cache.set("gone".to_string(), 1, Some(0), 0);
    cache.set("long".to_string(), 2, Some(600_000), 0);
    cache.sweep();
    assert_eq!(cache.get(&"long".to_string(), 0), Some(2));
    assert_eq!(cache.get(&"gone".to_string(), 0), None);
}

#[test]
fn ticket_sweep_keeps_live_tickets() {
    let mut service = TicketService::default();
    let t = service.generate(3, 0).unwrap();
    service.sweep();
    assert_eq!(service.verify(&t, 1), Some(3));
}

#[test]
fn live_ticket_is_never_rebound() {
    let mut service = TicketService::with_config(50, 4);
    assert!(service.issue_with(5, "abcd".to_string(), 100));
    assert!(!service.issue_with(6, "abcd".to_string(), 120));
    assert_eq!(service.verify(&"abcd".to_string(), 120), Some(5));
    assert!(service.issue_with(6, "abcd".to_string(), 150));
    assert_eq!(service.verify(&"abcd".to_string(), 150), Some(6));
}
