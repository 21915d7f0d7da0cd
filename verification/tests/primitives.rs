use ggai::im::backoff::{Backoff, ReconnectPolicy};
use ggai::im::gateway::{
    GatewayConfig, GatewayEvent, GatewayStatus, MessageDeduplicationCache, StartGate,
};
use ggai::im::keyed::KeyedList;
use ggai::im::token::{TokenCache, TokenState};

#[test]
fn status_default_is_idle() {
    let s = GatewayStatus::default();
    assert!(!s.enabled && !s.connected && !s.starting);
    assert_eq!(s.error, None);
    assert_eq!(s.started_at, None);
    assert_eq!(s.last_inbound_at, None);
    assert_eq!(s.last_outbound_at, None);
    assert_eq!(s.last_error, None);
    assert!(!GatewayConfig::default().enabled);
}

#[test]
fn status_connected_and_starting_exclude_each_other() {
    let mut s = GatewayStatus::default();
    s.mark_starting();
    assert!(s.starting && !s.connected);
    s.mark_connected(42);
    assert!(s.connected && !s.starting);
    assert_eq!(s.started_at, Some(42));
    s.mark_starting();
    assert!(s.starting && !s.connected);
}

#[test]
fn status_error_is_cleared_on_starting_and_connected() {
    let mut s = GatewayStatus::default();
    s.record_error("bad");
    assert_eq!(s.error, Some("bad".to_string()));
    assert_eq!(s.last_error, Some("bad".to_string()));
    s.mark_starting();
    assert_eq!(s.error, None);
    assert_eq!(s.last_error, None);
    s.mark_failed("worse");
    assert!(!s.starting);
    assert_eq!(s.error, Some("worse".to_string()));
    s.mark_connected(1);
    assert_eq!(s.error, None);
    assert_eq!(s.last_error, Some("worse".to_string()));
}

#[test]
fn begin_start_skips_a_disabled_adapter() {
    let mut s = GatewayStatus::default();
    let (gate, events) = s.begin_start(false, None);
    assert_eq!(gate, StartGate::Skip);
    assert!(events.is_empty());
    assert!(!s.starting);
}

#[test]
fn begin_start_rejects_missing_credentials() {
    let mut s = GatewayStatus::default();
    let (gate, events) = s.begin_start(true, Some("missing"));
    assert_eq!(gate, StartGate::Rejected);
    assert_eq!(events.len(), 2);
    assert!(matches!(&events[0], GatewayEvent::Error(e) if e == "missing"));
    assert!(matches!(&events[1], GatewayEvent::StatusChanged(st) if st.error == Some("missing".to_string())));
    assert!(!s.starting);
}

#[test]
fn stop_emits_only_when_not_idle() {
    let mut s = GatewayStatus::default();
    assert!(s.stop().is_empty());
    s.mark_connected(5);
    let events = s.stop();
    assert_eq!(events.len(), 2);
    assert!(matches!(&events[0], GatewayEvent::StatusChanged(st) if !st.connected));
    assert!(matches!(&events[1], GatewayEvent::Disconnected));
    assert!(s.stop().is_empty());
}

#[test]
fn stop_clears_an_error_of_an_idle_adapter() {
    let mut s = GatewayStatus::default();
    s.mark_failed("x");
    let events = s.stop();
    assert!(events.is_empty());
    assert_eq!(s.error, None);
}

#[test]
fn touch_records_times() {
    let mut s = GatewayStatus::default();
    s.touch_inbound(7);
    s.touch_outbound(9);
    assert_eq!(s.last_inbound_at, Some(7));
    assert_eq!(s.last_outbound_at, Some(9));
    let events = s.drop_connection();
    assert!(matches!(&events[..], [GatewayEvent::Disconnected]));
}

#[test]
fn dedup_repeat_within_ttl_is_duplicate() {
    let t = 1_000_000;
    let mut cache = MessageDeduplicationCache::new();
    assert!(!cache.check_and_mark("M", t, 60));
    assert!(cache.check_and_mark("M", t + 30, 60));
}

#[test]
fn dedup_repeat_after_ttl_is_readmitted() {
    let t = 1_000_000;
    let mut cache = MessageDeduplicationCache::new();
    assert!(!cache.check_and_mark("M", t, 60));
    assert!(!cache.check_and_mark("M", t + 61, 60));
    // The entry was refreshed at t + 61.
    assert!(cache.check_and_mark("M", t + 100, 60));
}

#[test]
fn dedup_boundary_is_exclusive() {
    let mut cache = MessageDeduplicationCache::new();
    assert!(!cache.check_and_mark("M", 0, 60));
    assert!(cache.check_and_mark("M", 59, 60));
    assert!(!cache.check_and_mark("M", 60, 60));
}

#[test]
fn dedup_duplicate_does_not_refresh() {
    let mut cache = MessageDeduplicationCache::new();
    assert!(!cache.check_and_mark("M", 0, 60));
    assert!(cache.check_and_mark("M", 50, 60));
    assert!(!cache.check_and_mark("M", 70, 60));
}

#[test]
fn dedup_keeps_ids_apart_and_survives_extreme_times() {
    let mut cache = MessageDeduplicationCache::new();
    assert!(!cache.check_and_mark("a", i64::MIN, 60));
    assert!(!cache.check_and_mark("b", i64::MAX, 60));
    assert!(!cache.check_and_mark("a", i64::MAX, 60));
    assert_eq!(cache.len(), 2);
}

#[test]
fn dedup_cleanup_drops_old_entries() {
    let mut cache = MessageDeduplicationCache::new();
    cache.check_and_mark("old", 0, 60);
    cache.check_and_mark("edge", 100, 60);
    cache.check_and_mark("new", 350, 60);
    cache.cleanup(400);
    assert_eq!(cache.len(), 1);
    // "edge" is exactly 300 seconds old and leaves; "new" stays.
    assert!(cache.check_and_mark("new", 351, 60));
    assert!(!cache.check_and_mark("edge", 351, 1000));
    assert!(!cache.check_and_mark("old", 351, 1000));
}

#[test]
fn token_with_400_seconds_left_is_reused() {
    let now = 1_700_000_000;
    let mut cache = TokenCache::new();
    cache.store("tok", 400, now);
    assert_eq!(cache.lookup(now), Some("tok".to_string()));
    assert_eq!(cache.state(now), TokenState::Valid);
}

#[test]
fn token_with_100_seconds_left_is_fetched_anew() {
    let now = 1_700_000_000;
    let mut cache = TokenCache::new();
    cache.store("tok", 100, now);
    assert_eq!(cache.lookup(now), None);
    assert_eq!(cache.state(now), TokenState::Expiring);
    cache.store("fresh", 7200, now);
    assert_eq!(cache.lookup(now), Some("fresh".to_string()));
    assert_eq!(cache.lookup(now + 6899), Some("fresh".to_string()));
    assert_eq!(cache.lookup(now + 6900), None);
}

#[test]
fn token_margin_is_exclusive_and_clear_forgets() {
    let mut cache = TokenCache::new();
    assert_eq!(cache.state(0), TokenState::NoToken);
    assert_eq!(cache.lookup(0), None);
    cache.store("t", 300, 0);
    assert_eq!(cache.lookup(0), None);
    cache.store("t", 301, 0);
    assert_eq!(cache.lookup(0), Some("t".to_string()));
    cache.clear();
    assert_eq!(cache.state(0), TokenState::NoToken);
}

#[test]
fn token_expiry_saturates() {
    let mut cache = TokenCache::new();
    cache.store("t", i64::MAX, i64::MAX);
    assert_eq!(cache.lookup(0), Some("t".to_string()));
    assert_eq!(cache.lookup(i64::MIN), Some("t".to_string()));
}

#[test]
fn backoff_doubles_from_the_initial_delay() {
    let mut b = Backoff::new(3000, 60000);
    assert_eq!(b.next_delay(), 3000);
    assert_eq!(b.next_delay(), 6000);
    assert_eq!(b.next_delay(), 12000);
    b.reset();
    assert_eq!(b.next_delay(), 3000);
}

#[test]
fn backoff_is_capped_at_the_maximum() {
    let mut b = Backoff::default();
    let mut seen = Vec::new();
    for _ in 0..7 {
        seen.push(b.next_delay());
    }
    assert_eq!(seen, vec![3000, 6000, 12000, 24000, 48000, 60000, 60000]);
    assert_eq!(b.peek(), 60000);
}

#[test]
fn backoff_with_initial_above_maximum_and_huge_values() {
    let mut b = Backoff::new(100, 50);
    assert_eq!(b.next_delay(), 50);
    assert_eq!(b.next_delay(), 50);
    let mut big = Backoff::new(u64::MAX - 1, u64::MAX);
    assert_eq!(big.next_delay(), u64::MAX - 1);
    assert_eq!(big.next_delay(), u64::MAX);
    let mut zero = Backoff::new(0, 10);
    assert_eq!(zero.next_delay(), 0);
    assert_eq!(zero.next_delay(), 0);
}

#[test]
fn reconnect_policy_follows_planned_and_unplanned() {
    let mut p = ReconnectPolicy::new();
    assert_eq!(p.connection_lost(), Some(3000));
    assert_eq!(p.connection_lost(), Some(6000));
    assert_eq!(p.connection_lost(), Some(12000));
    p.stop();
    assert!(p.is_stopping());
    assert_eq!(p.connection_lost(), None);
    p.planned_start();
    assert!(!p.is_stopping());
    assert_eq!(p.connection_lost(), Some(3000));
}

#[test]
fn keyed_list_keeps_order_and_replaces() {
    let mut list: KeyedList<i64> = KeyedList::new();
    list.insert("a", 1);
    list.insert("b", 2);
    list.insert("a", 3);
    assert_eq!(list.len(), 2);
    assert_eq!(list.key_at(0), "a");
    assert_eq!(*list.value_at(0), 3);
    assert_eq!(list.get("b"), Some(&2));
    assert_eq!(list.get("c"), None);
    assert_eq!(list.position("b"), Some(1));
    assert_eq!(list.remove("a"), Some(3));
    assert_eq!(list.remove("a"), None);
    assert!(!list.contains_key("a"));
    assert_eq!(list.key_at(0), "b");
    assert_eq!(list.remove_at(0), 2);
    assert_eq!(list.len(), 0);
}
