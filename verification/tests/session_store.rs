use backend::identity::Identity;
use backend::session::SessionStore;

#[test]
fn put_then_get_returns_owner() {
    let mut store = SessionStore::new();
    let owner = Identity::new(7);
    store.put("token-a", owner, 60, 1_000);
    assert_eq!(store.get("token-a", 1_000), Some(owner));
}

#[test]
fn empty_store_knows_nobody() {
    let store = SessionStore::new();
    assert_eq!(store.get("token-a", 0), None);
    assert_eq!(store.get("", 0), None);
}

#[test]
fn delete_then_get_is_not_found() {
    let mut store = SessionStore::new();
    store.put("token-a", Identity::new(7), 60, 1_000);
    store.delete("token-a");
    assert_eq!(store.get("token-a", 1_000), None);
    assert_eq!(store.get("token-a", 1_030), None);
}

#[test]
fn delete_is_idempotent() {
    let mut store = SessionStore::new();
    store.delete("never-stored");
    store.put("token-a", Identity::new(7), 60, 1_000);
    store.delete("token-a");
    store.delete("token-a");
    assert_eq!(store.get("token-a", 1_000), None);
}

#[test]
fn entry_is_gone_once_the_ttl_has_passed() {
    let mut store = SessionStore::new();
    let owner = Identity::new(7);
    store.put("token-a", owner, 60, 1_000);
    assert_eq!(store.get("token-a", 1_059), Some(owner));
    assert_eq!(store.get("token-a", 1_060), None);
    assert_eq!(store.get("token-a", 1_061), None);
    assert_eq!(store.get("token-a", i64::MAX), None);
}

#[test]
fn ttl_of_zero_is_gone_at_once() {
    let mut store = SessionStore::new();
    store.put("token-a", Identity::new(7), 0, 1_000);
    assert_eq!(store.get("token-a", 1_000), None);
}

#[test]
fn put_again_replaces_owner_and_ttl() {
    let mut store = SessionStore::new();
    store.put("token-a", Identity::new(7), 60, 1_000);
    store.put("token-a", Identity::new(8), 10, 1_020);
    assert_eq!(store.get("token-a", 1_029), Some(Identity::new(8)));
    assert_eq!(store.get("token-a", 1_030), None);
    store.delete("token-a");
    assert_eq!(store.get("token-a", 1_021), None);
}

#[test]
fn put_again_can_prolong() {
    let mut store = SessionStore::new();
    store.put("token-a", Identity::new(7), 10, 1_000);
    store.put("token-a", Identity::new(7), 10, 1_005);
    assert_eq!(store.get("token-a", 1_012), Some(Identity::new(7)));
    assert_eq!(store.get("token-a", 1_015), None);
}

#[test]
fn other_tokens_are_untouched() {
    let mut store = SessionStore::new();
    store.put("token-a", Identity::new(7), 60, 1_000);
    store.put("token-b", Identity::new(8), 60, 1_000);
    store.put("token-c", Identity::new(7), 5, 1_000);
    store.delete("token-b");
    assert_eq!(store.get("token-a", 1_010), Some(Identity::new(7)));
    assert_eq!(store.get("token-b", 1_010), None);
    assert_eq!(store.get("token-c", 1_010), None);
    assert_eq!(store.get("token-c", 1_004), Some(Identity::new(7)));
}

#[test]
fn tokens_are_compared_exactly() {
    let mut store = SessionStore::new();
    store.put("token-a", Identity::new(7), 60, 1_000);
    assert_eq!(store.get("token-A", 1_000), None);
    assert_eq!(store.get("token-a ", 1_000), None);
    assert_eq!(store.get("token", 1_000), None);
}

#[test]
fn largest_ttl_does_not_wrap() {
    let mut store = SessionStore::new();
    store.put("token-a", Identity::new(7), u64::MAX, i64::MAX);
    assert_eq!(store.get("token-a", i64::MAX), Some(Identity::new(7)));
    store.put("token-b", Identity::new(8), u64::MAX, i64::MIN);
    assert_eq!(store.get("token-b", i64::MAX - 1), Some(Identity::new(8)));
    assert_eq!(store.get("token-b", i64::MAX), None);
}

#[test]
fn clock_before_the_epoch_and_before_the_put() {
    let mut store = SessionStore::new();
    store.put("token-a", Identity::new(7), 10, -100);
    assert_eq!(store.get("token-a", -91), Some(Identity::new(7)));
    assert_eq!(store.get("token-a", -90), None);
    assert_eq!(store.get("token-a", -200), Some(Identity::new(7)));
}

#[test]
fn len_counts_tokens_not_puts() {
    let mut store = SessionStore::new();
    assert_eq!(store.len(), 0);
    store.put("token-a", Identity::new(7), 60, 1_000);
    store.put("token-b", Identity::new(8), 60, 1_000);
    store.put("token-a", Identity::new(9), 60, 1_001);
    assert_eq!(store.len(), 2);
    store.delete("token-a");
    assert_eq!(store.len(), 1);
    store.delete("token-a");
    assert_eq!(store.len(), 1);
}

#[test]
fn purge_drops_what_has_expired_and_nothing_else() {
    let mut store = SessionStore::new();
    store.put("short", Identity::new(1), 10, 1_000);
    store.put("exact", Identity::new(2), 50, 1_000);
    store.put("long", Identity::new(3), 60, 1_000);
    store.put("zero", Identity::new(4), 0, 1_050);
    assert_eq!(store.len(), 4);
    store.purge_expired(1_050);
    assert_eq!(store.len(), 1);
    assert_eq!(store.get("long", 1_050), Some(Identity::new(3)));
    assert_eq!(store.get("long", 1_059), Some(Identity::new(3)));
    assert_eq!(store.get("short", 1_050), None);
    assert_eq!(store.get("exact", 1_050), None);
    assert_eq!(store.get("zero", 1_050), None);
}

#[test]
fn purge_of_an_empty_or_a_live_store_changes_nothing() {
    let mut store = SessionStore::new();
    store.purge_expired(0);
    assert_eq!(store.len(), 0);
    store.put("token-a", Identity::new(7), 60, 1_000);
    store.purge_expired(1_000);
    store.purge_expired(1_059);
    assert_eq!(store.len(), 1);
    assert_eq!(store.get("token-a", 1_059), Some(Identity::new(7)));
    store.purge_expired(1_060);
    assert_eq!(store.len(), 0);
}

#[test]
fn expired_entry_stays_counted_until_it_is_purged_or_replaced() {
    let mut store = SessionStore::new();
    store.put("token-a", Identity::new(7), 10, 1_000);
    assert_eq!(store.get("token-a", 2_000), None);
    assert_eq!(store.len(), 1);
    store.put("token-a", Identity::new(7), 10, 2_000);
    assert_eq!(store.len(), 1);
    assert_eq!(store.get("token-a", 2_000), Some(Identity::new(7)));
}
