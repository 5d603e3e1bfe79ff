use oauth_handoff::session::{SessionStore, SESSION_TTL_SECONDS};

#[test]
fn ttl_is_120_seconds() {
    assert_eq!(SESSION_TTL_SECONDS, 120);
}

#[test]
fn empty_store_has_nothing() {
    let store = SessionStore::new();
    assert_eq!(store.get("anything", 0), None);
    assert_eq!(store.get("", 0), None);
}

#[test]
fn put_then_get_within_ttl() {
    let mut store = SessionStore::new();
    store.put("s1", "tok", 120, 1_000);
    assert_eq!(store.get("s1", 1_000), Some(String::from("tok")));
    assert_eq!(store.get("s1", 1_119), Some(String::from("tok")));
    // get does not consume
    assert_eq!(store.get("s1", 1_119), Some(String::from("tok")));
}

#[test]
fn entry_is_unreadable_once_ttl_has_elapsed() {
    let mut store = SessionStore::new();
    store.put("s1", "tok", 120, 1_000);
    assert_eq!(store.get("s1", 1_120), None);
    assert_eq!(store.get("s1", 1_121), None);
    assert_eq!(store.get("s1", u64::MAX), None);
}

#[test]
fn zero_ttl_is_never_readable() {
    let mut store = SessionStore::new();
    store.put("s1", "tok", 0, 50);
    assert_eq!(store.get("s1", 50), None);
}

#[test]
fn ttl_near_the_end_of_time_does_not_overflow() {
    let mut store = SessionStore::new();
    store.put("s1", "tok", u64::MAX, u64::MAX);
    assert_eq!(store.get("s1", u64::MAX), Some(String::from("tok")));
    store.put("s2", "tok2", 1, u64::MAX - 1);
    assert_eq!(store.get("s2", u64::MAX - 1), Some(String::from("tok2")));
    assert_eq!(store.get("s2", u64::MAX), None);
}

#[test]
fn reading_before_creation_time_finds_the_entry() {
    let mut store = SessionStore::new();
    store.put("s1", "tok", 120, 1_000);
    assert_eq!(store.get("s1", 10), Some(String::from("tok")));
}

#[test]
fn put_overwrites_value_and_restarts_ttl() {
    let mut store = SessionStore::new();
    store.put("s1", "old", 120, 1_000);
    store.put("s1", "new", 120, 1_100);
    assert_eq!(store.get("s1", 1_150), Some(String::from("new")));
    assert_eq!(store.get("s1", 1_219), Some(String::from("new")));
    assert_eq!(store.get("s1", 1_220), None);
}

#[test]
fn keys_do_not_interfere() {
    let mut store = SessionStore::new();
    store.put("a", "ta", 120, 0);
    store.put("b", "tb", 120, 0);
    store.put("c", "tc", 120, 0);
    assert_eq!(store.take("b", 1), Some(String::from("tb")));
    assert_eq!(store.get("a", 1), Some(String::from("ta")));
    assert_eq!(store.get("b", 1), None);
    assert_eq!(store.get("c", 1), Some(String::from("tc")));
}

#[test]
fn take_hands_out_once() {
    let mut store = SessionStore::new();
    store.put("s1", "tok", 120, 1_000);
    assert_eq!(store.take("s1", 1_001), Some(String::from("tok")));
    assert_eq!(store.take("s1", 1_001), None);
    assert_eq!(store.get("s1", 1_001), None);
}

#[test]
fn take_of_expired_entry_gives_nothing_and_removes_it() {
    let mut store = SessionStore::new();
    store.put("s1", "tok", 120, 1_000);
    assert_eq!(store.take("s1", 1_120), None);
    // even at a time at which it would have been readable
    assert_eq!(store.get("s1", 1_001), None);
}

#[test]
fn take_of_unknown_key_changes_nothing() {
    let mut store = SessionStore::new();
    store.put("s1", "tok", 120, 1_000);
    assert_eq!(store.take("s2", 1_001), None);
    assert_eq!(store.get("s1", 1_001), Some(String::from("tok")));
}

#[test]
fn purge_drops_expired_and_keeps_live() {
    let mut store = SessionStore::new();
    store.put("old1", "t1", 120, 0);
    store.put("live1", "t2", 120, 100);
    store.put("old2", "t3", 10, 100);
    store.put("live2", "t4", 120, 119);
    store.purge_expired(120);
    // dropped entries are gone for every clock value
    assert_eq!(store.get("old1", 0), None);
    assert_eq!(store.get("old2", 100), None);
    assert_eq!(store.get("live1", 120), Some(String::from("t2")));
    assert_eq!(store.get("live2", 120), Some(String::from("t4")));
}

#[test]
fn purge_of_empty_store_is_harmless() {
    let mut store = SessionStore::new();
    store.purge_expired(5);
    assert_eq!(store.get("x", 5), None);
}

#[test]
fn purge_can_drop_everything() {
    let mut store = SessionStore::new();
    store.put("a", "1", 1, 0);
    store.put("b", "2", 1, 0);
    store.put("c", "3", 1, 0);
    store.purge_expired(1);
    assert_eq!(store.get("a", 0), None);
    assert_eq!(store.get("b", 0), None);
    assert_eq!(store.get("c", 0), None);
}
