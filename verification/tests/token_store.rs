use riff::credentials::{check_user_profile, Credentials, Timestamp};
use riff::token_store::{
    after_keyring_search, KeyringSearchStep, TokenStore, KEYRING_RETRY_DELAY_MS,
    MAX_KEYRING_RETRIES,
};

fn creds(access: &str, refresh: &str) -> Credentials {
    Credentials {
        access_token: access.to_string(),
        refresh_token: refresh.to_string(),
        token_expiry_time: None,
    }
}

#[test]
fn get_cached_returns_stored_value() {
    let mut store = TokenStore::new();
    store.set(creds("test_token", "test_refresh"));
    let cached = store.get_cached_blocking();
    assert!(cached.is_some());
    assert_eq!(cached.unwrap().access_token, "test_token");
}

#[test]
fn get_returns_cached_without_hitting_keyring() {
    let mut store = TokenStore::new();
    store.set(creds("cached_token", "cached_refresh"));
    assert!(!store.needs_retrieval());
    let result = store.get_cached_blocking();
    assert!(result.is_some());
    assert_eq!(result.unwrap().access_token, "cached_token");
}

#[test]
fn get_returns_none_when_keyring_empty() {
    let mut store = TokenStore::new();
    assert!(store.needs_retrieval());
    assert!(store.accept_retrieved(None).is_none());
    assert!(store.get_cached_blocking().is_none());
}

#[test]
fn empty_token_from_keyring_is_no_token() {
    let mut store = TokenStore::new();
    assert!(store.accept_retrieved(Some(creds("", "refresh"))).is_none());
    assert!(store.get_cached_blocking().is_none());
    assert!(store.needs_retrieval());
}

#[test]
fn token_from_keyring_is_cached() {
    let mut store = TokenStore::new();
    let got = store.accept_retrieved(Some(creds("from_keyring", "r")));
    assert_eq!(got.unwrap().refresh_token, "r");
    assert!(!store.needs_retrieval());
    assert_eq!(store.get_cached_blocking().unwrap().access_token, "from_keyring");
}

#[test]
fn clear_forgets_the_cached_token() {
    let mut store = TokenStore::new();
    store.set(creds("a", "b"));
    store.clear();
    assert!(store.get_cached_blocking().is_none());
    assert!(store.needs_retrieval());
}

#[test]
fn retrieve_fails_with_empty_keyring_after_retries() {
    assert_eq!(MAX_KEYRING_RETRIES, 3);
    assert_eq!(KEYRING_RETRY_DELAY_MS, 200);
    assert_eq!(after_keyring_search(0, false), KeyringSearchStep::RetryAfterDelay);
    assert_eq!(after_keyring_search(1, false), KeyringSearchStep::RetryAfterDelay);
    assert_eq!(after_keyring_search(2, false), KeyringSearchStep::GiveUp);
}

#[test]
fn found_item_is_read_at_any_attempt() {
    for attempt in 0..MAX_KEYRING_RETRIES {
        assert_eq!(after_keyring_search(attempt, true), KeyringSearchStep::ReadFirstItem);
    }
}

#[test]
fn token_without_expiry_counts_as_expired() {
    let c = creds("a", "b");
    assert!(c.token_expired());
    assert!(c.token_expired_at(Timestamp { secs: 0, nanos: 0 }));
}

#[test]
fn token_expires_strictly_after_its_expiry_time() {
    let mut c = creds("a", "b");
    c.token_expiry_time = Some(Timestamp { secs: 100, nanos: 5 });
    assert!(!c.token_expired_at(Timestamp { secs: 100, nanos: 5 }));
    assert!(!c.token_expired_at(Timestamp { secs: 99, nanos: 999 }));
    assert!(c.token_expired_at(Timestamp { secs: 100, nanos: 6 }));
    assert!(c.token_expired_at(Timestamp { secs: 101, nanos: 0 }));
}

#[test]
fn token_far_in_the_future_is_not_expired_now() {
    let mut c = creds("a", "b");
    c.token_expiry_time = Some(Timestamp { secs: i128::MAX, nanos: 0 });
    assert!(!c.token_expired());
    c.token_expiry_time = Some(Timestamp { secs: 1, nanos: 0 });
    assert!(c.token_expired());
}

#[test]
fn now_is_after_the_epoch() {
    let t = Timestamp::now();
    assert!(t.nanos < 1_000_000_000);
    assert!(t.is_later_than(&Timestamp { secs: 0, nanos: 0 }));
}

#[test]
fn duplicate_copies_every_field() {
    let mut c = creds("x", "y");
    c.token_expiry_time = Some(Timestamp { secs: 7, nanos: 8 });
    let d = c.duplicate();
    assert_eq!(d.access_token, "x");
    assert_eq!(d.refresh_token, "y");
    assert_eq!(d.token_expiry_time, Some(Timestamp { secs: 7, nanos: 8 }));
}

#[test]
fn profile_without_product_counts_as_premium() {
    let c = check_user_profile(None, None);
    assert!(c.is_premium);
    assert!(!c.explicit_filter_enabled);
    assert!(!c.explicit_filter_locked);
}

#[test]
fn free_profile_is_not_premium() {
    let c = check_user_profile(Some("free"), Some((true, false)));
    assert!(!c.is_premium);
    assert!(c.explicit_filter_enabled);
    assert!(!c.explicit_filter_locked);
    let p = check_user_profile(Some("premium"), Some((true, true)));
    assert!(p.is_premium);
    assert!(p.explicit_filter_locked);
}

#[test]
fn clock_before_the_epoch_still_orders_correctly() {
    let t = Timestamp::from_epoch_offset(true, 5, 250_000_000);
    assert_eq!(t, Timestamp { secs: -6, nanos: 750_000_000 });
    assert_eq!(Timestamp::from_epoch_offset(true, 5, 0), Timestamp { secs: -5, nanos: 0 });
    assert_eq!(Timestamp::from_epoch_offset(false, 5, 7), Timestamp { secs: 5, nanos: 7 });
    let mut c = creds("a", "b");
    c.token_expiry_time = Some(Timestamp::from_epoch_offset(true, 100, 0));
    assert!(c.token_expired_at(Timestamp::from_epoch_offset(true, 10, 0)));
    assert!(!c.token_expired_at(Timestamp::from_epoch_offset(true, 200, 0)));
    assert!(Timestamp::from_epoch_offset(true, 0, 1).is_later_than(&Timestamp::from_epoch_offset(true, 1, 0)));
}
