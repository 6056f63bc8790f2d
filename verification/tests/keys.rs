use lattice::keys::{find_key, FirebaseClient, KeyEntry, KeyFetchFailed, KeyResponse, REFRESH_MARGIN};

fn key(key_id: &str, modulus: &str) -> KeyEntry {
    KeyEntry { key_id: key_id.to_owned(), modulus: modulus.to_owned(), exponent: "AQAB".to_owned() }
}

fn response(cache_control: Option<&str>) -> Option<KeyResponse> {
    Some(KeyResponse {
        cache_control: cache_control.map(|value| value.to_owned()),
        keys: vec![key("a", "one"), key("b", "two")],
    })
}

#[test]
fn margin_is_one_second() {
    assert_eq!(REFRESH_MARGIN, 1);
}

#[test]
fn new_cache_is_cold() {
    let client = FirebaseClient::new("project".to_owned());
    assert!(client.keys().is_empty());
    assert!(client.needs_sync(0));
    assert!(client.needs_sync(1_700_000_000));
    assert!(client.needs_sync(u64::MAX));
}

#[test]
fn sync_sets_keys_and_deadline() {
    let mut client = FirebaseClient::new("project".to_owned());
    let now = 1_700_000_000;
    assert_eq!(client.sync(now, response(Some("public, max-age=3600, must-revalidate"))), Ok(()));
    assert_eq!(client.keys().len(), 2);
    assert_eq!(client.keys()[0].key_id, "a");
    assert_eq!(client.keys()[1].modulus, "two");
    assert!(!client.needs_sync(now));
    assert!(!client.needs_sync(now + 3598));
    assert!(client.needs_sync(now + 3599));
    assert!(client.needs_sync(now + 3600));
    assert!(client.needs_sync(now + 7200));
}

#[test]
fn second_caller_after_a_sync_does_not_fetch() {
    let mut client = FirebaseClient::new("project".to_owned());
    let now = 1_700_000_000;
    let mut fetches = 0;
    for _ in 0..8 {
        if client.needs_sync(now) {
            fetches += 1;
            client.sync(now, response(Some("max-age=60"))).unwrap();
        }
    }
    assert_eq!(fetches, 1);
}

#[test]
fn lifetime_of_one_margin_is_stale_at_once() {
    let mut client = FirebaseClient::new("project".to_owned());
    client.sync(100, response(Some("max-age=1"))).unwrap();
    assert!(client.needs_sync(100));
    client.sync(100, response(Some("max-age=2"))).unwrap();
    assert!(!client.needs_sync(100));
    assert!(client.needs_sync(101));
}

#[test]
fn failed_sync_leaves_the_cache_untouched() {
    let mut client = FirebaseClient::new("project".to_owned());
    let now = 1_700_000_000;
    client.sync(now, response(Some("max-age=100"))).unwrap();
    let later = now + 99;
    assert!(client.needs_sync(later));
    let replaced = Some(KeyResponse { cache_control: None, keys: vec![key("c", "three")] });
    assert_eq!(client.sync(later, replaced), Err(KeyFetchFailed::NoLifetime));
    assert_eq!(client.sync(later, None), Err(KeyFetchFailed::NoResponse));
    for value in ["", "public", "max-age=0", "max-age=abc", "max-age", "max-age=-5", "max-age=1.5"] {
        assert_eq!(client.sync(later, response(Some(value))), Err(KeyFetchFailed::NoLifetime));
    }
    assert_eq!(client.keys().len(), 2);
    assert_eq!(client.keys()[0].key_id, "a");
    assert!(!client.needs_sync(now + 98));
    assert!(client.needs_sync(now + 99));
}

#[test]
fn failed_first_sync_leaves_the_cache_cold() {
    let mut client = FirebaseClient::new("project".to_owned());
    assert_eq!(client.sync(5, None), Err(KeyFetchFailed::NoResponse));
    assert!(client.keys().is_empty());
    assert!(client.needs_sync(5));
}

#[test]
fn deadline_beyond_the_clock_fails() {
    let mut client = FirebaseClient::new("project".to_owned());
    assert_eq!(
        client.sync(u64::MAX, response(Some("max-age=1"))),
        Err(KeyFetchFailed::NoLifetime)
    );
    assert_eq!(client.sync(u64::MAX - 1, response(Some("max-age=1"))), Ok(()));
    assert!(client.needs_sync(u64::MAX - 1));
}

#[test]
fn lifetime_is_read_among_other_directives() {
    let mut client = FirebaseClient::new("project".to_owned());
    client.sync(1000, response(Some("public, max-age=19845, must-revalidate, no-transform"))).unwrap();
    assert!(!client.needs_sync(1000 + 19843));
    assert!(client.needs_sync(1000 + 19844));
}

#[test]
fn renew_takes_the_lifetime_as_given() {
    let mut client = FirebaseClient::new("project".to_owned());
    assert_eq!(client.renew(50, None, vec![key("a", "one")]), Err(KeyFetchFailed::NoLifetime));
    assert_eq!(client.renew(50, Some(0), vec![key("a", "one")]), Err(KeyFetchFailed::NoLifetime));
    assert_eq!(
        client.renew(u64::MAX, Some(1), vec![key("a", "one")]),
        Err(KeyFetchFailed::NoLifetime)
    );
    assert!(client.keys().is_empty());
    assert!(client.needs_sync(50));
    assert_eq!(client.renew(50, Some(10), vec![key("a", "one")]), Ok(()));
    assert_eq!(client.keys().len(), 1);
    assert!(!client.needs_sync(58));
    assert!(client.needs_sync(59));
    assert_eq!(client.renew(0, Some(u64::MAX), Vec::new()), Ok(()));
    assert!(client.keys().is_empty());
    assert!(!client.needs_sync(u64::MAX - 2));
    assert!(client.needs_sync(u64::MAX - 1));
}

#[test]
fn find_key_takes_the_last_match() {
    let keys = vec![key("a", "one"), key("b", "two"), key("a", "three")];
    assert_eq!(find_key(&keys, "a").unwrap().modulus, "three");
    assert_eq!(find_key(&keys, "b").unwrap().modulus, "two");
    assert!(find_key(&keys, "c").is_none());
    assert!(find_key(&Vec::new(), "a").is_none());
}
