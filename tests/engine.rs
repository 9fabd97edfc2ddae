use lyralink::allocator::{unique_short_url, Action, AllocError, AllocPolicy, Allocator, StoreEvent};
use lyralink::clock::{is_expired, validity_deadline, VALIDITY_SECS};
use lyralink::resolver::{resolution_of, resolve, ResolveError};
use lyralink::store::{LinkRecord, LinkStore, StoreError};

const ALPHABET: &str = "ABCDEFGHIJKLMNOPQRSTUVWXYZabcdefghijklmnopqrstuvwxyz0123456789";

fn is_alnum_code(s: &str) -> bool {
    s.chars().all(|c| c.is_ascii_alphanumeric())
}

fn store_with_all_one_symbol_codes() -> LinkStore {
    let mut store = LinkStore::new();
    for (i, c) in ALPHABET.chars().enumerate() {
        let r = store.insert(c.to_string(), format!("https://seed.example/{}", i), 0);
        assert!(r.is_ok());
    }
    assert_eq!(store.len(), 62);
    store
}

fn record(code: &str, url: &str, created_at: i64) -> LinkRecord {
    LinkRecord { id: 1, short_code: code.to_string(), original_url: url.to_string(), created_at }
}

#[test]
fn example_scenario() {
    let mut store = LinkStore::new();
    let policy = AllocPolicy::standard();
    let a = "https://example.com/a".to_string();
    let b = "https://example.com/b".to_string();
    let (c1, _) = unique_short_url(&mut store, &a, policy).unwrap();
    assert!(c1.chars().count() >= 3);
    assert!(is_alnum_code(&c1));
    let (again, _) = unique_short_url(&mut store, &a, policy).unwrap();
    assert_eq!(again, c1);
    let (c2, _) = unique_short_url(&mut store, &b, policy).unwrap();
    assert_ne!(c2, c1);
    assert_eq!(resolve(&store, &c1).unwrap().original_url, "https://example.com/a");
    assert_eq!(resolve(&store, &"zzz-unused".to_string()).unwrap_err(), ResolveError::NotFound);
}

#[test]
fn allocation_is_idempotent() {
    let mut store = LinkStore::new();
    let u = "https://example.com/long/path?q=1".to_string();
    let first = unique_short_url(&mut store, &u, AllocPolicy::standard()).unwrap();
    let second = unique_short_url(&mut store, &u, AllocPolicy::standard()).unwrap();
    assert_eq!(first, second);
    assert_eq!(store.len(), 1);
    assert_eq!(store.find_by_original_url(&u).unwrap().short_code, first.0);
}

#[test]
fn allocation_round_trips_through_resolve() {
    let mut store = LinkStore::new();
    for u in ["https://a.example", "", "not even a url", "https://b.example/ü"] {
        let u = u.to_string();
        let (code, created_at) = unique_short_url(&mut store, &u, AllocPolicy::standard()).unwrap();
        let link = resolve(&store, &code).unwrap();
        assert_eq!(link.original_url, u);
        assert_eq!(link.created_at, created_at);
    }
}

#[test]
fn distinct_urls_get_distinct_codes() {
    let mut store = LinkStore::new();
    let mut codes: Vec<String> = Vec::new();
    for i in 0..200 {
        let u = format!("https://example.com/{}", i);
        let (code, _) = unique_short_url(&mut store, &u, AllocPolicy::standard()).unwrap();
        assert!(!codes.contains(&code));
        codes.push(code);
    }
    assert_eq!(store.len(), 200);
}

#[test]
fn unknown_code_is_not_found() {
    let store = LinkStore::new();
    assert_eq!(resolve(&store, &"doesNotExist".to_string()).unwrap_err(), ResolveError::NotFound);
}

#[test]
fn collisions_are_retried_with_fresh_codes() {
    let mut store = store_with_all_one_symbol_codes();
    let policy = AllocPolicy { start_length: 1, retries_per_length: 1, max_attempts: 8 };
    let u = "https://example.com/new".to_string();
    let (code, _) = unique_short_url(&mut store, &u, policy).unwrap();
    assert!(code.chars().count() >= 2);
    assert!(is_alnum_code(&code));
    assert!(!ALPHABET.chars().any(|c| c.to_string() == code));
    assert_eq!(store.len(), 63);
    assert_eq!(resolve(&store, &code).unwrap().original_url, u);
}

#[test]
fn exhausted_attempts_fail_and_leave_store_unchanged() {
    let mut store = store_with_all_one_symbol_codes();
    let policy = AllocPolicy { start_length: 1, retries_per_length: 100, max_attempts: 5 };
    let u = "https://example.com/never".to_string();
    assert_eq!(unique_short_url(&mut store, &u, policy), Err(AllocError::AllocationExhausted));
    assert_eq!(store.len(), 62);
    assert!(store.find_by_original_url(&u).is_none());
}

#[test]
fn known_url_short_circuits_generation() {
    let mut store = store_with_all_one_symbol_codes();
    let policy = AllocPolicy { start_length: 1, retries_per_length: 100, max_attempts: 1 };
    let u = "https://seed.example/7".to_string();
    assert_eq!(unique_short_url(&mut store, &u, policy), Ok(("H".to_string(), 0)));
    assert_eq!(store.len(), 62);
}

#[test]
fn store_rejects_duplicate_code() {
    let mut store = LinkStore::new();
    let first = store.insert("abc".to_string(), "https://x.example".to_string(), 5).unwrap();
    assert_eq!(first.id, 1);
    let dup = store.insert("abc".to_string(), "https://y.example".to_string(), 6);
    assert_eq!(dup.unwrap_err(), StoreError::DuplicateCode);
    let second = store.insert("abd".to_string(), "https://y.example".to_string(), 6).unwrap();
    assert_eq!(second.id, 2);
    assert_eq!(store.len(), 2);
    let found = store.find_by_short_code(&"abc".to_string()).unwrap();
    assert_eq!(found.original_url, "https://x.example");
    assert!(store.find_by_short_code(&"abe".to_string()).is_none());
}

#[test]
fn store_keeps_one_record_per_url() {
    let mut store = LinkStore::new();
    store.insert("one".to_string(), "https://same.example".to_string(), 1).unwrap();
    let dup = store.insert("two".to_string(), "https://same.example".to_string(), 2);
    assert_eq!(dup.unwrap_err(), StoreError::DuplicateUrl);
    assert_eq!(store.len(), 1);
    assert_eq!(store.find_by_original_url(&"https://same.example".to_string()).unwrap().short_code, "one");
    assert!(store.find_by_original_url(&"https://other.example".to_string()).is_none());
}

#[test]
fn new_link_gets_current_time() {
    let mut store = LinkStore::new();
    let (_, created_at) =
        unique_short_url(&mut store, &"https://t.example".to_string(), AllocPolicy::standard()).unwrap();
    assert!(created_at > 1_600_000_000);
}

#[test]
fn allocator_follows_lookup_with_insert() {
    let mut a = Allocator::new("https://m.example".to_string(), AllocPolicy::standard());
    assert!(matches!(a.pending(), Action::FindByUrl));
    assert_eq!(a.original_url(), "https://m.example");
    match a.step(StoreEvent::UrlAbsent) {
        Action::Insert { short_code, created_at } => {
            assert_eq!(short_code.chars().count(), 3);
            assert!(is_alnum_code(&short_code));
            assert!(created_at > 0);
        }
        other => panic!("unexpected {:?}", other),
    }
    match a.step(StoreEvent::Inserted) {
        Action::Return { short_code, .. } => assert_eq!(short_code.chars().count(), 3),
        other => panic!("unexpected {:?}", other),
    }
    assert!(matches!(a.step(StoreEvent::UrlAbsent), Action::Return { .. }));
}

#[test]
fn allocator_returns_known_code() {
    let mut a = Allocator::new("https://m.example".to_string(), AllocPolicy::standard());
    let next = a.step(StoreEvent::UrlFound { short_code: "Qx7".to_string(), created_at: 42 });
    match next {
        Action::Return { short_code, created_at } => {
            assert_eq!(short_code, "Qx7");
            assert_eq!(created_at, 42);
        }
        other => panic!("unexpected {:?}", other),
    }
}

#[test]
fn allocator_rechecks_url_and_grows_length_after_collisions() {
    let policy = AllocPolicy { start_length: 3, retries_per_length: 2, max_attempts: 3 };
    let mut a = Allocator::new("https://m.example".to_string(), policy);
    let mut lengths = Vec::new();
    for _ in 0..3 {
        match a.step(StoreEvent::UrlAbsent) {
            Action::Insert { short_code, .. } => lengths.push(short_code.chars().count()),
            other => panic!("unexpected {:?}", other),
        }
        assert!(matches!(a.step(StoreEvent::DuplicateCode), Action::FindByUrl));
    }
    assert_eq!(lengths, vec![3, 3, 4]);
    assert!(matches!(
        a.step(StoreEvent::UrlAbsent),
        Action::Fail { error: AllocError::AllocationExhausted }
    ));
}

#[test]
fn allocator_reports_storage_failure() {
    let mut a = Allocator::new("https://m.example".to_string(), AllocPolicy::standard());
    assert!(matches!(
        a.step(StoreEvent::StorageUnavailable),
        Action::Fail { error: AllocError::StorageUnavailable }
    ));
    let mut b = Allocator::new("https://m.example".to_string(), AllocPolicy::standard());
    assert!(matches!(b.step(StoreEvent::UrlAbsent), Action::Insert { .. }));
    assert!(matches!(
        b.step(StoreEvent::StorageUnavailable),
        Action::Fail { error: AllocError::StorageUnavailable }
    ));
}

#[test]
fn allocator_ignores_events_that_answer_nothing() {
    let mut a = Allocator::new("https://m.example".to_string(), AllocPolicy::standard());
    assert!(matches!(a.step(StoreEvent::Inserted), Action::FindByUrl));
    assert!(matches!(a.step(StoreEvent::DuplicateCode), Action::FindByUrl));
    let code = match a.step(StoreEvent::UrlAbsent) {
        Action::Insert { short_code, .. } => short_code,
        other => panic!("unexpected {:?}", other),
    };
    match a.step(StoreEvent::UrlAbsent) {
        Action::Insert { short_code, .. } => assert_eq!(short_code, code),
        other => panic!("unexpected {:?}", other),
    }
}

#[test]
fn resolution_applies_validity_window() {
    let rec = || Ok(Some(record("abc", "https://x.example", 1_000)));
    assert_eq!(resolution_of(rec(), 1_000 + VALIDITY_SECS + 1, Some(VALIDITY_SECS)).unwrap_err(), ResolveError::NotFound);
    let ok = resolution_of(rec(), 1_000 + VALIDITY_SECS, Some(VALIDITY_SECS)).unwrap();
    assert_eq!(ok.original_url, "https://x.example");
    assert_eq!(ok.created_at, 1_000);
    assert!(resolution_of(rec(), i64::MAX, None).is_ok());
}

#[test]
fn resolution_reports_lookup_outcomes() {
    assert_eq!(resolution_of(Ok(None), 0, None).unwrap_err(), ResolveError::NotFound);
    assert_eq!(
        resolution_of(Err(StoreError::StorageUnavailable), 0, None).unwrap_err(),
        ResolveError::StorageUnavailable
    );
}

#[test]
fn validity_window_arithmetic() {
    assert_eq!(VALIDITY_SECS, 86_400);
    assert_eq!(validity_deadline(1_700_000_000), 1_700_086_400);
    assert!(is_expired(0, 86_401, 86_400));
    assert!(!is_expired(0, 86_400, 86_400));
    assert!(is_expired(i64::MIN, i64::MAX, 0));
    assert!(!is_expired(i64::MAX, i64::MIN, 0));
}

#[test]
fn allocator_rechecks_url_when_another_writer_recorded_it() {
    let mut a = Allocator::new("https://m.example".to_string(), AllocPolicy::standard());
    assert!(matches!(a.step(StoreEvent::UrlAbsent), Action::Insert { .. }));
    assert!(matches!(a.step(StoreEvent::DuplicateUrl), Action::FindByUrl));
    match a.step(StoreEvent::UrlFound { short_code: "Wn4".to_string(), created_at: 9 }) {
        Action::Return { short_code, created_at } => {
            assert_eq!(short_code, "Wn4");
            assert_eq!(created_at, 9);
        }
        other => panic!("unexpected {:?}", other),
    }
}

#[test]
fn empty_url_is_accepted_as_given() {
    let mut store = LinkStore::new();
    let empty = String::new();
    let (code, _) = unique_short_url(&mut store, &empty, AllocPolicy::standard()).unwrap();
    assert_eq!(code.chars().count(), 3);
    assert_eq!(resolve(&store, &code).unwrap().original_url, "");
    assert_eq!(store.len(), 1);
}
