use std::collections::{HashMap, HashSet};

use url_shortener::service::{
    destination, not_found_body, reply, AddError, Lookup, Reply, ShortenerService,
};
use url_shortener::store::{allocated_index, short_url, stored_url, ShortUrl, Status, StoreError};

/// A store in memory that counts its fetches.
struct MemoryStore {
    status: Option<Status>,
    links: HashMap<i64, ShortUrl>,
    fetches: usize,
    down: bool,
}

impl MemoryStore {
    fn new() -> Self {
        MemoryStore { status: None, links: HashMap::new(), fetches: 0, down: false }
    }

    fn add_url(&mut self, url: &str) -> Result<i64, StoreError> {
        if self.down {
            return Err(StoreError);
        }
        let previous = self.status;
        let next = match previous {
            Some(status) => status.last_index + 1,
            None => 1,
        };
        self.status = Some(Status { last_index: next });
        let index = allocated_index(previous);
        self.links.insert(index, short_url(index, url));
        Ok(index)
    }

    fn lookup_url(&mut self, index: i64) -> Result<Option<String>, StoreError> {
        self.fetches += 1;
        if self.down {
            return Err(StoreError);
        }
        Ok(stored_url(self.links.get(&index).cloned()))
    }
}

fn try_register(
    service: &ShortenerService,
    store: &mut MemoryStore,
    url: &str,
) -> Result<String, AddError> {
    service.add(store.add_url(&destination(url)))
}

fn register(service: &ShortenerService, store: &mut MemoryStore, url: &str) -> String {
    try_register(service, store, url).expect("the store is up")
}

fn resolve(
    service: &mut ShortenerService,
    store: &mut MemoryStore,
    code: &str,
) -> Result<Option<String>, StoreError> {
    match service.lookup(code) {
        Lookup::Found(url) => Ok(Some(url)),
        Lookup::Unknown => Ok(None),
        Lookup::Fetch(key) => {
            let fetched = store.lookup_url(key);
            service.complete(key, fetched)
        }
    }
}

#[test]
fn destination_puts_the_scheme_in_front() {
    assert_eq!(destination("example.com/page"), "https://example.com/page");
    assert_eq!(destination(""), "https://");
}

#[test]
fn not_found_body_names_the_code() {
    assert_eq!(not_found_body("abc"), "Could not find URL for: abc");
}

#[test]
fn reply_redirects_or_names_the_code() {
    assert_eq!(
        reply("abc", Some("https://example.com".to_string())),
        Reply::Redirect("https://example.com".to_string())
    );
    assert_eq!(
        reply("abc", None),
        Reply::NotFound("Could not find URL for: abc".to_string())
    );
}

#[test]
fn add_encodes_with_the_service_salt() {
    let service = ShortenerService::new().unwrap();
    let harsh = harsh::Harsh::builder().salt("hello world").build().unwrap();
    assert_eq!(service.add(Ok(0)), Ok(harsh.encode(&[0])));
    assert_eq!(service.add(Ok(123_456)), Ok(harsh.encode(&[123_456])));
}

#[test]
fn add_hands_on_a_store_failure() {
    let service = ShortenerService::new().unwrap();
    assert_eq!(service.add(Err(StoreError)), Err(AddError::Store));
}

#[test]
fn add_withholds_a_code_that_would_not_resolve() {
    let service = ShortenerService::new().unwrap();
    let last = 1_196_683_881_290_399_743i64;
    let code = service.add(Ok(last)).expect("the longest code still resolves");
    assert_eq!(code.len(), 12);
    assert_eq!(service.lookup(&code), Lookup::Fetch(last));
    assert_eq!(service.add(Ok(last + 1)), Err(AddError::Unresolvable));
    assert_eq!(service.add(Ok(i64::MAX)), Err(AddError::Unresolvable));
}

#[test]
fn every_code_handed_out_is_fetched_under_its_key() {
    let service = ShortenerService::new().unwrap();
    for key in (0i64..100_000).step_by(7) {
        let code = service.add(Ok(key)).unwrap();
        assert_eq!(service.lookup(&code), Lookup::Fetch(key));
    }
}

#[test]
fn a_code_of_no_index_is_unknown_whatever_is_cached() {
    let mut service = ShortenerService::new().unwrap();
    assert_eq!(service.complete(5, Ok(Some("five".to_string()))), Ok(Some("five".to_string())));
    assert_eq!(service.complete(7, Ok(Some("seven".to_string()))), Ok(Some("seven".to_string())));
    let harsh = harsh::Harsh::builder().salt("hello world").build().unwrap();
    let packed = harsh.encode(&[5, 7]);
    assert_eq!(service.lookup(&packed), Lookup::Unknown);
    let other = harsh::Harsh::builder().salt("another salt").build().unwrap();
    let foreign = other.encode(&[5]);
    assert_ne!(service.lookup(&foreign), Lookup::Found("five".to_string()));
    assert_eq!(service.lookup(&service.add(Ok(5)).unwrap()), Lookup::Found("five".to_string()));
}

#[test]
fn add_refuses_a_negative_key() {
    let service = ShortenerService::new().unwrap();
    assert_eq!(service.add(Ok(-1)), Err(AddError::Store));
    assert_eq!(service.add(Ok(i64::MIN)), Err(AddError::Store));
}

#[test]
fn registration_fails_while_the_store_is_down() {
    let service = ShortenerService::new().unwrap();
    let mut store = MemoryStore::new();
    store.down = true;
    assert_eq!(try_register(&service, &mut store, "example.com"), Err(AddError::Store));
    store.down = false;
    assert_eq!(try_register(&service, &mut store, "example.com"), service.add(Ok(0)));
}

#[test]
fn complete_ignores_a_negative_key() {
    let mut service = ShortenerService::new().unwrap();
    assert_eq!(service.complete(-3, Ok(Some("u".to_string()))), Ok(Some("u".to_string())));
    let code = service.add(Ok(3)).unwrap();
    assert_eq!(service.lookup(&code), Lookup::Fetch(3));
}

#[test]
fn registered_url_resolves() {
    let mut service = ShortenerService::new().unwrap();
    let mut store = MemoryStore::new();
    let c1 = register(&service, &mut store, "example.com/page");
    assert_eq!(
        resolve(&mut service, &mut store, &c1),
        Ok(Some("https://example.com/page".to_string()))
    );
}

#[test]
fn unknown_code_is_not_found() {
    let mut service = ShortenerService::new().unwrap();
    let mut store = MemoryStore::new();
    assert_eq!(service.lookup("doesnotexist"), Lookup::Unknown);
    assert_eq!(resolve(&mut service, &mut store, "doesnotexist"), Ok(None));
    assert_eq!(resolve(&mut service, &mut store, ""), Ok(None));
    assert_eq!(resolve(&mut service, &mut store, "a-b"), Ok(None));
    assert_eq!(resolve(&mut service, &mut store, "x"), Ok(None));
    assert_eq!(store.fetches, 0);
}

#[test]
fn two_registrations_do_not_mix() {
    let mut service = ShortenerService::new().unwrap();
    let mut store = MemoryStore::new();
    let c1 = register(&service, &mut store, "example.com/one");
    let c2 = register(&service, &mut store, "example.org/two");
    assert_ne!(c1, c2);
    assert_eq!(
        resolve(&mut service, &mut store, &c1),
        Ok(Some("https://example.com/one".to_string()))
    );
    assert_eq!(
        resolve(&mut service, &mut store, &c2),
        Ok(Some("https://example.org/two".to_string()))
    );
}

#[test]
fn second_resolution_is_served_from_the_cache() {
    let mut service = ShortenerService::new().unwrap();
    let mut store = MemoryStore::new();
    let code = register(&service, &mut store, "example.com/cached");
    let first = resolve(&mut service, &mut store, &code);
    assert_eq!(first, Ok(Some("https://example.com/cached".to_string())));
    assert_eq!(store.fetches, 1);
    assert_eq!(service.lookup(&code), Lookup::Found("https://example.com/cached".to_string()));
    assert_eq!(resolve(&mut service, &mut store, &code), first);
    assert_eq!(store.fetches, 1);
}

#[test]
fn misses_are_not_cached() {
    let mut service = ShortenerService::new().unwrap();
    let mut store = MemoryStore::new();
    let code = service.add(Ok(0)).unwrap();
    assert_eq!(service.lookup(&code), Lookup::Fetch(0));
    assert_eq!(resolve(&mut service, &mut store, &code), Ok(None));
    assert_eq!(service.lookup(&code), Lookup::Fetch(0));
    assert_eq!(resolve(&mut service, &mut store, &code), Ok(None));
    assert_eq!(store.fetches, 2);
    assert_eq!(register(&service, &mut store, "example.com/late"), code);
    assert_eq!(
        resolve(&mut service, &mut store, &code),
        Ok(Some("https://example.com/late".to_string()))
    );
}

#[test]
fn store_failure_is_handed_on_and_not_cached() {
    let mut service = ShortenerService::new().unwrap();
    let mut store = MemoryStore::new();
    let code = register(&service, &mut store, "example.com/down");
    store.down = true;
    assert_eq!(resolve(&mut service, &mut store, &code), Err(StoreError));
    assert_eq!(service.lookup(&code), Lookup::Fetch(0));
    store.down = false;
    assert_eq!(
        resolve(&mut service, &mut store, &code),
        Ok(Some("https://example.com/down".to_string()))
    );
}

#[test]
fn complete_hands_the_reply_on() {
    let mut service = ShortenerService::new().unwrap();
    assert_eq!(service.complete(4, Ok(None)), Ok(None));
    assert_eq!(service.complete(4, Err(StoreError)), Err(StoreError));
    assert_eq!(service.complete(4, Ok(Some("u".to_string()))), Ok(Some("u".to_string())));
    assert_eq!(service.lookup(&service.add(Ok(4)).unwrap()), Lookup::Found("u".to_string()));
    assert_eq!(service.lookup(&service.add(Ok(5)).unwrap()), Lookup::Fetch(5));
}

#[test]
fn many_registrations_get_distinct_indices_and_codes() {
    let service = ShortenerService::new().unwrap();
    let mut store = MemoryStore::new();
    let mut indices = HashSet::new();
    let mut codes = HashSet::new();
    for n in 0..500 {
        let raw = store.add_url(&destination(&format!("example.com/{}", n))).unwrap();
        assert!(indices.insert(raw));
        assert!(codes.insert(service.add(Ok(raw)).unwrap()));
    }
    assert_eq!(indices.len(), 500);
    assert_eq!(codes.len(), 500);
    for raw in 0..500i64 {
        assert!(indices.contains(&raw));
    }
}
