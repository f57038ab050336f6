//! Registration and resolution, as the decisions taken before and after
//! each call to the durable store. The caller makes those calls.

use crate::cache::Cache;
use crate::encoder::{is_code_text, BuildFailed, DecodeError, Encoder};
use crate::store::{index_key, index_of_key, key_index, store_key, StoreError};
use vstd::prelude::*;
use vstd::string::StringExecFns;

verus! {

/// What a resolution needs next.
#[derive(Debug, Clone, PartialEq, Eq)]
pub enum Lookup {
    /// The destination is known: answer with it.
    Found(String),
    /// The index is not cached: fetch its key from the store, then call
    /// `ShortenerService::complete` with the reply.
    Fetch(i64),
    /// The code stands for no index: answer that nothing was found.
    Unknown,
}

/// A `Lookup` with its destination as a sequence of characters.
pub ghost enum Step {
    Found(Seq<char>),
    Fetch(i64),
    Unknown,
}

impl View for Lookup {
    type V = Step;

    open spec fn view(&self) -> Step {
        match *self {
            Lookup::Found(url) => Step::Found(url@),
            Lookup::Fetch(key) => Step::Fetch(key),
            Lookup::Unknown => Step::Unknown,
        }
    }
}

/// The first step of a resolution: a code that does not decode, or whose
/// index the store has no key for, is unknown; a cached index is answered
/// from the cache; any other index is fetched under its key.
pub open spec fn lookup_step(decoded: Result<u64, DecodeError>, cached: Map<u64, Seq<char>>) -> Step {
    match decoded {
        Ok(index) => match index_key(index) {
            Some(key) => if cached.contains_key(index) {
                Step::Found(cached[index])
            } else {
                Step::Fetch(key)
            },
            None => Step::Unknown,
        },
        Err(_) => Step::Unknown,
    }
}

/// The destination in a reply of the store, if it holds one.
pub open spec fn fetched_url(fetched: Result<Option<String>, StoreError>) -> Option<Seq<char>> {
    match fetched {
        Ok(Some(url)) => Some(url@),
        _ => None,
    }
}

/// The cache after a fetch: a destination that was found is remembered
/// under the index of its key; a miss, a failure, or a key that stands for
/// no index leaves the cache as it was.
pub open spec fn cache_after(
    cached: Map<u64, Seq<char>>,
    key: i64,
    fetched: Option<Seq<char>>,
) -> Map<u64, Seq<char>> {
    match (key_index(key), fetched) {
        (Some(index), Some(url)) => cached.insert(index, url),
        _ => cached,
    }
}

/// Why a registration hands out no code.
#[derive(Clone, Copy, Debug, PartialEq, Eq, Structural)]
pub enum AddError {
    /// The store failed, or answered with a key that stands for no index.
    Store,
    /// The code of the index would not resolve: decoding it does not give
    /// the index back.
    Unresolvable,
}

/// The outcome of a registration, given the store's reply to it: the code
/// of the index under which the destination was recorded, handed out only
/// if decoding it gives that index back. A failure of the store, or a key
/// that stands for no index, is a failure of the store.
pub open spec fn added_code(encoder: Encoder, stored: Result<i64, StoreError>) -> Result<
    Seq<char>,
    AddError,
> {
    match stored {
        Ok(key) => match key_index(key) {
            Some(index) => if encoder.round_trips(index) {
                Ok(encoder.code_of(index))
            } else {
                Err(AddError::Unresolvable)
            },
            None => Err(AddError::Store),
        },
        Err(_) => Err(AddError::Store),
    }
}

/// A registration's outcome with its code as a sequence of characters.
pub open spec fn code_view(r: Result<String, AddError>) -> Result<Seq<char>, AddError> {
    match r {
        Ok(code) => Ok(code@),
        Err(e) => Err(e),
    }
}

/// The scheme put in front of every registered destination.
pub open spec fn scheme() -> Seq<char> {
    "https://"@
}

/// The salt of the service's encoder.
pub open spec fn service_salt() -> Seq<char> {
    "hello world"@
}

/// The start of the answer to a code that was not found.
pub open spec fn not_found_prefix() -> Seq<char> {
    "Could not find URL for: "@
}

/// The destination stored for a registered address: the address behind the
/// scheme.
pub fn destination(url: &str) -> (r: String)
    ensures
        r@ == scheme() + url@,
{
    String::from_str("https://").concat(url)
}

/// The body of the answer to a code that was not found.
pub fn not_found_body(code: &str) -> (r: String)
    ensures
        r@ == not_found_prefix() + code@,
{
    String::from_str("Could not find URL for: ").concat(code)
}

/// The answer to a request for a code.
#[derive(Debug, Clone, PartialEq, Eq)]
pub enum Reply {
    /// Send the client on to this destination.
    Redirect(String),
    /// Nothing is registered under the code; the text says so.
    NotFound(String),
}

/// A `Reply` with its text as a sequence of characters.
pub ghost enum ReplyView {
    Redirect(Seq<char>),
    NotFound(Seq<char>),
}

impl View for Reply {
    type V = ReplyView;

    open spec fn view(&self) -> ReplyView {
        match *self {
            Reply::Redirect(url) => ReplyView::Redirect(url@),
            Reply::NotFound(body) => ReplyView::NotFound(body@),
        }
    }
}

/// The answer to a request for `code`, given what its resolution found: a
/// redirect to the destination, or the text that names the code.
pub fn reply(code: &str, resolved: Option<String>) -> (r: Reply)
    ensures
        r@ == match resolved {
            Some(url) => ReplyView::Redirect(url@),
            None => ReplyView::NotFound(not_found_prefix() + code@),
        },
{
    match resolved {
        Some(url) => Reply::Redirect(url),
        None => Reply::NotFound(not_found_body(code)),
    }
}

/// The encoder and the cache behind registration and resolution.
pub struct ShortenerService {
    encoder: Encoder,
    cache: Cache,
}

impl ShortenerService {
    /// The encoder of the service.
    pub closed spec fn encoder(&self) -> Encoder {
        self.encoder
    }

    /// The destinations that the service has cached, by index.
    pub closed spec fn cached(&self) -> Map<u64, Seq<char>> {
        self.cache@
    }

    /// A service with the fixed salt and an empty cache.
    pub fn new() -> (r: Result<ShortenerService, BuildFailed>)
        ensures
            r is Ok,
            r matches Ok(service) ==> service.encoder().made_with(service_salt())
                && service.cached() == Map::<u64, Seq<char>>::empty(),
    {
        match Encoder::new("hello world") {
            Ok(encoder) => Ok(ShortenerService { encoder, cache: Cache::new() }),
            Err(e) => Err(e),
        }
    }

    /// The last step of a registration: takes the store's reply to
    /// recording the destination, and hands out the code of its index. A
    /// code is handed out only if `lookup` will find the index in it.
    pub fn add(&self, stored: Result<i64, StoreError>) -> (r: Result<String, AddError>)
        ensures
            code_view(r) == added_code(self.encoder(), stored),
            r matches Ok(code) ==> is_code_text(code@),
            r matches Ok(code) ==> (stored matches Ok(key) && key >= 0
                && self.encoder().index_of(code@) == Ok::<u64, DecodeError>(key as u64)),
    {
        match stored {
            Ok(key) => match index_of_key(key) {
                Some(index) => match self.encoder.encode_checked(index) {
                    Some(code) => Ok(code),
                    None => Err(AddError::Unresolvable),
                },
                None => Err(AddError::Store),
            },
            Err(_) => Err(AddError::Store),
        }
    }

    /// The first step of resolving a code. The cache is read, not changed.
    /// A text that has not the form of a code, or is the code of no index,
    /// is unknown whatever the cache holds, and a key is fetched only for
    /// the text that is the code of its index.
    pub fn lookup(&self, id: &str) -> (r: Lookup)
        ensures
            r@ == lookup_step(self.encoder().index_of(id@), self.cached()),
            !is_code_text(id@) ==> r@ == Step::Unknown,
            (forall|index: u64| #[trigger] self.encoder().code_of(index) != id@) ==> r@
                == Step::Unknown,
            r matches Lookup::Fetch(key) ==> key >= 0 && self.encoder().code_of(key as u64) == id@,
    {
        match self.encoder.decode(id) {
            Ok(index) => match store_key(index) {
                Some(key) => match self.cache.get(index) {
                    Some(url) => Lookup::Found(url),
                    None => Lookup::Fetch(key),
                },
                None => Lookup::Unknown,
            },
            Err(_) => Lookup::Unknown,
        }
    }

    /// The last step of resolving a code that had to be fetched: takes the
    /// store's reply for `key`, remembers a destination that was found, and
    /// hands the reply on.
    pub fn complete(&mut self, key: i64, fetched: Result<Option<String>, StoreError>) -> (r: Result<
        Option<String>,
        StoreError,
    >)
        ensures
            r == fetched,
            final(self).encoder() == old(self).encoder(),
            final(self).cached() == cache_after(old(self).cached(), key, fetched_url(fetched)),
    {
        match fetched {
            Ok(Some(url)) => {
                match index_of_key(key) {
                    Some(index) => {
                        self.cache.put(index, url.clone());
                    },
                    None => {},
                }
                Ok(Some(url))
            },
            Ok(None) => Ok(None),
            Err(e) => Err(e),
        }
    }
}

/// Once a fetch for an index has found a destination, every later
/// resolution of a code for that index is answered with that destination
/// from the cache, and asks for no fetch.
pub proof fn lemma_resolved_index_is_cached(cached: Map<u64, Seq<char>>, key: i64, url: Seq<char>)
    requires
        key >= 0,
    ensures
        lookup_step(Ok(key as u64), cache_after(cached, key, Some(url))) == Step::Found(url),
{
}

/// A fetch that found nothing is not remembered: the same code asks for a
/// fetch again.
pub proof fn lemma_miss_is_not_cached(cached: Map<u64, Seq<char>>, key: i64)
    requires
        key >= 0,
        !cached.contains_key(key as u64),
    ensures
        lookup_step(Ok(key as u64), cache_after(cached, key, None)) == Step::Fetch(key),
{
}

/// A fetch for one key changes no answer for the index of another.
pub proof fn lemma_fetch_keeps_other_indices(
    cached: Map<u64, Seq<char>>,
    key: i64,
    fetched: Option<Seq<char>>,
    other: u64,
)
    requires
        key_index(key) != Some(other),
    ensures
        lookup_step(Ok(other), cache_after(cached, key, fetched)) == lookup_step(
            Ok(other),
            cached,
        ),
{
}

/// Whether every cached destination is the one that the store holds under
/// the key of the same index.
pub open spec fn cache_agrees(cached: Map<u64, Seq<char>>, stored: Map<i64, Seq<char>>) -> bool {
    forall|index: u64| #[trigger]
        cached.contains_key(index) ==> index <= i64::MAX && stored.contains_key(index as i64)
            && stored[index as i64] == cached[index]
}

/// An empty cache agrees with every store.
pub proof fn lemma_empty_cache_agrees(stored: Map<i64, Seq<char>>)
    ensures
        cache_agrees(Map::<u64, Seq<char>>::empty(), stored),
{
}

/// A cache that agrees with the store still agrees after a fetch whose
/// reply is what the store holds: it never gains an index that the store
/// lacks, nor another destination than the store's.
pub proof fn lemma_fetch_keeps_agreement(
    cached: Map<u64, Seq<char>>,
    stored: Map<i64, Seq<char>>,
    key: i64,
    fetched: Option<Seq<char>>,
)
    requires
        cache_agrees(cached, stored),
        fetched == (if stored.contains_key(key) {
            Some(stored[key])
        } else {
            None
        }),
    ensures
        cache_agrees(cache_after(cached, key, fetched), stored),
{
    let after = cache_after(cached, key, fetched);
    assert forall|i: u64| #[trigger] after.contains_key(i) implies i <= i64::MAX
        && stored.contains_key(i as i64) && stored[i as i64] == after[i] by {
        if key_index(key) != Some(i) || fetched is None {
            assert(cached.contains_key(i));
        }
    }
}

/// A cache that agrees with the store still agrees after the store has
/// recorded a destination under a key that it did not hold before.
pub proof fn lemma_registration_keeps_agreement(
    cached: Map<u64, Seq<char>>,
    stored: Map<i64, Seq<char>>,
    key: i64,
    url: Seq<char>,
)
    requires
        cache_agrees(cached, stored),
        !stored.contains_key(key),
    ensures
        cache_agrees(cached, stored.insert(key, url)),
{
    let grown = stored.insert(key, url);
    assert forall|i: u64| #[trigger] cached.contains_key(i) implies i <= i64::MAX
        && grown.contains_key(i as i64) && grown[i as i64] == cached[i] by {
        assert(stored.contains_key(i as i64));
    }
}

/// A code that a registration handed out for a key resolves: it is
/// answered from the cache or fetched under that very key, and is never
/// reported unknown.
pub proof fn lemma_issued_code_resolves(
    encoder: Encoder,
    cached: Map<u64, Seq<char>>,
    key: i64,
    code: Seq<char>,
)
    requires
        added_code(encoder, Ok(key)) == Ok::<Seq<char>, AddError>(code),
    ensures
        key >= 0,
        encoder.index_of(code) == Ok::<u64, DecodeError>(key as u64),
        lookup_step(encoder.index_of(code), cached) == (if cached.contains_key(key as u64) {
            Step::Found(cached[key as u64])
        } else {
            Step::Fetch(key)
        }),
{
}

/// Two registrations under different keys hand out different codes, on one
/// service or on two whose encoders have the same salt.
pub proof fn lemma_issued_codes_differ(
    a: Encoder,
    b: Encoder,
    first: i64,
    second: i64,
    first_code: Seq<char>,
    second_code: Seq<char>,
)
    requires
        a.salt() == b.salt(),
        first != second,
        added_code(a, Ok(first)) == Ok::<Seq<char>, AddError>(first_code),
        added_code(b, Ok(second)) == Ok::<Seq<char>, AddError>(second_code),
    ensures
        first_code != second_code,
{
}

} // verus!
