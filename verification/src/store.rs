//! The documents of the durable store, and what is read out of its replies.

use vstd::prelude::*;

verus! {

/// The counter document: the index that the next registration receives.
#[derive(Debug, Clone, Copy, PartialEq, Eq, Structural)]
pub struct Status {
    pub last_index: i64,
}

/// One registered link.
#[derive(Debug, Clone)]
pub struct ShortUrl {
    pub index: i64,
    pub url: String,
}

/// The store could not be reached, or answered with a failure.
#[derive(Debug, Clone, Copy, PartialEq, Eq, Structural)]
pub struct StoreError;

/// The index allocated by an increment of the counter, given the counter
/// document as it was before the increment. Without a counter document the
/// first index is 0.
pub fn allocated_index(previous: Option<Status>) -> (index: i64)
    ensures
        index == match previous {
            Some(status) => status.last_index,
            None => 0,
        },
{
    match previous {
        Some(status) => status.last_index,
        None => 0,
    }
}

/// The document that records a destination under an index.
pub fn short_url(index: i64, url: &str) -> (link: ShortUrl)
    ensures
        link.index == index,
        link.url@ == url@,
{
    ShortUrl { index, url: url.to_owned() }
}

/// The destination held by the document that a query found, if it found one.
pub fn stored_url(found: Option<ShortUrl>) -> (r: Option<String>)
    ensures
        r == match found {
            Some(link) => Some(link.url),
            None => None,
        },
{
    match found {
        Some(link) => Some(link.url),
        None => None,
    }
}

/// The store's key for an index: the same number, where the store's signed
/// integers can hold it.
pub open spec fn index_key(index: u64) -> Option<i64> {
    if index <= i64::MAX {
        Some(index as i64)
    } else {
        None
    }
}

/// The index that a key of the store stands for: the same number, unless it
/// is negative.
pub open spec fn key_index(key: i64) -> Option<u64> {
    if key >= 0 {
        Some(key as u64)
    } else {
        None
    }
}

/// The store's key for an index, if the store can hold it.
pub fn store_key(index: u64) -> (r: Option<i64>)
    ensures
        r == index_key(index),
{
    if index <= 0x7fff_ffff_ffff_ffffu64 {
        Some(index as i64)
    } else {
        None
    }
}

/// The index that a key of the store stands for, if it stands for one.
pub fn index_of_key(key: i64) -> (r: Option<u64>)
    ensures
        r == key_index(key),
{
    if key >= 0 {
        Some(key as u64)
    } else {
        None
    }
}

/// Keys and indices correspond one to one: going from an index to its key
/// and back gives the index, and from a key to its index and back the key.
pub proof fn lemma_keys_and_indices_correspond(index: u64, key: i64)
    ensures
        index_key(index) matches Some(k) ==> key_index(k) == Some(index),
        key_index(key) matches Some(i) ==> index_key(i) == Some(key),
{
}

} // verus!
