//! The in-memory cache of resolved links.

use std::collections::HashMap;
use vstd::prelude::*;

verus! {

broadcast use vstd::std_specs::hash::group_hash_axioms;

/// Remembers the destination of each index that was resolved.
pub struct Cache {
    entries: HashMap<u64, String>,
}

impl View for Cache {
    type V = Map<u64, Seq<char>>;

    closed spec fn view(&self) -> Map<u64, Seq<char>> {
        Map::new(|index: u64| self.entries@.contains_key(index), |index: u64| self.entries@[index]@)
    }
}

impl Cache {
    /// A cache that holds nothing.
    pub fn new() -> (cache: Cache)
        ensures
            cache@ == Map::<u64, Seq<char>>::empty(),
    {
        let cache = Cache { entries: HashMap::new() };
        assert(cache@ =~= Map::<u64, Seq<char>>::empty());
        cache
    }

    /// The destination remembered for an index, if there is one.
    pub fn get(&self, index: u64) -> (r: Option<String>)
        ensures
            match r {
                Some(url) => self@.contains_key(index) && url@ == self@[index],
                None => !self@.contains_key(index),
            },
    {
        match self.entries.get(&index) {
            Some(url) => Some(url.clone()),
            None => None,
        }
    }

    /// Remembers a destination for an index, in place of any earlier one.
    pub fn put(&mut self, index: u64, url: String)
        ensures
            final(self)@ == old(self)@.insert(index, url@),
    {
        self.entries.insert(index, url);
        assert(self@ =~= old(self)@.insert(index, url@));
    }
}

} // verus!
