//! A registry of open streams: each is known by an id and stands for the
//! sender through which messages reach it.

use vstd::prelude::*;
use vstd::hash_map::StringHashMap;

verus! {

/// The open streams by id. Each id is held once; a sender stored under an id
/// that is already there replaces the old one.
#[verifier::reject_recursive_types(T)]
pub struct StreamManager<T> {
    streams: StringHashMap<T>,
}

impl<T> StreamManager<T> {
    /// The streams as a map from id to sender.
    pub closed spec fn view(&self) -> Map<Seq<char>, T> {
        self.streams@
    }

    /// A registry without streams.
    pub fn new() -> (manager: Self)
        ensures
            manager@ == Map::<Seq<char>, T>::empty(),
    {
        StreamManager { streams: StringHashMap::new() }
    }

    /// Stores `sender` under `id`, over whatever the id held.
    pub fn store_stream(&mut self, id: String, sender: T)
        ensures
            final(self)@ == old(self)@.insert(id@, sender),
    {
        self.streams.insert(id, sender);
    }

    /// Takes out the stream `id`; says whether it was there.
    pub fn remove_stream(&mut self, id: &str) -> (removed: bool)
        ensures
            removed == old(self)@.contains_key(id@),
            final(self)@ == old(self)@.remove(id@),
    {
        let removed = self.streams.contains_key(id);
        self.streams.remove(id);
        removed
    }

    /// Whether a stream is stored under `id`.
    pub fn has_stream(&self, id: &str) -> (found: bool)
        ensures
            found == self@.contains_key(id@),
    {
        self.streams.contains_key(id)
    }

    /// The number of streams.
    pub fn count(&self) -> (n: usize)
        ensures
            n == self@.len(),
    {
        self.streams.len()
    }

    /// The sender of the stream `id`, if there is one.
    pub fn get_stream(&self, id: &str) -> (sender: Option<&T>)
        ensures
            match sender {
                Some(s) => self@.contains_key(id@) && self@[id@] == *s,
                None => !self@.contains_key(id@),
            },
    {
        self.streams.get(id)
    }
}

impl<T> Default for StreamManager<T> {
    fn default() -> (manager: Self)
        ensures
            manager@ == Map::<Seq<char>, T>::empty(),
    {
        StreamManager::new()
    }
}

} // verus!
