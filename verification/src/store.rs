//! The waveform store: the summaries computed so far, by cache key.
//!
//! The store lives in memory, never forgets an entry and has no bound on its
//! size. It is a plain value: callers that share one put it behind their own
//! lock, and a reader always gets a copy, never the stored summary itself.

use crate::waveform::{WaveformData, WaveformModel};
use vstd::hash_map::StringHashMap;
use vstd::prelude::*;

verus! {

/// Summaries by cache key.
pub struct WaveformStore {
    entries: StringHashMap<WaveformData>,
}

impl View for WaveformStore {
    type V = Map<Seq<char>, WaveformModel>;

    closed spec fn view(&self) -> Map<Seq<char>, WaveformModel> {
        self.entries@.map_values(|w: WaveformData| w@)
    }
}

impl WaveformStore {
    /// A store without entries.
    pub fn new() -> (store: WaveformStore)
        ensures
            store@ == Map::<Seq<char>, WaveformModel>::empty(),
    {
        let store = WaveformStore { entries: StringHashMap::new() };
        assert(store@ =~= Map::<Seq<char>, WaveformModel>::empty());
        store
    }

    /// Whether the store has no entry.
    pub fn is_empty(&self) -> (empty: bool)
        ensures
            empty <==> self@ == Map::<Seq<char>, WaveformModel>::empty(),
    {
        let empty = self.entries.is_empty();
        proof {
            if empty {
                assert(self@ =~= Map::<Seq<char>, WaveformModel>::empty());
            } else {
                let k = choose|k: Seq<char>| self.entries@.contains_key(k);
                assert(self@.contains_key(k));
            }
        }
        empty
    }

    /// Whether a summary is stored under `key`.
    pub fn contains(&self, key: &str) -> (found: bool)
        ensures
            found == self@.contains_key(key@),
    {
        self.entries.contains_key(key)
    }

    /// A copy of the summary stored under `key`, if there is one. The store
    /// is left as it is.
    pub fn lookup(&self, key: &str) -> (found: Option<WaveformData>)
        ensures
            self@.contains_key(key@) <==> found is Some,
            found matches Some(summary) ==> summary@ == self@[key@],
    {
        match self.entries.get(key) {
            Some(summary) => Some(summary.clone()),
            None => None,
        }
    }

    /// Stores `summary` under `key`. An entry that was there is overwritten;
    /// every other entry stays.
    pub fn insert(&mut self, key: String, summary: WaveformData)
        ensures
            final(self)@ == old(self)@.insert(key@, summary@),
    {
        self.entries.insert(key, summary);
        assert(self@ =~= old(self)@.insert(key@, summary@));
    }
}

} // verus!
