//! The subtitle store: every completed subtitle, found again by its id.

use crate::subtitle::{Subtitle, SubtitleView};
use std::collections::HashMap;
use vstd::prelude::*;
use vstd::std_specs::hash::*;

verus! {

/// The table of completed subtitles. Nothing is ever removed from it.
#[derive(Debug)]
pub struct SubtitleStore {
    subtitles: HashMap<u64, Subtitle>,
}

impl View for SubtitleStore {
    type V = Map<u64, SubtitleView>;

    closed spec fn view(&self) -> Map<u64, SubtitleView> {
        self.subtitles@.map_values(|s: Subtitle| s@)
    }
}

impl SubtitleStore {
    /// An empty store.
    pub fn new() -> (store: SubtitleStore)
        ensures
            store@ == Map::<u64, SubtitleView>::empty(),
    {
        let store = SubtitleStore { subtitles: HashMap::new() };
        assert(store@ =~= Map::<u64, SubtitleView>::empty());
        store
    }

    /// Stores `subtitle` under its id, in place of what was there.
    pub fn insert(&mut self, subtitle: Subtitle)
        ensures
            final(self)@ == old(self)@.insert(subtitle.id, subtitle@),
    {
        broadcast use group_hash_axioms;

        let ghost f = |s: Subtitle| s@;
        assert(self.subtitles@.insert(subtitle.id, subtitle).map_values(f) =~= self.subtitles@.map_values(
            f,
        ).insert(subtitle.id, subtitle@));
        self.subtitles.insert(subtitle.id, subtitle);
    }

    /// The subtitle with the id `id`, if one was stored.
    pub fn get(&self, id: u64) -> (found: Option<&Subtitle>)
        ensures
            match found {
                Some(subtitle) => self@.contains_key(id) && self@[id] == subtitle@,
                None => !self@.contains_key(id),
            },
    {
        broadcast use group_hash_axioms;

        let ghost f = |s: Subtitle| s@;
        assert(self.subtitles@.map_values(f).dom() =~= self.subtitles@.dom());
        self.subtitles.get(&id)
    }

    /// The number of subtitles stored.
    pub fn len(&self) -> (count: usize)
        ensures
            count == self@.len(),
    {
        broadcast use group_hash_axioms;

        let ghost f = |s: Subtitle| s@;
        assert(self.subtitles@.map_values(f).dom() =~= self.subtitles@.dom());
        self.subtitles.len()
    }
}

} // verus!
