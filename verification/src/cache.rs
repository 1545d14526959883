//! The per-section cache of the last list that was fetched successfully.

use crate::section::Section;
use crate::story::{clone_stories, Story};
use std::collections::HashMap;
use vstd::prelude::*;

verus! {

broadcast use vstd::std_specs::hash::group_hash_axioms;

/// Maps a section to the list of stories that its last successful fetch
/// returned. A section is present only once a fetch of it has succeeded, and
/// an entry is only ever replaced whole.
pub struct SectionCache {
    slots: HashMap<usize, Vec<Story>>,
}

impl View for SectionCache {
    type V = Map<Section, Seq<Story>>;

    closed spec fn view(&self) -> Map<Section, Seq<Story>> {
        Map::new(
            |s: Section| self.slots@.contains_key(s.ordinal() as usize),
            |s: Section| self.slots@[s.ordinal() as usize]@,
        )
    }
}

impl SectionCache {
    /// A cache with no section in it.
    pub fn new() -> (cache: SectionCache)
        ensures
            cache@ == Map::<Section, Seq<Story>>::empty(),
    {
        let cache = SectionCache { slots: HashMap::new() };
        cache
    }

    /// The cached list of `section`, if there is one. Never fetches.
    pub fn get(&self, section: Section) -> (found: Option<&Vec<Story>>)
        ensures
            match found {
                Some(items) => self@.contains_key(section) && items@ == self@[section],
                None => !self@.contains_key(section),
            },
    {
        let key = section.index();
        self.slots.get(&key)
    }

    /// Whether `section` has an entry.
    pub fn contains(&self, section: Section) -> (present: bool)
        ensures
            present == self@.contains_key(section),
    {
        let key = section.index();
        self.slots.contains_key(&key)
    }

    /// Replaces the entry of `section` by `items`; every other entry stays as
    /// it was.
    pub fn put(&mut self, section: Section, items: Vec<Story>)
        ensures
            final(self)@ == old(self)@.insert(section, items@),
    {
        let key = section.index();
        self.slots.insert(key, items);
        assert(self@ =~= old(self)@.insert(section, items@)) by {
            assert forall|s: Section| s.ordinal() == section.ordinal() implies s == section by {
                crate::section::lemma_ordinal_at(s, 0);
                crate::section::lemma_ordinal_at(section, 0);
            }
        }
    }

    /// A copy of the cached list of `section`, if there is one.
    pub fn get_cloned(&self, section: Section) -> (found: Option<Vec<Story>>)
        ensures
            match found {
                Some(items) => self@.contains_key(section) && items@ == self@[section],
                None => !self@.contains_key(section),
            },
    {
        match self.get(section) {
            Some(items) => Some(clone_stories(items)),
            None => None,
        }
    }
}

} // verus!
