use vstd::prelude::*;
use std::collections::HashMap;
use crate::model::Person;

verus! {

broadcast use vstd::std_specs::hash::group_hash_axioms;

/// The record store: a key-unique mapping from identifier to `Person`.
///
/// Exactly one of these exists for the lifetime of the service; the caller
/// guards it with an exclusive lock and holds that lock across each handler
/// call, so every method here sees the table alone.
pub struct PersonStore {
    map: HashMap<usize, Person>,
}

impl View for PersonStore {
    type V = Map<usize, Person>;

    closed spec fn view(&self) -> Map<usize, Person> {
        self.map@
    }
}

impl PersonStore {
    /// A store with no entries, as created once at startup.
    pub fn new() -> (r: Self)
        ensures
            r@ == Map::<usize, Person>::empty(),
    {
        PersonStore { map: HashMap::new() }
    }

    pub fn contains(&self, id: usize) -> (b: bool)
        ensures
            b == self@.contains_key(id),
    {
        self.map.contains_key(&id)
    }

    pub fn get(&self, id: usize) -> (r: Option<&Person>)
        ensures
            match r {
                Some(p) => self@.contains_key(id) && *p == self@[id],
                None => !self@.contains_key(id),
            },
    {
        self.map.get(&id)
    }

    /// Inserts or overwrites the entry for `id`.
    pub fn put(&mut self, id: usize, person: Person)
        ensures
            final(self)@ == old(self)@.insert(id, person),
    {
        self.map.insert(id, person);
    }

    /// Removes the entry for `id`, handing back what was stored there.
    pub fn remove(&mut self, id: usize) -> (r: Option<Person>)
        ensures
            final(self)@ == old(self)@.remove(id),
            match r {
                Some(p) => old(self)@.contains_key(id) && p == old(self)@[id],
                None => !old(self)@.contains_key(id),
            },
    {
        self.map.remove(&id)
    }
}

} // verus!
