//! All game objects, by identifier.
use std::collections::hash_map::Entry;
use std::collections::HashMap;
use vstd::prelude::*;

use crate::game::game_object::{GameObject, ObjectModel};
use crate::types::identifiers::ObjectId;

verus! {

broadcast use vstd::std_specs::hash::group_hash_axioms;

/// A map from identifiers to game objects, by the number of the identifier.
#[derive(Debug, PartialEq, Eq)]
pub struct ObjectStore {
    pub by_number: HashMap<u64, GameObject>,
}

impl View for ObjectStore {
    type V = Map<ObjectId, ObjectModel>;

    open spec fn view(&self) -> Map<ObjectId, ObjectModel> {
        Map::new(
            |id: ObjectId| self.by_number@.contains_key(id.0),
            |id: ObjectId| self.by_number@[id.0]@,
        )
    }
}

impl ObjectStore {
    pub fn new() -> (r: Self)
        ensures
            r@ == Map::<ObjectId, ObjectModel>::empty(),
    {
        let r = ObjectStore { by_number: HashMap::new() };
        assert(r@ =~= Map::<ObjectId, ObjectModel>::empty());
        r
    }

    pub fn get(&self, id: &ObjectId) -> (r: Option<&GameObject>)
        ensures
            match r {
                Some(obj) => self@.contains_key(*id) && obj@ == self@[*id],
                None => !self@.contains_key(*id),
            },
    {
        self.by_number.get(&id.0)
    }

    pub fn get_mut(&mut self, id: &ObjectId) -> (r: Option<&mut GameObject>)
        ensures
            match r {
                Some(obj) => {
                    &&& old(self)@.contains_key(*id)
                    &&& obj@ == old(self)@[*id]
                    &&& final(self)@ == old(self)@.insert(*id, final(obj)@)
                },
                None => !old(self)@.contains_key(*id) && final(self)@ == old(self)@,
            },
    {
        let ghost after = *final(self);
        match self.by_number.entry(id.0) {
            Entry::Occupied(entry) => {
                let obj = entry.into_mut();
                assert(after@ =~= old(self)@.insert(*id, final(obj)@));
                Some(obj)
            },
            Entry::Vacant(_) => {
                assert(after@ =~= old(self)@);
                None
            },
        }
    }

    /// Puts an object under an identifier, in place of what was there.
    pub fn insert(&mut self, id: ObjectId, obj: GameObject)
        ensures
            final(self)@ == old(self)@.insert(id, obj@),
    {
        self.by_number.insert(id.0, obj);
        assert(self@ =~= old(self)@.insert(id, obj@));
    }
}

} // verus!
