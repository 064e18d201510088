//! The cache of relationships, by the other user's id.

use vstd::prelude::*;
use vstd::string::*;
use crate::cache::store::{
    lists_entries, lookup, store_clear, store_entries, store_get, store_insert, store_len,
    store_new, store_remove, stored, Entity,
};
use crate::model::relationship::{Relationship, RelationshipType};

verus! {

/// The relationships among the entries of a map, each under its id.
pub open spec fn relationships_of(entries: Map<Seq<char>, Entity>) -> Map<Seq<char>, Relationship> {
    Map::new(
        |id: Seq<char>| entries.dom().contains(id) && entries[id] is Relationship,
        |id: Seq<char>| entries[id]->Relationship_0,
    )
}

/// The cache after each relationship of a list was put in, one after
/// another: a later one takes the place of an earlier one with the same id.
pub open spec fn with_relationships(entries: Map<Seq<char>, Relationship>, relationships: Seq<Relationship>) -> Map<Seq<char>, Relationship>
    decreases relationships.len(),
{
    if relationships.len() == 0 {
        entries
    } else {
        with_relationships(entries, relationships.drop_last()).insert(relationships.last().id@, relationships.last())
    }
}

/// Whether a list holds each relationship of a cache once.
pub open spec fn lists_relationships(list: Seq<Relationship>, entries: Map<Seq<char>, Relationship>) -> bool {
    &&& entries.dom().finite()
    &&& list.len() == entries.dom().len()
    &&& forall|i: int|
        0 <= i < list.len() ==> entries.dom().contains((#[trigger] list[i]).id@)
            && entries[list[i].id@] == list[i]
    &&& forall|i: int, j: int| 0 <= i < j < list.len() ==> list[i].id@ != list[j].id@
    &&& forall|id: Seq<char>| #[trigger]
        entries.dom().contains(id) ==> exists|i: int|
            0 <= i < list.len() && (#[trigger] list[i]).id@ == id
}

/// Whether a list holds each friend of a cache once, and nobody else.
pub open spec fn lists_friends(list: Seq<Relationship>, entries: Map<Seq<char>, Relationship>) -> bool {
    &&& forall|i: int|
        0 <= i < list.len() ==> entries.dom().contains((#[trigger] list[i]).id@)
            && entries[list[i].id@] == list[i] && list[i].kind == RelationshipType::Friend
    &&& forall|i: int, j: int| 0 <= i < j < list.len() ==> list[i].id@ != list[j].id@
    &&& forall|id: Seq<char>| #[trigger]
        entries.dom().contains(id) && entries[id].kind == RelationshipType::Friend ==> exists|
            i: int,
        |
            0 <= i < list.len() && (#[trigger] list[i]).id@ == id
}

/// A cache of relationships. A cache that is switched off takes nothing in.
pub struct RelationshipCache {
    enabled: bool,
    relationships: dashmap::DashMap<String, Entity>,
}

impl RelationshipCache {
    #[verifier::type_invariant]
    spec fn holds_relationships_by_id(self) -> bool {
        forall|id: Seq<char>| #[trigger]
            stored(self.relationships).dom().contains(id) ==> stored(self.relationships)[id] is Relationship && stored(
                self.relationships,
            )[id]->Relationship_0.id@ == id
    }

    /// The relationships in the cache, each under its id.
    pub closed spec fn entries(&self) -> Map<Seq<char>, Relationship> {
        relationships_of(stored(self.relationships))
    }

    /// Whether the cache takes relationships in.
    pub closed spec fn enabled(&self) -> bool {
        self.enabled
    }

    /// An empty cache, switched on or off.
    pub fn new(enabled: bool) -> (c: RelationshipCache)
        ensures
            c.enabled() == enabled,
            c.entries() == Map::<Seq<char>, Relationship>::empty(),
    {
        let c = RelationshipCache { enabled, relationships: store_new() };
        assert(c.entries() =~= Map::<Seq<char>, Relationship>::empty());
        c
    }

    /// Whether the cache takes relationships in.
    pub fn is_enabled(&self) -> (b: bool)
        ensures
            b == self.enabled(),
    {
        self.enabled
    }

    /// The relationship with the given id, if the cache has it.
    pub fn get(&self, relationship_id: &str) -> (r: Option<Relationship>)
        ensures
            self.entries().dom().contains(relationship_id@) ==> r == Some(self.entries()[relationship_id@]),
            !self.entries().dom().contains(relationship_id@) ==> r is None,
    {
        proof {
            use_type_invariant(self);
        }
        match store_get(&self.relationships, relationship_id) {
            Some(Entity::Relationship(relationship)) => Some(relationship),
            _ => None,
        }
    }

    /// Puts a relationship in the cache under its id, in place of the one that
    /// was there. A cache that is switched off stays as it is.
    pub fn insert(&mut self, relationship: Relationship)
        ensures
            final(self).enabled() == old(self).enabled(),
            final(self).entries() == if old(self).enabled() {
                old(self).entries().insert(relationship.id@, relationship)
            } else {
                old(self).entries()
            },
    {
        proof {
            use_type_invariant(&*self);
        }
        if self.enabled {
            let id = relationship.id.clone();
            store_insert(&mut self.relationships, id, Entity::Relationship(relationship));
            assert(self.entries() =~= old(self).entries().insert(relationship.id@, relationship));
        }
    }

    /// Takes a relationship out of the cache and hands it back.
    pub fn remove(&mut self, relationship_id: &str) -> (r: Option<Relationship>)
        ensures
            final(self).enabled() == old(self).enabled(),
            final(self).entries() == old(self).entries().remove(relationship_id@),
            old(self).entries().dom().contains(relationship_id@) ==> r == Some(old(self).entries()[relationship_id@]),
            !old(self).entries().dom().contains(relationship_id@) ==> r is None,
    {
        proof {
            use_type_invariant(&*self);
        }
        let taken = store_remove(&mut self.relationships, relationship_id);
        assert(self.entries() =~= old(self).entries().remove(relationship_id@));
        match taken {
            Some(Entity::Relationship(relationship)) => Some(relationship),
            _ => None,
        }
    }

    /// How many relationships the cache holds.
    pub fn count(&self) -> (n: usize)
        ensures
            self.entries().dom().finite(),
            n == self.entries().dom().len(),
    {
        proof {
            use_type_invariant(self);
        }
        let n = store_len(&self.relationships);
        assert(self.entries().dom() =~= stored(self.relationships).dom());
        n
    }

    /// Every relationship in the cache, once, in no particular order.
    pub fn all(&self) -> (list: Vec<Relationship>)
        ensures
            lists_relationships(list@, self.entries()),
    {
        proof {
            use_type_invariant(self);
        }
        let entries = store_entries(&self.relationships);
        assert(self.entries().dom() =~= stored(self.relationships).dom());
        let ghost listed = entries@;
        let mut list: Vec<Relationship> = Vec::new();
        for entry in it: entries.into_iter()
            invariant
                it.seq() == listed,
                list@.len() == it.index(),
                lists_entries(listed, stored(self.relationships)),
                forall|id: Seq<char>| #[trigger]
                    stored(self.relationships).dom().contains(id) ==> stored(self.relationships)[id] is Relationship
                        && stored(self.relationships)[id]->Relationship_0.id@ == id,
                forall|j: int|
                    0 <= j < list@.len() ==> listed[j].1 == Entity::Relationship(#[trigger] list@[j])
                        && list@[j].id@ == listed[j].0@,
        {
            assert(lookup(stored(self.relationships), entry.0@) == Some(entry.1));
            match entry.1 {
                Entity::Relationship(relationship) => {
                    list.push(relationship);
                },
                _ => {
                    assert(false);
                },
            }
        }
        proof {
            assert forall|j: int| 0 <= j < list@.len() implies self.entries().dom().contains(
                (#[trigger] list@[j]).id@,
            ) && self.entries()[list@[j].id@] == list@[j] by {
                assert(lookup(stored(self.relationships), listed[j].0@) == Some(listed[j].1));
            }
            assert forall|id: Seq<char>| #[trigger]
                self.entries().dom().contains(id) implies exists|i: int|
                0 <= i < list@.len() && (#[trigger] list@[i]).id@ == id by {
                assert(stored(self.relationships).dom().contains(id));
                let i = choose|i: int| 0 <= i < listed.len() && (#[trigger] listed[i]).0@ == id;
                assert(list@[i].id@ == id);
            }
        }
        list
    }

    /// The relationships in the cache that are friendships, each once, in
    /// no particular order.
    pub fn friends(&self) -> (list: Vec<Relationship>)
        ensures
            lists_friends(list@, self.entries()),
    {
        let all = self.all();
        let ghost listed = all@;
        let ghost mut picked: Seq<int> = Seq::empty();
        let mut list: Vec<Relationship> = Vec::new();
        for relationship in it: all.into_iter()
            invariant
                it.seq() == listed,
                lists_relationships(listed, self.entries()),
                picked.len() == list@.len(),
                forall|k: int|
                    0 <= k < picked.len() ==> 0 <= #[trigger] picked[k] < it.index() && list@[k]
                        == listed[picked[k]],
                forall|k: int, l: int|
                    0 <= k < l < picked.len() ==> #[trigger] picked[k] < #[trigger] picked[l],
                forall|k: int| 0 <= k < list@.len() ==> (#[trigger] list@[k]).kind == RelationshipType::Friend,
                forall|j: int|
                    0 <= j < it.index() && (#[trigger] listed[j]).kind == RelationshipType::Friend
                        ==> exists|k: int| 0 <= k < list@.len() && (#[trigger] list@[k]).id@ == listed[j].id@,
        {
            let ghost at = it.index() as int;
            if relationship.is_friend() {
                let ghost before = list@;
                list.push(relationship);
                proof {
                    picked = picked.push(at);
                    assert forall|j: int|
                        0 <= j < at + 1 && (#[trigger] listed[j]).kind
                            == RelationshipType::Friend implies exists|k: int|
                        0 <= k < list@.len() && (#[trigger] list@[k]).id@ == listed[j].id@ by {
                        if j < at {
                            let k = choose|k: int|
                                0 <= k < before.len() && (#[trigger] before[k]).id@ == listed[j].id@;
                            assert(list@[k].id@ == listed[j].id@);
                        } else {
                            assert(list@[list@.len() - 1].id@ == listed[j].id@);
                        }
                    }
                }
            }
        }
        proof {
            let entries = self.entries();
            assert forall|i: int| 0 <= i < list@.len() implies entries.dom().contains(
                (#[trigger] list@[i]).id@,
            ) && entries[list@[i].id@] == list@[i] && list@[i].kind
                == RelationshipType::Friend by {
                assert(list@[i] == listed[picked[i]]);
            }
            assert forall|i: int, j: int| 0 <= i < j < list@.len() implies list@[i].id@
                != list@[j].id@ by {
                assert(picked[i] < picked[j]);
                assert(list@[i] == listed[picked[i]]);
                assert(list@[j] == listed[picked[j]]);
            }
            assert forall|id: Seq<char>| #[trigger]
                entries.dom().contains(id) && entries[id].kind
                    == RelationshipType::Friend implies exists|i: int|
                0 <= i < list@.len() && (#[trigger] list@[i]).id@ == id by {
                let j = choose|j: int| 0 <= j < listed.len() && (#[trigger] listed[j]).id@ == id;
                assert(entries[listed[j].id@] == listed[j]);
                assert(listed[j].kind == RelationshipType::Friend);
                let k = choose|k: int|
                    0 <= k < list@.len() && (#[trigger] list@[k]).id@ == listed[j].id@;
                assert(list@[k].id@ == id);
            }
        }
        list
    }

    /// Empties the cache.
    pub fn clear(&mut self)
        ensures
            final(self).enabled() == old(self).enabled(),
            final(self).entries() == Map::<Seq<char>, Relationship>::empty(),
    {
        store_clear(&mut self.relationships);
        assert(self.entries() =~= Map::<Seq<char>, Relationship>::empty());
    }

    /// Puts the relationships of the session-ready data in the cache, in
    /// their order.
    pub fn initialize_from_ready(&mut self, relationships: Vec<Relationship>)
        ensures
            final(self).enabled() == old(self).enabled(),
            final(self).entries() == if old(self).enabled() {
                with_relationships(old(self).entries(), relationships@)
            } else {
                old(self).entries()
            },
    {
        let ghost all = relationships@;
        let ghost start = self.entries();
        let ghost on = self.enabled();
        for relationship in it: relationships.into_iter()
            invariant
                it.seq() == all,
                self.enabled() == on,
                self.entries() == if on {
                    with_relationships(start, all.subrange(0, it.index() as int))
                } else {
                    start
                },
        {
            proof {
                let next = all.subrange(0, it.index() + 1);
                assert(next.drop_last() =~= all.subrange(0, it.index() as int));
                assert(next.last() == relationship);
            }
            self.insert(relationship);
        }
        assert(all.subrange(0, all.len() as int) =~= all);
    }
}

} // verus!
