//! The cache of guilds, by id.

use vstd::prelude::*;
use vstd::string::*;
use crate::cache::store::{
    lists_entries, lookup, store_clear, store_entries, store_get, store_insert, store_len,
    store_new, store_remove, stored, Entity,
};
use crate::model::guild::Guild;

verus! {

/// The guilds among the entries of a map, each under its id.
pub open spec fn guilds_of(entries: Map<Seq<char>, Entity>) -> Map<Seq<char>, Guild> {
    Map::new(
        |id: Seq<char>| entries.dom().contains(id) && entries[id] is Guild,
        |id: Seq<char>| entries[id]->Guild_0,
    )
}

/// The cache after each guild of a list was put in, one after another: a
/// later guild takes the place of an earlier one with the same id.
pub open spec fn with_guilds(entries: Map<Seq<char>, Guild>, guilds: Seq<Guild>) -> Map<Seq<char>, Guild>
    decreases guilds.len(),
{
    if guilds.len() == 0 {
        entries
    } else {
        with_guilds(entries, guilds.drop_last()).insert(guilds.last().id@, guilds.last())
    }
}

/// Whether a list holds each guild of a cache once.
pub open spec fn lists_guilds(list: Seq<Guild>, entries: Map<Seq<char>, Guild>) -> bool {
    &&& entries.dom().finite()
    &&& list.len() == entries.dom().len()
    &&& forall|i: int|
        0 <= i < list.len() ==> entries.dom().contains((#[trigger] list[i]).id@)
            && entries[list[i].id@] == list[i]
    &&& forall|i: int, j: int| 0 <= i < j < list.len() ==> list[i].id@ != list[j].id@
    &&& forall|id: Seq<char>| #[trigger]
        entries.dom().contains(id) ==> exists|i: int|
            0 <= i < list.len() && (#[trigger] list[i]).id@ == id
}

/// A cache of guilds. A cache that is switched off takes nothing in.
pub struct GuildCache {
    enabled: bool,
    guilds: dashmap::DashMap<String, Entity>,
}

impl GuildCache {
    #[verifier::type_invariant]
    spec fn holds_guilds_by_id(self) -> bool {
        forall|id: Seq<char>| #[trigger]
            stored(self.guilds).dom().contains(id) ==> stored(self.guilds)[id] is Guild && stored(
                self.guilds,
            )[id]->Guild_0.id@ == id
    }

    /// The guilds in the cache, each under its id.
    pub closed spec fn entries(&self) -> Map<Seq<char>, Guild> {
        guilds_of(stored(self.guilds))
    }

    /// Whether the cache takes guilds in.
    pub closed spec fn enabled(&self) -> bool {
        self.enabled
    }

    /// An empty cache, switched on or off.
    pub fn new(enabled: bool) -> (c: GuildCache)
        ensures
            c.enabled() == enabled,
            c.entries() == Map::<Seq<char>, Guild>::empty(),
    {
        let c = GuildCache { enabled, guilds: store_new() };
        assert(c.entries() =~= Map::<Seq<char>, Guild>::empty());
        c
    }

    /// Whether the cache takes guilds in.
    pub fn is_enabled(&self) -> (b: bool)
        ensures
            b == self.enabled(),
    {
        self.enabled
    }

    /// The guild with the given id, if the cache has it.
    pub fn get(&self, guild_id: &str) -> (r: Option<Guild>)
        ensures
            self.entries().dom().contains(guild_id@) ==> r == Some(self.entries()[guild_id@]),
            !self.entries().dom().contains(guild_id@) ==> r is None,
    {
        proof {
            use_type_invariant(self);
        }
        match store_get(&self.guilds, guild_id) {
            Some(Entity::Guild(guild)) => Some(guild),
            _ => None,
        }
    }

    /// Puts a guild in the cache under its id, in place of the one that
    /// was there. A cache that is switched off stays as it is.
    pub fn insert(&mut self, guild: Guild)
        ensures
            final(self).enabled() == old(self).enabled(),
            final(self).entries() == if old(self).enabled() {
                old(self).entries().insert(guild.id@, guild)
            } else {
                old(self).entries()
            },
    {
        proof {
            use_type_invariant(&*self);
        }
        if self.enabled {
            let id = guild.id.clone();
            store_insert(&mut self.guilds, id, Entity::Guild(guild));
            assert(self.entries() =~= old(self).entries().insert(guild.id@, guild));
        }
    }

    /// Takes a guild out of the cache and hands it back.
    pub fn remove(&mut self, guild_id: &str) -> (r: Option<Guild>)
        ensures
            final(self).enabled() == old(self).enabled(),
            final(self).entries() == old(self).entries().remove(guild_id@),
            old(self).entries().dom().contains(guild_id@) ==> r == Some(old(self).entries()[guild_id@]),
            !old(self).entries().dom().contains(guild_id@) ==> r is None,
    {
        proof {
            use_type_invariant(&*self);
        }
        let taken = store_remove(&mut self.guilds, guild_id);
        assert(self.entries() =~= old(self).entries().remove(guild_id@));
        match taken {
            Some(Entity::Guild(guild)) => Some(guild),
            _ => None,
        }
    }

    /// How many guilds the cache holds.
    pub fn count(&self) -> (n: usize)
        ensures
            self.entries().dom().finite(),
            n == self.entries().dom().len(),
    {
        proof {
            use_type_invariant(self);
        }
        let n = store_len(&self.guilds);
        assert(self.entries().dom() =~= stored(self.guilds).dom());
        n
    }

    /// Every guild in the cache, once, in no particular order.
    pub fn all(&self) -> (list: Vec<Guild>)
        ensures
            lists_guilds(list@, self.entries()),
    {
        proof {
            use_type_invariant(self);
        }
        let entries = store_entries(&self.guilds);
        assert(self.entries().dom() =~= stored(self.guilds).dom());
        let ghost listed = entries@;
        let mut list: Vec<Guild> = Vec::new();
        for entry in it: entries.into_iter()
            invariant
                it.seq() == listed,
                list@.len() == it.index(),
                lists_entries(listed, stored(self.guilds)),
                forall|id: Seq<char>| #[trigger]
                    stored(self.guilds).dom().contains(id) ==> stored(self.guilds)[id] is Guild
                        && stored(self.guilds)[id]->Guild_0.id@ == id,
                forall|j: int|
                    0 <= j < list@.len() ==> listed[j].1 == Entity::Guild(#[trigger] list@[j])
                        && list@[j].id@ == listed[j].0@,
        {
            assert(lookup(stored(self.guilds), entry.0@) == Some(entry.1));
            match entry.1 {
                Entity::Guild(guild) => {
                    list.push(guild);
                },
                _ => {
                    assert(false);
                },
            }
        }
        proof {
            assert forall|j: int| 0 <= j < list@.len() implies self.entries().dom().contains(
                (#[trigger] list@[j]).id@,
            ) && self.entries()[list@[j].id@] == list@[j] by {
                assert(lookup(stored(self.guilds), listed[j].0@) == Some(listed[j].1));
            }
            assert forall|id: Seq<char>| #[trigger]
                self.entries().dom().contains(id) implies exists|i: int|
                0 <= i < list@.len() && (#[trigger] list@[i]).id@ == id by {
                assert(stored(self.guilds).dom().contains(id));
                let i = choose|i: int| 0 <= i < listed.len() && (#[trigger] listed[i]).0@ == id;
                assert(list@[i].id@ == id);
            }
        }
        list
    }

    /// Empties the cache.
    pub fn clear(&mut self)
        ensures
            final(self).enabled() == old(self).enabled(),
            final(self).entries() == Map::<Seq<char>, Guild>::empty(),
    {
        store_clear(&mut self.guilds);
        assert(self.entries() =~= Map::<Seq<char>, Guild>::empty());
    }

    /// Puts the guilds of the session-ready data in the cache, in their
    /// order.
    pub fn initialize_from_ready(&mut self, guilds: Vec<Guild>)
        ensures
            final(self).enabled() == old(self).enabled(),
            final(self).entries() == if old(self).enabled() {
                with_guilds(old(self).entries(), guilds@)
            } else {
                old(self).entries()
            },
    {
        let ghost all = guilds@;
        let ghost start = self.entries();
        let ghost on = self.enabled();
        for guild in it: guilds.into_iter()
            invariant
                it.seq() == all,
                self.enabled() == on,
                self.entries() == if on {
                    with_guilds(start, all.subrange(0, it.index() as int))
                } else {
                    start
                },
        {
            proof {
                let next = all.subrange(0, it.index() + 1);
                assert(next.drop_last() =~= all.subrange(0, it.index() as int));
                assert(next.last() == guild);
            }
            self.insert(guild);
        }
        assert(all.subrange(0, all.len() as int) =~= all);
    }
}

} // verus!
