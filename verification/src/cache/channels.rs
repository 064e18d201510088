//! The cache of channels, by id.

use vstd::prelude::*;
use vstd::string::*;
use crate::cache::store::{
    lists_entries, lookup, store_clear, store_entries, store_get, store_insert, store_len,
    store_new, store_remove, stored, Entity,
};
use crate::model::channel::Channel;

verus! {

/// The channels among the entries of a map, each under its id.
pub open spec fn channels_of(entries: Map<Seq<char>, Entity>) -> Map<Seq<char>, Channel> {
    Map::new(
        |id: Seq<char>| entries.dom().contains(id) && entries[id] is Channel,
        |id: Seq<char>| entries[id]->Channel_0,
    )
}

/// The cache after each channel of a list was put in, one after another: a
/// later channel takes the place of an earlier one with the same id.
pub open spec fn with_channels(entries: Map<Seq<char>, Channel>, channels: Seq<Channel>) -> Map<Seq<char>, Channel>
    decreases channels.len(),
{
    if channels.len() == 0 {
        entries
    } else {
        with_channels(entries, channels.drop_last()).insert(channels.last().id@, channels.last())
    }
}

/// Whether a list holds each channel of a cache once.
pub open spec fn lists_channels(list: Seq<Channel>, entries: Map<Seq<char>, Channel>) -> bool {
    &&& entries.dom().finite()
    &&& list.len() == entries.dom().len()
    &&& forall|i: int|
        0 <= i < list.len() ==> entries.dom().contains((#[trigger] list[i]).id@)
            && entries[list[i].id@] == list[i]
    &&& forall|i: int, j: int| 0 <= i < j < list.len() ==> list[i].id@ != list[j].id@
    &&& forall|id: Seq<char>| #[trigger]
        entries.dom().contains(id) ==> exists|i: int|
            0 <= i < list.len() && (#[trigger] list[i]).id@ == id
}

/// A cache of channels. A cache that is switched off takes nothing in.
pub struct ChannelCache {
    enabled: bool,
    channels: dashmap::DashMap<String, Entity>,
}

impl ChannelCache {
    #[verifier::type_invariant]
    spec fn holds_channels_by_id(self) -> bool {
        forall|id: Seq<char>| #[trigger]
            stored(self.channels).dom().contains(id) ==> stored(self.channels)[id] is Channel && stored(
                self.channels,
            )[id]->Channel_0.id@ == id
    }

    /// The channels in the cache, each under its id.
    pub closed spec fn entries(&self) -> Map<Seq<char>, Channel> {
        channels_of(stored(self.channels))
    }

    /// Whether the cache takes channels in.
    pub closed spec fn enabled(&self) -> bool {
        self.enabled
    }

    /// An empty cache, switched on or off.
    pub fn new(enabled: bool) -> (c: ChannelCache)
        ensures
            c.enabled() == enabled,
            c.entries() == Map::<Seq<char>, Channel>::empty(),
    {
        let c = ChannelCache { enabled, channels: store_new() };
        assert(c.entries() =~= Map::<Seq<char>, Channel>::empty());
        c
    }

    /// Whether the cache takes channels in.
    pub fn is_enabled(&self) -> (b: bool)
        ensures
            b == self.enabled(),
    {
        self.enabled
    }

    /// The channel with the given id, if the cache has it.
    pub fn get(&self, channel_id: &str) -> (r: Option<Channel>)
        ensures
            self.entries().dom().contains(channel_id@) ==> r == Some(self.entries()[channel_id@]),
            !self.entries().dom().contains(channel_id@) ==> r is None,
    {
        proof {
            use_type_invariant(self);
        }
        match store_get(&self.channels, channel_id) {
            Some(Entity::Channel(channel)) => Some(channel),
            _ => None,
        }
    }

    /// Puts a channel in the cache under its id, in place of the one that
    /// was there. A cache that is switched off stays as it is.
    pub fn insert(&mut self, channel: Channel)
        ensures
            final(self).enabled() == old(self).enabled(),
            final(self).entries() == if old(self).enabled() {
                old(self).entries().insert(channel.id@, channel)
            } else {
                old(self).entries()
            },
    {
        proof {
            use_type_invariant(&*self);
        }
        if self.enabled {
            let id = channel.id.clone();
            store_insert(&mut self.channels, id, Entity::Channel(channel));
            assert(self.entries() =~= old(self).entries().insert(channel.id@, channel));
        }
    }

    /// Takes a channel out of the cache and hands it back.
    pub fn remove(&mut self, channel_id: &str) -> (r: Option<Channel>)
        ensures
            final(self).enabled() == old(self).enabled(),
            final(self).entries() == old(self).entries().remove(channel_id@),
            old(self).entries().dom().contains(channel_id@) ==> r == Some(old(self).entries()[channel_id@]),
            !old(self).entries().dom().contains(channel_id@) ==> r is None,
    {
        proof {
            use_type_invariant(&*self);
        }
        let taken = store_remove(&mut self.channels, channel_id);
        assert(self.entries() =~= old(self).entries().remove(channel_id@));
        match taken {
            Some(Entity::Channel(channel)) => Some(channel),
            _ => None,
        }
    }

    /// How many channels the cache holds.
    pub fn count(&self) -> (n: usize)
        ensures
            self.entries().dom().finite(),
            n == self.entries().dom().len(),
    {
        proof {
            use_type_invariant(self);
        }
        let n = store_len(&self.channels);
        assert(self.entries().dom() =~= stored(self.channels).dom());
        n
    }

    /// Every channel in the cache, once, in no particular order.
    pub fn all(&self) -> (list: Vec<Channel>)
        ensures
            lists_channels(list@, self.entries()),
    {
        proof {
            use_type_invariant(self);
        }
        let entries = store_entries(&self.channels);
        assert(self.entries().dom() =~= stored(self.channels).dom());
        let ghost listed = entries@;
        let mut list: Vec<Channel> = Vec::new();
        for entry in it: entries.into_iter()
            invariant
                it.seq() == listed,
                list@.len() == it.index(),
                lists_entries(listed, stored(self.channels)),
                forall|id: Seq<char>| #[trigger]
                    stored(self.channels).dom().contains(id) ==> stored(self.channels)[id] is Channel
                        && stored(self.channels)[id]->Channel_0.id@ == id,
                forall|j: int|
                    0 <= j < list@.len() ==> listed[j].1 == Entity::Channel(#[trigger] list@[j])
                        && list@[j].id@ == listed[j].0@,
        {
            assert(lookup(stored(self.channels), entry.0@) == Some(entry.1));
            match entry.1 {
                Entity::Channel(channel) => {
                    list.push(channel);
                },
                _ => {
                    assert(false);
                },
            }
        }
        proof {
            assert forall|j: int| 0 <= j < list@.len() implies self.entries().dom().contains(
                (#[trigger] list@[j]).id@,
            ) && self.entries()[list@[j].id@] == list@[j] by {
                assert(lookup(stored(self.channels), listed[j].0@) == Some(listed[j].1));
            }
            assert forall|id: Seq<char>| #[trigger]
                self.entries().dom().contains(id) implies exists|i: int|
                0 <= i < list@.len() && (#[trigger] list@[i]).id@ == id by {
                assert(stored(self.channels).dom().contains(id));
                let i = choose|i: int| 0 <= i < listed.len() && (#[trigger] listed[i]).0@ == id;
                assert(list@[i].id@ == id);
            }
        }
        list
    }

    /// Empties the cache.
    pub fn clear(&mut self)
        ensures
            final(self).enabled() == old(self).enabled(),
            final(self).entries() == Map::<Seq<char>, Channel>::empty(),
    {
        store_clear(&mut self.channels);
        assert(self.entries() =~= Map::<Seq<char>, Channel>::empty());
    }

    /// Puts the channels of the guilds of the session-ready data in the
    /// cache, in their order.
    pub fn initialize_from_ready(&mut self, channels: Vec<Channel>)
        ensures
            final(self).enabled() == old(self).enabled(),
            final(self).entries() == if old(self).enabled() {
                with_channels(old(self).entries(), channels@)
            } else {
                old(self).entries()
            },
    {
        let ghost all = channels@;
        let ghost start = self.entries();
        let ghost on = self.enabled();
        for channel in it: channels.into_iter()
            invariant
                it.seq() == all,
                self.enabled() == on,
                self.entries() == if on {
                    with_channels(start, all.subrange(0, it.index() as int))
                } else {
                    start
                },
        {
            proof {
                let next = all.subrange(0, it.index() + 1);
                assert(next.drop_last() =~= all.subrange(0, it.index() as int));
                assert(next.last() == channel);
            }
            self.insert(channel);
        }
        assert(all.subrange(0, all.len() as int) =~= all);
    }
}

} // verus!
