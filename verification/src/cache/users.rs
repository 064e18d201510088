//! The cache of users, by id.

use vstd::prelude::*;
use vstd::string::*;
use crate::cache::store::{
    lists_entries, lookup, store_clear, store_entries, store_get, store_insert, store_len,
    store_new, store_remove, stored, Entity,
};
use crate::model::user::User;

verus! {

/// The users among the entries of a map, each under its id.
pub open spec fn users_of(entries: Map<Seq<char>, Entity>) -> Map<Seq<char>, User> {
    Map::new(
        |id: Seq<char>| entries.dom().contains(id) && entries[id] is User,
        |id: Seq<char>| entries[id]->User_0,
    )
}

/// The cache after each user of a list was put in, one after another: a
/// later user takes the place of an earlier one with the same id.
pub open spec fn with_users(entries: Map<Seq<char>, User>, users: Seq<User>) -> Map<Seq<char>, User>
    decreases users.len(),
{
    if users.len() == 0 {
        entries
    } else {
        with_users(entries, users.drop_last()).insert(users.last().id@, users.last())
    }
}

/// Whether a list holds each user of a cache once.
pub open spec fn lists_users(list: Seq<User>, entries: Map<Seq<char>, User>) -> bool {
    &&& entries.dom().finite()
    &&& list.len() == entries.dom().len()
    &&& forall|i: int|
        0 <= i < list.len() ==> entries.dom().contains((#[trigger] list[i]).id@)
            && entries[list[i].id@] == list[i]
    &&& forall|i: int, j: int| 0 <= i < j < list.len() ==> list[i].id@ != list[j].id@
    &&& forall|id: Seq<char>| #[trigger]
        entries.dom().contains(id) ==> exists|i: int|
            0 <= i < list.len() && (#[trigger] list[i]).id@ == id
}

/// A cache of users. A cache that is switched off takes nothing in.
pub struct UserCache {
    enabled: bool,
    users: dashmap::DashMap<String, Entity>,
}

impl UserCache {
    #[verifier::type_invariant]
    spec fn holds_users_by_id(self) -> bool {
        forall|id: Seq<char>| #[trigger]
            stored(self.users).dom().contains(id) ==> stored(self.users)[id] is User && stored(
                self.users,
            )[id]->User_0.id@ == id
    }

    /// The users in the cache, each under its id.
    pub closed spec fn entries(&self) -> Map<Seq<char>, User> {
        users_of(stored(self.users))
    }

    /// Whether the cache takes users in.
    pub closed spec fn enabled(&self) -> bool {
        self.enabled
    }

    /// An empty cache, switched on or off.
    pub fn new(enabled: bool) -> (c: UserCache)
        ensures
            c.enabled() == enabled,
            c.entries() == Map::<Seq<char>, User>::empty(),
    {
        let c = UserCache { enabled, users: store_new() };
        assert(c.entries() =~= Map::<Seq<char>, User>::empty());
        c
    }

    /// Whether the cache takes users in.
    pub fn is_enabled(&self) -> (b: bool)
        ensures
            b == self.enabled(),
    {
        self.enabled
    }

    /// The user with the given id, if the cache has them.
    pub fn get(&self, user_id: &str) -> (r: Option<User>)
        ensures
            self.entries().dom().contains(user_id@) ==> r == Some(self.entries()[user_id@]),
            !self.entries().dom().contains(user_id@) ==> r is None,
    {
        proof {
            use_type_invariant(self);
        }
        match store_get(&self.users, user_id) {
            Some(Entity::User(user)) => Some(user),
            _ => None,
        }
    }

    /// Puts a user in the cache under their id, in place of whoever was
    /// there. A cache that is switched off stays as it is.
    pub fn insert(&mut self, user: User)
        ensures
            final(self).enabled() == old(self).enabled(),
            final(self).entries() == if old(self).enabled() {
                old(self).entries().insert(user.id@, user)
            } else {
                old(self).entries()
            },
    {
        proof {
            use_type_invariant(&*self);
        }
        if self.enabled {
            let id = user.id.clone();
            store_insert(&mut self.users, id, Entity::User(user));
            assert(self.entries() =~= old(self).entries().insert(user.id@, user));
        }
    }

    /// Takes a user out of the cache and hands them back.
    pub fn remove(&mut self, user_id: &str) -> (r: Option<User>)
        ensures
            final(self).enabled() == old(self).enabled(),
            final(self).entries() == old(self).entries().remove(user_id@),
            old(self).entries().dom().contains(user_id@) ==> r == Some(old(self).entries()[user_id@]),
            !old(self).entries().dom().contains(user_id@) ==> r is None,
    {
        proof {
            use_type_invariant(&*self);
        }
        let taken = store_remove(&mut self.users, user_id);
        assert(self.entries() =~= old(self).entries().remove(user_id@));
        match taken {
            Some(Entity::User(user)) => Some(user),
            _ => None,
        }
    }

    /// How many users the cache holds.
    pub fn count(&self) -> (n: usize)
        ensures
            self.entries().dom().finite(),
            n == self.entries().dom().len(),
    {
        proof {
            use_type_invariant(self);
        }
        let n = store_len(&self.users);
        assert(self.entries().dom() =~= stored(self.users).dom());
        n
    }

    /// Every user in the cache, once, in no particular order.
    pub fn all(&self) -> (list: Vec<User>)
        ensures
            lists_users(list@, self.entries()),
    {
        proof {
            use_type_invariant(self);
        }
        let entries = store_entries(&self.users);
        assert(self.entries().dom() =~= stored(self.users).dom());
        let ghost listed = entries@;
        let mut list: Vec<User> = Vec::new();
        for entry in it: entries.into_iter()
            invariant
                it.seq() == listed,
                list@.len() == it.index(),
                lists_entries(listed, stored(self.users)),
                forall|id: Seq<char>| #[trigger]
                    stored(self.users).dom().contains(id) ==> stored(self.users)[id] is User
                        && stored(self.users)[id]->User_0.id@ == id,
                forall|j: int|
                    0 <= j < list@.len() ==> listed[j].1 == Entity::User(#[trigger] list@[j])
                        && list@[j].id@ == listed[j].0@,
        {
            assert(lookup(stored(self.users), entry.0@) == Some(entry.1));
            match entry.1 {
                Entity::User(user) => {
                    list.push(user);
                },
                _ => {
                    assert(false);
                },
            }
        }
        proof {
            assert forall|j: int| 0 <= j < list@.len() implies self.entries().dom().contains(
                (#[trigger] list@[j]).id@,
            ) && self.entries()[list@[j].id@] == list@[j] by {
                assert(lookup(stored(self.users), listed[j].0@) == Some(listed[j].1));
            }
            assert forall|id: Seq<char>| #[trigger]
                self.entries().dom().contains(id) implies exists|i: int|
                0 <= i < list@.len() && (#[trigger] list@[i]).id@ == id by {
                assert(stored(self.users).dom().contains(id));
                let i = choose|i: int| 0 <= i < listed.len() && (#[trigger] listed[i]).0@ == id;
                assert(list@[i].id@ == id);
            }
        }
        list
    }

    /// Empties the cache.
    pub fn clear(&mut self)
        ensures
            final(self).enabled() == old(self).enabled(),
            final(self).entries() == Map::<Seq<char>, User>::empty(),
    {
        store_clear(&mut self.users);
        assert(self.entries() =~= Map::<Seq<char>, User>::empty());
    }

    /// Puts the users of the session-ready data in the cache, in their
    /// order.
    pub fn initialize_from_ready(&mut self, users: Vec<User>)
        ensures
            final(self).enabled() == old(self).enabled(),
            final(self).entries() == if old(self).enabled() {
                with_users(old(self).entries(), users@)
            } else {
                old(self).entries()
            },
    {
        let ghost all = users@;
        let ghost start = self.entries();
        let ghost on = self.enabled();
        for user in it: users.into_iter()
            invariant
                it.seq() == all,
                self.enabled() == on,
                self.entries() == if on {
                    with_users(start, all.subrange(0, it.index() as int))
                } else {
                    start
                },
        {
            proof {
                let next = all.subrange(0, it.index() + 1);
                assert(next.drop_last() =~= all.subrange(0, it.index() as int));
                assert(next.last() == user);
            }
            self.insert(user);
        }
        assert(all.subrange(0, all.len() as int) =~= all);
    }
}

impl Default for UserCache {
    /// An empty cache that is switched on.
    fn default() -> (c: UserCache)
        ensures
            c.enabled(),
            c.entries() == Map::<Seq<char>, User>::empty(),
    {
        UserCache::new(true)
    }
}

} // verus!
