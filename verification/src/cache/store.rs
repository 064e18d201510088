//! The map behind the caches: a `DashMap` from ids to entities. The map is
//! the outside crate's; what the caches need of it is stated here, over the
//! entries that it holds.

use vstd::prelude::*;
use vstd::string::*;
use crate::model::channel::Channel;
use crate::model::guild::Guild;
use crate::model::relationship::Relationship;
use crate::model::user::User;

verus! {

/// `dashmap::DashMap`, a concurrent hash map. Opaque to the verifier.
#[verifier::external_type_specification]
#[verifier::external_body]
#[verifier::reject_recursive_types(K)]
#[verifier::reject_recursive_types(V)]
#[verifier::reject_recursive_types(S)]
pub struct ExDashMap<K, V, S>(dashmap::DashMap<K, V, S>);

/// What a cache keeps under an id.
#[derive(Debug, Clone)]
pub enum Entity {
    User(User),
    Channel(Channel),
    Guild(Guild),
    Relationship(Relationship),
}

/// The entries that a map holds: each id with the entity under it.
pub uninterp spec fn stored(m: dashmap::DashMap<String, Entity>) -> Map<Seq<char>, Entity>;

/// A map without entries.
pub open spec fn no_entries() -> Map<Seq<char>, Entity> {
    Map::empty()
}

/// What is under an id, if anything.
pub open spec fn lookup(entries: Map<Seq<char>, Entity>, id: Seq<char>) -> Option<Entity> {
    if entries.dom().contains(id) {
        Some(entries[id])
    } else {
        None
    }
}

/// Whether `n` is the number of entries of a map, which is finite.
pub open spec fn counts(n: usize, entries: Map<Seq<char>, Entity>) -> bool {
    entries.dom().finite() && n == entries.dom().len()
}

/// Whether a list of ids and entities holds each entry of a map once.
pub open spec fn lists_entries(list: Seq<(String, Entity)>, entries: Map<Seq<char>, Entity>) -> bool {
    &&& entries.dom().finite()
    &&& list.len() == entries.dom().len()
    &&& forall|i: int| 0 <= i < list.len() ==> lookup(entries, (#[trigger] list[i]).0@) == Some(list[i].1)
    &&& forall|i: int, j: int| 0 <= i < j < list.len() ==> list[i].0@ != list[j].0@
    &&& forall|id: Seq<char>| #[trigger]
        entries.dom().contains(id) ==> exists|i: int|
            0 <= i < list.len() && (#[trigger] list[i]).0@ == id
}

/// Makes a map with `DashMap::new`. Trusted: a new map holds nothing.
#[verifier::external_body]
pub(crate) fn store_new() -> (m: dashmap::DashMap<String, Entity>)
    ensures
        stored(m) == no_entries(),
{
    dashmap::DashMap::new()
}

/// Looks an id up with `DashMap::get` and copies what is found. Trusted:
/// the copy is the entity under the id, and there is none exactly when the
/// map has no such id.
#[verifier::external_body]
pub(crate) fn store_get(m: &dashmap::DashMap<String, Entity>, id: &str) -> (r: Option<Entity>)
    ensures
        r == lookup(stored(*m), id@),
{
    m.get(id).map(|entry| entry.value().clone())
}

/// Puts an entity under an id with `DashMap::insert`, which replaces what
/// was there. Trusted: afterwards the map holds the entity under the id and
/// is otherwise as before, and the call does not unwind.
#[verifier::external_body]
pub(crate) fn store_insert(m: &mut dashmap::DashMap<String, Entity>, id: String, entity: Entity)
    ensures
        stored(*final(m)) == stored(*old(m)).insert(id@, entity),
    no_unwind
{
    m.insert(id, entity);
}

/// Takes an id out with `DashMap::remove`. Trusted: what comes back is what
/// was under the id, afterwards the map has no such id and is otherwise as
/// before, and the call does not unwind.
#[verifier::external_body]
pub(crate) fn store_remove(m: &mut dashmap::DashMap<String, Entity>, id: &str) -> (r: Option<Entity>)
    ensures
        r == lookup(stored(*old(m)), id@),
        stored(*final(m)) == stored(*old(m)).remove(id@),
    no_unwind
{
    m.remove(id).map(|(_, entity)| entity)
}

/// Counts the entries with `DashMap::len`. Trusted: a map holds finitely
/// many entries, and this is their number.
#[verifier::external_body]
pub(crate) fn store_len(m: &dashmap::DashMap<String, Entity>) -> (n: usize)
    ensures
        counts(n, stored(*m)),
{
    m.len()
}

/// Empties the map with `DashMap::clear`. Trusted: afterwards it holds
/// nothing, and the call does not unwind.
#[verifier::external_body]
pub(crate) fn store_clear(m: &mut dashmap::DashMap<String, Entity>)
    ensures
        stored(*final(m)) == no_entries(),
    no_unwind
{
    m.clear();
}

/// Copies the entries out with `DashMap::iter`. Trusted: every entry of the
/// map comes, once, and nothing else. The order is the map's own and nothing
/// is claimed of it.
#[verifier::external_body]
pub(crate) fn store_entries(m: &dashmap::DashMap<String, Entity>) -> (list: Vec<(String, Entity)>)
    ensures
        lists_entries(list@, stored(*m)),
{
    m.iter().map(|entry| (entry.key().clone(), entry.value().clone())).collect()
}

} // verus!
