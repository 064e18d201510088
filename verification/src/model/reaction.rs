//! Reactions and the emoji that they are made with.

use vstd::prelude::*;
use crate::model::user::User;

verus! {

/// How often an emoji was put under a message.
#[derive(Debug, Clone)]
pub struct Reaction {
    pub count: u64,
    /// Whether the current user is among those who reacted.
    pub me: bool,
    pub emoji: Emoji,
}

/// An emoji: a custom one has an id, a standard one only a name.
#[derive(Debug, Clone)]
pub struct Emoji {
    pub id: Option<String>,
    pub name: Option<String>,
    pub roles: Vec<String>,
    pub user: Option<User>,
    pub require_colons: bool,
    pub managed: bool,
    pub animated: bool,
    pub available: bool,
}

} // verus!
