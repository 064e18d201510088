//! What the current user is to another user.

use vstd::prelude::*;
use vstd::string::*;
use crate::model::user::User;

verus! {

/// The kinds of relationship, in the order of their numbers on the wire,
/// which start at 0.
#[derive(Debug, Clone, Copy, PartialEq, Eq, Hash, Structural)]
pub enum RelationshipType {
    /// No relationship.
    Unrelated,
    Friend,
    Blocked,
    IncomingRequest,
    OutgoingRequest,
    Implicit,
}

impl RelationshipType {
    /// The number that stands for the kind on the wire.
    pub open spec fn spec_code(self) -> u8 {
        match self {
            RelationshipType::Unrelated => 0,
            RelationshipType::Friend => 1,
            RelationshipType::Blocked => 2,
            RelationshipType::IncomingRequest => 3,
            RelationshipType::OutgoingRequest => 4,
            RelationshipType::Implicit => 5,
        }
    }

    /// The number that stands for the kind on the wire.
    pub fn code(self) -> (c: u8)
        ensures
            c == self.spec_code(),
    {
        match self {
            RelationshipType::Unrelated => 0,
            RelationshipType::Friend => 1,
            RelationshipType::Blocked => 2,
            RelationshipType::IncomingRequest => 3,
            RelationshipType::OutgoingRequest => 4,
            RelationshipType::Implicit => 5,
        }
    }

    /// The kind that a number stands for, if it stands for one.
    pub fn from_code(c: u8) -> (k: Option<RelationshipType>)
        ensures
            c <= 5 <==> k is Some,
            k matches Some(kind) ==> kind.spec_code() == c,
    {
        if c == 0 {
            Some(RelationshipType::Unrelated)
        } else if c == 1 {
            Some(RelationshipType::Friend)
        } else if c == 2 {
            Some(RelationshipType::Blocked)
        } else if c == 3 {
            Some(RelationshipType::IncomingRequest)
        } else if c == 4 {
            Some(RelationshipType::OutgoingRequest)
        } else if c == 5 {
            Some(RelationshipType::Implicit)
        } else {
            None
        }
    }
}

/// A relationship of the current user.
#[derive(Debug, Clone)]
pub struct Relationship {
    /// The id of the other user.
    pub id: String,
    pub kind: RelationshipType,
    pub user: Option<User>,
    pub nickname: Option<String>,
    pub is_spam_request: bool,
    pub stranger_request: bool,
    pub user_ignored: bool,
    pub origin_application_id: Option<String>,
    pub since: Option<String>,
    pub has_played_game: bool,
}

impl Relationship {
    /// A relationship of which nothing is known but the user and the kind.
    pub open spec fn is_bare(self) -> bool {
        &&& self.user is None
        &&& self.nickname is None
        &&& !self.is_spam_request
        &&& !self.stranger_request
        &&& !self.user_ignored
        &&& self.origin_application_id is None
        &&& self.since is None
        &&& !self.has_played_game
    }

    /// A relationship of the given kind with the user of the given id.
    pub fn new(id: &str, kind: RelationshipType) -> (r: Relationship)
        ensures
            r.id@ == id@,
            r.kind == kind,
            r.is_bare(),
    {
        Relationship {
            id: String::from_str(id),
            kind,
            user: None,
            nickname: None,
            is_spam_request: false,
            stranger_request: false,
            user_ignored: false,
            origin_application_id: None,
            since: None,
            has_played_game: false,
        }
    }

    /// Whether the other user is a friend.
    pub fn is_friend(&self) -> (b: bool)
        ensures
            b == (self.kind == RelationshipType::Friend),
    {
        self.kind == RelationshipType::Friend
    }

    /// Whether the other user is blocked.
    pub fn is_blocked(&self) -> (b: bool)
        ensures
            b == (self.kind == RelationshipType::Blocked),
    {
        self.kind == RelationshipType::Blocked
    }
}

} // verus!
