//! Messages.

use vstd::prelude::*;
use vstd::string::*;
use crate::model::user::User;

verus! {

/// A sticker.
#[derive(Debug, Clone)]
pub struct Sticker {
    pub id: String,
    pub name: String,
}

/// A message in a channel.
#[derive(Debug, Clone)]
pub struct Message {
    pub id: String,
    pub channel_id: String,
    pub author: User,
    pub content: String,
    /// When the message was sent, as an ISO 8601 timestamp.
    pub timestamp: String,
    /// The users that the message mentions.
    pub mentions: Vec<User>,
    /// The number of the message's type on the wire; 0 is an ordinary message.
    pub kind: u8,
}

impl Message {
    /// An ordinary message that mentions nobody.
    pub fn new(id: &str, channel_id: &str, author: User, content: &str, timestamp: &str) -> (m:
        Message)
        ensures
            m.id@ == id@,
            m.channel_id@ == channel_id@,
            m.author == author,
            m.content@ == content@,
            m.timestamp@ == timestamp@,
            m.mentions@.len() == 0,
            m.kind == 0,
    {
        Message {
            id: String::from_str(id),
            channel_id: String::from_str(channel_id),
            author,
            content: String::from_str(content),
            timestamp: String::from_str(timestamp),
            mentions: Vec::new(),
            kind: 0,
        }
    }
}

} // verus!
