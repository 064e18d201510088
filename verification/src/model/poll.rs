//! Polls in messages.

use vstd::prelude::*;
use crate::model::reaction::Emoji;

verus! {

/// A poll.
#[derive(Debug, Clone)]
pub struct Poll {
    pub question: String,
    pub answers: Vec<PollAnswerOption>,
    /// When the poll ends, as an ISO 8601 timestamp.
    pub expiry: String,
    pub allow_multiselect: bool,
    pub layout_type: u8,
    pub results: Vec<PollResult>,
}

/// One answer that a poll offers.
#[derive(Debug, Clone)]
pub struct PollAnswerOption {
    pub answer_id: String,
    pub media: Option<PollMedia>,
}

/// What illustrates an answer.
#[derive(Debug, Clone)]
pub struct PollMedia {
    pub emoji: Option<Emoji>,
}

/// The votes of a poll.
#[derive(Debug, Clone)]
pub struct PollResult {
    /// Whether the votes were counted exactly.
    pub is_finalized: bool,
    pub answer_counts: Vec<PollAnswerCount>,
}

/// The votes for one answer.
#[derive(Debug, Clone)]
pub struct PollAnswerCount {
    pub id: String,
    pub count: u64,
    pub me_voted: bool,
}

} // verus!
