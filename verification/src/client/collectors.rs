//! Collectors: bounded subscriptions to the stream of dispatch events.
//!
//! A subscription listens for one sort of event, messages or reactions. It
//! ends when it has delivered as many items as it was opened for, when its
//! deadline has passed, when the hub closes, or when nobody reads its output
//! any more. The hub and the queues belong to the caller; the subscription
//! here decides, turn by turn, what becomes of each event.

use vstd::prelude::*;
use vstd::string::*;
use crate::client::events::{DispatchEvent, DispatchEventType};
use crate::gateway::payload::opt_view;
use crate::json::{get_string, json_text, member_str};
use crate::model::reaction::Emoji;

verus! {

/// The lifetime of a collector when none is asked for, in milliseconds.
pub const DEFAULT_COLLECTOR_TIME_MS: u64 = 30000;

/// The bounds of a collector: how long it lives and how many items it
/// delivers. `None` leaves a bound off.
#[derive(Debug, Clone, Copy, PartialEq, Eq, Structural)]
pub struct CollectorOptions {
    /// The lifetime in milliseconds.
    pub time_ms: Option<u64>,
    /// The number of items after which the collector closes.
    pub max: Option<usize>,
}

impl Default for CollectorOptions {
    /// Thirty seconds, any number of items.
    fn default() -> (o: CollectorOptions)
        ensures
            o.time_ms == Some(DEFAULT_COLLECTOR_TIME_MS),
            o.max is None,
    {
        CollectorOptions { time_ms: Some(DEFAULT_COLLECTOR_TIME_MS), max: None }
    }
}

/// The sort of event that a collector listens for.
#[derive(Debug, Clone, Copy, PartialEq, Eq, Structural)]
pub enum CollectorTarget {
    /// Created messages.
    Messages,
    /// Reactions added to or removed from messages.
    Reactions,
}

/// Whether a collector for `target` looks at events of the given kind at all.
pub open spec fn target_admits(target: CollectorTarget, kind: DispatchEventType) -> bool {
    match target {
        CollectorTarget::Messages => kind is MessageCreate,
        CollectorTarget::Reactions => kind is MessageReactionAdd || kind is MessageReactionRemove,
    }
}

/// What reached a subscription while it waited.
#[derive(Debug, Clone)]
pub enum Signal {
    /// The hub broadcast an event of this kind.
    Event(DispatchEventType),
    /// The subscription fell behind and events were dropped for it.
    Lagged,
    /// The hub is closed.
    HubClosed,
    /// The deadline passed while waiting.
    TimedOut,
}

/// What came of looking at an event that the subscription admits.
#[derive(Debug, Clone, Copy, PartialEq, Eq, Structural)]
pub enum Inspection {
    /// The data could not be decoded into the item that the collector yields.
    Undecodable,
    /// The caller's filter turned the item down.
    Rejected,
    /// The caller's filter let the item through.
    Accepted,
}

/// What a subscription is told to do at the top of a turn.
#[derive(Debug, Clone, Copy, PartialEq, Eq, Structural)]
pub enum Wait {
    /// Wait for the next signal, until the deadline if there is one.
    Until(Option<u64>),
    /// Close the output: the subscription has ended.
    Closed,
}

/// What becomes of a signal or an inspected event.
#[derive(Debug, Clone, Copy, PartialEq, Eq, Structural)]
pub enum Step {
    /// Nothing: go on with the next turn.
    Skip,
    /// Decode the event and ask the filter.
    Inspect,
    /// Put the item in the output.
    Deliver,
    /// Close the output: the subscription has ended.
    Close,
}

/// One turn of a subscription, for stating what holds of every run: the
/// time at the top of the turn, what arrived, and what the caller would
/// answer if it were asked to inspect the event and to deliver the item.
pub struct Round {
    pub now_ms: u64,
    pub signal: Signal,
    pub inspection: Inspection,
    pub consumer_alive: bool,
}

/// A subscription: its bounds and how far it has come.
#[derive(Debug, Clone, Copy, PartialEq, Eq, Structural)]
pub struct Subscription {
    pub target: CollectorTarget,
    /// The time at which the subscription ends, in milliseconds on the
    /// caller's clock.
    pub deadline_ms: Option<u64>,
    pub max: Option<usize>,
    /// How many items went to the output.
    pub delivered: usize,
    pub closed: bool,
}

impl Subscription {
    /// The subscription that `open` makes.
    pub open spec fn opened(target: CollectorTarget, options: CollectorOptions, now_ms: u64) -> Subscription {
        Subscription {
            target,
            deadline_ms: match options.time_ms {
                Some(t) => Some(
                    if now_ms + t > u64::MAX {
                        u64::MAX
                    } else {
                        (now_ms + t) as u64
                    },
                ),
                None => None,
            },
            max: options.max,
            delivered: 0,
            closed: false,
        }
    }

    /// Whether the subscription has delivered all the items it was opened
    /// for.
    pub open spec fn is_full(self) -> bool {
        self.max matches Some(m) && self.delivered >= m
    }

    /// Whether the deadline has passed at the given time.
    pub open spec fn is_expired(self, now_ms: u64) -> bool {
        self.deadline_ms matches Some(d) && now_ms >= d
    }

    /// Whether the subscription has ended by the given time.
    pub open spec fn is_over(self, now_ms: u64) -> bool {
        self.closed || self.is_full() || self.is_expired(now_ms)
    }

    /// The subscription after the top of a turn.
    pub open spec fn after_poll(self, now_ms: u64) -> Subscription {
        if self.is_over(now_ms) {
            Subscription { closed: true, ..self }
        } else {
            self
        }
    }

    /// What the top of a turn tells the subscription to do.
    pub open spec fn wait(self, now_ms: u64) -> Wait {
        if self.is_over(now_ms) {
            Wait::Closed
        } else {
            Wait::Until(self.deadline_ms)
        }
    }

    /// What becomes of a signal.
    pub open spec fn step_for(self, signal: Signal) -> Step {
        if self.closed {
            Step::Close
        } else {
            match signal {
                Signal::Event(kind) => if target_admits(self.target, kind) {
                    Step::Inspect
                } else {
                    Step::Skip
                },
                Signal::Lagged => Step::Skip,
                Signal::HubClosed => Step::Close,
                Signal::TimedOut => Step::Close,
            }
        }
    }

    /// The subscription after a signal.
    pub open spec fn after_signal(self, signal: Signal) -> Subscription {
        if self.step_for(signal) is Close {
            Subscription { closed: true, ..self }
        } else {
            self
        }
    }

    /// What becomes of an inspected event.
    pub open spec fn step_after(self, inspection: Inspection) -> Step {
        if self.closed {
            Step::Close
        } else if inspection is Accepted {
            Step::Deliver
        } else {
            Step::Skip
        }
    }

    /// The subscription after an attempt to put an item in its output.
    pub open spec fn after_delivery(self, consumer_alive: bool) -> Subscription {
        if self.closed {
            self
        } else if !consumer_alive {
            Subscription { closed: true, ..self }
        } else if self.delivered < usize::MAX {
            Subscription { delivered: (self.delivered + 1) as usize, ..self }
        } else {
            self
        }
    }

    /// Whether a turn puts an item in the output.
    pub open spec fn delivers(self, r: Round) -> bool {
        let polled = self.after_poll(r.now_ms);
        &&& !polled.closed
        &&& polled.step_for(r.signal) is Inspect
        &&& polled.step_after(r.inspection) is Deliver
        &&& r.consumer_alive
    }

    /// The subscription after a whole turn.
    pub open spec fn after_round(self, r: Round) -> Subscription {
        let polled = self.after_poll(r.now_ms);
        if polled.closed {
            polled
        } else if !(polled.step_for(r.signal) is Inspect) {
            polled.after_signal(r.signal)
        } else if !(polled.step_after(r.inspection) is Deliver) {
            polled
        } else {
            polled.after_delivery(r.consumer_alive)
        }
    }

    /// Opens a subscription at the given time. Its deadline, if it has a
    /// lifetime, is that time plus the lifetime.
    pub fn open(target: CollectorTarget, options: CollectorOptions, now_ms: u64) -> (s:
        Subscription)
        ensures
            s == Subscription::opened(target, options, now_ms),
    {
        let deadline_ms = match options.time_ms {
            Some(t) => Some(
                if t > u64::MAX - now_ms {
                    u64::MAX
                } else {
                    now_ms + t
                },
            ),
            None => None,
        };
        Subscription { target, deadline_ms, max: options.max, delivered: 0, closed: false }
    }

    /// The top of a turn: the subscription ends here if it is full or its
    /// deadline has passed; otherwise it waits, until the deadline at most.
    pub fn poll(&mut self, now_ms: u64) -> (w: Wait)
        ensures
            *final(self) == old(self).after_poll(now_ms),
            w == old(self).wait(now_ms),
    {
        let full = match self.max {
            Some(m) => self.delivered >= m,
            None => false,
        };
        let expired = match self.deadline_ms {
            Some(d) => now_ms >= d,
            None => false,
        };
        if self.closed || full || expired {
            self.closed = true;
            Wait::Closed
        } else {
            Wait::Until(self.deadline_ms)
        }
    }

    /// Whether the subscription looks at events of the given kind.
    pub fn admits(&self, kind: &DispatchEventType) -> (b: bool)
        ensures
            b == target_admits(self.target, *kind),
    {
        match self.target {
            CollectorTarget::Messages => match kind {
                DispatchEventType::MessageCreate => true,
                _ => false,
            },
            CollectorTarget::Reactions => match kind {
                DispatchEventType::MessageReactionAdd => true,
                DispatchEventType::MessageReactionRemove => true,
                _ => false,
            },
        }
    }

    /// Takes what arrived while waiting. An event of a kind that the
    /// subscription does not listen for is skipped without a look at its
    /// data; so is the notice that events were missed. The end of the hub
    /// and the deadline end the subscription.
    pub fn receive(&mut self, signal: &Signal) -> (step: Step)
        ensures
            *final(self) == old(self).after_signal(*signal),
            step == old(self).step_for(*signal),
    {
        if self.closed {
            return Step::Close;
        }
        match signal {
            Signal::Event(kind) => {
                if self.admits(kind) {
                    Step::Inspect
                } else {
                    Step::Skip
                }
            },
            Signal::Lagged => Step::Skip,
            Signal::HubClosed => {
                self.closed = true;
                Step::Close
            },
            Signal::TimedOut => {
                self.closed = true;
                Step::Close
            },
        }
    }

    /// Takes what came of inspecting an event: only an item that was decoded
    /// and that the filter let through is delivered.
    pub fn settle(&self, inspection: Inspection) -> (step: Step)
        ensures
            step == self.step_after(inspection),
    {
        if self.closed {
            Step::Close
        } else if inspection == Inspection::Accepted {
            Step::Deliver
        } else {
            Step::Skip
        }
    }

    /// Records the attempt to put an item in the output: it counts if
    /// somebody still reads the output, and ends the subscription if nobody
    /// does.
    pub fn record_delivery(&mut self, consumer_alive: bool)
        ensures
            *final(self) == old(self).after_delivery(consumer_alive),
    {
        if self.closed {
        } else if !consumer_alive {
            self.closed = true;
        } else if self.delivered < usize::MAX {
            self.delivered = self.delivered + 1;
        }
    }

    /// Plays one whole turn and says whether it put an item in the output.
    pub fn run_round(
        &mut self,
        now_ms: u64,
        signal: &Signal,
        inspection: Inspection,
        consumer_alive: bool,
    ) -> (delivered: bool)
        ensures
            ({
                let r = Round { now_ms, signal: *signal, inspection, consumer_alive };
                *final(self) == old(self).after_round(r) && delivered == old(self).delivers(r)
            }),
    {
        match self.poll(now_ms) {
            Wait::Closed => {
                return false;
            },
            Wait::Until(_) => {},
        }
        match self.receive(signal) {
            Step::Inspect => {},
            _ => {
                return false;
            },
        }
        match self.settle(inspection) {
            Step::Deliver => {},
            _ => {
                return false;
            },
        }
        self.record_delivery(consumer_alive);
        consumer_alive
    }
}

/// Whether a reaction was added or removed.
#[derive(Debug, Clone, Copy, PartialEq, Eq, Structural)]
pub enum ReactionEventType {
    Add,
    Remove,
}

/// A reaction event in the flat shape that reaction collectors yield.
#[derive(Debug, Clone)]
pub struct ReactionCollectEvent {
    pub kind: ReactionEventType,
    pub channel_id: String,
    pub message_id: String,
    pub user_id: String,
    pub guild_id: Option<String>,
    pub emoji: Emoji,
}

/// The reaction kind that a dispatch kind stands for, if it stands for one.
pub open spec fn reaction_kind(kind: DispatchEventType) -> Option<ReactionEventType> {
    match kind {
        DispatchEventType::MessageReactionAdd => Some(ReactionEventType::Add),
        DispatchEventType::MessageReactionRemove => Some(ReactionEventType::Remove),
        _ => None,
    }
}

impl ReactionCollectEvent {
    /// Whether the event holds exactly the given parts.
    pub open spec fn made_of(
        self,
        kind: ReactionEventType,
        channel_id: Seq<char>,
        message_id: Seq<char>,
        user_id: Seq<char>,
        guild_id: Option<Seq<char>>,
        emoji: Emoji,
    ) -> bool {
        &&& self.kind == kind
        &&& self.channel_id@ == channel_id
        &&& self.message_id@ == message_id
        &&& self.user_id@ == user_id
        &&& opt_view(self.guild_id) == guild_id
        &&& self.emoji == emoji
    }

    /// Puts a reaction event together from the parts read out of a dispatch
    /// event. There is an event exactly when the kind is a reaction kind and
    /// the channel, the message, the user and the emoji are all there; the
    /// guild may be missing.
    pub fn assemble(
        kind: &DispatchEventType,
        channel_id: Option<String>,
        message_id: Option<String>,
        user_id: Option<String>,
        guild_id: Option<String>,
        emoji: Option<Emoji>,
    ) -> (r: Option<ReactionCollectEvent>)
        ensures
            r is Some <==> reaction_kind(*kind) is Some && channel_id is Some && message_id is Some
                && user_id is Some && emoji is Some,
            r matches Some(ev) ==> ev.made_of(
                reaction_kind(*kind)->0,
                channel_id->0@,
                message_id->0@,
                user_id->0@,
                opt_view(guild_id),
                emoji->0,
            ),
    {
        let kind = match kind {
            DispatchEventType::MessageReactionAdd => ReactionEventType::Add,
            DispatchEventType::MessageReactionRemove => ReactionEventType::Remove,
            _ => {
                return None;
            },
        };
        match (channel_id, message_id, user_id, emoji) {
            (Some(channel_id), Some(message_id), Some(user_id), Some(emoji)) => Some(
                ReactionCollectEvent { kind, channel_id, message_id, user_id, guild_id, emoji },
            ),
            _ => None,
        }
    }

    /// Reads a reaction event out of a dispatch event. The emoji is decoded
    /// by the caller from the `emoji` member of the data and handed in;
    /// `None` says that it is missing or no emoji.
    pub fn from_dispatch(event: &DispatchEvent, emoji: Option<Emoji>) -> (r: Option<
        ReactionCollectEvent,
    >)
        ensures
            ({
                let data = json_text(event.data);
                let channel_id = member_str(data, "channel_id"@);
                let message_id = member_str(data, "message_id"@);
                let user_id = member_str(data, "user_id"@);
                &&& r is Some <==> reaction_kind(event.kind) is Some && channel_id is Some
                    && message_id is Some && user_id is Some && emoji is Some
                &&& r matches Some(ev) ==> ev.made_of(
                    reaction_kind(event.kind)->0,
                    channel_id->0,
                    message_id->0,
                    user_id->0,
                    member_str(data, "guild_id"@),
                    emoji->0,
                )
            }),
    {
        let channel_id = get_string(&event.data, "channel_id");
        let message_id = get_string(&event.data, "message_id");
        let user_id = get_string(&event.data, "user_id");
        let guild_id = get_string(&event.data, "guild_id");
        ReactionCollectEvent::assemble(
            &event.kind,
            channel_id,
            message_id,
            user_id,
            guild_id,
            emoji,
        )
    }
}

} // verus!
