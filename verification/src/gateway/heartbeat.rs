//! The heartbeat of a connection: what to send on each tick, and how long
//! to hold the first one back.

use vstd::prelude::*;
use crate::gateway::backoff::random_up_to;
use crate::gateway::payload::Outbound;

verus! {

/// The most that the first heartbeat is held back: a tenth of the interval.
pub open spec fn jitter_bound(interval_ms: u64) -> u64 {
    interval_ms / 10
}

/// The heartbeat of one connection.
#[derive(Debug, Clone, Copy, PartialEq, Eq, Structural)]
pub struct Heartbeat {
    /// The interval between heartbeats, in milliseconds.
    pub interval_ms: u64,
    /// The last sequence number seen, which each heartbeat carries.
    pub sequence: Option<u64>,
}

impl Heartbeat {
    /// A heartbeat with the given interval that has seen no event yet.
    pub fn new(interval_ms: u64) -> (h: Heartbeat)
        ensures
            h.interval_ms == interval_ms,
            h.sequence is None,
    {
        Heartbeat { interval_ms, sequence: None }
    }

    /// The last sequence number seen.
    pub fn sequence(&self) -> (s: Option<u64>)
        ensures
            s == self.sequence,
    {
        self.sequence
    }

    /// Notes the sequence number of an event.
    pub fn observe(&mut self, sequence: u64)
        ensures
            final(self).sequence == Some(sequence),
            final(self).interval_ms == old(self).interval_ms,
    {
        self.sequence = Some(sequence);
    }

    /// The period to arm the timer with, in milliseconds: the interval, and
    /// one millisecond where the interval is none, since no timer runs on a
    /// period of no length.
    pub fn period_ms(&self) -> (ms: u64)
        ensures
            ms == if self.interval_ms == 0 {
                1
            } else {
                self.interval_ms
            },
    {
        if self.interval_ms == 0 {
            1
        } else {
            self.interval_ms
        }
    }

    /// The payload to send on a tick: opcode 1 with the last sequence number
    /// seen.
    pub fn beat(&self) -> (out: Outbound)
        ensures
            out == (Outbound::Heartbeat { sequence: self.sequence }),
    {
        Outbound::Heartbeat { sequence: self.sequence }
    }

    /// How long to hold the first heartbeat back, for a share of the
    /// interval that the caller drew; a share over a tenth counts as a tenth.
    pub fn first_delay_for(&self, drawn_ms: u64) -> (ms: u64)
        ensures
            ms == if drawn_ms <= jitter_bound(self.interval_ms) {
                drawn_ms
            } else {
                jitter_bound(self.interval_ms)
            },
    {
        let bound = self.interval_ms / 10;
        if drawn_ms <= bound {
            drawn_ms
        } else {
            bound
        }
    }

    /// How long to hold the first heartbeat back, drawn at random: at most a
    /// tenth of the interval, so that clients that connect together do not
    /// beat together.
    pub fn first_delay_ms(&self) -> (ms: u64)
        ensures
            ms <= jitter_bound(self.interval_ms),
    {
        let bound = self.interval_ms / 10;
        if bound == 0 {
            0
        } else {
            let drawn = random_up_to(bound);
            self.first_delay_for(drawn)
        }
    }
}

} // verus!
