//! What holds of every run of a subscription.

use vstd::prelude::*;
use crate::client::collectors::{
    target_admits, CollectorOptions, CollectorTarget, Round, Signal, Subscription, Wait,
};

verus! {

/// The subscription after a run of turns.
pub open spec fn after_rounds(s: Subscription, rounds: Seq<Round>) -> Subscription
    decreases rounds.len(),
{
    if rounds.len() == 0 {
        s
    } else {
        after_rounds(s, rounds.drop_last()).after_round(rounds.last())
    }
}

/// How many items a run of turns puts in the output.
pub open spec fn delivered_in(s: Subscription, rounds: Seq<Round>) -> nat
    decreases rounds.len(),
{
    if rounds.len() == 0 {
        0
    } else {
        let before = after_rounds(s, rounds.drop_last());
        delivered_in(s, rounds.drop_last()) + if before.delivers(rounds.last()) {
            1nat
        } else {
            0nat
        }
    }
}

/// A run keeps the bounds of a subscription, and below a bound on the number
/// of items the subscription's count is what it was plus what the run
/// delivered.
pub proof fn lemma_count_follows_deliveries(s: Subscription, rounds: Seq<Round>)
    requires
        s.max matches Some(n) && s.delivered <= n,
    ensures
        after_rounds(s, rounds).max == s.max,
        after_rounds(s, rounds).deadline_ms == s.deadline_ms,
        after_rounds(s, rounds).target == s.target,
        after_rounds(s, rounds).delivered == s.delivered + delivered_in(s, rounds),
        after_rounds(s, rounds).delivered <= s.max->0,
    decreases rounds.len(),
{
    if rounds.len() > 0 {
        lemma_count_follows_deliveries(s, rounds.drop_last());
    }
}

/// A subscription that has ended delivers nothing more and stays ended.
pub proof fn law_closed_stays_closed(s: Subscription, rounds: Seq<Round>)
    requires
        s.closed,
    ensures
        after_rounds(s, rounds) == s,
        delivered_in(s, rounds) == 0,
    decreases rounds.len(),
{
    if rounds.len() > 0 {
        law_closed_stays_closed(s, rounds.drop_last());
    }
}

/// A subscription opened for at most `n` items delivers at most `n`, however
/// many events that it would take are broadcast.
pub proof fn law_delivers_at_most_max(
    target: CollectorTarget,
    options: CollectorOptions,
    now_ms: u64,
    rounds: Seq<Round>,
)
    requires
        options.max is Some,
    ensures
        delivered_in(Subscription::opened(target, options, now_ms), rounds) <= options.max->0,
{
    lemma_count_follows_deliveries(Subscription::opened(target, options, now_ms), rounds);
}

/// Once a subscription has delivered the number of items it was opened for,
/// it reports closed at the top of the next turn, whenever that is, and
/// whatever is broadcast afterwards it delivers nothing more.
pub proof fn law_full_then_closed(
    target: CollectorTarget,
    options: CollectorOptions,
    now_ms: u64,
    rounds: Seq<Round>,
    later: u64,
    more: Seq<Round>,
)
    requires
        options.max is Some,
        delivered_in(Subscription::opened(target, options, now_ms), rounds) == options.max->0,
    ensures
        ({
            let s = after_rounds(Subscription::opened(target, options, now_ms), rounds);
            s.wait(later) == Wait::Closed && delivered_in(s, more) == 0
        }),
{
    let s0 = Subscription::opened(target, options, now_ms);
    lemma_count_follows_deliveries(s0, rounds);
    let s = after_rounds(s0, rounds);
    assert(s.is_full());
    lemma_full_delivers_nothing(s, more);
}

/// A full subscription delivers nothing and stays full.
pub proof fn lemma_full_delivers_nothing(s: Subscription, rounds: Seq<Round>)
    requires
        s.is_full(),
    ensures
        delivered_in(s, rounds) == 0,
        after_rounds(s, rounds).is_full(),
        after_rounds(s, rounds).delivered == s.delivered,
        after_rounds(s, rounds).max == s.max,
    decreases rounds.len(),
{
    if rounds.len() > 0 {
        lemma_full_delivers_nothing(s, rounds.drop_last());
    }
}

/// A turn at or after the deadline delivers nothing and ends the
/// subscription, whatever arrives in it.
pub proof fn law_nothing_after_deadline(s: Subscription, r: Round)
    requires
        s.is_expired(r.now_ms),
    ensures
        !s.delivers(r),
        s.after_round(r).closed,
        s.after_round(r).delivered == s.delivered,
{
}

/// From the first turn at or after the deadline on, a subscription delivers
/// nothing, even if matching events keep arriving and whatever the times of
/// the later turns.
pub proof fn law_deadline_ends_deliveries(s: Subscription, first: Round, more: Seq<Round>)
    requires
        s.is_expired(first.now_ms),
    ensures
        !s.delivers(first),
        delivered_in(s.after_round(first), more) == 0,
{
    law_closed_stays_closed(s.after_round(first), more);
}

/// A subscription never delivers for an event of a kind that it does not
/// listen for, whatever the filter would say of it.
pub proof fn law_foreign_kind_is_never_delivered(s: Subscription, r: Round)
    requires
        r.signal matches Signal::Event(kind) && !target_admits(s.target, kind),
    ensures
        !s.delivers(r),
        s.after_round(r).delivered == s.delivered,
{
}

/// A notice that events were missed ends nothing and delivers nothing: the
/// subscription goes on with the next turn.
pub proof fn law_lag_is_skipped(s: Subscription, r: Round)
    requires
        r.signal is Lagged,
        !s.is_over(r.now_ms),
    ensures
        !s.delivers(r),
        s.after_round(r) == s,
{
}

} // verus!
