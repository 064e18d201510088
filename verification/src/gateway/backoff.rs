//! How long to wait before another attempt to connect: the wait doubles with
//! each failed attempt up to a cap, and a random share is added so that many
//! clients do not come back at the same instant.

use vstd::prelude::*;
use rand::Rng;

verus! {

/// The longest wait before jitter, in milliseconds.
pub const MAX_RECONNECT_BACKOFF_MS: u64 = 60000;

/// The attempt from which the wait grows no more.
pub const BACKOFF_ATTEMPT_CAP: u32 = 6;

/// Two to the power of `n`.
pub open spec fn doubled(n: nat) -> nat
    decreases n,
{
    if n == 0 {
        1
    } else {
        2 * doubled((n - 1) as nat)
    }
}

/// The wait before jitter for the given attempt, in milliseconds: two to the
/// power of the attempt in seconds, the attempt counted up to 6 at most, and
/// the whole no longer than the cap.
pub open spec fn backoff_base(attempt: u32) -> nat {
    let capped: nat = if attempt < BACKOFF_ATTEMPT_CAP {
        attempt as nat
    } else {
        BACKOFF_ATTEMPT_CAP as nat
    };
    let ms = doubled(capped) * 1000;
    if ms < MAX_RECONNECT_BACKOFF_MS {
        ms
    } else {
        MAX_RECONNECT_BACKOFF_MS as nat
    }
}

/// The most that jitter may add to a wait: a fifth of it.
pub open spec fn max_jitter(base_ms: nat) -> nat {
    base_ms / 5
}

/// The wait for an attempt with the given jitter; jitter beyond the allowed
/// fifth counts as the fifth.
pub open spec fn backoff_delay(attempt: u32, jitter_ms: u64) -> nat {
    let base = backoff_base(attempt);
    let jitter = if jitter_ms <= max_jitter(base) {
        jitter_ms as nat
    } else {
        max_jitter(base)
    };
    base + jitter
}

/// The values of `doubled` up to the cap.
pub proof fn lemma_doubled_values()
    ensures
        doubled(0) == 1,
        doubled(1) == 2,
        doubled(2) == 4,
        doubled(3) == 8,
        doubled(4) == 16,
        doubled(5) == 32,
        doubled(6) == 64,
{
    reveal_with_fuel(doubled, 8);
}

/// The wait before jitter never shrinks as attempts go up, and never passes
/// the cap.
pub proof fn lemma_backoff_monotone(a: u32, b: u32)
    requires
        a <= b,
    ensures
        backoff_base(a) <= backoff_base(b),
        1000 <= backoff_base(a) <= MAX_RECONNECT_BACKOFF_MS,
{
    lemma_doubled_values();
}

/// Below the cap, each attempt waits longer than the one before, whatever the
/// jitter of either: doubling outruns a fifth.
pub proof fn lemma_backoff_grows(a: u32, b: u32, jitter_a: u64, jitter_b: u64)
    requires
        a < b <= BACKOFF_ATTEMPT_CAP,
    ensures
        backoff_delay(a, jitter_a) < backoff_delay(b, jitter_b),
{
    lemma_doubled_values();
}

/// With jitter a wait is at most a fifth over the cap, and at the cap and
/// beyond it never falls below the cap.
pub proof fn lemma_backoff_capped(attempt: u32, jitter_ms: u64)
    ensures
        backoff_delay(attempt, jitter_ms) <= MAX_RECONNECT_BACKOFF_MS + MAX_RECONNECT_BACKOFF_MS / 5,
        attempt >= BACKOFF_ATTEMPT_CAP ==> backoff_delay(attempt, jitter_ms)
            >= MAX_RECONNECT_BACKOFF_MS,
{
    lemma_doubled_values();
}

/// Computes the wait before jitter for an attempt, in milliseconds.
pub fn backoff_base_ms(attempt: u32) -> (ms: u64)
    ensures
        ms == backoff_base(attempt),
        1000 <= ms <= MAX_RECONNECT_BACKOFF_MS,
{
    let capped: u32 = if attempt < BACKOFF_ATTEMPT_CAP {
        attempt
    } else {
        BACKOFF_ATTEMPT_CAP
    };
    let mut secs: u64 = 1;
    let mut i: u32 = 0;
    proof {
        lemma_doubled_values();
    }
    while i < capped
        invariant
            i <= capped <= 6,
            secs == doubled(i as nat),
            secs <= 64,
        decreases capped - i,
    {
        secs = secs * 2;
        i += 1;
        proof {
            lemma_doubled_values();
        }
    }
    let ms: u64 = secs * 1000;
    if ms < MAX_RECONNECT_BACKOFF_MS {
        ms
    } else {
        MAX_RECONNECT_BACKOFF_MS
    }
}

/// Computes the most that jitter may add to a wait.
pub fn max_jitter_ms(base_ms: u64) -> (ms: u64)
    ensures
        ms == max_jitter(base_ms as nat),
{
    base_ms / 5
}

/// Computes the wait for an attempt from a jitter that the caller drew.
pub fn backoff_delay_ms(attempt: u32, jitter_ms: u64) -> (ms: u64)
    ensures
        ms == backoff_delay(attempt, jitter_ms),
{
    let base = backoff_base_ms(attempt);
    let most = max_jitter_ms(base);
    let jitter: u64 = if jitter_ms <= most {
        jitter_ms
    } else {
        most
    };
    base + jitter
}

/// Draws a number from 0 to `max`, both included, with
/// `rand::thread_rng().gen_range(0..=max)`. Trusted: the number drawn lies in
/// the range asked for. Which number it is depends on chance.
#[verifier::external_body]
pub(crate) fn random_up_to(max: u64) -> (r: u64)
    ensures
        r <= max,
{
    rand::thread_rng().gen_range(0..=max)
}

/// The wait for an attempt with jitter drawn at random: the doubled wait plus
/// up to a fifth of it.
pub fn backoff_with_jitter(attempt: u32) -> (ms: u64)
    ensures
        backoff_base(attempt) <= ms <= backoff_base(attempt) + max_jitter(backoff_base(attempt)),
        exists|jitter: u64| ms == backoff_delay(attempt, jitter),
{
    let base = backoff_base_ms(attempt);
    let most = max_jitter_ms(base);
    let jitter: u64 = if most == 0 {
        0
    } else {
        random_up_to(most)
    };
    let ms = backoff_delay_ms(attempt, jitter);
    assert(ms == backoff_delay(attempt, jitter));
    ms
}

} // verus!
