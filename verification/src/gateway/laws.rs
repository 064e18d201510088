//! What holds of every run of the session state machine.

use vstd::prelude::*;
use crate::gateway::gateway::{Reaction, SessionState, Tick};
use crate::gateway::payload::{
    InboundView, OP_DISPATCH, OP_HEARTBEAT_ACK, OP_HELLO, OP_INVALID_SESSION, OP_RECONNECT,
};

verus! {

/// The session after a run of inbound payloads, taken one after another.
pub open spec fn after_all(s: SessionState, frames: Seq<InboundView>) -> SessionState
    decreases frames.len(),
{
    if frames.len() == 0 {
        s
    } else {
        after_all(s, frames.drop_last()).after_inbound(frames.last())
    }
}

/// Whether every payload of a run is a dispatch that carries a sequence
/// number.
pub open spec fn all_numbered_dispatches(frames: Seq<InboundView>) -> bool {
    forall|i: int|
        0 <= i < frames.len() ==> (#[trigger] frames[i]).opcode == Some(OP_DISPATCH)
            && frames[i].sequence is Some
}

/// Whether the sequence numbers of a run grow from each payload to the next.
pub open spec fn strictly_increasing(frames: Seq<InboundView>) -> bool {
    forall|i: int, j: int|
        0 <= i < j < frames.len() ==> (#[trigger] frames[i]).sequence->0 < (
        #[trigger] frames[j]).sequence->0
}

/// The largest sequence number of a run; 0 for the empty run.
pub open spec fn max_sequence(frames: Seq<InboundView>) -> u64
    decreases frames.len(),
{
    if frames.len() == 0 {
        0
    } else {
        let before = max_sequence(frames.drop_last());
        let last = frames.last().sequence->0;
        if last >= before {
            last
        } else {
            before
        }
    }
}

/// In a run whose sequence numbers grow, the largest is the last.
pub proof fn lemma_max_is_last(frames: Seq<InboundView>)
    requires
        frames.len() > 0,
        strictly_increasing(frames),
    ensures
        max_sequence(frames) == frames.last().sequence->0,
    decreases frames.len(),
{
    let head = frames.drop_last();
    if head.len() > 0 {
        assert forall|i: int, j: int| 0 <= i < j < head.len() implies (#[trigger] head[i]).sequence->0
            < (#[trigger] head[j]).sequence->0 by {
            assert(head[i] == frames[i]);
            assert(head[j] == frames[j]);
        }
        lemma_max_is_last(head);
        assert(head.last() == frames[head.len() - 1]);
        assert(frames.last() == frames[frames.len() - 1]);
        assert(frames[head.len() - 1].sequence->0 < frames[frames.len() - 1].sequence->0);
    } else {
        assert(max_sequence(head) == 0);
    }
}

/// In steady state, after any run of dispatches whose sequence numbers grow
/// from each to the next, the session is still in steady state and the
/// sequence number that it holds is the largest of the run.
pub proof fn law_sequence_is_maximum(s: SessionState, frames: Seq<InboundView>)
    requires
        s.phase is Steady,
        frames.len() > 0,
        all_numbered_dispatches(frames),
        strictly_increasing(frames),
    ensures
        after_all(s, frames).phase is Steady,
        after_all(s, frames).sequence == Some(max_sequence(frames)),
    decreases frames.len(),
{
    let head = frames.drop_last();
    lemma_max_is_last(frames);
    assert(frames.last() == frames[frames.len() - 1]);
    if head.len() > 0 {
        assert forall|i: int| 0 <= i < head.len() implies (#[trigger] head[i]).opcode == Some(
            OP_DISPATCH,
        ) && head[i].sequence is Some by {
            assert(head[i] == frames[i]);
        }
        assert forall|i: int, j: int| 0 <= i < j < head.len() implies (#[trigger] head[i]).sequence->0
            < (#[trigger] head[j]).sequence->0 by {
            assert(head[i] == frames[i]);
            assert(head[j] == frames[j]);
        }
        law_sequence_is_maximum(s, head);
    } else {
        assert(after_all(s, head) == s);
    }
}

/// A connection that is given up without a session to resume leads to a
/// fresh identify, and by the time the hello is answered with it the old
/// session's identity and sequence number are gone.
pub proof fn law_identify_forgets_session(s: SessionState, prefer_resume: bool, hello: InboundView)
    requires
        !(s.phase is ShutDown),
        !s.given_up(prefer_resume).resuming,
        hello.opcode == Some(OP_HELLO),
        hello.heartbeat_interval is Some,
    ensures
        ({
            let t = s.given_up(prefer_resume).after_attempt_begun().after_connected().after_hello(
                hello,
            );
            t.phase is Identifying && t.session_id is None && t.sequence is None
        }),
{
}

/// A handshake that fails is never followed by a resume: the next hello is
/// answered with a fresh identify, and the old session is forgotten by then.
pub proof fn law_failed_handshake_falls_back(s: SessionState, hello: InboundView)
    requires
        s.in_handshake(),
        hello.opcode == Some(OP_HELLO),
        hello.heartbeat_interval is Some,
    ensures
        ({
            let t = s.after_failure().after_attempt_begun().after_connected().after_hello(hello);
            t.phase is Identifying && t.session_id is None && t.sequence is None
        }),
{
}

/// An invalid session that cannot be resumed clears the session's identity
/// and sequence number at once, and the handshake that follows identifies.
pub proof fn law_invalid_session_resets(s: SessionState, m: InboundView)
    requires
        s.phase is Steady,
        m.opcode == Some(OP_INVALID_SESSION),
        m.resumable != Some(true),
    ensures
        s.after_inbound(m).session_id is None,
        s.after_inbound(m).sequence is None,
        !s.after_inbound(m).resuming,
        s.after_inbound(m).phase is Reconnecting,
        s.reaction(m) is Reconnect,
{
}

/// A heartbeat acknowledgement clears the wait for it, and the same
/// acknowledgement once more changes nothing.
pub proof fn law_ack_is_idempotent(s: SessionState, ack: InboundView)
    requires
        ack.opcode == Some(OP_HEARTBEAT_ACK),
    ensures
        s.phase is Steady ==> !s.after_inbound(ack).awaiting_heartbeat_ack,
        s.after_inbound(ack).after_inbound(ack) == s.after_inbound(ack),
        s.reaction(ack) == Reaction::Continue,
        s.after_inbound(ack).reaction(ack) == Reaction::Continue,
{
}

/// Whether no payload of a run acknowledges a heartbeat or ends the
/// connection.
pub open spec fn none_acknowledges(frames: Seq<InboundView>) -> bool {
    forall|i: int|
        0 <= i < frames.len() ==> (#[trigger] frames[i]).opcode != Some(OP_HEARTBEAT_ACK)
            && frames[i].opcode != Some(OP_RECONNECT) && frames[i].opcode != Some(
            OP_INVALID_SESSION,
        )
}

/// A run without acknowledgement leaves the wait for one as it was.
pub proof fn lemma_still_awaiting(s: SessionState, frames: Seq<InboundView>)
    requires
        s.phase is Steady,
        s.awaiting_heartbeat_ack,
        none_acknowledges(frames),
    ensures
        after_all(s, frames).phase is Steady,
        after_all(s, frames).awaiting_heartbeat_ack,
    decreases frames.len(),
{
    if frames.len() > 0 {
        let head = frames.drop_last();
        assert forall|i: int| 0 <= i < head.len() implies (#[trigger] head[i]).opcode != Some(
            OP_HEARTBEAT_ACK,
        ) && head[i].opcode != Some(OP_RECONNECT) && head[i].opcode != Some(
            OP_INVALID_SESSION,
        ) by {
            assert(head[i] == frames[i]);
        }
        lemma_still_awaiting(s, head);
        assert(frames.last() == frames[frames.len() - 1]);
    }
}

/// When a heartbeat has gone out on a tick and the next tick comes with no
/// acknowledgement in between, whatever else arrived, that tick sends no
/// second heartbeat: it gives the connection up, to be resumed if it can be.
pub proof fn law_missed_ack_reconnects(s: SessionState, frames: Seq<InboundView>)
    requires
        s.phase is Steady,
        !s.awaiting_heartbeat_ack,
        none_acknowledges(frames),
    ensures
        s.tick() == Tick::HeartbeatDue,
        ({
            let sent = s.after_tick().after_heartbeat_sent();
            let later = after_all(sent, frames);
            &&& sent.awaiting_heartbeat_ack
            &&& later.tick() == Tick::Reconnect
            &&& later.after_tick().phase is Reconnecting
            &&& !later.after_tick().heartbeat_due()
            &&& later.after_tick().resuming == later.can_resume()
        }),
{
    let sent = s.after_tick().after_heartbeat_sent();
    lemma_still_awaiting(sent, frames);
}

/// A handshake that succeeds resets the count of failed attempts, however
/// many there were, and leaves no heartbeat due or awaited: the first tick
/// of the timer asks for the first one.
pub proof fn law_success_resets_attempts(s: SessionState)
    requires
        s.phase is Identifying || s.phase is Resuming,
    ensures
        s.after_handshake_sent().reconnect_attempts == 0,
        s.after_handshake_sent().phase is Steady,
        !s.after_handshake_sent().heartbeat_due(),
        !s.after_handshake_sent().awaiting_heartbeat_ack,
        s.after_handshake_sent().tick() == Tick::HeartbeatDue,
{
}

/// Nothing leaves the shut-down state: whatever is reported to a session
/// that was shut down, it stays shut down, with no heartbeat due and nothing
/// to deliver.
pub proof fn law_shutdown_is_terminal(s: SessionState, m: InboundView)
    requires
        s.phase is ShutDown,
    ensures
        s.given_up(true) == s,
        s.given_up(false) == s,
        s.after_attempt_begun() == s,
        s.after_connected() == s,
        s.after_failure() == s,
        s.after_hello(m) == s,
        s.after_handshake_sent() == s,
        s.after_tick() == s,
        s.tick() == Tick::Idle,
        s.after_heartbeat_sent() == s,
        s.after_inbound(m) == s,
        s.reaction(m) == Reaction::Continue,
        s.after_closed() == s,
        s.after_shutdown().phase is ShutDown,
{
}

/// Only a dispatch is ever delivered: a payload with any other opcode is
/// used up by the session.
pub proof fn law_only_dispatch_is_delivered(s: SessionState, m: InboundView)
    ensures
        s.reaction(m) is Deliver <==> s.phase is Steady && m.opcode == Some(OP_DISPATCH),
{
}

} // verus!
