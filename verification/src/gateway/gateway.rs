//! The session state machine. It owns no socket and no clock: the caller
//! reports what happened (a frame came, the timer fired, the connection was
//! lost) and is told what to do (send a payload, deliver an event, connect
//! again after a wait).
//!
//! A handshake is: wait if attempts failed before, connect, read the hello
//! frame, send identify or resume. A failed handshake is tried again, each
//! time after a longer wait, and a failed resume falls back to identify.
//! In steady state every timer tick either asks for a heartbeat or, when the
//! last one was never acknowledged, gives the connection up. The caller arms
//! the timer after the handshake and holds its first tick back by the jitter
//! that `Heartbeat::first_delay_ms` draws.
//!
//! Reports are taken one at a time. When a tick and a frame are ready
//! together, the order in which they are reported is the caller's to choose:
//! the machine fixes no priority between them, and either order leaves it in
//! a state that the next report is handled from.

use vstd::prelude::*;
use vstd::string::*;
use crate::error::Error;
use crate::gateway::backoff::{backoff_base, backoff_with_jitter, max_jitter};
use crate::gateway::identify::Identify;
use crate::gateway::payload::{
    opt_view, Inbound, InboundView, Outbound, RawPayload, OP_DISPATCH, OP_HEARTBEAT,
    OP_HEARTBEAT_ACK, OP_HELLO, OP_INVALID_SESSION, OP_RECONNECT,
};
use crate::text::str_eq;

verus! {

/// Where the client connects when it knows no better address.
pub const DEFAULT_GATEWAY_URL: &'static str = "wss://gateway.discord.gg/?v=10&encoding=json";

/// What is added to the address that the gateway gives for resuming.
pub const RESUME_URL_SUFFIX: &'static str = "/?v=10&encoding=json";

/// The wait after an invalid-session payload before connecting again.
pub const INVALID_SESSION_RETRY_DELAY_MS: u64 = 1000;

/// The states of a session.
#[derive(Debug, Clone, Copy, PartialEq, Eq, Structural)]
pub enum Phase {
    /// An attempt is under way: the connection is being opened.
    Connecting,
    /// The connection is open and its first frame is awaited.
    AwaitingHello,
    /// An identify payload was handed out and is being sent.
    Identifying,
    /// A resume payload was handed out and is being sent.
    Resuming,
    /// The handshake is done: events flow and heartbeats are due.
    Steady,
    /// The connection is given up; the next attempt has not begun.
    Reconnecting,
    /// The user shut the session down. Nothing leaves this state.
    ShutDown,
}

/// What the session does about an inbound payload.
#[derive(Debug, Clone, Copy, PartialEq, Eq, Structural)]
pub enum Reaction {
    /// The payload is a dispatch: hand it upward.
    Deliver,
    /// The payload was for the session alone.
    Continue,
    /// Close the connection, wait this long, and connect again.
    Reconnect { delay_ms: u64 },
}

/// What the caller does about an inbound payload.
#[derive(Debug)]
pub enum Directive {
    /// Hand this dispatch payload upward.
    Deliver(RawPayload),
    /// Nothing: the payload was for the session alone.
    Continue,
    /// Close the connection, wait this long, and connect again.
    Reconnect { delay_ms: u64 },
}

/// What the session does about a tick of the heartbeat timer.
#[derive(Debug, Clone, Copy, PartialEq, Eq, Structural)]
pub enum Tick {
    /// No heartbeat is due: the session is not in steady state.
    Idle,
    /// A heartbeat is due: send what `pending_outbound` gives.
    HeartbeatDue,
    /// The last heartbeat was never acknowledged: connect again.
    Reconnect,
}

/// One attempt to connect: where, and after what wait.
#[derive(Debug)]
pub struct Attempt {
    pub delay_ms: u64,
    pub url: String,
}

/// A session as the contracts see it.
pub struct SessionState {
    pub token: Seq<char>,
    pub phase: Phase,
    pub heartbeat_interval_ms: u64,
    pub awaiting_heartbeat_ack: bool,
    pub pending_heartbeat: bool,
    pub sequence: Option<u64>,
    pub session_id: Option<Seq<char>>,
    pub resume_gateway_url: Option<Seq<char>>,
    pub reconnect_attempts: u32,
    /// Whether the handshake under way, or the next one, resumes.
    pub resuming: bool,
}

impl SessionState {
    /// A session that has never connected.
    pub open spec fn fresh(token: Seq<char>) -> SessionState {
        SessionState {
            token,
            phase: Phase::Reconnecting,
            heartbeat_interval_ms: 0,
            awaiting_heartbeat_ack: false,
            pending_heartbeat: false,
            sequence: None,
            session_id: None,
            resume_gateway_url: None,
            reconnect_attempts: 0,
            resuming: false,
        }
    }

    /// A session can be resumed when both its identity and the last sequence
    /// number are known.
    pub open spec fn can_resume(self) -> bool {
        self.session_id is Some && self.sequence is Some
    }

    /// Whether a handshake is under way.
    pub open spec fn in_handshake(self) -> bool {
        self.phase is Connecting || self.phase is AwaitingHello || self.phase is Identifying
            || self.phase is Resuming
    }

    /// The address of the next connection: the one given for resuming if
    /// there is one, the default otherwise.
    pub open spec fn endpoint(self) -> Seq<char> {
        match self.resume_gateway_url {
            Some(url) => url,
            None => DEFAULT_GATEWAY_URL@,
        }
    }

    /// The connection is given up. Resuming is chosen if it is preferred and
    /// possible. A session that was shut down stays as it is.
    pub open spec fn given_up(self, prefer_resume: bool) -> SessionState {
        if self.phase is ShutDown {
            self
        } else {
            SessionState {
                phase: Phase::Reconnecting,
                awaiting_heartbeat_ack: false,
                pending_heartbeat: false,
                resuming: prefer_resume && self.can_resume(),
                ..self
            }
        }
    }

    /// The next attempt begins.
    pub open spec fn after_attempt_begun(self) -> SessionState {
        if self.phase is Reconnecting {
            SessionState { phase: Phase::Connecting, ..self }
        } else {
            self
        }
    }

    /// The connection is open.
    pub open spec fn after_connected(self) -> SessionState {
        if self.phase is Connecting {
            SessionState { phase: Phase::AwaitingHello, ..self }
        } else {
            self
        }
    }

    /// A handshake failed: one more attempt is counted, and the next one
    /// does not resume.
    pub open spec fn after_failure(self) -> SessionState {
        if self.in_handshake() {
            SessionState {
                phase: Phase::Reconnecting,
                reconnect_attempts: if self.reconnect_attempts < u32::MAX {
                    (self.reconnect_attempts + 1) as u32
                } else {
                    u32::MAX
                },
                resuming: false,
                ..self
            }
        } else {
            self
        }
    }

    /// Whether a first frame is the hello that the handshake waits for.
    pub open spec fn accepts_hello(self, m: InboundView) -> bool {
        self.phase is AwaitingHello && m.opcode == Some(OP_HELLO) && m.heartbeat_interval is Some
    }

    /// The first frame of a connection was read.
    pub open spec fn after_hello(self, m: InboundView) -> SessionState {
        if !(self.phase is AwaitingHello) {
            self
        } else if !self.accepts_hello(m) {
            self.after_failure()
        } else if self.resuming {
            SessionState {
                phase: Phase::Resuming,
                heartbeat_interval_ms: m.heartbeat_interval->0,
                ..self
            }
        } else {
            SessionState {
                phase: Phase::Identifying,
                heartbeat_interval_ms: m.heartbeat_interval->0,
                session_id: None,
                sequence: None,
                ..self
            }
        }
    }

    /// The identify or resume payload went out.
    pub open spec fn after_handshake_sent(self) -> SessionState {
        if self.phase is Identifying || self.phase is Resuming {
            SessionState {
                phase: Phase::Steady,
                reconnect_attempts: 0,
                awaiting_heartbeat_ack: false,
                pending_heartbeat: false,
                ..self
            }
        } else {
            self
        }
    }

    /// The heartbeat timer fired.
    pub open spec fn after_tick(self) -> SessionState {
        if !(self.phase is Steady) {
            self
        } else if self.awaiting_heartbeat_ack {
            self.given_up(true)
        } else {
            SessionState { pending_heartbeat: true, ..self }
        }
    }

    /// What a tick of the heartbeat timer asks for.
    pub open spec fn tick(self) -> Tick {
        if !(self.phase is Steady) {
            Tick::Idle
        } else if self.awaiting_heartbeat_ack {
            Tick::Reconnect
        } else {
            Tick::HeartbeatDue
        }
    }

    /// Whether a heartbeat waits to be sent.
    pub open spec fn heartbeat_due(self) -> bool {
        self.phase is Steady && self.pending_heartbeat
    }

    /// The heartbeat that was due went out.
    pub open spec fn after_heartbeat_sent(self) -> SessionState {
        if self.heartbeat_due() {
            SessionState { awaiting_heartbeat_ack: true, pending_heartbeat: false, ..self }
        } else {
            self
        }
    }

    /// The sequence number after a payload: the payload's, if it has one.
    pub open spec fn sequence_after(self, m: InboundView) -> Option<u64> {
        match m.sequence {
            Some(s) => Some(s),
            None => self.sequence,
        }
    }

    /// Whether a payload is the session-ready event.
    pub open spec fn is_ready_event(m: InboundView) -> bool {
        m.opcode == Some(OP_DISPATCH) && m.event_name == Some("READY"@)
    }

    /// The address for resuming that a session-ready event gives.
    pub open spec fn resume_url_of(m: InboundView) -> Option<Seq<char>> {
        match m.resume_gateway_url {
            Some(url) => Some(url + RESUME_URL_SUFFIX@),
            None => None,
        }
    }

    /// A payload came in steady state.
    pub open spec fn after_inbound(self, m: InboundView) -> SessionState {
        if !(self.phase is Steady) {
            self
        } else {
            let seen = SessionState { sequence: self.sequence_after(m), ..self };
            if m.opcode == Some(OP_DISPATCH) {
                if Self::is_ready_event(m) {
                    SessionState {
                        session_id: m.session_id,
                        resume_gateway_url: Self::resume_url_of(m),
                        ..seen
                    }
                } else {
                    seen
                }
            } else if m.opcode == Some(OP_HEARTBEAT) {
                SessionState { pending_heartbeat: true, ..seen }
            } else if m.opcode == Some(OP_RECONNECT) {
                seen.given_up(true)
            } else if m.opcode == Some(OP_INVALID_SESSION) {
                if m.resumable == Some(true) {
                    seen.given_up(true)
                } else {
                    SessionState { session_id: None, sequence: None, ..seen }.given_up(false)
                }
            } else if m.opcode == Some(OP_HEARTBEAT_ACK) {
                SessionState { awaiting_heartbeat_ack: false, ..seen }
            } else {
                seen
            }
        }
    }

    /// What the session does about a payload.
    pub open spec fn reaction(self, m: InboundView) -> Reaction {
        if !(self.phase is Steady) {
            Reaction::Continue
        } else if m.opcode == Some(OP_DISPATCH) {
            Reaction::Deliver
        } else if m.opcode == Some(OP_RECONNECT) {
            Reaction::Reconnect { delay_ms: 0 }
        } else if m.opcode == Some(OP_INVALID_SESSION) {
            Reaction::Reconnect { delay_ms: INVALID_SESSION_RETRY_DELAY_MS }
        } else {
            Reaction::Continue
        }
    }

    /// The connection was closed by the peer or failed.
    pub open spec fn after_closed(self) -> SessionState {
        if self.phase is Steady {
            self.given_up(true)
        } else {
            self.after_failure()
        }
    }

    /// The user shut the session down.
    pub open spec fn after_shutdown(self) -> SessionState {
        SessionState {
            phase: Phase::ShutDown,
            awaiting_heartbeat_ack: false,
            pending_heartbeat: false,
            ..self
        }
    }
}

fn clone_text(s: &Option<String>) -> (r: Option<String>)
    ensures
        r == *s,
{
    match s {
        Some(s) => Some(s.clone()),
        None => None,
    }
}

/// The session with the gateway.
pub struct Gateway {
    token: String,
    phase: Phase,
    heartbeat_interval_ms: u64,
    awaiting_heartbeat_ack: bool,
    pending_heartbeat: bool,
    sequence: Option<u64>,
    session_id: Option<String>,
    resume_gateway_url: Option<String>,
    reconnect_attempts: u32,
    resuming: bool,
}

impl View for Gateway {
    type V = SessionState;

    closed spec fn view(&self) -> SessionState {
        SessionState {
            token: self.token@,
            phase: self.phase,
            heartbeat_interval_ms: self.heartbeat_interval_ms,
            awaiting_heartbeat_ack: self.awaiting_heartbeat_ack,
            pending_heartbeat: self.pending_heartbeat,
            sequence: self.sequence,
            session_id: opt_view(self.session_id),
            resume_gateway_url: opt_view(self.resume_gateway_url),
            reconnect_attempts: self.reconnect_attempts,
            resuming: self.resuming,
        }
    }
}

impl Gateway {
    /// A session for the given token that has never connected. Its first
    /// attempt begins with `next_attempt`.
    pub fn new(token: &str) -> (g: Gateway)
        ensures
            g@ == SessionState::fresh(token@),
    {
        Gateway {
            token: String::from_str(token),
            phase: Phase::Reconnecting,
            heartbeat_interval_ms: 0,
            awaiting_heartbeat_ack: false,
            pending_heartbeat: false,
            sequence: None,
            session_id: None,
            resume_gateway_url: None,
            reconnect_attempts: 0,
            resuming: false,
        }
    }

    /// The state of the session.
    pub fn phase(&self) -> (p: Phase)
        ensures
            p == self@.phase,
    {
        self.phase
    }

    /// The heartbeat interval that the last hello gave, in milliseconds.
    pub fn heartbeat_interval_ms(&self) -> (ms: u64)
        ensures
            ms == self@.heartbeat_interval_ms,
    {
        self.heartbeat_interval_ms
    }

    /// Whether a heartbeat went out that the gateway has not acknowledged.
    pub fn awaiting_heartbeat_ack(&self) -> (b: bool)
        ensures
            b == self@.awaiting_heartbeat_ack,
    {
        self.awaiting_heartbeat_ack
    }

    /// Whether a heartbeat waits to be sent.
    pub fn pending_heartbeat(&self) -> (b: bool)
        ensures
            b == self@.pending_heartbeat,
    {
        self.pending_heartbeat
    }

    /// The last sequence number seen in this session.
    pub fn sequence(&self) -> (s: Option<u64>)
        ensures
            s == self@.sequence,
    {
        self.sequence
    }

    /// The identity of the session, once the session-ready event gave it.
    pub fn session_id(&self) -> (id: Option<String>)
        ensures
            opt_view(id) == self@.session_id,
    {
        clone_text(&self.session_id)
    }

    /// The address that the gateway gave for resuming.
    pub fn resume_gateway_url(&self) -> (url: Option<String>)
        ensures
            opt_view(url) == self@.resume_gateway_url,
    {
        clone_text(&self.resume_gateway_url)
    }

    /// How many handshakes failed since the last one that succeeded.
    pub fn reconnect_attempts(&self) -> (n: u32)
        ensures
            n == self@.reconnect_attempts,
    {
        self.reconnect_attempts
    }

    /// Whether the handshake under way, or the next one, resumes.
    pub fn is_resuming(&self) -> (b: bool)
        ensures
            b == self@.resuming,
    {
        self.resuming
    }

    /// Whether the session can be resumed.
    pub fn can_resume(&self) -> (b: bool)
        ensures
            b == self@.can_resume(),
    {
        self.session_id.is_some() && self.sequence.is_some()
    }

    /// The address of the next connection.
    pub fn endpoint(&self) -> (url: String)
        ensures
            url@ == self@.endpoint(),
    {
        match &self.resume_gateway_url {
            Some(url) => url.clone(),
            None => String::from_str(DEFAULT_GATEWAY_URL),
        }
    }

    fn give_up(&mut self, prefer_resume: bool)
        ensures
            final(self)@ == old(self)@.given_up(prefer_resume),
    {
        if self.phase != Phase::ShutDown {
            let resume = prefer_resume && self.can_resume();
            self.phase = Phase::Reconnecting;
            self.awaiting_heartbeat_ack = false;
            self.pending_heartbeat = false;
            self.resuming = resume;
        }
    }

    /// Begins the next attempt to connect and says where to connect and how
    /// long to wait first. There is no wait while no handshake has failed;
    /// after that the wait doubles with each failure up to a minute, plus up
    /// to a fifth of jitter that is drawn at random.
    pub fn next_attempt(&mut self) -> (attempt: Attempt)
        ensures
            final(self)@ == old(self)@.after_attempt_begun(),
            attempt.url@ == old(self)@.endpoint(),
            old(self)@.reconnect_attempts == 0 ==> attempt.delay_ms == 0,
            old(self)@.reconnect_attempts > 0 ==> {
                let base = backoff_base(old(self)@.reconnect_attempts);
                base <= attempt.delay_ms <= base + max_jitter(base)
            },
    {
        let delay_ms = if self.reconnect_attempts > 0 {
            backoff_with_jitter(self.reconnect_attempts)
        } else {
            0
        };
        let url = self.endpoint();
        if self.phase == Phase::Reconnecting {
            self.phase = Phase::Connecting;
        }
        Attempt { delay_ms, url }
    }

    /// Records that the connection is open: its first frame is awaited.
    pub fn connected(&mut self)
        ensures
            final(self)@ == old(self)@.after_connected(),
    {
        if self.phase == Phase::Connecting {
            self.phase = Phase::AwaitingHello;
        }
    }

    /// Records that the handshake failed: the connection could not be
    /// opened, no frame came, or the payload could not be sent.
    pub fn handshake_failed(&mut self)
        ensures
            final(self)@ == old(self)@.after_failure(),
    {
        let in_handshake = self.phase == Phase::Connecting || self.phase == Phase::AwaitingHello
            || self.phase == Phase::Identifying || self.phase == Phase::Resuming;
        if in_handshake {
            self.phase = Phase::Reconnecting;
            self.reconnect_attempts = if self.reconnect_attempts < u32::MAX {
                self.reconnect_attempts + 1
            } else {
                u32::MAX
            };
            self.resuming = false;
        }
    }

    /// Takes the first frame of a connection and answers it. A frame that is
    /// no hello with a heartbeat interval fails the handshake. A hello is
    /// answered with a resume payload if the session resumes, and else with
    /// a fresh identify, before which the old session's identity and
    /// sequence number are forgotten.
    pub fn on_hello(&mut self, hello: &Inbound) -> (r: Result<Outbound, Error>)
        ensures
            final(self)@ == old(self)@.after_hello(hello@),
            r is Ok <==> old(self)@.accepts_hello(hello@),
            r matches Err(e) ==> e is InvalidPayload,
            r matches Ok(out) ==> {
                if old(self)@.resuming {
                    out matches Outbound::Resume { token, session_id, sequence } && token@ == old(
                        self,
                    )@.token && opt_view(session_id) == old(self)@.session_id && sequence == old(
                        self,
                    )@.sequence
                } else {
                    out matches Outbound::Identify(id) && id.is_standard_for(old(self)@.token)
                        && final(self)@.session_id is None && final(self)@.sequence is None
                }
            },
    {
        if self.phase != Phase::AwaitingHello {
            return Err(Error::InvalidPayload);
        }
        let interval = match (hello.opcode, hello.heartbeat_interval) {
            (Some(op), Some(interval)) => {
                if op == OP_HELLO {
                    Some(interval)
                } else {
                    None
                }
            },
            _ => None,
        };
        match interval {
            None => {
                self.handshake_failed();
                Err(Error::InvalidPayload)
            },
            Some(interval) => {
                self.heartbeat_interval_ms = interval;
                if self.resuming {
                    self.phase = Phase::Resuming;
                    Ok(
                        Outbound::Resume {
                            token: self.token.clone(),
                            session_id: clone_text(&self.session_id),
                            sequence: self.sequence,
                        },
                    )
                } else {
                    self.phase = Phase::Identifying;
                    self.session_id = None;
                    self.sequence = None;
                    Ok(Outbound::Identify(Identify::new(self.token.as_str())))
                }
            },
        }
    }

    /// Records that the identify or resume payload went out: the session is
    /// in steady state and no attempt counts as failed any more. No heartbeat
    /// is due or awaited yet: the first one comes with the first tick of the
    /// timer.
    pub fn handshake_sent(&mut self)
        ensures
            final(self)@ == old(self)@.after_handshake_sent(),
    {
        if self.phase == Phase::Identifying || self.phase == Phase::Resuming {
            self.phase = Phase::Steady;
            self.reconnect_attempts = 0;
            self.awaiting_heartbeat_ack = false;
            self.pending_heartbeat = false;
        }
    }

    /// The heartbeat timer fired. If the last heartbeat is still
    /// unacknowledged the connection is dead: it is given up, to be resumed.
    /// Otherwise a heartbeat becomes due.
    pub fn on_tick(&mut self) -> (t: Tick)
        ensures
            final(self)@ == old(self)@.after_tick(),
            t == old(self)@.tick(),
    {
        if self.phase != Phase::Steady {
            Tick::Idle
        } else if self.awaiting_heartbeat_ack {
            self.give_up(true);
            Tick::Reconnect
        } else {
            self.pending_heartbeat = true;
            Tick::HeartbeatDue
        }
    }

    /// The heartbeat to send now, if one is due: opcode 1 with the last
    /// sequence number seen.
    pub fn pending_outbound(&self) -> (out: Option<Outbound>)
        ensures
            out is Some <==> self@.heartbeat_due(),
            out matches Some(o) ==> o == (Outbound::Heartbeat { sequence: self@.sequence }),
    {
        if self.phase == Phase::Steady && self.pending_heartbeat {
            Some(Outbound::Heartbeat { sequence: self.sequence })
        } else {
            None
        }
    }

    /// Records that the heartbeat that was due went out: its acknowledgement
    /// is awaited.
    pub fn heartbeat_sent(&mut self)
        ensures
            final(self)@ == old(self)@.after_heartbeat_sent(),
    {
        if self.phase == Phase::Steady && self.pending_heartbeat {
            self.awaiting_heartbeat_ack = true;
            self.pending_heartbeat = false;
        }
    }

    /// Takes what was read from an inbound payload in steady state. The
    /// sequence number is noted first; then the opcode decides: a dispatch
    /// is delivered (the session-ready event also gives the session its
    /// identity and its address for resuming), a heartbeat request makes a
    /// heartbeat due, a reconnect request and an invalid session give the
    /// connection up, an acknowledgement is noted, and everything else,
    /// a late hello included, is ignored.
    pub fn handle(&mut self, m: &Inbound) -> (r: Reaction)
        ensures
            final(self)@ == old(self)@.after_inbound(m@),
            r == old(self)@.reaction(m@),
    {
        if self.phase != Phase::Steady {
            return Reaction::Continue;
        }
        if let Some(s) = m.sequence {
            self.sequence = Some(s);
        }
        let op = match m.opcode {
            Some(op) => op,
            None => {
                return Reaction::Continue;
            },
        };
        if op == OP_DISPATCH {
            let ready = match &m.event_name {
                Some(name) => str_eq(name.as_str(), "READY"),
                None => false,
            };
            if ready {
                self.session_id = clone_text(&m.session_id);
                self.resume_gateway_url = match &m.resume_gateway_url {
                    Some(url) => {
                        let mut full = url.clone();
                        full.append(RESUME_URL_SUFFIX);
                        Some(full)
                    },
                    None => None,
                };
            }
            Reaction::Deliver
        } else if op == OP_HEARTBEAT {
            self.pending_heartbeat = true;
            Reaction::Continue
        } else if op == OP_RECONNECT {
            self.give_up(true);
            Reaction::Reconnect { delay_ms: 0 }
        } else if op == OP_INVALID_SESSION {
            let resumable = match m.resumable {
                Some(b) => b,
                None => false,
            };
            if !resumable {
                self.session_id = None;
                self.sequence = None;
            }
            self.give_up(resumable);
            Reaction::Reconnect { delay_ms: INVALID_SESSION_RETRY_DELAY_MS }
        } else if op == OP_HEARTBEAT_ACK {
            self.awaiting_heartbeat_ack = false;
            Reaction::Continue
        } else {
            Reaction::Continue
        }
    }

    /// Takes an inbound payload in steady state: reads what the session
    /// needs from it, lets `handle` decide, and hands a dispatch back for
    /// delivery.
    pub fn on_payload(&mut self, payload: RawPayload) -> (d: Directive)
        ensures
            final(self)@ == old(self)@.after_inbound(payload.facts()),
            match old(self)@.reaction(payload.facts()) {
                Reaction::Deliver => d matches Directive::Deliver(p) && p == payload,
                Reaction::Continue => d is Continue,
                Reaction::Reconnect { delay_ms } => d == (Directive::Reconnect { delay_ms }),
            },
    {
        let m = payload.inbound();
        match self.handle(&m) {
            Reaction::Deliver => Directive::Deliver(payload),
            Reaction::Continue => Directive::Continue,
            Reaction::Reconnect { delay_ms } => Directive::Reconnect { delay_ms },
        }
    }

    /// The peer closed the connection, or the transport failed. In steady
    /// state the connection is given up, to be resumed; during a handshake
    /// the handshake has failed.
    pub fn on_closed(&mut self)
        ensures
            final(self)@ == old(self)@.after_closed(),
    {
        if self.phase == Phase::Steady {
            self.give_up(true);
        } else {
            self.handshake_failed();
        }
    }

    /// Shuts the session down: no heartbeat is due or awaited any more, and
    /// nothing that happens afterwards changes that.
    pub fn shutdown(&mut self)
        ensures
            final(self)@ == old(self)@.after_shutdown(),
    {
        self.phase = Phase::ShutDown;
        self.awaiting_heartbeat_ack = false;
        self.pending_heartbeat = false;
    }
}

} // verus!
