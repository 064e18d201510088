//! The session with the gateway: its wire format, its heartbeat and the
//! state machine that keeps it alive.

pub mod backoff;
pub mod gateway;
pub mod heartbeat;
pub mod identify;
pub mod laws;
pub mod payload;
pub mod wire;

pub use gateway::{Attempt, Directive, Gateway, Phase, Reaction, SessionState, Tick};
pub use heartbeat::Heartbeat;
pub use identify::{Activity, ConnectionProperties, Identify, PresenceUpdate};
pub use payload::{Frame, Inbound, InboundView, Outbound, RawPayload, Received};
