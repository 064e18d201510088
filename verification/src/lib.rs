//! Client-side logic for a real-time chat gateway: session lifecycle,
//! heartbeat scheduling, event dispatch and bounded event collectors.
//!
//! The library owns no socket, no clock and no task: it decides, and its
//! caller acts. The caller reports what happened and is told what to do.

pub mod cache;
pub mod client;
pub mod error;
pub mod gateway;
pub mod http;
pub mod json;
pub mod model;
pub mod text;

pub use cache::{Cache, CacheConfig, CacheStats};
pub use client::{
    ChannelsManager, CollectorOptions, DispatchEvent, DispatchEventType, GuildsManager,
    ReactionCollectEvent, ReactionEventType, RelationshipsManager, SearchThreadsParams,
    Subscription, UsersManager,
};
pub use error::{CaptchaInfo, Error, Result};
pub use gateway::{Gateway, Heartbeat, Identify};
pub use model::{Channel, Message, User};
