//! What sits on top of the gateway: dispatch events, their routing to
//! handlers, and bounded collectors.

pub mod collector_laws;
pub mod collectors;
pub mod dispatcher;
pub mod events;
pub mod image;
pub mod managers;

pub use collectors::{
    CollectorOptions, CollectorTarget, Inspection, ReactionCollectEvent, ReactionEventType, Round,
    Signal, Step, Subscription, Wait,
};
pub use dispatcher::{choose_hook, loop_action, route, users_to_cache, Hook, LoopAction, Route, Wake};
pub use events::{DispatchEvent, DispatchEventType};
pub use managers::{
    ArchivedThreads, ChannelsManager, GuildsManager, RelationshipsManager, SearchThreadsParams,
    UsersManager,
};
