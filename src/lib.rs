//! Social-graph messaging core: identity value types, visibility rules,
//! the in-memory social store, the channel multiplexer, the event bus and
//! the request router that ties them together.

pub mod cadet;
pub mod config;
pub mod crypto;
pub mod events;
pub mod gns;
pub mod handler;
pub mod identity;
pub mod messages;
pub mod platform;
pub mod social;
pub mod store;
pub mod text;
pub mod topics;
pub mod visibility;
