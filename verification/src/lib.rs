//! A small plugin registry: a record store for plugin entries, an in-process
//! event bus that fans mutation notifications out to subscribers, the handler
//! logic that ties the two together, and the rendering of server-sent-event
//! frames.

pub mod bus;
pub mod handlers;
pub mod plugin;
pub mod sse;
pub mod store;
