//! The core of a monitoring dashboard's server: calls are routed by name to
//! handlers that say what they need to know, actors take their messages one
//! at a time from a mailbox, a question waits on a reply slot until it is
//! answered or the actor is gone, and events go out to every dashboard that
//! is attached.
//!
//! Nothing here starts a thread or opens a socket. Handlers and actors are
//! steps from a state and what arrived to the next state and what is to be
//! done; whoever runs them does the waiting and the sending.

pub mod actor;
pub mod api;
pub mod ask;
pub mod codec;
pub mod events;
pub mod exchange;
pub mod mailbox;
pub mod records;
pub mod requests;
pub mod responses;
pub mod router;
pub mod rpc;
pub mod value;
