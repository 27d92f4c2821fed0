//! The client library that runs in a page and talks to the agent.

pub mod cid;
pub mod connection_lifecycle;
pub mod messengers;
pub mod opens;
pub mod queue;
pub mod send;
pub mod task;
pub mod texts;
pub mod workspace;
