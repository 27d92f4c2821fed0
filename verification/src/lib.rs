//! The agent that holds a user's sessions with workspace servers, and the clients that talk to it.

pub mod bytes;
pub mod client;
pub mod connector;
pub mod duration;
pub mod kernel;
pub mod messenger;
pub mod sequences;
pub mod text;
pub mod types;
