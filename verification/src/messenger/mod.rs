//! One connection to the agent, shared by the message streams of many local clients.

pub mod backend;
pub mod backend_map;
pub mod error;
pub mod outbound;
pub mod router;
pub mod stream_key;
pub mod tables;
pub mod wire;
