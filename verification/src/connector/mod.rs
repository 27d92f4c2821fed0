//! The socket that clients reach the agent by: who may open it, and what comes through it.

pub mod frame;
pub mod handshake;
pub mod host_policy;
pub mod origin_policy;
pub mod tls;
pub mod websocket;
