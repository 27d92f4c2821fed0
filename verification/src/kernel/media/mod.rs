//! Media (audio and video) for a peer connection.
//!
//! Frames travel on the session's datagram channel, not on the reliable channel that carries
//! messages: a call must not queue behind a file, and on a reliable channel congestion turns
//! into delay without bound, where a lost frame is the cheaper failure.

pub mod config;
pub mod lane;
pub mod pump;
pub mod udp_state;
