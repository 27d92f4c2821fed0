//! The agent's kernel: the sessions it keeps, and what it decides for them.

pub mod c2s_reader;
pub mod cid_scoped_state;
pub mod connection;
pub mod credential_fingerprint;
pub mod ext;
pub mod group_channels;
pub mod media;
pub mod pair_table;
pub mod reconnect;
pub mod service;
pub mod sessions;
