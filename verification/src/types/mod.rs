//! What passes between the agent and its clients.

pub mod file;
pub mod group;
pub mod group_drop;
pub mod ids;
pub mod info;
pub mod local_db;
pub mod media;
pub mod payload;
pub mod peer;
pub mod request;
pub mod response;
pub mod server_link;
pub mod session;
pub mod settings;
pub mod simple_types;
pub mod turn;
