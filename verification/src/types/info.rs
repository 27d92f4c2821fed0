//! What the agent tells a client about accounts, sessions and peers.

use std::collections::HashMap;
use vstd::prelude::*;

verus! {

#[derive(Debug, Clone, PartialEq, Eq)]
pub struct PeerInformation {
    pub cid: u64,
    pub online_status: bool,
    pub name: Option<String>,
    pub username: Option<String>,
}

#[derive(Debug, Clone, PartialEq, Eq)]
pub struct SessionInformation {
    pub cid: u64,
    pub username: String,
    pub peer_connections: HashMap<u64, PeerSessionInformation>,
}

#[derive(Debug, Clone, PartialEq, Eq)]
pub struct AccountInformation {
    pub username: String,
    pub full_name: String,
    pub peers: HashMap<u64, PeerSessionInformation>,
}

#[derive(Debug, Clone, PartialEq, Eq)]
pub struct PeerSessionInformation {
    pub cid: u64,
    pub peer_cid: u64,
    pub peer_username: String,
}

} // verus!
