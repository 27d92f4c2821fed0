//! What the agent tells a client about a session's link to its workspace server.
//!
//! A server can drop the link without anyone asking, and the agent reconnects the session
//! itself, under the same CID. These report that: `ServerConnectionLost` when the link goes,
//! then exactly one of `ServerReconnected` or `ServerReconnectFailed`. After a failure the
//! session is gone, and the usual `DisconnectNotification` follows.
//!
//! None of them answers a request, so `request_id` is always `None`.

use crate::types::ids::Uuid;
use vstd::prelude::*;

verus! {

#[derive(Debug, Clone, PartialEq, Eq)]
pub struct ServerConnectionLost {
    pub cid: u64,
    /// Whether the agent is trying to get the link back.
    pub reconnecting: bool,
    pub request_id: Option<Uuid>,
}

#[derive(Debug, Clone, PartialEq, Eq)]
pub struct ServerReconnected {
    pub cid: u64,
    pub request_id: Option<Uuid>,
}

#[derive(Debug, Clone, PartialEq, Eq)]
pub struct ServerReconnectFailed {
    pub cid: u64,
    pub reason: String,
    pub request_id: Option<Uuid>,
}

} // verus!
