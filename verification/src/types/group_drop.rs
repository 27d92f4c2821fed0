//! A group message that reached this session but could not be read here.
//!
//! Group messages are encrypted end to end under keys that a session which was just
//! established does not have until the group's owner adds it again; the relay keeps forwarding
//! the group's messages meanwhile.

use crate::types::ids::MessageGroupKey;
use crate::types::ids::Uuid;
use vstd::prelude::*;

verus! {

#[derive(Debug, Clone, PartialEq, Eq)]
pub struct GroupMessageDroppedNotification {
    /// The session the message was addressed to.
    pub cid: u64,
    pub group_key: MessageGroupKey,
    /// The CID of the member who sent the message.
    pub sender: u64,
    /// Why this session could not read it.
    pub reason: String,
    pub request_id: Option<Uuid>,
}

} // verus!
