//! What a client hears of a call.

use crate::types::ids::Uuid;
use vstd::prelude::*;

verus! {

/// One encoded frame from a peer.
#[derive(Debug, Clone, PartialEq, Eq)]
pub struct MediaFrameNotification {
    pub cid: u64,
    pub peer_cid: u64,
    pub track: u8,
    pub kind: u8,
    pub sequence: u32,
    pub timestamp: u32,
    pub flags: u8,
    pub payload: Vec<u8>,
    pub request_id: Option<Uuid>,
}

/// Frames of a track that will not come any more: a decoder should ask for a keyframe.
#[derive(Debug, Clone, Copy, PartialEq, Eq)]
pub struct MediaGapNotification {
    pub cid: u64,
    pub peer_cid: u64,
    pub track: u8,
    pub missing_from: u32,
    pub missing_to: u32,
    pub request_id: Option<Uuid>,
}

} // verus!
