//! Answers and notices about files on their way.

use crate::types::ids::ObjectId;
use crate::types::ids::Uuid;
use crate::types::settings::ObjectTransferStatus;
use crate::types::settings::VirtualObjectMetadata;
use vstd::prelude::*;

verus! {

#[derive(Debug, Clone, PartialEq, Eq)]
pub struct SendFileRequestSuccess {
    pub cid: u64,
    pub request_id: Option<Uuid>,
}

#[derive(Debug, Clone, PartialEq, Eq)]
pub struct SendFileRequestFailure {
    pub cid: u64,
    pub message: String,
    pub request_id: Option<Uuid>,
}

#[derive(Debug, Clone, PartialEq, Eq)]
pub struct DownloadFileSuccess {
    pub cid: u64,
    pub request_id: Option<Uuid>,
}

#[derive(Debug, Clone, PartialEq, Eq)]
pub struct DownloadFileFailure {
    pub cid: u64,
    pub message: String,
    pub request_id: Option<Uuid>,
}

#[derive(Debug, Clone, PartialEq, Eq)]
pub struct DeleteVirtualFileSuccess {
    pub cid: u64,
    pub request_id: Option<Uuid>,
}

#[derive(Debug, Clone, PartialEq, Eq)]
pub struct DeleteVirtualFileFailure {
    pub cid: u64,
    pub message: String,
    pub request_id: Option<Uuid>,
}

#[derive(Debug, Clone, PartialEq, Eq)]
pub struct FileTransferRequestNotification {
    pub cid: u64,
    pub peer_cid: u64,
    pub metadata: VirtualObjectMetadata,
    pub request_id: Option<Uuid>,
}

#[derive(Debug, Clone, PartialEq, Eq)]
pub struct FileTransferStatusNotification {
    pub cid: u64,
    pub object_id: ObjectId,
    pub success: bool,
    pub response: bool,
    pub message: Option<String>,
    pub request_id: Option<Uuid>,
}

#[derive(Debug, Clone, PartialEq, Eq)]
pub struct FileTransferTickNotification {
    pub cid: u64,
    pub peer_cid: Option<u64>,
    pub status: ObjectTransferStatus,
    pub request_id: Option<Uuid>,
}

} // verus!
