//! What a client asks of the agent.

use crate::duration::Duration;
use crate::types::ids::MessageGroupKey;
use crate::types::ids::ObjectId;
use crate::types::ids::Uuid;
use crate::types::settings::ConnectMode;
use crate::types::settings::PreSharedKey;
use crate::types::settings::SecBuffer;
use crate::types::settings::SecurityLevel;
use crate::types::settings::SessionSecuritySettings;
use crate::types::settings::TransferType;
use crate::types::settings::UdpMode;
use crate::types::settings::UserIdentifier;
use crate::types::turn::PeerTurnConfig;
use vstd::prelude::*;

verus! {

/// One request of a client.
#[derive(PartialEq, Eq)]
pub enum InternalServiceRequest {
    Connect {
        request_id: Uuid,
        username: String,
        password: SecBuffer,
        connect_mode: ConnectMode,
        udp_mode: UdpMode,
        keep_alive_timeout: Option<Duration>,
        session_security_settings: SessionSecuritySettings,
        server_password: Option<PreSharedKey>,
    },
    Register {
        request_id: Uuid,
        server_addr: String,
        full_name: String,
        username: String,
        proposed_password: SecBuffer,
        connect_after_register: bool,
        session_security_settings: SessionSecuritySettings,
        server_password: Option<PreSharedKey>,
    },
    Message {
        request_id: Uuid,
        message: Vec<u8>,
        cid: u64,
        peer_cid: Option<u64>,
        security_level: SecurityLevel,
    },
    Disconnect {
        request_id: Uuid,
        cid: u64,
    },
    SendFile {
        request_id: Uuid,
        source: String,
        cid: u64,
        peer_cid: Option<u64>,
        chunk_size: Option<usize>,
        transfer_type: TransferType,
    },
    RespondFileTransfer {
        cid: u64,
        peer_cid: u64,
        object_id: ObjectId,
        accept: bool,
        download_location: Option<String>,
        request_id: Uuid,
    },
    DownloadFile {
        virtual_directory: String,
        security_level: Option<SecurityLevel>,
        delete_on_pull: bool,
        cid: u64,
        peer_cid: Option<u64>,
        request_id: Uuid,
    },
    DeleteVirtualFile {
        virtual_directory: String,
        cid: u64,
        peer_cid: Option<u64>,
        request_id: Uuid,
    },
    ListAllPeers {
        request_id: Uuid,
        cid: u64,
    },
    ListRegisteredPeers {
        request_id: Uuid,
        cid: u64,
    },
    PeerConnect {
        request_id: Uuid,
        cid: u64,
        peer_cid: u64,
        udp_mode: UdpMode,
        session_security_settings: SessionSecuritySettings,
        peer_session_password: Option<PreSharedKey>,
        turn: Option<PeerTurnConfig>,
    },
    PeerDisconnect {
        request_id: Uuid,
        cid: u64,
        peer_cid: u64,
    },
    PeerRegister {
        request_id: Uuid,
        cid: u64,
        peer_cid: u64,
        session_security_settings: SessionSecuritySettings,
        connect_after_register: bool,
        peer_session_password: Option<PreSharedKey>,
    },
    LocalDBGetKV {
        request_id: Uuid,
        cid: u64,
        peer_cid: Option<u64>,
        key: String,
    },
    LocalDBSetKV {
        request_id: Uuid,
        cid: u64,
        peer_cid: Option<u64>,
        key: String,
        value: Vec<u8>,
    },
    LocalDBDeleteKV {
        request_id: Uuid,
        cid: u64,
        peer_cid: Option<u64>,
        key: String,
    },
    LocalDBGetAllKV {
        request_id: Uuid,
        cid: u64,
        peer_cid: Option<u64>,
    },
    LocalDBClearAllKV {
        request_id: Uuid,
        cid: u64,
        peer_cid: Option<u64>,
    },
    GetSessions {
        request_id: Uuid,
    },
    GetAccountInformation {
        request_id: Uuid,
        cid: Option<u64>,
    },
    GroupCreate {
        cid: u64,
        request_id: Uuid,
        initial_users_to_invite: Option<Vec<UserIdentifier>>,
    },
    GroupLeave {
        cid: u64,
        group_key: MessageGroupKey,
        request_id: Uuid,
    },
    GroupEnd {
        cid: u64,
        group_key: MessageGroupKey,
        request_id: Uuid,
    },
    GroupMessage {
        cid: u64,
        message: Vec<u8>,
        group_key: MessageGroupKey,
        request_id: Uuid,
    },
    GroupInvite {
        cid: u64,
        peer_cid: u64,
        group_key: MessageGroupKey,
        request_id: Uuid,
    },
    GroupRespondRequest {
        cid: u64,
        peer_cid: u64,
        group_key: MessageGroupKey,
        response: bool,
        request_id: Uuid,
        invitation: bool,
    },
    GroupKick {
        cid: u64,
        peer_cid: u64,
        group_key: MessageGroupKey,
        request_id: Uuid,
    },
    GroupListGroupsFor {
        cid: u64,
        peer_cid: Option<u64>,
        request_id: Uuid,
    },
    GroupRequestJoin {
        cid: u64,
        group_key: MessageGroupKey,
        request_id: Uuid,
    },
    /// One encoded media frame for a peer.
    MediaSend {
        request_id: Uuid,
        cid: u64,
        peer_cid: u64,
        track: u8,
        kind: u8,
        timestamp: u32,
        flags: u8,
        payload: Vec<u8>,
    },
    /// Several commands in one message, answered together.
    Batched {
        request_id: Uuid,
        commands: Vec<InternalServiceRequest>,
    },
}

impl InternalServiceRequest {
    /// The identifier that the answer to this will carry.
    pub open spec fn id(self) -> Uuid {
        match self {
            InternalServiceRequest::Connect { request_id, .. } => request_id,
            InternalServiceRequest::Register { request_id, .. } => request_id,
            InternalServiceRequest::Message { request_id, .. } => request_id,
            InternalServiceRequest::Disconnect { request_id, .. } => request_id,
            InternalServiceRequest::SendFile { request_id, .. } => request_id,
            InternalServiceRequest::RespondFileTransfer { request_id, .. } => request_id,
            InternalServiceRequest::DownloadFile { request_id, .. } => request_id,
            InternalServiceRequest::DeleteVirtualFile { request_id, .. } => request_id,
            InternalServiceRequest::ListAllPeers { request_id, .. } => request_id,
            InternalServiceRequest::ListRegisteredPeers { request_id, .. } => request_id,
            InternalServiceRequest::PeerConnect { request_id, .. } => request_id,
            InternalServiceRequest::PeerDisconnect { request_id, .. } => request_id,
            InternalServiceRequest::PeerRegister { request_id, .. } => request_id,
            InternalServiceRequest::LocalDBGetKV { request_id, .. } => request_id,
            InternalServiceRequest::LocalDBSetKV { request_id, .. } => request_id,
            InternalServiceRequest::LocalDBDeleteKV { request_id, .. } => request_id,
            InternalServiceRequest::LocalDBGetAllKV { request_id, .. } => request_id,
            InternalServiceRequest::LocalDBClearAllKV { request_id, .. } => request_id,
            InternalServiceRequest::GetSessions { request_id, .. } => request_id,
            InternalServiceRequest::GetAccountInformation { request_id, .. } => request_id,
            InternalServiceRequest::GroupCreate { request_id, .. } => request_id,
            InternalServiceRequest::GroupLeave { request_id, .. } => request_id,
            InternalServiceRequest::GroupEnd { request_id, .. } => request_id,
            InternalServiceRequest::GroupMessage { request_id, .. } => request_id,
            InternalServiceRequest::GroupInvite { request_id, .. } => request_id,
            InternalServiceRequest::GroupRespondRequest { request_id, .. } => request_id,
            InternalServiceRequest::GroupKick { request_id, .. } => request_id,
            InternalServiceRequest::GroupListGroupsFor { request_id, .. } => request_id,
            InternalServiceRequest::GroupRequestJoin { request_id, .. } => request_id,
            InternalServiceRequest::MediaSend { request_id, .. } => request_id,
            InternalServiceRequest::Batched { request_id, .. } => request_id,
        }
    }

    /// The identifier that the answer to this will carry.
    pub fn request_id(&self) -> (r: Option<&Uuid>)
        ensures
            r == Some(&self.id()),
    {
        match self {
            InternalServiceRequest::Connect { request_id, .. } => Some(request_id),
            InternalServiceRequest::Register { request_id, .. } => Some(request_id),
            InternalServiceRequest::Message { request_id, .. } => Some(request_id),
            InternalServiceRequest::Disconnect { request_id, .. } => Some(request_id),
            InternalServiceRequest::SendFile { request_id, .. } => Some(request_id),
            InternalServiceRequest::RespondFileTransfer { request_id, .. } => Some(request_id),
            InternalServiceRequest::DownloadFile { request_id, .. } => Some(request_id),
            InternalServiceRequest::DeleteVirtualFile { request_id, .. } => Some(request_id),
            InternalServiceRequest::ListAllPeers { request_id, .. } => Some(request_id),
            InternalServiceRequest::ListRegisteredPeers { request_id, .. } => Some(request_id),
            InternalServiceRequest::PeerConnect { request_id, .. } => Some(request_id),
            InternalServiceRequest::PeerDisconnect { request_id, .. } => Some(request_id),
            InternalServiceRequest::PeerRegister { request_id, .. } => Some(request_id),
            InternalServiceRequest::LocalDBGetKV { request_id, .. } => Some(request_id),
            InternalServiceRequest::LocalDBSetKV { request_id, .. } => Some(request_id),
            InternalServiceRequest::LocalDBDeleteKV { request_id, .. } => Some(request_id),
            InternalServiceRequest::LocalDBGetAllKV { request_id, .. } => Some(request_id),
            InternalServiceRequest::LocalDBClearAllKV { request_id, .. } => Some(request_id),
            InternalServiceRequest::GetSessions { request_id, .. } => Some(request_id),
            InternalServiceRequest::GetAccountInformation { request_id, .. } => Some(request_id),
            InternalServiceRequest::GroupCreate { request_id, .. } => Some(request_id),
            InternalServiceRequest::GroupLeave { request_id, .. } => Some(request_id),
            InternalServiceRequest::GroupEnd { request_id, .. } => Some(request_id),
            InternalServiceRequest::GroupMessage { request_id, .. } => Some(request_id),
            InternalServiceRequest::GroupInvite { request_id, .. } => Some(request_id),
            InternalServiceRequest::GroupRespondRequest { request_id, .. } => Some(request_id),
            InternalServiceRequest::GroupKick { request_id, .. } => Some(request_id),
            InternalServiceRequest::GroupListGroupsFor { request_id, .. } => Some(request_id),
            InternalServiceRequest::GroupRequestJoin { request_id, .. } => Some(request_id),
            InternalServiceRequest::MediaSend { request_id, .. } => Some(request_id),
            InternalServiceRequest::Batched { request_id, .. } => Some(request_id),
        }
    }
}

/// Whatever is asked, the answer is awaited under exactly the identifier that the request holds.
pub proof fn law_a_request_is_known_by_its_own_id(request: InternalServiceRequest)
    ensures
        match request {
            InternalServiceRequest::Connect { request_id, .. } => request.id() == request_id,
            InternalServiceRequest::Register { request_id, .. } => request.id() == request_id,
            InternalServiceRequest::Message { request_id, .. } => request.id() == request_id,
            InternalServiceRequest::Disconnect { request_id, .. } => request.id() == request_id,
            InternalServiceRequest::SendFile { request_id, .. } => request.id() == request_id,
            InternalServiceRequest::RespondFileTransfer { request_id, .. } => request.id() == request_id,
            InternalServiceRequest::DownloadFile { request_id, .. } => request.id() == request_id,
            InternalServiceRequest::DeleteVirtualFile { request_id, .. } => request.id() == request_id,
            InternalServiceRequest::ListAllPeers { request_id, .. } => request.id() == request_id,
            InternalServiceRequest::ListRegisteredPeers { request_id, .. } => request.id() == request_id,
            InternalServiceRequest::PeerConnect { request_id, .. } => request.id() == request_id,
            InternalServiceRequest::PeerDisconnect { request_id, .. } => request.id() == request_id,
            InternalServiceRequest::PeerRegister { request_id, .. } => request.id() == request_id,
            InternalServiceRequest::LocalDBGetKV { request_id, .. } => request.id() == request_id,
            InternalServiceRequest::LocalDBSetKV { request_id, .. } => request.id() == request_id,
            InternalServiceRequest::LocalDBDeleteKV { request_id, .. } => request.id() == request_id,
            InternalServiceRequest::LocalDBGetAllKV { request_id, .. } => request.id() == request_id,
            InternalServiceRequest::LocalDBClearAllKV { request_id, .. } => request.id() == request_id,
            InternalServiceRequest::GetSessions { request_id, .. } => request.id() == request_id,
            InternalServiceRequest::GetAccountInformation { request_id, .. } => request.id() == request_id,
            InternalServiceRequest::GroupCreate { request_id, .. } => request.id() == request_id,
            InternalServiceRequest::GroupLeave { request_id, .. } => request.id() == request_id,
            InternalServiceRequest::GroupEnd { request_id, .. } => request.id() == request_id,
            InternalServiceRequest::GroupMessage { request_id, .. } => request.id() == request_id,
            InternalServiceRequest::GroupInvite { request_id, .. } => request.id() == request_id,
            InternalServiceRequest::GroupRespondRequest { request_id, .. } => request.id() == request_id,
            InternalServiceRequest::GroupKick { request_id, .. } => request.id() == request_id,
            InternalServiceRequest::GroupListGroupsFor { request_id, .. } => request.id() == request_id,
            InternalServiceRequest::GroupRequestJoin { request_id, .. } => request.id() == request_id,
            InternalServiceRequest::MediaSend { request_id, .. } => request.id() == request_id,
            InternalServiceRequest::Batched { request_id, .. } => request.id() == request_id,
        },
{
}

} // verus!
