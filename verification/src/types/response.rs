//! What the agent answers, and what it reports without being asked.

use crate::types::ids::Uuid;
use crate::types::file::DeleteVirtualFileFailure;
use crate::types::file::DeleteVirtualFileSuccess;
use crate::types::file::DownloadFileFailure;
use crate::types::file::DownloadFileSuccess;
use crate::types::file::FileTransferRequestNotification;
use crate::types::file::FileTransferStatusNotification;
use crate::types::file::FileTransferTickNotification;
use crate::types::file::SendFileRequestFailure;
use crate::types::file::SendFileRequestSuccess;
use crate::types::group::GroupBroadcastHandleFailure;
use crate::types::group::GroupChannelCreateFailure;
use crate::types::group::GroupChannelCreateSuccess;
use crate::types::group::GroupCreateFailure;
use crate::types::group::GroupCreateSuccess;
use crate::types::group::GroupDisconnectNotification;
use crate::types::group::GroupEndFailure;
use crate::types::group::GroupEndNotification;
use crate::types::group::GroupEndSuccess;
use crate::types::group::GroupInviteFailure;
use crate::types::group::GroupInviteNotification;
use crate::types::group::GroupInviteSuccess;
use crate::types::group::GroupJoinRequestNotification;
use crate::types::group::GroupKickFailure;
use crate::types::group::GroupKickSuccess;
use crate::types::group::GroupLeaveFailure;
use crate::types::group::GroupLeaveNotification;
use crate::types::group::GroupLeaveSuccess;
use crate::types::group::GroupListGroupsFailure;
use crate::types::group::GroupListGroupsResponse;
use crate::types::group::GroupListGroupsSuccess;
use crate::types::group::GroupMemberStateChangeNotification;
use crate::types::group::GroupMembershipResponse;
use crate::types::group::GroupMessageFailure;
use crate::types::group::GroupMessageNotification;
use crate::types::group::GroupMessageResponse;
use crate::types::group::GroupMessageSuccess;
use crate::types::group::GroupRequestJoinAcceptResponse;
use crate::types::group::GroupRequestJoinDeclineResponse;
use crate::types::group::GroupRequestJoinFailure;
use crate::types::group::GroupRequestJoinPendingNotification;
use crate::types::group::GroupRequestJoinSuccess;
use crate::types::group::GroupRespondRequestFailure;
use crate::types::group::GroupRespondRequestSuccess;
use crate::types::group_drop::GroupMessageDroppedNotification;
use crate::types::local_db::LocalDBClearAllKVFailure;
use crate::types::local_db::LocalDBClearAllKVSuccess;
use crate::types::local_db::LocalDBDeleteKVFailure;
use crate::types::local_db::LocalDBDeleteKVSuccess;
use crate::types::local_db::LocalDBGetAllKVFailure;
use crate::types::local_db::LocalDBGetAllKVSuccess;
use crate::types::local_db::LocalDBGetKVFailure;
use crate::types::local_db::LocalDBGetKVSuccess;
use crate::types::local_db::LocalDBSetKVFailure;
use crate::types::local_db::LocalDBSetKVSuccess;
use crate::types::media::MediaFrameNotification;
use crate::types::media::MediaGapNotification;
use crate::types::peer::ListAllPeersFailure;
use crate::types::peer::ListAllPeersResponse;
use crate::types::peer::ListRegisteredPeersFailure;
use crate::types::peer::ListRegisteredPeersResponse;
use crate::types::peer::PeerConnectFailure;
use crate::types::peer::PeerConnectNotification;
use crate::types::peer::PeerConnectSuccess;
use crate::types::peer::PeerDisconnectFailure;
use crate::types::peer::PeerDisconnectSuccess;
use crate::types::peer::PeerRegisterFailure;
use crate::types::peer::PeerRegisterNotification;
use crate::types::peer::PeerRegisterSuccess;
use crate::types::server_link::ServerConnectionLost;
use crate::types::server_link::ServerReconnectFailed;
use crate::types::server_link::ServerReconnected;
use crate::types::session::Accounts;
use crate::types::session::ConnectFailure;
use crate::types::session::ConnectSuccess;
use crate::types::session::DisconnectFailure;
use crate::types::session::DisconnectNotification;
use crate::types::session::GetSessionsResponse;
use crate::types::session::MessageNotification;
use crate::types::session::MessageSendFailure;
use crate::types::session::MessageSendSuccess;
use crate::types::session::RegisterFailure;
use crate::types::session::RegisterSuccess;
use crate::types::session::ServiceConnectionAccepted;
use vstd::prelude::*;

verus! {

/// One answer or notice of the agent.
#[derive(Debug, PartialEq, Eq)]
pub enum InternalServiceResponse {
    ConnectSuccess(ConnectSuccess),
    ConnectFailure(ConnectFailure),
    RegisterSuccess(RegisterSuccess),
    RegisterFailure(RegisterFailure),
    ServiceConnectionAccepted(ServiceConnectionAccepted),
    MessageSendSuccess(MessageSendSuccess),
    MessageSendFailure(MessageSendFailure),
    MessageNotification(MessageNotification),
    DisconnectNotification(DisconnectNotification),
    DisconnectFailure(DisconnectFailure),
    SendFileRequestSuccess(SendFileRequestSuccess),
    SendFileRequestFailure(SendFileRequestFailure),
    FileTransferRequestNotification(FileTransferRequestNotification),
    FileTransferStatusNotification(FileTransferStatusNotification),
    FileTransferTickNotification(FileTransferTickNotification),
    DownloadFileSuccess(DownloadFileSuccess),
    DownloadFileFailure(DownloadFileFailure),
    DeleteVirtualFileSuccess(DeleteVirtualFileSuccess),
    DeleteVirtualFileFailure(DeleteVirtualFileFailure),
    PeerConnectSuccess(PeerConnectSuccess),
    PeerConnectFailure(PeerConnectFailure),
    PeerConnectNotification(PeerConnectNotification),
    PeerRegisterNotification(PeerRegisterNotification),
    PeerDisconnectSuccess(PeerDisconnectSuccess),
    PeerDisconnectFailure(PeerDisconnectFailure),
    PeerRegisterSuccess(PeerRegisterSuccess),
    PeerRegisterFailure(PeerRegisterFailure),
    GroupChannelCreateSuccess(GroupChannelCreateSuccess),
    GroupChannelCreateFailure(GroupChannelCreateFailure),
    GroupBroadcastHandleFailure(GroupBroadcastHandleFailure),
    GroupCreateSuccess(GroupCreateSuccess),
    GroupCreateFailure(GroupCreateFailure),
    GroupLeaveSuccess(GroupLeaveSuccess),
    GroupLeaveFailure(GroupLeaveFailure),
    GroupLeaveNotification(GroupLeaveNotification),
    GroupEndSuccess(GroupEndSuccess),
    GroupEndFailure(GroupEndFailure),
    GroupEndNotification(GroupEndNotification),
    GroupMessageNotification(GroupMessageNotification),
    GroupMessageResponse(GroupMessageResponse),
    GroupMessageSuccess(GroupMessageSuccess),
    GroupMessageFailure(GroupMessageFailure),
    GroupInviteNotification(GroupInviteNotification),
    GroupInviteSuccess(GroupInviteSuccess),
    GroupInviteFailure(GroupInviteFailure),
    GroupRespondRequestSuccess(GroupRespondRequestSuccess),
    GroupRespondRequestFailure(GroupRespondRequestFailure),
    GroupMembershipResponse(GroupMembershipResponse),
    GroupRequestJoinPendingNotification(GroupRequestJoinPendingNotification),
    GroupDisconnectNotification(GroupDisconnectNotification),
    GroupKickSuccess(GroupKickSuccess),
    GroupKickFailure(GroupKickFailure),
    GroupListGroupsSuccess(GroupListGroupsSuccess),
    GroupListGroupsFailure(GroupListGroupsFailure),
    GroupListGroupsResponse(GroupListGroupsResponse),
    GroupJoinRequestNotification(GroupJoinRequestNotification),
    GroupRequestJoinAcceptResponse(GroupRequestJoinAcceptResponse),
    GroupRequestJoinDeclineResponse(GroupRequestJoinDeclineResponse),
    GroupRequestJoinSuccess(GroupRequestJoinSuccess),
    GroupRequestJoinFailure(GroupRequestJoinFailure),
    GroupMemberStateChangeNotification(GroupMemberStateChangeNotification),
    LocalDBGetKVSuccess(LocalDBGetKVSuccess),
    LocalDBGetKVFailure(LocalDBGetKVFailure),
    LocalDBSetKVSuccess(LocalDBSetKVSuccess),
    LocalDBSetKVFailure(LocalDBSetKVFailure),
    LocalDBDeleteKVSuccess(LocalDBDeleteKVSuccess),
    LocalDBDeleteKVFailure(LocalDBDeleteKVFailure),
    LocalDBGetAllKVSuccess(LocalDBGetAllKVSuccess),
    LocalDBGetAllKVFailure(LocalDBGetAllKVFailure),
    LocalDBClearAllKVSuccess(LocalDBClearAllKVSuccess),
    LocalDBClearAllKVFailure(LocalDBClearAllKVFailure),
    GetSessionsResponse(GetSessionsResponse),
    GetAccountInformationResponse(Accounts),
    ListAllPeersResponse(ListAllPeersResponse),
    ListAllPeersFailure(ListAllPeersFailure),
    ListRegisteredPeersResponse(ListRegisteredPeersResponse),
    ListRegisteredPeersFailure(ListRegisteredPeersFailure),
    ServerConnectionLost(ServerConnectionLost),
    ServerReconnected(ServerReconnected),
    ServerReconnectFailed(ServerReconnectFailed),
    GroupMessageDroppedNotification(GroupMessageDroppedNotification),
    MediaFrameNotification(MediaFrameNotification),
    MediaGapNotification(MediaGapNotification),
    BatchedResponse(BatchedResponseData),
}

/// The answers to the commands of one batch, in their order.
#[derive(Debug, PartialEq, Eq)]
pub struct BatchedResponseData {
    pub cid: u64,
    pub results: Vec<InternalServiceResponse>,
    pub request_id: Option<Uuid>,
}

impl InternalServiceResponse {
    /// Whether this reports that a request failed: the answers named `...Failure`.
    pub open spec fn reports_failure(self) -> bool {
        match self {
            InternalServiceResponse::ConnectFailure(_) => true,
            InternalServiceResponse::RegisterFailure(_) => true,
            InternalServiceResponse::MessageSendFailure(_) => true,
            InternalServiceResponse::DisconnectFailure(_) => true,
            InternalServiceResponse::SendFileRequestFailure(_) => true,
            InternalServiceResponse::DownloadFileFailure(_) => true,
            InternalServiceResponse::DeleteVirtualFileFailure(_) => true,
            InternalServiceResponse::PeerConnectFailure(_) => true,
            InternalServiceResponse::PeerDisconnectFailure(_) => true,
            InternalServiceResponse::PeerRegisterFailure(_) => true,
            InternalServiceResponse::GroupChannelCreateFailure(_) => true,
            InternalServiceResponse::GroupBroadcastHandleFailure(_) => true,
            InternalServiceResponse::GroupCreateFailure(_) => true,
            InternalServiceResponse::GroupLeaveFailure(_) => true,
            InternalServiceResponse::GroupEndFailure(_) => true,
            InternalServiceResponse::GroupMessageFailure(_) => true,
            InternalServiceResponse::GroupInviteFailure(_) => true,
            InternalServiceResponse::GroupRespondRequestFailure(_) => true,
            InternalServiceResponse::GroupKickFailure(_) => true,
            InternalServiceResponse::GroupListGroupsFailure(_) => true,
            InternalServiceResponse::GroupRequestJoinFailure(_) => true,
            InternalServiceResponse::LocalDBGetKVFailure(_) => true,
            InternalServiceResponse::LocalDBSetKVFailure(_) => true,
            InternalServiceResponse::LocalDBDeleteKVFailure(_) => true,
            InternalServiceResponse::LocalDBGetAllKVFailure(_) => true,
            InternalServiceResponse::LocalDBClearAllKVFailure(_) => true,
            InternalServiceResponse::ListAllPeersFailure(_) => true,
            InternalServiceResponse::ListRegisteredPeersFailure(_) => true,
            _ => false,
        }
    }

    /// Whether this reports that a request failed: the answers named `...Failure`.
    pub fn is_error(&self) -> (r: bool)
        ensures
            r == self.reports_failure(),
    {
        match self {
            InternalServiceResponse::ConnectFailure(_) => true,
            InternalServiceResponse::RegisterFailure(_) => true,
            InternalServiceResponse::MessageSendFailure(_) => true,
            InternalServiceResponse::DisconnectFailure(_) => true,
            InternalServiceResponse::SendFileRequestFailure(_) => true,
            InternalServiceResponse::DownloadFileFailure(_) => true,
            InternalServiceResponse::DeleteVirtualFileFailure(_) => true,
            InternalServiceResponse::PeerConnectFailure(_) => true,
            InternalServiceResponse::PeerDisconnectFailure(_) => true,
            InternalServiceResponse::PeerRegisterFailure(_) => true,
            InternalServiceResponse::GroupChannelCreateFailure(_) => true,
            InternalServiceResponse::GroupBroadcastHandleFailure(_) => true,
            InternalServiceResponse::GroupCreateFailure(_) => true,
            InternalServiceResponse::GroupLeaveFailure(_) => true,
            InternalServiceResponse::GroupEndFailure(_) => true,
            InternalServiceResponse::GroupMessageFailure(_) => true,
            InternalServiceResponse::GroupInviteFailure(_) => true,
            InternalServiceResponse::GroupRespondRequestFailure(_) => true,
            InternalServiceResponse::GroupKickFailure(_) => true,
            InternalServiceResponse::GroupListGroupsFailure(_) => true,
            InternalServiceResponse::GroupRequestJoinFailure(_) => true,
            InternalServiceResponse::LocalDBGetKVFailure(_) => true,
            InternalServiceResponse::LocalDBSetKVFailure(_) => true,
            InternalServiceResponse::LocalDBDeleteKVFailure(_) => true,
            InternalServiceResponse::LocalDBGetAllKVFailure(_) => true,
            InternalServiceResponse::LocalDBClearAllKVFailure(_) => true,
            InternalServiceResponse::ListAllPeersFailure(_) => true,
            InternalServiceResponse::ListRegisteredPeersFailure(_) => true,
            _ => false,
        }
    }

    /// Whether nobody asked for this: the responses named `...Notification`.
    pub open spec fn unrequested(self) -> bool {
        match self {
            InternalServiceResponse::MessageNotification(_) => true,
            InternalServiceResponse::DisconnectNotification(_) => true,
            InternalServiceResponse::FileTransferRequestNotification(_) => true,
            InternalServiceResponse::FileTransferStatusNotification(_) => true,
            InternalServiceResponse::FileTransferTickNotification(_) => true,
            InternalServiceResponse::PeerConnectNotification(_) => true,
            InternalServiceResponse::PeerRegisterNotification(_) => true,
            InternalServiceResponse::GroupLeaveNotification(_) => true,
            InternalServiceResponse::GroupEndNotification(_) => true,
            InternalServiceResponse::GroupMessageNotification(_) => true,
            InternalServiceResponse::GroupInviteNotification(_) => true,
            InternalServiceResponse::GroupRequestJoinPendingNotification(_) => true,
            InternalServiceResponse::GroupDisconnectNotification(_) => true,
            InternalServiceResponse::GroupJoinRequestNotification(_) => true,
            InternalServiceResponse::GroupMemberStateChangeNotification(_) => true,
            InternalServiceResponse::GroupMessageDroppedNotification(_) => true,
            InternalServiceResponse::MediaFrameNotification(_) => true,
            InternalServiceResponse::MediaGapNotification(_) => true,
            _ => false,
        }
    }

    /// Whether nobody asked for this: the responses named `...Notification`.
    pub fn is_notification(&self) -> (r: bool)
        ensures
            r == self.unrequested(),
    {
        match self {
            InternalServiceResponse::MessageNotification(_) => true,
            InternalServiceResponse::DisconnectNotification(_) => true,
            InternalServiceResponse::FileTransferRequestNotification(_) => true,
            InternalServiceResponse::FileTransferStatusNotification(_) => true,
            InternalServiceResponse::FileTransferTickNotification(_) => true,
            InternalServiceResponse::PeerConnectNotification(_) => true,
            InternalServiceResponse::PeerRegisterNotification(_) => true,
            InternalServiceResponse::GroupLeaveNotification(_) => true,
            InternalServiceResponse::GroupEndNotification(_) => true,
            InternalServiceResponse::GroupMessageNotification(_) => true,
            InternalServiceResponse::GroupInviteNotification(_) => true,
            InternalServiceResponse::GroupRequestJoinPendingNotification(_) => true,
            InternalServiceResponse::GroupDisconnectNotification(_) => true,
            InternalServiceResponse::GroupJoinRequestNotification(_) => true,
            InternalServiceResponse::GroupMemberStateChangeNotification(_) => true,
            InternalServiceResponse::GroupMessageDroppedNotification(_) => true,
            InternalServiceResponse::MediaFrameNotification(_) => true,
            InternalServiceResponse::MediaGapNotification(_) => true,
            _ => false,
        }
    }

    /// The session that this is about.
    pub open spec fn session(self) -> u64 {
        match self {
            InternalServiceResponse::ConnectSuccess(inner) => inner.cid,
            InternalServiceResponse::ConnectFailure(inner) => inner.cid,
            InternalServiceResponse::RegisterSuccess(inner) => inner.cid,
            InternalServiceResponse::RegisterFailure(inner) => inner.cid,
            InternalServiceResponse::ServiceConnectionAccepted(inner) => inner.cid,
            InternalServiceResponse::MessageSendSuccess(inner) => inner.cid,
            InternalServiceResponse::MessageSendFailure(inner) => inner.cid,
            InternalServiceResponse::MessageNotification(inner) => inner.cid,
            InternalServiceResponse::DisconnectNotification(inner) => inner.cid,
            InternalServiceResponse::DisconnectFailure(inner) => inner.cid,
            InternalServiceResponse::SendFileRequestSuccess(inner) => inner.cid,
            InternalServiceResponse::SendFileRequestFailure(inner) => inner.cid,
            InternalServiceResponse::FileTransferRequestNotification(inner) => inner.cid,
            InternalServiceResponse::FileTransferStatusNotification(inner) => inner.cid,
            InternalServiceResponse::FileTransferTickNotification(inner) => inner.cid,
            InternalServiceResponse::DownloadFileSuccess(inner) => inner.cid,
            InternalServiceResponse::DownloadFileFailure(inner) => inner.cid,
            InternalServiceResponse::DeleteVirtualFileSuccess(inner) => inner.cid,
            InternalServiceResponse::DeleteVirtualFileFailure(inner) => inner.cid,
            InternalServiceResponse::PeerConnectSuccess(inner) => inner.cid,
            InternalServiceResponse::PeerConnectFailure(inner) => inner.cid,
            InternalServiceResponse::PeerConnectNotification(inner) => inner.cid,
            InternalServiceResponse::PeerRegisterNotification(inner) => inner.cid,
            InternalServiceResponse::PeerDisconnectSuccess(inner) => inner.cid,
            InternalServiceResponse::PeerDisconnectFailure(inner) => inner.cid,
            InternalServiceResponse::PeerRegisterSuccess(inner) => inner.cid,
            InternalServiceResponse::PeerRegisterFailure(inner) => inner.cid,
            InternalServiceResponse::GroupChannelCreateSuccess(inner) => inner.cid,
            InternalServiceResponse::GroupChannelCreateFailure(inner) => inner.cid,
            InternalServiceResponse::GroupBroadcastHandleFailure(inner) => inner.cid,
            InternalServiceResponse::GroupCreateSuccess(inner) => inner.cid,
            InternalServiceResponse::GroupCreateFailure(inner) => inner.cid,
            InternalServiceResponse::GroupLeaveSuccess(inner) => inner.cid,
            InternalServiceResponse::GroupLeaveFailure(inner) => inner.cid,
            InternalServiceResponse::GroupLeaveNotification(inner) => inner.cid,
            InternalServiceResponse::GroupEndSuccess(inner) => inner.cid,
            InternalServiceResponse::GroupEndFailure(inner) => inner.cid,
            InternalServiceResponse::GroupEndNotification(inner) => inner.cid,
            InternalServiceResponse::GroupMessageNotification(inner) => inner.cid,
            InternalServiceResponse::GroupMessageResponse(inner) => inner.cid,
            InternalServiceResponse::GroupMessageSuccess(inner) => inner.cid,
            InternalServiceResponse::GroupMessageFailure(inner) => inner.cid,
            InternalServiceResponse::GroupInviteNotification(inner) => inner.cid,
            InternalServiceResponse::GroupInviteSuccess(inner) => inner.cid,
            InternalServiceResponse::GroupInviteFailure(inner) => inner.cid,
            InternalServiceResponse::GroupRespondRequestSuccess(inner) => inner.cid,
            InternalServiceResponse::GroupRespondRequestFailure(inner) => inner.cid,
            InternalServiceResponse::GroupMembershipResponse(inner) => inner.cid,
            InternalServiceResponse::GroupRequestJoinPendingNotification(inner) => inner.cid,
            InternalServiceResponse::GroupDisconnectNotification(inner) => inner.cid,
            InternalServiceResponse::GroupKickSuccess(inner) => inner.cid,
            InternalServiceResponse::GroupKickFailure(inner) => inner.cid,
            InternalServiceResponse::GroupListGroupsSuccess(inner) => inner.cid,
            InternalServiceResponse::GroupListGroupsFailure(inner) => inner.cid,
            InternalServiceResponse::GroupListGroupsResponse(inner) => inner.cid,
            InternalServiceResponse::GroupJoinRequestNotification(inner) => inner.cid,
            InternalServiceResponse::GroupRequestJoinAcceptResponse(inner) => inner.cid,
            InternalServiceResponse::GroupRequestJoinDeclineResponse(inner) => inner.cid,
            InternalServiceResponse::GroupRequestJoinSuccess(inner) => inner.cid,
            InternalServiceResponse::GroupRequestJoinFailure(inner) => inner.cid,
            InternalServiceResponse::GroupMemberStateChangeNotification(inner) => inner.cid,
            InternalServiceResponse::LocalDBGetKVSuccess(inner) => inner.cid,
            InternalServiceResponse::LocalDBGetKVFailure(inner) => inner.cid,
            InternalServiceResponse::LocalDBSetKVSuccess(inner) => inner.cid,
            InternalServiceResponse::LocalDBSetKVFailure(inner) => inner.cid,
            InternalServiceResponse::LocalDBDeleteKVSuccess(inner) => inner.cid,
            InternalServiceResponse::LocalDBDeleteKVFailure(inner) => inner.cid,
            InternalServiceResponse::LocalDBGetAllKVSuccess(inner) => inner.cid,
            InternalServiceResponse::LocalDBGetAllKVFailure(inner) => inner.cid,
            InternalServiceResponse::LocalDBClearAllKVSuccess(inner) => inner.cid,
            InternalServiceResponse::LocalDBClearAllKVFailure(inner) => inner.cid,
            InternalServiceResponse::GetSessionsResponse(inner) => inner.cid,
            InternalServiceResponse::GetAccountInformationResponse(inner) => inner.cid,
            InternalServiceResponse::ListAllPeersResponse(inner) => inner.cid,
            InternalServiceResponse::ListAllPeersFailure(inner) => inner.cid,
            InternalServiceResponse::ListRegisteredPeersResponse(inner) => inner.cid,
            InternalServiceResponse::ListRegisteredPeersFailure(inner) => inner.cid,
            InternalServiceResponse::ServerConnectionLost(inner) => inner.cid,
            InternalServiceResponse::ServerReconnected(inner) => inner.cid,
            InternalServiceResponse::ServerReconnectFailed(inner) => inner.cid,
            InternalServiceResponse::GroupMessageDroppedNotification(inner) => inner.cid,
            InternalServiceResponse::MediaFrameNotification(inner) => inner.cid,
            InternalServiceResponse::MediaGapNotification(inner) => inner.cid,
            InternalServiceResponse::BatchedResponse(inner) => inner.cid,
        }
    }

    /// The session that this is about.
    pub fn cid(&self) -> (r: u64)
        ensures
            r == self.session(),
    {
        match self {
            InternalServiceResponse::ConnectSuccess(inner) => inner.cid,
            InternalServiceResponse::ConnectFailure(inner) => inner.cid,
            InternalServiceResponse::RegisterSuccess(inner) => inner.cid,
            InternalServiceResponse::RegisterFailure(inner) => inner.cid,
            InternalServiceResponse::ServiceConnectionAccepted(inner) => inner.cid,
            InternalServiceResponse::MessageSendSuccess(inner) => inner.cid,
            InternalServiceResponse::MessageSendFailure(inner) => inner.cid,
            InternalServiceResponse::MessageNotification(inner) => inner.cid,
            InternalServiceResponse::DisconnectNotification(inner) => inner.cid,
            InternalServiceResponse::DisconnectFailure(inner) => inner.cid,
            InternalServiceResponse::SendFileRequestSuccess(inner) => inner.cid,
            InternalServiceResponse::SendFileRequestFailure(inner) => inner.cid,
            InternalServiceResponse::FileTransferRequestNotification(inner) => inner.cid,
            InternalServiceResponse::FileTransferStatusNotification(inner) => inner.cid,
            InternalServiceResponse::FileTransferTickNotification(inner) => inner.cid,
            InternalServiceResponse::DownloadFileSuccess(inner) => inner.cid,
            InternalServiceResponse::DownloadFileFailure(inner) => inner.cid,
            InternalServiceResponse::DeleteVirtualFileSuccess(inner) => inner.cid,
            InternalServiceResponse::DeleteVirtualFileFailure(inner) => inner.cid,
            InternalServiceResponse::PeerConnectSuccess(inner) => inner.cid,
            InternalServiceResponse::PeerConnectFailure(inner) => inner.cid,
            InternalServiceResponse::PeerConnectNotification(inner) => inner.cid,
            InternalServiceResponse::PeerRegisterNotification(inner) => inner.cid,
            InternalServiceResponse::PeerDisconnectSuccess(inner) => inner.cid,
            InternalServiceResponse::PeerDisconnectFailure(inner) => inner.cid,
            InternalServiceResponse::PeerRegisterSuccess(inner) => inner.cid,
            InternalServiceResponse::PeerRegisterFailure(inner) => inner.cid,
            InternalServiceResponse::GroupChannelCreateSuccess(inner) => inner.cid,
            InternalServiceResponse::GroupChannelCreateFailure(inner) => inner.cid,
            InternalServiceResponse::GroupBroadcastHandleFailure(inner) => inner.cid,
            InternalServiceResponse::GroupCreateSuccess(inner) => inner.cid,
            InternalServiceResponse::GroupCreateFailure(inner) => inner.cid,
            InternalServiceResponse::GroupLeaveSuccess(inner) => inner.cid,
            InternalServiceResponse::GroupLeaveFailure(inner) => inner.cid,
            InternalServiceResponse::GroupLeaveNotification(inner) => inner.cid,
            InternalServiceResponse::GroupEndSuccess(inner) => inner.cid,
            InternalServiceResponse::GroupEndFailure(inner) => inner.cid,
            InternalServiceResponse::GroupEndNotification(inner) => inner.cid,
            InternalServiceResponse::GroupMessageNotification(inner) => inner.cid,
            InternalServiceResponse::GroupMessageResponse(inner) => inner.cid,
            InternalServiceResponse::GroupMessageSuccess(inner) => inner.cid,
            InternalServiceResponse::GroupMessageFailure(inner) => inner.cid,
            InternalServiceResponse::GroupInviteNotification(inner) => inner.cid,
            InternalServiceResponse::GroupInviteSuccess(inner) => inner.cid,
            InternalServiceResponse::GroupInviteFailure(inner) => inner.cid,
            InternalServiceResponse::GroupRespondRequestSuccess(inner) => inner.cid,
            InternalServiceResponse::GroupRespondRequestFailure(inner) => inner.cid,
            InternalServiceResponse::GroupMembershipResponse(inner) => inner.cid,
            InternalServiceResponse::GroupRequestJoinPendingNotification(inner) => inner.cid,
            InternalServiceResponse::GroupDisconnectNotification(inner) => inner.cid,
            InternalServiceResponse::GroupKickSuccess(inner) => inner.cid,
            InternalServiceResponse::GroupKickFailure(inner) => inner.cid,
            InternalServiceResponse::GroupListGroupsSuccess(inner) => inner.cid,
            InternalServiceResponse::GroupListGroupsFailure(inner) => inner.cid,
            InternalServiceResponse::GroupListGroupsResponse(inner) => inner.cid,
            InternalServiceResponse::GroupJoinRequestNotification(inner) => inner.cid,
            InternalServiceResponse::GroupRequestJoinAcceptResponse(inner) => inner.cid,
            InternalServiceResponse::GroupRequestJoinDeclineResponse(inner) => inner.cid,
            InternalServiceResponse::GroupRequestJoinSuccess(inner) => inner.cid,
            InternalServiceResponse::GroupRequestJoinFailure(inner) => inner.cid,
            InternalServiceResponse::GroupMemberStateChangeNotification(inner) => inner.cid,
            InternalServiceResponse::LocalDBGetKVSuccess(inner) => inner.cid,
            InternalServiceResponse::LocalDBGetKVFailure(inner) => inner.cid,
            InternalServiceResponse::LocalDBSetKVSuccess(inner) => inner.cid,
            InternalServiceResponse::LocalDBSetKVFailure(inner) => inner.cid,
            InternalServiceResponse::LocalDBDeleteKVSuccess(inner) => inner.cid,
            InternalServiceResponse::LocalDBDeleteKVFailure(inner) => inner.cid,
            InternalServiceResponse::LocalDBGetAllKVSuccess(inner) => inner.cid,
            InternalServiceResponse::LocalDBGetAllKVFailure(inner) => inner.cid,
            InternalServiceResponse::LocalDBClearAllKVSuccess(inner) => inner.cid,
            InternalServiceResponse::LocalDBClearAllKVFailure(inner) => inner.cid,
            InternalServiceResponse::GetSessionsResponse(inner) => inner.cid,
            InternalServiceResponse::GetAccountInformationResponse(inner) => inner.cid,
            InternalServiceResponse::ListAllPeersResponse(inner) => inner.cid,
            InternalServiceResponse::ListAllPeersFailure(inner) => inner.cid,
            InternalServiceResponse::ListRegisteredPeersResponse(inner) => inner.cid,
            InternalServiceResponse::ListRegisteredPeersFailure(inner) => inner.cid,
            InternalServiceResponse::ServerConnectionLost(inner) => inner.cid,
            InternalServiceResponse::ServerReconnected(inner) => inner.cid,
            InternalServiceResponse::ServerReconnectFailed(inner) => inner.cid,
            InternalServiceResponse::GroupMessageDroppedNotification(inner) => inner.cid,
            InternalServiceResponse::MediaFrameNotification(inner) => inner.cid,
            InternalServiceResponse::MediaGapNotification(inner) => inner.cid,
            InternalServiceResponse::BatchedResponse(inner) => inner.cid,
        }
    }

    /// The request that this answers, if it answers one.
    pub open spec fn answered(self) -> Option<Uuid> {
        match self {
            InternalServiceResponse::ConnectSuccess(inner) => inner.request_id,
            InternalServiceResponse::ConnectFailure(inner) => inner.request_id,
            InternalServiceResponse::RegisterSuccess(inner) => inner.request_id,
            InternalServiceResponse::RegisterFailure(inner) => inner.request_id,
            InternalServiceResponse::ServiceConnectionAccepted(inner) => inner.request_id,
            InternalServiceResponse::MessageSendSuccess(inner) => inner.request_id,
            InternalServiceResponse::MessageSendFailure(inner) => inner.request_id,
            InternalServiceResponse::MessageNotification(inner) => inner.request_id,
            InternalServiceResponse::DisconnectNotification(inner) => inner.request_id,
            InternalServiceResponse::DisconnectFailure(inner) => inner.request_id,
            InternalServiceResponse::SendFileRequestSuccess(inner) => inner.request_id,
            InternalServiceResponse::SendFileRequestFailure(inner) => inner.request_id,
            InternalServiceResponse::FileTransferRequestNotification(inner) => inner.request_id,
            InternalServiceResponse::FileTransferStatusNotification(inner) => inner.request_id,
            InternalServiceResponse::FileTransferTickNotification(inner) => inner.request_id,
            InternalServiceResponse::DownloadFileSuccess(inner) => inner.request_id,
            InternalServiceResponse::DownloadFileFailure(inner) => inner.request_id,
            InternalServiceResponse::DeleteVirtualFileSuccess(inner) => inner.request_id,
            InternalServiceResponse::DeleteVirtualFileFailure(inner) => inner.request_id,
            InternalServiceResponse::PeerConnectSuccess(inner) => inner.request_id,
            InternalServiceResponse::PeerConnectFailure(inner) => inner.request_id,
            InternalServiceResponse::PeerConnectNotification(inner) => inner.request_id,
            InternalServiceResponse::PeerRegisterNotification(inner) => inner.request_id,
            InternalServiceResponse::PeerDisconnectSuccess(inner) => inner.request_id,
            InternalServiceResponse::PeerDisconnectFailure(inner) => inner.request_id,
            InternalServiceResponse::PeerRegisterSuccess(inner) => inner.request_id,
            InternalServiceResponse::PeerRegisterFailure(inner) => inner.request_id,
            InternalServiceResponse::GroupChannelCreateSuccess(inner) => inner.request_id,
            InternalServiceResponse::GroupChannelCreateFailure(inner) => inner.request_id,
            InternalServiceResponse::GroupBroadcastHandleFailure(inner) => inner.request_id,
            InternalServiceResponse::GroupCreateSuccess(inner) => inner.request_id,
            InternalServiceResponse::GroupCreateFailure(inner) => inner.request_id,
            InternalServiceResponse::GroupLeaveSuccess(inner) => inner.request_id,
            InternalServiceResponse::GroupLeaveFailure(inner) => inner.request_id,
            InternalServiceResponse::GroupLeaveNotification(inner) => inner.request_id,
            InternalServiceResponse::GroupEndSuccess(inner) => inner.request_id,
            InternalServiceResponse::GroupEndFailure(inner) => inner.request_id,
            InternalServiceResponse::GroupEndNotification(inner) => inner.request_id,
            InternalServiceResponse::GroupMessageNotification(inner) => inner.request_id,
            InternalServiceResponse::GroupMessageResponse(inner) => inner.request_id,
            InternalServiceResponse::GroupMessageSuccess(inner) => inner.request_id,
            InternalServiceResponse::GroupMessageFailure(inner) => inner.request_id,
            InternalServiceResponse::GroupInviteNotification(inner) => inner.request_id,
            InternalServiceResponse::GroupInviteSuccess(inner) => inner.request_id,
            InternalServiceResponse::GroupInviteFailure(inner) => inner.request_id,
            InternalServiceResponse::GroupRespondRequestSuccess(inner) => inner.request_id,
            InternalServiceResponse::GroupRespondRequestFailure(inner) => inner.request_id,
            InternalServiceResponse::GroupMembershipResponse(inner) => inner.request_id,
            InternalServiceResponse::GroupRequestJoinPendingNotification(inner) => inner.request_id,
            InternalServiceResponse::GroupDisconnectNotification(inner) => inner.request_id,
            InternalServiceResponse::GroupKickSuccess(inner) => inner.request_id,
            InternalServiceResponse::GroupKickFailure(inner) => inner.request_id,
            InternalServiceResponse::GroupListGroupsSuccess(inner) => inner.request_id,
            InternalServiceResponse::GroupListGroupsFailure(inner) => inner.request_id,
            InternalServiceResponse::GroupListGroupsResponse(inner) => inner.request_id,
            InternalServiceResponse::GroupJoinRequestNotification(inner) => inner.request_id,
            InternalServiceResponse::GroupRequestJoinAcceptResponse(inner) => inner.request_id,
            InternalServiceResponse::GroupRequestJoinDeclineResponse(inner) => inner.request_id,
            InternalServiceResponse::GroupRequestJoinSuccess(inner) => inner.request_id,
            InternalServiceResponse::GroupRequestJoinFailure(inner) => inner.request_id,
            InternalServiceResponse::GroupMemberStateChangeNotification(inner) => inner.request_id,
            InternalServiceResponse::LocalDBGetKVSuccess(inner) => inner.request_id,
            InternalServiceResponse::LocalDBGetKVFailure(inner) => inner.request_id,
            InternalServiceResponse::LocalDBSetKVSuccess(inner) => inner.request_id,
            InternalServiceResponse::LocalDBSetKVFailure(inner) => inner.request_id,
            InternalServiceResponse::LocalDBDeleteKVSuccess(inner) => inner.request_id,
            InternalServiceResponse::LocalDBDeleteKVFailure(inner) => inner.request_id,
            InternalServiceResponse::LocalDBGetAllKVSuccess(inner) => inner.request_id,
            InternalServiceResponse::LocalDBGetAllKVFailure(inner) => inner.request_id,
            InternalServiceResponse::LocalDBClearAllKVSuccess(inner) => inner.request_id,
            InternalServiceResponse::LocalDBClearAllKVFailure(inner) => inner.request_id,
            InternalServiceResponse::GetSessionsResponse(inner) => inner.request_id,
            InternalServiceResponse::GetAccountInformationResponse(inner) => inner.request_id,
            InternalServiceResponse::ListAllPeersResponse(inner) => inner.request_id,
            InternalServiceResponse::ListAllPeersFailure(inner) => inner.request_id,
            InternalServiceResponse::ListRegisteredPeersResponse(inner) => inner.request_id,
            InternalServiceResponse::ListRegisteredPeersFailure(inner) => inner.request_id,
            InternalServiceResponse::ServerConnectionLost(inner) => inner.request_id,
            InternalServiceResponse::ServerReconnected(inner) => inner.request_id,
            InternalServiceResponse::ServerReconnectFailed(inner) => inner.request_id,
            InternalServiceResponse::GroupMessageDroppedNotification(inner) => inner.request_id,
            InternalServiceResponse::MediaFrameNotification(inner) => inner.request_id,
            InternalServiceResponse::MediaGapNotification(inner) => inner.request_id,
            InternalServiceResponse::BatchedResponse(inner) => inner.request_id,
        }
    }

    /// The request that this answers, if it answers one.
    pub fn request_id(&self) -> (r: Option<&Uuid>)
        ensures
            match r {
                Some(id) => self.answered() == Some(*id),
                None => self.answered() is None,
            },
    {
        match self {
            InternalServiceResponse::ConnectSuccess(inner) => inner.request_id.as_ref(),
            InternalServiceResponse::ConnectFailure(inner) => inner.request_id.as_ref(),
            InternalServiceResponse::RegisterSuccess(inner) => inner.request_id.as_ref(),
            InternalServiceResponse::RegisterFailure(inner) => inner.request_id.as_ref(),
            InternalServiceResponse::ServiceConnectionAccepted(inner) => inner.request_id.as_ref(),
            InternalServiceResponse::MessageSendSuccess(inner) => inner.request_id.as_ref(),
            InternalServiceResponse::MessageSendFailure(inner) => inner.request_id.as_ref(),
            InternalServiceResponse::MessageNotification(inner) => inner.request_id.as_ref(),
            InternalServiceResponse::DisconnectNotification(inner) => inner.request_id.as_ref(),
            InternalServiceResponse::DisconnectFailure(inner) => inner.request_id.as_ref(),
            InternalServiceResponse::SendFileRequestSuccess(inner) => inner.request_id.as_ref(),
            InternalServiceResponse::SendFileRequestFailure(inner) => inner.request_id.as_ref(),
            InternalServiceResponse::FileTransferRequestNotification(inner) => inner.request_id.as_ref(),
            InternalServiceResponse::FileTransferStatusNotification(inner) => inner.request_id.as_ref(),
            InternalServiceResponse::FileTransferTickNotification(inner) => inner.request_id.as_ref(),
            InternalServiceResponse::DownloadFileSuccess(inner) => inner.request_id.as_ref(),
            InternalServiceResponse::DownloadFileFailure(inner) => inner.request_id.as_ref(),
            InternalServiceResponse::DeleteVirtualFileSuccess(inner) => inner.request_id.as_ref(),
            InternalServiceResponse::DeleteVirtualFileFailure(inner) => inner.request_id.as_ref(),
            InternalServiceResponse::PeerConnectSuccess(inner) => inner.request_id.as_ref(),
            InternalServiceResponse::PeerConnectFailure(inner) => inner.request_id.as_ref(),
            InternalServiceResponse::PeerConnectNotification(inner) => inner.request_id.as_ref(),
            InternalServiceResponse::PeerRegisterNotification(inner) => inner.request_id.as_ref(),
            InternalServiceResponse::PeerDisconnectSuccess(inner) => inner.request_id.as_ref(),
            InternalServiceResponse::PeerDisconnectFailure(inner) => inner.request_id.as_ref(),
            InternalServiceResponse::PeerRegisterSuccess(inner) => inner.request_id.as_ref(),
            InternalServiceResponse::PeerRegisterFailure(inner) => inner.request_id.as_ref(),
            InternalServiceResponse::GroupChannelCreateSuccess(inner) => inner.request_id.as_ref(),
            InternalServiceResponse::GroupChannelCreateFailure(inner) => inner.request_id.as_ref(),
            InternalServiceResponse::GroupBroadcastHandleFailure(inner) => inner.request_id.as_ref(),
            InternalServiceResponse::GroupCreateSuccess(inner) => inner.request_id.as_ref(),
            InternalServiceResponse::GroupCreateFailure(inner) => inner.request_id.as_ref(),
            InternalServiceResponse::GroupLeaveSuccess(inner) => inner.request_id.as_ref(),
            InternalServiceResponse::GroupLeaveFailure(inner) => inner.request_id.as_ref(),
            InternalServiceResponse::GroupLeaveNotification(inner) => inner.request_id.as_ref(),
            InternalServiceResponse::GroupEndSuccess(inner) => inner.request_id.as_ref(),
            InternalServiceResponse::GroupEndFailure(inner) => inner.request_id.as_ref(),
            InternalServiceResponse::GroupEndNotification(inner) => inner.request_id.as_ref(),
            InternalServiceResponse::GroupMessageNotification(inner) => inner.request_id.as_ref(),
            InternalServiceResponse::GroupMessageResponse(inner) => inner.request_id.as_ref(),
            InternalServiceResponse::GroupMessageSuccess(inner) => inner.request_id.as_ref(),
            InternalServiceResponse::GroupMessageFailure(inner) => inner.request_id.as_ref(),
            InternalServiceResponse::GroupInviteNotification(inner) => inner.request_id.as_ref(),
            InternalServiceResponse::GroupInviteSuccess(inner) => inner.request_id.as_ref(),
            InternalServiceResponse::GroupInviteFailure(inner) => inner.request_id.as_ref(),
            InternalServiceResponse::GroupRespondRequestSuccess(inner) => inner.request_id.as_ref(),
            InternalServiceResponse::GroupRespondRequestFailure(inner) => inner.request_id.as_ref(),
            InternalServiceResponse::GroupMembershipResponse(inner) => inner.request_id.as_ref(),
            InternalServiceResponse::GroupRequestJoinPendingNotification(inner) => inner.request_id.as_ref(),
            InternalServiceResponse::GroupDisconnectNotification(inner) => inner.request_id.as_ref(),
            InternalServiceResponse::GroupKickSuccess(inner) => inner.request_id.as_ref(),
            InternalServiceResponse::GroupKickFailure(inner) => inner.request_id.as_ref(),
            InternalServiceResponse::GroupListGroupsSuccess(inner) => inner.request_id.as_ref(),
            InternalServiceResponse::GroupListGroupsFailure(inner) => inner.request_id.as_ref(),
            InternalServiceResponse::GroupListGroupsResponse(inner) => inner.request_id.as_ref(),
            InternalServiceResponse::GroupJoinRequestNotification(inner) => inner.request_id.as_ref(),
            InternalServiceResponse::GroupRequestJoinAcceptResponse(inner) => inner.request_id.as_ref(),
            InternalServiceResponse::GroupRequestJoinDeclineResponse(inner) => inner.request_id.as_ref(),
            InternalServiceResponse::GroupRequestJoinSuccess(inner) => inner.request_id.as_ref(),
            InternalServiceResponse::GroupRequestJoinFailure(inner) => inner.request_id.as_ref(),
            InternalServiceResponse::GroupMemberStateChangeNotification(inner) => inner.request_id.as_ref(),
            InternalServiceResponse::LocalDBGetKVSuccess(inner) => inner.request_id.as_ref(),
            InternalServiceResponse::LocalDBGetKVFailure(inner) => inner.request_id.as_ref(),
            InternalServiceResponse::LocalDBSetKVSuccess(inner) => inner.request_id.as_ref(),
            InternalServiceResponse::LocalDBSetKVFailure(inner) => inner.request_id.as_ref(),
            InternalServiceResponse::LocalDBDeleteKVSuccess(inner) => inner.request_id.as_ref(),
            InternalServiceResponse::LocalDBDeleteKVFailure(inner) => inner.request_id.as_ref(),
            InternalServiceResponse::LocalDBGetAllKVSuccess(inner) => inner.request_id.as_ref(),
            InternalServiceResponse::LocalDBGetAllKVFailure(inner) => inner.request_id.as_ref(),
            InternalServiceResponse::LocalDBClearAllKVSuccess(inner) => inner.request_id.as_ref(),
            InternalServiceResponse::LocalDBClearAllKVFailure(inner) => inner.request_id.as_ref(),
            InternalServiceResponse::GetSessionsResponse(inner) => inner.request_id.as_ref(),
            InternalServiceResponse::GetAccountInformationResponse(inner) => inner.request_id.as_ref(),
            InternalServiceResponse::ListAllPeersResponse(inner) => inner.request_id.as_ref(),
            InternalServiceResponse::ListAllPeersFailure(inner) => inner.request_id.as_ref(),
            InternalServiceResponse::ListRegisteredPeersResponse(inner) => inner.request_id.as_ref(),
            InternalServiceResponse::ListRegisteredPeersFailure(inner) => inner.request_id.as_ref(),
            InternalServiceResponse::ServerConnectionLost(inner) => inner.request_id.as_ref(),
            InternalServiceResponse::ServerReconnected(inner) => inner.request_id.as_ref(),
            InternalServiceResponse::ServerReconnectFailed(inner) => inner.request_id.as_ref(),
            InternalServiceResponse::GroupMessageDroppedNotification(inner) => inner.request_id.as_ref(),
            InternalServiceResponse::MediaFrameNotification(inner) => inner.request_id.as_ref(),
            InternalServiceResponse::MediaGapNotification(inner) => inner.request_id.as_ref(),
            InternalServiceResponse::BatchedResponse(inner) => inner.request_id.as_ref(),
        }
    }
}

/// Whatever the answer is, it answers exactly the request that its own data names, and one whose
/// data names no request answers none.
pub proof fn law_answers_the_request_it_names(response: InternalServiceResponse)
    ensures
        match response {
            InternalServiceResponse::ConnectSuccess(data) => response.answered() == data.request_id,
            InternalServiceResponse::ConnectFailure(data) => response.answered() == data.request_id,
            InternalServiceResponse::RegisterSuccess(data) => response.answered() == data.request_id,
            InternalServiceResponse::RegisterFailure(data) => response.answered() == data.request_id,
            InternalServiceResponse::ServiceConnectionAccepted(data) => response.answered() == data.request_id,
            InternalServiceResponse::MessageSendSuccess(data) => response.answered() == data.request_id,
            InternalServiceResponse::MessageSendFailure(data) => response.answered() == data.request_id,
            InternalServiceResponse::MessageNotification(data) => response.answered() == data.request_id,
            InternalServiceResponse::DisconnectNotification(data) => response.answered() == data.request_id,
            InternalServiceResponse::DisconnectFailure(data) => response.answered() == data.request_id,
            InternalServiceResponse::SendFileRequestSuccess(data) => response.answered() == data.request_id,
            InternalServiceResponse::SendFileRequestFailure(data) => response.answered() == data.request_id,
            InternalServiceResponse::FileTransferRequestNotification(data) => response.answered() == data.request_id,
            InternalServiceResponse::FileTransferStatusNotification(data) => response.answered() == data.request_id,
            InternalServiceResponse::FileTransferTickNotification(data) => response.answered() == data.request_id,
            InternalServiceResponse::DownloadFileSuccess(data) => response.answered() == data.request_id,
            InternalServiceResponse::DownloadFileFailure(data) => response.answered() == data.request_id,
            InternalServiceResponse::DeleteVirtualFileSuccess(data) => response.answered() == data.request_id,
            InternalServiceResponse::DeleteVirtualFileFailure(data) => response.answered() == data.request_id,
            InternalServiceResponse::PeerConnectSuccess(data) => response.answered() == data.request_id,
            InternalServiceResponse::PeerConnectFailure(data) => response.answered() == data.request_id,
            InternalServiceResponse::PeerConnectNotification(data) => response.answered() == data.request_id,
            InternalServiceResponse::PeerRegisterNotification(data) => response.answered() == data.request_id,
            InternalServiceResponse::PeerDisconnectSuccess(data) => response.answered() == data.request_id,
            InternalServiceResponse::PeerDisconnectFailure(data) => response.answered() == data.request_id,
            InternalServiceResponse::PeerRegisterSuccess(data) => response.answered() == data.request_id,
            InternalServiceResponse::PeerRegisterFailure(data) => response.answered() == data.request_id,
            InternalServiceResponse::GroupChannelCreateSuccess(data) => response.answered() == data.request_id,
            InternalServiceResponse::GroupChannelCreateFailure(data) => response.answered() == data.request_id,
            InternalServiceResponse::GroupBroadcastHandleFailure(data) => response.answered() == data.request_id,
            InternalServiceResponse::GroupCreateSuccess(data) => response.answered() == data.request_id,
            InternalServiceResponse::GroupCreateFailure(data) => response.answered() == data.request_id,
            InternalServiceResponse::GroupLeaveSuccess(data) => response.answered() == data.request_id,
            InternalServiceResponse::GroupLeaveFailure(data) => response.answered() == data.request_id,
            InternalServiceResponse::GroupLeaveNotification(data) => response.answered() == data.request_id,
            InternalServiceResponse::GroupEndSuccess(data) => response.answered() == data.request_id,
            InternalServiceResponse::GroupEndFailure(data) => response.answered() == data.request_id,
            InternalServiceResponse::GroupEndNotification(data) => response.answered() == data.request_id,
            InternalServiceResponse::GroupMessageNotification(data) => response.answered() == data.request_id,
            InternalServiceResponse::GroupMessageResponse(data) => response.answered() == data.request_id,
            InternalServiceResponse::GroupMessageSuccess(data) => response.answered() == data.request_id,
            InternalServiceResponse::GroupMessageFailure(data) => response.answered() == data.request_id,
            InternalServiceResponse::GroupInviteNotification(data) => response.answered() == data.request_id,
            InternalServiceResponse::GroupInviteSuccess(data) => response.answered() == data.request_id,
            InternalServiceResponse::GroupInviteFailure(data) => response.answered() == data.request_id,
            InternalServiceResponse::GroupRespondRequestSuccess(data) => response.answered() == data.request_id,
            InternalServiceResponse::GroupRespondRequestFailure(data) => response.answered() == data.request_id,
            InternalServiceResponse::GroupMembershipResponse(data) => response.answered() == data.request_id,
            InternalServiceResponse::GroupRequestJoinPendingNotification(data) => response.answered() == data.request_id,
            InternalServiceResponse::GroupDisconnectNotification(data) => response.answered() == data.request_id,
            InternalServiceResponse::GroupKickSuccess(data) => response.answered() == data.request_id,
            InternalServiceResponse::GroupKickFailure(data) => response.answered() == data.request_id,
            InternalServiceResponse::GroupListGroupsSuccess(data) => response.answered() == data.request_id,
            InternalServiceResponse::GroupListGroupsFailure(data) => response.answered() == data.request_id,
            InternalServiceResponse::GroupListGroupsResponse(data) => response.answered() == data.request_id,
            InternalServiceResponse::GroupJoinRequestNotification(data) => response.answered() == data.request_id,
            InternalServiceResponse::GroupRequestJoinAcceptResponse(data) => response.answered() == data.request_id,
            InternalServiceResponse::GroupRequestJoinDeclineResponse(data) => response.answered() == data.request_id,
            InternalServiceResponse::GroupRequestJoinSuccess(data) => response.answered() == data.request_id,
            InternalServiceResponse::GroupRequestJoinFailure(data) => response.answered() == data.request_id,
            InternalServiceResponse::GroupMemberStateChangeNotification(data) => response.answered() == data.request_id,
            InternalServiceResponse::LocalDBGetKVSuccess(data) => response.answered() == data.request_id,
            InternalServiceResponse::LocalDBGetKVFailure(data) => response.answered() == data.request_id,
            InternalServiceResponse::LocalDBSetKVSuccess(data) => response.answered() == data.request_id,
            InternalServiceResponse::LocalDBSetKVFailure(data) => response.answered() == data.request_id,
            InternalServiceResponse::LocalDBDeleteKVSuccess(data) => response.answered() == data.request_id,
            InternalServiceResponse::LocalDBDeleteKVFailure(data) => response.answered() == data.request_id,
            InternalServiceResponse::LocalDBGetAllKVSuccess(data) => response.answered() == data.request_id,
            InternalServiceResponse::LocalDBGetAllKVFailure(data) => response.answered() == data.request_id,
            InternalServiceResponse::LocalDBClearAllKVSuccess(data) => response.answered() == data.request_id,
            InternalServiceResponse::LocalDBClearAllKVFailure(data) => response.answered() == data.request_id,
            InternalServiceResponse::GetSessionsResponse(data) => response.answered() == data.request_id,
            InternalServiceResponse::GetAccountInformationResponse(data) => response.answered() == data.request_id,
            InternalServiceResponse::ListAllPeersResponse(data) => response.answered() == data.request_id,
            InternalServiceResponse::ListAllPeersFailure(data) => response.answered() == data.request_id,
            InternalServiceResponse::ListRegisteredPeersResponse(data) => response.answered() == data.request_id,
            InternalServiceResponse::ListRegisteredPeersFailure(data) => response.answered() == data.request_id,
            InternalServiceResponse::ServerConnectionLost(data) => response.answered() == data.request_id,
            InternalServiceResponse::ServerReconnected(data) => response.answered() == data.request_id,
            InternalServiceResponse::ServerReconnectFailed(data) => response.answered() == data.request_id,
            InternalServiceResponse::GroupMessageDroppedNotification(data) => response.answered() == data.request_id,
            InternalServiceResponse::MediaFrameNotification(data) => response.answered() == data.request_id,
            InternalServiceResponse::MediaGapNotification(data) => response.answered() == data.request_id,
            InternalServiceResponse::BatchedResponse(data) => response.answered() == data.request_id,
        },
{
}

/// Whatever the answer is, the session it is about is the one that its own data names.
pub proof fn law_is_about_the_session_it_names(response: InternalServiceResponse)
    ensures
        match response {
            InternalServiceResponse::ConnectSuccess(data) => response.session() == data.cid,
            InternalServiceResponse::ConnectFailure(data) => response.session() == data.cid,
            InternalServiceResponse::RegisterSuccess(data) => response.session() == data.cid,
            InternalServiceResponse::RegisterFailure(data) => response.session() == data.cid,
            InternalServiceResponse::ServiceConnectionAccepted(data) => response.session() == data.cid,
            InternalServiceResponse::MessageSendSuccess(data) => response.session() == data.cid,
            InternalServiceResponse::MessageSendFailure(data) => response.session() == data.cid,
            InternalServiceResponse::MessageNotification(data) => response.session() == data.cid,
            InternalServiceResponse::DisconnectNotification(data) => response.session() == data.cid,
            InternalServiceResponse::DisconnectFailure(data) => response.session() == data.cid,
            InternalServiceResponse::SendFileRequestSuccess(data) => response.session() == data.cid,
            InternalServiceResponse::SendFileRequestFailure(data) => response.session() == data.cid,
            InternalServiceResponse::FileTransferRequestNotification(data) => response.session() == data.cid,
            InternalServiceResponse::FileTransferStatusNotification(data) => response.session() == data.cid,
            InternalServiceResponse::FileTransferTickNotification(data) => response.session() == data.cid,
            InternalServiceResponse::DownloadFileSuccess(data) => response.session() == data.cid,
            InternalServiceResponse::DownloadFileFailure(data) => response.session() == data.cid,
            InternalServiceResponse::DeleteVirtualFileSuccess(data) => response.session() == data.cid,
            InternalServiceResponse::DeleteVirtualFileFailure(data) => response.session() == data.cid,
            InternalServiceResponse::PeerConnectSuccess(data) => response.session() == data.cid,
            InternalServiceResponse::PeerConnectFailure(data) => response.session() == data.cid,
            InternalServiceResponse::PeerConnectNotification(data) => response.session() == data.cid,
            InternalServiceResponse::PeerRegisterNotification(data) => response.session() == data.cid,
            InternalServiceResponse::PeerDisconnectSuccess(data) => response.session() == data.cid,
            InternalServiceResponse::PeerDisconnectFailure(data) => response.session() == data.cid,
            InternalServiceResponse::PeerRegisterSuccess(data) => response.session() == data.cid,
            InternalServiceResponse::PeerRegisterFailure(data) => response.session() == data.cid,
            InternalServiceResponse::GroupChannelCreateSuccess(data) => response.session() == data.cid,
            InternalServiceResponse::GroupChannelCreateFailure(data) => response.session() == data.cid,
            InternalServiceResponse::GroupBroadcastHandleFailure(data) => response.session() == data.cid,
            InternalServiceResponse::GroupCreateSuccess(data) => response.session() == data.cid,
            InternalServiceResponse::GroupCreateFailure(data) => response.session() == data.cid,
            InternalServiceResponse::GroupLeaveSuccess(data) => response.session() == data.cid,
            InternalServiceResponse::GroupLeaveFailure(data) => response.session() == data.cid,
            InternalServiceResponse::GroupLeaveNotification(data) => response.session() == data.cid,
            InternalServiceResponse::GroupEndSuccess(data) => response.session() == data.cid,
            InternalServiceResponse::GroupEndFailure(data) => response.session() == data.cid,
            InternalServiceResponse::GroupEndNotification(data) => response.session() == data.cid,
            InternalServiceResponse::GroupMessageNotification(data) => response.session() == data.cid,
            InternalServiceResponse::GroupMessageResponse(data) => response.session() == data.cid,
            InternalServiceResponse::GroupMessageSuccess(data) => response.session() == data.cid,
            InternalServiceResponse::GroupMessageFailure(data) => response.session() == data.cid,
            InternalServiceResponse::GroupInviteNotification(data) => response.session() == data.cid,
            InternalServiceResponse::GroupInviteSuccess(data) => response.session() == data.cid,
            InternalServiceResponse::GroupInviteFailure(data) => response.session() == data.cid,
            InternalServiceResponse::GroupRespondRequestSuccess(data) => response.session() == data.cid,
            InternalServiceResponse::GroupRespondRequestFailure(data) => response.session() == data.cid,
            InternalServiceResponse::GroupMembershipResponse(data) => response.session() == data.cid,
            InternalServiceResponse::GroupRequestJoinPendingNotification(data) => response.session() == data.cid,
            InternalServiceResponse::GroupDisconnectNotification(data) => response.session() == data.cid,
            InternalServiceResponse::GroupKickSuccess(data) => response.session() == data.cid,
            InternalServiceResponse::GroupKickFailure(data) => response.session() == data.cid,
            InternalServiceResponse::GroupListGroupsSuccess(data) => response.session() == data.cid,
            InternalServiceResponse::GroupListGroupsFailure(data) => response.session() == data.cid,
            InternalServiceResponse::GroupListGroupsResponse(data) => response.session() == data.cid,
            InternalServiceResponse::GroupJoinRequestNotification(data) => response.session() == data.cid,
            InternalServiceResponse::GroupRequestJoinAcceptResponse(data) => response.session() == data.cid,
            InternalServiceResponse::GroupRequestJoinDeclineResponse(data) => response.session() == data.cid,
            InternalServiceResponse::GroupRequestJoinSuccess(data) => response.session() == data.cid,
            InternalServiceResponse::GroupRequestJoinFailure(data) => response.session() == data.cid,
            InternalServiceResponse::GroupMemberStateChangeNotification(data) => response.session() == data.cid,
            InternalServiceResponse::LocalDBGetKVSuccess(data) => response.session() == data.cid,
            InternalServiceResponse::LocalDBGetKVFailure(data) => response.session() == data.cid,
            InternalServiceResponse::LocalDBSetKVSuccess(data) => response.session() == data.cid,
            InternalServiceResponse::LocalDBSetKVFailure(data) => response.session() == data.cid,
            InternalServiceResponse::LocalDBDeleteKVSuccess(data) => response.session() == data.cid,
            InternalServiceResponse::LocalDBDeleteKVFailure(data) => response.session() == data.cid,
            InternalServiceResponse::LocalDBGetAllKVSuccess(data) => response.session() == data.cid,
            InternalServiceResponse::LocalDBGetAllKVFailure(data) => response.session() == data.cid,
            InternalServiceResponse::LocalDBClearAllKVSuccess(data) => response.session() == data.cid,
            InternalServiceResponse::LocalDBClearAllKVFailure(data) => response.session() == data.cid,
            InternalServiceResponse::GetSessionsResponse(data) => response.session() == data.cid,
            InternalServiceResponse::GetAccountInformationResponse(data) => response.session() == data.cid,
            InternalServiceResponse::ListAllPeersResponse(data) => response.session() == data.cid,
            InternalServiceResponse::ListAllPeersFailure(data) => response.session() == data.cid,
            InternalServiceResponse::ListRegisteredPeersResponse(data) => response.session() == data.cid,
            InternalServiceResponse::ListRegisteredPeersFailure(data) => response.session() == data.cid,
            InternalServiceResponse::ServerConnectionLost(data) => response.session() == data.cid,
            InternalServiceResponse::ServerReconnected(data) => response.session() == data.cid,
            InternalServiceResponse::ServerReconnectFailed(data) => response.session() == data.cid,
            InternalServiceResponse::GroupMessageDroppedNotification(data) => response.session() == data.cid,
            InternalServiceResponse::MediaFrameNotification(data) => response.session() == data.cid,
            InternalServiceResponse::MediaGapNotification(data) => response.session() == data.cid,
            InternalServiceResponse::BatchedResponse(data) => response.session() == data.cid,
        },
{
}

/// The answers named for a failure, and they alone, report one; those named for a notification,
/// and they alone, come unrequested. None is both.
pub proof fn law_failures_and_notifications(response: InternalServiceResponse)
    ensures
        match response {
            InternalServiceResponse::ConnectSuccess(_) => !response.reports_failure() && !response.unrequested(),
            InternalServiceResponse::ConnectFailure(_) => response.reports_failure() && !response.unrequested(),
            InternalServiceResponse::RegisterSuccess(_) => !response.reports_failure() && !response.unrequested(),
            InternalServiceResponse::RegisterFailure(_) => response.reports_failure() && !response.unrequested(),
            InternalServiceResponse::ServiceConnectionAccepted(_) => !response.reports_failure() && !response.unrequested(),
            InternalServiceResponse::MessageSendSuccess(_) => !response.reports_failure() && !response.unrequested(),
            InternalServiceResponse::MessageSendFailure(_) => response.reports_failure() && !response.unrequested(),
            InternalServiceResponse::MessageNotification(_) => !response.reports_failure() && response.unrequested(),
            InternalServiceResponse::DisconnectNotification(_) => !response.reports_failure() && response.unrequested(),
            InternalServiceResponse::DisconnectFailure(_) => response.reports_failure() && !response.unrequested(),
            InternalServiceResponse::SendFileRequestSuccess(_) => !response.reports_failure() && !response.unrequested(),
            InternalServiceResponse::SendFileRequestFailure(_) => response.reports_failure() && !response.unrequested(),
            InternalServiceResponse::FileTransferRequestNotification(_) => !response.reports_failure() && response.unrequested(),
            InternalServiceResponse::FileTransferStatusNotification(_) => !response.reports_failure() && response.unrequested(),
            InternalServiceResponse::FileTransferTickNotification(_) => !response.reports_failure() && response.unrequested(),
            InternalServiceResponse::DownloadFileSuccess(_) => !response.reports_failure() && !response.unrequested(),
            InternalServiceResponse::DownloadFileFailure(_) => response.reports_failure() && !response.unrequested(),
            InternalServiceResponse::DeleteVirtualFileSuccess(_) => !response.reports_failure() && !response.unrequested(),
            InternalServiceResponse::DeleteVirtualFileFailure(_) => response.reports_failure() && !response.unrequested(),
            InternalServiceResponse::PeerConnectSuccess(_) => !response.reports_failure() && !response.unrequested(),
            InternalServiceResponse::PeerConnectFailure(_) => response.reports_failure() && !response.unrequested(),
            InternalServiceResponse::PeerConnectNotification(_) => !response.reports_failure() && response.unrequested(),
            InternalServiceResponse::PeerRegisterNotification(_) => !response.reports_failure() && response.unrequested(),
            InternalServiceResponse::PeerDisconnectSuccess(_) => !response.reports_failure() && !response.unrequested(),
            InternalServiceResponse::PeerDisconnectFailure(_) => response.reports_failure() && !response.unrequested(),
            InternalServiceResponse::PeerRegisterSuccess(_) => !response.reports_failure() && !response.unrequested(),
            InternalServiceResponse::PeerRegisterFailure(_) => response.reports_failure() && !response.unrequested(),
            InternalServiceResponse::GroupChannelCreateSuccess(_) => !response.reports_failure() && !response.unrequested(),
            InternalServiceResponse::GroupChannelCreateFailure(_) => response.reports_failure() && !response.unrequested(),
            InternalServiceResponse::GroupBroadcastHandleFailure(_) => response.reports_failure() && !response.unrequested(),
            InternalServiceResponse::GroupCreateSuccess(_) => !response.reports_failure() && !response.unrequested(),
            InternalServiceResponse::GroupCreateFailure(_) => response.reports_failure() && !response.unrequested(),
            InternalServiceResponse::GroupLeaveSuccess(_) => !response.reports_failure() && !response.unrequested(),
            InternalServiceResponse::GroupLeaveFailure(_) => response.reports_failure() && !response.unrequested(),
            InternalServiceResponse::GroupLeaveNotification(_) => !response.reports_failure() && response.unrequested(),
            InternalServiceResponse::GroupEndSuccess(_) => !response.reports_failure() && !response.unrequested(),
            InternalServiceResponse::GroupEndFailure(_) => response.reports_failure() && !response.unrequested(),
            InternalServiceResponse::GroupEndNotification(_) => !response.reports_failure() && response.unrequested(),
            InternalServiceResponse::GroupMessageNotification(_) => !response.reports_failure() && response.unrequested(),
            InternalServiceResponse::GroupMessageResponse(_) => !response.reports_failure() && !response.unrequested(),
            InternalServiceResponse::GroupMessageSuccess(_) => !response.reports_failure() && !response.unrequested(),
            InternalServiceResponse::GroupMessageFailure(_) => response.reports_failure() && !response.unrequested(),
            InternalServiceResponse::GroupInviteNotification(_) => !response.reports_failure() && response.unrequested(),
            InternalServiceResponse::GroupInviteSuccess(_) => !response.reports_failure() && !response.unrequested(),
            InternalServiceResponse::GroupInviteFailure(_) => response.reports_failure() && !response.unrequested(),
            InternalServiceResponse::GroupRespondRequestSuccess(_) => !response.reports_failure() && !response.unrequested(),
            InternalServiceResponse::GroupRespondRequestFailure(_) => response.reports_failure() && !response.unrequested(),
            InternalServiceResponse::GroupMembershipResponse(_) => !response.reports_failure() && !response.unrequested(),
            InternalServiceResponse::GroupRequestJoinPendingNotification(_) => !response.reports_failure() && response.unrequested(),
            InternalServiceResponse::GroupDisconnectNotification(_) => !response.reports_failure() && response.unrequested(),
            InternalServiceResponse::GroupKickSuccess(_) => !response.reports_failure() && !response.unrequested(),
            InternalServiceResponse::GroupKickFailure(_) => response.reports_failure() && !response.unrequested(),
            InternalServiceResponse::GroupListGroupsSuccess(_) => !response.reports_failure() && !response.unrequested(),
            InternalServiceResponse::GroupListGroupsFailure(_) => response.reports_failure() && !response.unrequested(),
            InternalServiceResponse::GroupListGroupsResponse(_) => !response.reports_failure() && !response.unrequested(),
            InternalServiceResponse::GroupJoinRequestNotification(_) => !response.reports_failure() && response.unrequested(),
            InternalServiceResponse::GroupRequestJoinAcceptResponse(_) => !response.reports_failure() && !response.unrequested(),
            InternalServiceResponse::GroupRequestJoinDeclineResponse(_) => !response.reports_failure() && !response.unrequested(),
            InternalServiceResponse::GroupRequestJoinSuccess(_) => !response.reports_failure() && !response.unrequested(),
            InternalServiceResponse::GroupRequestJoinFailure(_) => response.reports_failure() && !response.unrequested(),
            InternalServiceResponse::GroupMemberStateChangeNotification(_) => !response.reports_failure() && response.unrequested(),
            InternalServiceResponse::LocalDBGetKVSuccess(_) => !response.reports_failure() && !response.unrequested(),
            InternalServiceResponse::LocalDBGetKVFailure(_) => response.reports_failure() && !response.unrequested(),
            InternalServiceResponse::LocalDBSetKVSuccess(_) => !response.reports_failure() && !response.unrequested(),
            InternalServiceResponse::LocalDBSetKVFailure(_) => response.reports_failure() && !response.unrequested(),
            InternalServiceResponse::LocalDBDeleteKVSuccess(_) => !response.reports_failure() && !response.unrequested(),
            InternalServiceResponse::LocalDBDeleteKVFailure(_) => response.reports_failure() && !response.unrequested(),
            InternalServiceResponse::LocalDBGetAllKVSuccess(_) => !response.reports_failure() && !response.unrequested(),
            InternalServiceResponse::LocalDBGetAllKVFailure(_) => response.reports_failure() && !response.unrequested(),
            InternalServiceResponse::LocalDBClearAllKVSuccess(_) => !response.reports_failure() && !response.unrequested(),
            InternalServiceResponse::LocalDBClearAllKVFailure(_) => response.reports_failure() && !response.unrequested(),
            InternalServiceResponse::GetSessionsResponse(_) => !response.reports_failure() && !response.unrequested(),
            InternalServiceResponse::GetAccountInformationResponse(_) => !response.reports_failure() && !response.unrequested(),
            InternalServiceResponse::ListAllPeersResponse(_) => !response.reports_failure() && !response.unrequested(),
            InternalServiceResponse::ListAllPeersFailure(_) => response.reports_failure() && !response.unrequested(),
            InternalServiceResponse::ListRegisteredPeersResponse(_) => !response.reports_failure() && !response.unrequested(),
            InternalServiceResponse::ListRegisteredPeersFailure(_) => response.reports_failure() && !response.unrequested(),
            InternalServiceResponse::ServerConnectionLost(_) => !response.reports_failure() && !response.unrequested(),
            InternalServiceResponse::ServerReconnected(_) => !response.reports_failure() && !response.unrequested(),
            InternalServiceResponse::ServerReconnectFailed(_) => !response.reports_failure() && !response.unrequested(),
            InternalServiceResponse::GroupMessageDroppedNotification(_) => !response.reports_failure() && response.unrequested(),
            InternalServiceResponse::MediaFrameNotification(_) => !response.reports_failure() && response.unrequested(),
            InternalServiceResponse::MediaGapNotification(_) => !response.reports_failure() && response.unrequested(),
            InternalServiceResponse::BatchedResponse(_) => !response.reports_failure() && !response.unrequested(),
        },
{
}

/// What is asked of a response is answered from its own data: the request, the session, and whether
/// it is a failure or a notification.
pub proof fn law_what_a_response_says(
    response: InternalServiceResponse,
    id: Option<&Uuid>,
    cid: u64,
    failed: bool,
    unasked: bool,
)
    requires
        call_ensures(InternalServiceResponse::request_id, (&response,), id),
        call_ensures(InternalServiceResponse::cid, (&response,), cid),
        call_ensures(InternalServiceResponse::is_error, (&response,), failed),
        call_ensures(InternalServiceResponse::is_notification, (&response,), unasked),
    ensures
        id is Some <==> response.answered() is Some,
        id is Some ==> response.answered() == Some(*id->0),
        cid == response.session(),
        failed == response.reports_failure(),
        unasked == response.unrequested(),
        !(failed && unasked),
{
    law_failures_and_notifications(response);
}

/// The answer to a request for a value names the request that it answers, found or not.
pub proof fn law_a_value_answers_its_request(
    found: LocalDBGetKVSuccess,
    missing: LocalDBGetKVFailure,
    found_id: Option<&Uuid>,
    missing_id: Option<&Uuid>,
)
    requires
        call_ensures(
            InternalServiceResponse::request_id,
            (&InternalServiceResponse::LocalDBGetKVSuccess(found),),
            found_id,
        ),
        call_ensures(
            InternalServiceResponse::request_id,
            (&InternalServiceResponse::LocalDBGetKVFailure(missing),),
            missing_id,
        ),
    ensures
        found_id is Some <==> found.request_id is Some,
        found_id is Some ==> *found_id->0 == found.request_id->0,
        missing_id is Some <==> missing.request_id is Some,
        missing_id is Some ==> *missing_id->0 == missing.request_id->0,
{
}

} // verus!
