//! Answers and notices about message groups.

use crate::types::ids::MessageGroupKey;
use crate::types::ids::Uuid;
use crate::types::settings::MemberState;
use vstd::prelude::*;

verus! {

#[derive(Debug, Clone, PartialEq, Eq)]
pub struct GroupChannelCreateSuccess {
    pub cid: u64,
    pub group_key: MessageGroupKey,
    pub request_id: Option<Uuid>,
}

#[derive(Debug, Clone, PartialEq, Eq)]
pub struct GroupChannelCreateFailure {
    pub cid: u64,
    pub group_key: MessageGroupKey,
    pub message: String,
    pub request_id: Option<Uuid>,
}

#[derive(Debug, Clone, PartialEq, Eq)]
pub struct GroupBroadcastHandleFailure {
    pub cid: u64,
    pub message: String,
    pub request_id: Option<Uuid>,
}

#[derive(Debug, Clone, PartialEq, Eq)]
pub struct GroupCreateSuccess {
    pub cid: u64,
    pub group_key: MessageGroupKey,
    pub request_id: Option<Uuid>,
}

#[derive(Debug, Clone, PartialEq, Eq)]
pub struct GroupCreateFailure {
    pub cid: u64,
    pub message: String,
    pub request_id: Option<Uuid>,
}

#[derive(Debug, Clone, PartialEq, Eq)]
pub struct GroupLeaveSuccess {
    pub cid: u64,
    pub group_key: MessageGroupKey,
    pub request_id: Option<Uuid>,
}

#[derive(Debug, Clone, PartialEq, Eq)]
pub struct GroupLeaveFailure {
    pub cid: u64,
    pub message: String,
    pub request_id: Option<Uuid>,
}

#[derive(Debug, Clone, PartialEq, Eq)]
pub struct GroupEndSuccess {
    pub cid: u64,
    pub group_key: MessageGroupKey,
    pub request_id: Option<Uuid>,
}

#[derive(Debug, Clone, PartialEq, Eq)]
pub struct GroupEndFailure {
    pub cid: u64,
    pub message: String,
    pub request_id: Option<Uuid>,
}

#[derive(Debug, Clone, PartialEq, Eq)]
pub struct GroupEndNotification {
    pub cid: u64,
    pub group_key: MessageGroupKey,
    pub success: bool,
    pub request_id: Option<Uuid>,
}

#[derive(Debug, Clone, PartialEq, Eq)]
pub struct GroupLeaveNotification {
    pub cid: u64,
    pub group_key: MessageGroupKey,
    pub success: bool,
    pub message: String,
    pub request_id: Option<Uuid>,
}

#[derive(Debug, Clone, PartialEq, Eq)]
pub struct GroupMessageNotification {
    pub cid: u64,
    pub peer_cid: u64,
    pub message: Vec<u8>,
    pub group_key: MessageGroupKey,
    pub request_id: Option<Uuid>,
}

#[derive(Debug, Clone, PartialEq, Eq)]
pub struct GroupMessageSuccess {
    pub cid: u64,
    pub group_key: MessageGroupKey,
    pub request_id: Option<Uuid>,
}

#[derive(Debug, Clone, PartialEq, Eq)]
pub struct GroupMessageResponse {
    pub cid: u64,
    pub group_key: MessageGroupKey,
    pub success: bool,
    pub request_id: Option<Uuid>,
}

#[derive(Debug, Clone, PartialEq, Eq)]
pub struct GroupMessageFailure {
    pub cid: u64,
    pub message: String,
    pub request_id: Option<Uuid>,
}

#[derive(Debug, Clone, PartialEq, Eq)]
pub struct GroupInviteNotification {
    pub cid: u64,
    pub peer_cid: u64,
    pub group_key: MessageGroupKey,
    pub request_id: Option<Uuid>,
}

#[derive(Debug, Clone, PartialEq, Eq)]
pub struct GroupInviteSuccess {
    pub cid: u64,
    pub group_key: MessageGroupKey,
    pub request_id: Option<Uuid>,
}

#[derive(Debug, Clone, PartialEq, Eq)]
pub struct GroupInviteFailure {
    pub cid: u64,
    pub message: String,
    pub request_id: Option<Uuid>,
}

#[derive(Debug, Clone, PartialEq, Eq)]
pub struct GroupRespondRequestSuccess {
    pub cid: u64,
    pub group_key: MessageGroupKey,
    pub request_id: Option<Uuid>,
}

#[derive(Debug, Clone, PartialEq, Eq)]
pub struct GroupRespondRequestFailure {
    pub cid: u64,
    pub message: String,
    pub request_id: Option<Uuid>,
}

#[derive(Debug, Clone, PartialEq, Eq)]
pub struct GroupMembershipResponse {
    pub cid: u64,
    pub group_key: MessageGroupKey,
    pub success: bool,
    pub request_id: Option<Uuid>,
}

#[derive(Debug, PartialEq, Eq)]
pub struct GroupRequestJoinPendingNotification {
    pub cid: u64,
    pub group_key: MessageGroupKey,
    pub result: Result<(), String>,
    pub request_id: Option<Uuid>,
}

impl Clone for GroupRequestJoinPendingNotification {
    fn clone(&self) -> (copy: Self)
        ensures
            copy.cid == self.cid,
            copy.group_key == self.group_key,
            copy.request_id == self.request_id,
            match (self.result, copy.result) {
                (Ok(_), Ok(_)) => true,
                (Err(reason), Err(same)) => same@ == reason@,
                _ => false,
            },
    {
        let result = match &self.result {
            Ok(_) => Ok(()),
            Err(reason) => Err(reason.clone()),
        };
        GroupRequestJoinPendingNotification {
            cid: self.cid,
            group_key: self.group_key,
            result,
            request_id: self.request_id,
        }
    }
}

#[derive(Debug, Clone, PartialEq, Eq)]
pub struct GroupDisconnectNotification {
    pub cid: u64,
    pub group_key: MessageGroupKey,
    pub request_id: Option<Uuid>,
}

#[derive(Debug, Clone, PartialEq, Eq)]
pub struct GroupKickSuccess {
    pub cid: u64,
    pub group_key: MessageGroupKey,
    pub request_id: Option<Uuid>,
}

#[derive(Debug, Clone, PartialEq, Eq)]
pub struct GroupKickFailure {
    pub cid: u64,
    pub message: String,
    pub request_id: Option<Uuid>,
}

#[derive(Debug, Clone, PartialEq, Eq)]
pub struct GroupListGroupsSuccess {
    pub cid: u64,
    pub peer_cid: Option<u64>,
    pub group_list: Option<Vec<MessageGroupKey>>,
    pub request_id: Option<Uuid>,
}

#[derive(Debug, Clone, PartialEq, Eq)]
pub struct GroupListGroupsFailure {
    pub cid: u64,
    pub message: String,
    pub request_id: Option<Uuid>,
}

#[derive(Debug, Clone, PartialEq, Eq)]
pub struct GroupListGroupsResponse {
    pub cid: u64,
    pub group_list: Option<Vec<MessageGroupKey>>,
    pub request_id: Option<Uuid>,
}

#[derive(Debug, Clone, PartialEq, Eq)]
pub struct GroupJoinRequestNotification {
    pub cid: u64,
    pub peer_cid: u64,
    pub group_key: MessageGroupKey,
    pub request_id: Option<Uuid>,
}

#[derive(Debug, Clone, PartialEq, Eq)]
pub struct GroupRequestJoinAcceptResponse {
    pub cid: u64,
    pub group_key: MessageGroupKey,
    pub request_id: Option<Uuid>,
}

#[derive(Debug, Clone, PartialEq, Eq)]
pub struct GroupRequestJoinDeclineResponse {
    pub cid: u64,
    pub group_key: MessageGroupKey,
    pub request_id: Option<Uuid>,
}

#[derive(Debug, Clone, PartialEq, Eq)]
pub struct GroupRequestJoinSuccess {
    pub cid: u64,
    pub group_key: MessageGroupKey,
    pub request_id: Option<Uuid>,
}

#[derive(Debug, Clone, PartialEq, Eq)]
pub struct GroupRequestJoinFailure {
    pub cid: u64,
    pub message: String,
    pub request_id: Option<Uuid>,
}

#[derive(Debug, Clone, PartialEq, Eq)]
pub struct GroupMemberStateChangeNotification {
    pub cid: u64,
    pub group_key: MessageGroupKey,
    pub state: MemberState,
    pub request_id: Option<Uuid>,
}

} // verus!
