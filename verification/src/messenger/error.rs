//! What can go wrong for a client of the messenger.

use crate::messenger::wire::InternalMessage;
use crate::types::payload::InternalServicePayload;
use crate::types::request::InternalServiceRequest;
use vstd::prelude::*;

verus! {

/// What was not sent.
#[derive(PartialEq, Eq)]
pub enum Unsent {
    /// The bytes of a user's message.
    Bytes(Vec<u8>),
    /// Anything else.
    Payload(InternalServicePayload),
}

/// What went wrong for a client of the messenger.
#[derive(PartialEq, Eq)]
pub enum MessengerError {
    SendError { reason: String, message: Unsent },
    OtherError { reason: String },
    InitError { reason: String },
    CreateMultiplexError { reason: String },
    Shutdown,
}

/// How a delivery layer failed to take a message.
#[derive(PartialEq, Eq)]
pub enum LayerError {
    /// The message comes back with the reason.
    SendFailed { reason: String, contents: InternalServicePayload },
    /// Any other failure, described.
    Other { described: String },
}

/// The error that the sender of a message sees: the bytes of a user's message come back as
/// bytes, any other payload as it is.
pub fn send_error(error: LayerError) -> (seen: MessengerError)
    ensures
        seen == match error {
            LayerError::SendFailed {
                reason,
                contents: InternalServicePayload::Request(
                    InternalServiceRequest::Message { message, .. },
                ),
            } => MessengerError::SendError { reason, message: Unsent::Bytes(message) },
            LayerError::SendFailed { reason, contents } => MessengerError::SendError {
                reason,
                message: Unsent::Payload(contents),
            },
            LayerError::Other { described } => MessengerError::OtherError { reason: described },
        },
{
    match error {
        LayerError::SendFailed { reason, contents } => match contents {
            InternalServicePayload::Request(
                InternalServiceRequest::Message { message, .. },
            ) => MessengerError::SendError { reason, message: Unsent::Bytes(message) },
            other => MessengerError::SendError { reason, message: Unsent::Payload(other) },
        },
        LayerError::Other { described } => MessengerError::OtherError { reason: described },
    }
}

/// The error that the sender of a request past the delivery layer sees where the messenger does
/// not take it: the payload comes back.
pub fn bypass_error(reason: String, message: InternalMessage) -> (seen: MessengerError)
    ensures
        seen == match message {
            InternalMessage::Message(wrapped) => MessengerError::SendError {
                reason,
                message: Unsent::Payload(wrapped.contents),
            },
            _ => MessengerError::OtherError { reason },
        },
{
    match message {
        InternalMessage::Message(wrapped) => MessengerError::SendError {
            reason,
            message: Unsent::Payload(wrapped.contents),
        },
        _ => MessengerError::OtherError { reason },
    }
}

/// Between two looks whether a peer is there, in milliseconds.
pub const PEER_WAIT_MS: u64 = 300;

/// How waiting for a peer goes on.
#[derive(PartialEq, Eq)]
pub enum PeerWait {
    Connected,
    Shutdown,
    /// Look again after a while.
    Again,
}

/// How waiting for `peer` goes on, where `connected` are the peers there are now, and `running`
/// tells whether the messenger will look again.
pub fn peer_wait(running: bool, connected: &Vec<u64>, peer: u64) -> (next: PeerWait)
    ensures
        next == if connected@.contains(peer) {
            PeerWait::Connected
        } else if running {
            PeerWait::Again
        } else {
            PeerWait::Shutdown
        },
{
    let mut i: usize = 0;
    while i < connected.len()
        invariant
            i <= connected.len(),
            forall|j: int| 0 <= j < i ==> connected@[j] != peer,
        decreases connected.len() - i,
    {
        if connected[i] == peer {
            return PeerWait::Connected;
        }
        i = i + 1;
    }
    if running {
        PeerWait::Again
    } else {
        PeerWait::Shutdown
    }
}

/// What could not be sent comes back with the reason: the bytes of a user's message as bytes, any
/// other payload as it is.
pub proof fn law_what_was_not_sent_comes_back(
    reason: String,
    contents: InternalServicePayload,
    seen: MessengerError,
)
    requires
        call_ensures(send_error, (LayerError::SendFailed { reason, contents },), seen),
    ensures
        seen is SendError,
        seen->SendError_reason == reason,
        contents is Request && contents->Request_0 is Message ==> seen->SendError_message
            == Unsent::Bytes(contents->Request_0->Message_message),
        !(contents is Request && contents->Request_0 is Message) ==> seen->SendError_message
            == Unsent::Payload(contents),
{
}

/// A request that the messenger does not take comes back with the reason, as it was.
pub proof fn law_a_bypassed_request_comes_back(
    reason: String,
    message: InternalMessage,
    seen: MessengerError,
)
    requires
        call_ensures(bypass_error, (reason, message), seen),
    ensures
        message matches InternalMessage::Message(wrapped) ==> seen == (MessengerError::SendError {
            reason,
            message: Unsent::Payload(wrapped.contents),
        }),
        message !is Message ==> seen == (MessengerError::OtherError { reason }),
{
}

/// A peer is waited for until it is there, and given up only where the messenger has stopped.
pub proof fn law_a_peer_is_waited_for(
    running: bool,
    connected: Vec<u64>,
    peer: u64,
    next: PeerWait,
)
    requires
        call_ensures(peer_wait, (running, &connected, peer), next),
    ensures
        next is Connected <==> connected@.contains(peer),
        next is Again <==> !connected@.contains(peer) && running,
        next is Shutdown <==> !connected@.contains(peer) && !running,
{
}

} // verus!
