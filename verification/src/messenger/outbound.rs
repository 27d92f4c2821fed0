//! What leaves for the agent: requests of local clients, and what their delivery layers send to
//! other clients.

use crate::messenger::stream_key::StreamKey;
use crate::messenger::wire;
use crate::messenger::wire::{
    encode_ack, encode_message, encode_poll, InternalMessage, WireWrapper, WrappedMessage,
    LOOPBACK_ONLY,
};
use crate::types::ids::Uuid;
use crate::types::payload::InternalServicePayload;
use crate::types::request::InternalServiceRequest;
use crate::types::settings::SecurityLevel;
use vstd::prelude::*;

verus! {

/// What to do with one message on its way out.
#[derive(PartialEq, Eq)]
pub enum Outbound {
    /// Send this request to the agent. Where that fails, the messenger stops if `vital`.
    Send { request: InternalServiceRequest, vital: bool },
    /// Nothing can be done with it.
    Discard,
}

/// `request` asks the agent to carry `bytes` from `cid` to `peer_cid`.
pub open spec fn carries(
    request: InternalServiceRequest,
    id: Uuid,
    bytes: Seq<u8>,
    from: u64,
    to: Option<u64>,
    level: SecurityLevel,
) -> bool {
    request matches InternalServiceRequest::Message {
        request_id,
        message,
        cid,
        peer_cid,
        security_level,
    } && request_id == id && message@ == bytes && cid == from && peer_cid == to && security_level
        == level
}

/// What is to be done with `message` from stream `key`, where an acknowledgement or a poll gets
/// the identifier `fresh`.
pub open spec fn dispatched(key: StreamKey, message: InternalMessage, fresh: Uuid, out: Outbound) -> bool {
    match message {
        InternalMessage::Message(wrapped) => if key == StreamKey::bypass() {
            match wrapped.contents {
                InternalServicePayload::Request(request) => out == (Outbound::Send {
                    request,
                    vital: false,
                }),
                InternalServicePayload::Response(_) => out is Discard,
            }
        } else {
            match wrapped.contents {
                InternalServicePayload::Request(
                    InternalServiceRequest::Message {
                        request_id,
                        message,
                        cid,
                        peer_cid,
                        security_level,
                    },
                ) => out matches Outbound::Send { request, vital } && vital && carries(
                    request,
                    request_id,
                    wire::message_bytes(
                        wrapped.source_id,
                        wrapped.destination_id,
                        wrapped.message_id,
                        message@,
                    ),
                    cid,
                    peer_cid,
                    security_level,
                ),
                _ => out is Discard,
            }
        },
        InternalMessage::Ack { from_id, to_id, message_id } => if key == StreamKey::bypass() {
            out is Discard
        } else {
            out matches Outbound::Send { request, vital } && vital && carries(
                request,
                fresh,
                wire::numbered_signal_bytes(0, from_id, to_id, message_id),
                from_id,
                Some(to_id),
                SecurityLevel::Standard,
            )
        },
        InternalMessage::Poll { from_id, to_id } => if key == StreamKey::bypass() {
            out is Discard
        } else {
            out matches Outbound::Send { request, vital } && vital && carries(
                request,
                fresh,
                wire::signal_bytes(2, from_id, to_id),
                from_id,
                Some(to_id),
                SecurityLevel::Standard,
            )
        },
    }
}

/// What to do with a message from stream `key`. A request on the bypass goes to the agent as it
/// is; the bytes of a user's message go in an envelope; an acknowledgement or a poll becomes a
/// message of its own, under the identifier `fresh`.
pub fn dispatch(key: StreamKey, message: InternalMessage, fresh: Uuid) -> (out: Outbound)
    ensures
        dispatched(key, message, fresh, out),
{
    let bypass = key == StreamKey::bypass_ism();
    match message {
        InternalMessage::Message(wrapped) => {
            if bypass {
                match wrapped.contents {
                    InternalServicePayload::Request(request) => {
                        Outbound::Send { request, vital: false }
                    },
                    InternalServicePayload::Response(_) => Outbound::Discard,
                }
            } else {
                match wrapped.contents {
                    InternalServicePayload::Request(
                        InternalServiceRequest::Message {
                            request_id,
                            message,
                            cid,
                            peer_cid,
                            security_level,
                        },
                    ) => {
                        let bytes = encode_message(
                            wrapped.source_id,
                            wrapped.destination_id,
                            wrapped.message_id,
                            &message,
                        );
                        let request = InternalServiceRequest::Message {
                            request_id,
                            message: bytes,
                            cid,
                            peer_cid,
                            security_level,
                        };
                        Outbound::Send { request, vital: true }
                    },
                    _ => Outbound::Discard,
                }
            }
        },
        InternalMessage::Ack { from_id, to_id, message_id } => {
            if bypass {
                return Outbound::Discard;
            }
            let request = InternalServiceRequest::Message {
                request_id: fresh,
                message: encode_ack(from_id, to_id, message_id),
                cid: from_id,
                peer_cid: Some(to_id),
                security_level: SecurityLevel::Standard,
            };
            Outbound::Send { request, vital: true }
        },
        InternalMessage::Poll { from_id, to_id } => {
            if bypass {
                return Outbound::Discard;
            }
            let request = InternalServiceRequest::Message {
                request_id: fresh,
                message: encode_poll(from_id, to_id),
                cid: from_id,
                peer_cid: Some(to_id),
                security_level: SecurityLevel::Standard,
            };
            Outbound::Send { request, vital: true }
        },
    }
}

/// What to do with a message from stream `key`, a new identifier drawn for it.
pub fn dispatch_outbound(key: StreamKey, message: InternalMessage) -> (out: Outbound)
    ensures
        exists|fresh: Uuid| fresh.is_random() && #[trigger] dispatched(key, message, fresh, out),
{
    let fresh = Uuid::new_v4();
    let out = dispatch(key, message, fresh);
    assert(dispatched(key, message, fresh, out));
    out
}

/// A payload for the internal service, as the client of `key` sends it past its delivery layer.
pub fn bypass_message(key: StreamKey, payload: InternalServicePayload) -> (r: (
    StreamKey,
    InternalMessage,
))
    ensures
        r.0 == StreamKey::bypass(),
        r.1 == InternalMessage::Message(
            WrappedMessage {
                source_id: key.cid,
                destination_id: LOOPBACK_ONLY,
                message_id: 0,
                contents: payload,
            },
        ),
{
    (
        StreamKey::bypass_ism(),
        InternalMessage::Message(
            WrappedMessage {
                source_id: key.cid,
                destination_id: LOOPBACK_ONLY,
                message_id: 0,
                contents: payload,
            },
        ),
    )
}

/// A payload made readable for a delivery layer, though none of its own sent it.
pub fn send_from_non_ism_source_to_ism_destination(
    cid: u64,
    payload: InternalServicePayload,
) -> (wrapper: WireWrapper)
    ensures
        wrapper == (WireWrapper::ISMAux {
            signal: InternalMessage::Message(
                WrappedMessage {
                    source_id: cid,
                    destination_id: LOOPBACK_ONLY,
                    message_id: 0,
                    contents: payload,
                },
            ),
        }),
{
    WireWrapper::ISMAux {
        signal: InternalMessage::Message(
            WrappedMessage {
                source_id: cid,
                destination_id: LOOPBACK_ONLY,
                message_id: 0,
                contents: payload,
            },
        ),
    }
}

/// The request that carries a message of the client `cid` to a peer.
pub fn message_request(
    cid: u64,
    peer_cid: u64,
    security_level: SecurityLevel,
    request_id: Uuid,
    message: Vec<u8>,
) -> (payload: InternalServicePayload)
    ensures
        payload == InternalServicePayload::Request(
            InternalServiceRequest::Message {
                request_id,
                message,
                cid,
                peer_cid: Some(peer_cid),
                security_level,
            },
        ),
{
    InternalServicePayload::Request(
        InternalServiceRequest::Message {
            request_id,
            message,
            cid,
            peer_cid: Some(peer_cid),
            security_level,
        },
    )
}

/// A request sent past the delivery layer reaches the agent exactly as it was written.
pub proof fn law_bypassed_requests_arrive_unchanged(
    key: StreamKey,
    request: InternalServiceRequest,
    fresh: Uuid,
    out: Outbound,
)
    requires
        dispatched(
            StreamKey::bypass(),
            InternalMessage::Message(
                WrappedMessage {
                    source_id: key.cid,
                    destination_id: LOOPBACK_ONLY,
                    message_id: 0,
                    contents: InternalServicePayload::Request(request),
                },
            ),
            fresh,
            out,
        ),
    ensures
        out == (Outbound::Send { request, vital: false }),
{
}

/// What one messenger sends for a client's delivery layer, another reads back: the bytes on the
/// wire decode to the message's own source, destination, number and contents.
pub proof fn law_sent_messages_decode(key: StreamKey, wrapped: WrappedMessage, fresh: Uuid, out: Outbound)
    requires
        key != StreamKey::bypass(),
        wrapped.contents matches InternalServicePayload::Request(
            InternalServiceRequest::Message { message, .. },
        ) && message@.len() <= u64::MAX,
        dispatched(key, InternalMessage::Message(wrapped), fresh, out),
    ensures
        out matches Outbound::Send { request, .. } && request matches InternalServiceRequest::Message {
            message: sent,
            ..
        } && wire::decoded(sent@) == (wire::DecodedView::Message {
            source: wrapped.source_id,
            destination: wrapped.destination_id,
            message_id: wrapped.message_id,
            contents: wrapped.contents->Request_0->Message_message@,
        }),
{
    wire::law_message_round_trip(
        wrapped.source_id,
        wrapped.destination_id,
        wrapped.message_id,
        wrapped.contents->Request_0->Message_message@,
    );
}

/// What a delivery layer says to another goes out between the two clients that it names, under an
/// identifier of its own and at the standard level, and is read back as what was said. Where it
/// cannot be sent, the messenger stops.
pub proof fn law_signals_go_out_between_their_clients(
    key: StreamKey,
    message: InternalMessage,
    fresh: Uuid,
    out: Outbound,
)
    requires
        key != StreamKey::bypass(),
        message !is Message,
        dispatched(key, message, fresh, out),
    ensures
        out matches Outbound::Send { request, vital }
            && request matches InternalServiceRequest::Message {
            request_id,
            message: sent,
            cid,
            peer_cid,
            security_level,
        } && vital && request_id == fresh && cid == message.source() && peer_cid == Some(
            message.destination(),
        ) && security_level is Standard && match message {
            InternalMessage::Ack { from_id, to_id, message_id } => wire::decoded(sent@) == (
            wire::DecodedView::Ack { from_id, to_id, message_id }),
            InternalMessage::Poll { from_id, to_id } => wire::decoded(sent@) == (
            wire::DecodedView::Poll { from_id, to_id }),
            InternalMessage::Message(_) => false,
        },
{
    wire::law_signal_round_trip(
        message.source(),
        message.destination(),
        match message {
            InternalMessage::Ack { message_id, .. } => message_id,
            _ => 0,
        },
        Seq::empty(),
    );
}

/// The envelope changes nothing of a user's message but its bytes: the request keeps its
/// identifier, its two clients and its level. Where it cannot be sent, the messenger stops.
pub proof fn law_the_envelope_changes_the_bytes_alone(
    key: StreamKey,
    wrapped: WrappedMessage,
    fresh: Uuid,
    out: Outbound,
)
    requires
        key != StreamKey::bypass(),
        wrapped.contents is Request,
        wrapped.contents->Request_0 is Message,
        dispatched(key, InternalMessage::Message(wrapped), fresh, out),
    ensures
        out matches Outbound::Send { request, vital } && vital && request is Message
            && request->Message_request_id == wrapped.contents->Request_0->Message_request_id
            && request->Message_cid == wrapped.contents->Request_0->Message_cid
            && request->Message_peer_cid == wrapped.contents->Request_0->Message_peer_cid
            && request->Message_security_level
            == wrapped.contents->Request_0->Message_security_level,
{
}

/// What cannot go out is discarded, and nothing else is: on the bypass all but requests, and past
/// a delivery layer a message that holds anything but a user's message.
pub proof fn law_what_is_discarded(
    key: StreamKey,
    message: InternalMessage,
    fresh: Uuid,
    out: Outbound,
)
    requires
        dispatched(key, message, fresh, out),
    ensures
        key == StreamKey::bypass() ==> (out is Discard <==> !(message is Message
            && message->Message_0.contents is Request)),
        key != StreamKey::bypass() ==> (out is Discard <==> message is Message && !(
        message->Message_0.contents is Request && message->Message_0.contents->Request_0
            is Message)),
{
}

/// What a client sends past its delivery layer leaves on the bypass, from that client to no other,
/// and reaches the agent exactly as it was written.
pub proof fn law_past_the_delivery_layer(
    key: StreamKey,
    request: InternalServiceRequest,
    sent: (StreamKey, InternalMessage),
    fresh: Uuid,
    out: Outbound,
)
    requires
        call_ensures(bypass_message, (key, InternalServicePayload::Request(request)), sent),
        call_ensures(dispatch, (sent.0, sent.1, fresh), out),
    ensures
        sent.1.source() == key.cid,
        sent.1.destination() == 0,
        out == (Outbound::Send { request, vital: false }),
{
}

/// The request for a message carries what it was made of: between the two clients, at the level,
/// under the identifier.
pub proof fn law_a_message_request_carries_what_it_was_made_of(
    cid: u64,
    peer_cid: u64,
    security_level: SecurityLevel,
    request_id: Uuid,
    message: Vec<u8>,
    payload: InternalServicePayload,
)
    requires
        call_ensures(
            message_request,
            (cid, peer_cid, security_level, request_id, message),
            payload,
        ),
    ensures
        payload is Request,
        payload->Request_0.id() == request_id,
        carries(
            payload->Request_0,
            request_id,
            message@,
            cid,
            Some(peer_cid),
            security_level,
        ),
{
}

} // verus!
