//! Messages between clients, and the store behind their delivery.

use citadel_internal_service::messenger::backend::{
    batch_answered, batch_miscounted, batch_request, batch_stored, batch_unacknowledged,
    clear_message_inbound, clear_message_outbound, clear_messages_outbound, get_map,
    get_request, get_requests, inbound_message_prefix, map_initialized, map_read, map_unreadable,
    map_unwritable, map_updated, outbound_message_prefix, retry_read, send_failed, set_request,
    set_requests, store_inbound, store_outbound, store_request_id, value_loaded, value_stored,
    values_loaded, BackendError, BatchProblem, CitadelWorkspaceBackend, Inspected, MapRead,
    ReadPhase, ReadStep,
};
use citadel_internal_service::messenger::backend_map::{mutate, Change, MessageMap};
use citadel_internal_service::messenger::error::{
    bypass_error, peer_wait, send_error, LayerError, MessengerError, PeerWait, Unsent,
};
use citadel_internal_service::messenger::outbound::{
    bypass_message, dispatch, dispatch_outbound, message_request,
    send_from_non_ism_source_to_ism_destination, Outbound,
};
use citadel_internal_service::messenger::router::{
    after_inspection, local_delivery, Inbound, Inspection, Inspector, Round, Router,
};
use citadel_internal_service::messenger::stream_key::StreamKey;
use citadel_internal_service::messenger::wire::{
    decode, encode_ack, encode_envelope, encode_message, encode_poll, Decoded, InternalMessage,
    WireWrapper, WrappedMessage, LOOPBACK_ONLY,
};
use citadel_internal_service::types::ids::Uuid;
use citadel_internal_service::types::info::{PeerSessionInformation, SessionInformation};
use citadel_internal_service::types::local_db::{
    LocalDBGetKVFailure, LocalDBGetKVSuccess, LocalDBSetKVFailure, LocalDBSetKVSuccess,
};
use citadel_internal_service::types::payload::InternalServicePayload;
use citadel_internal_service::types::request::InternalServiceRequest;
use citadel_internal_service::types::response::{BatchedResponseData, InternalServiceResponse};
use citadel_internal_service::types::session::{
    ConnectSuccess, GetSessionsResponse, MessageNotification, MessageSendSuccess,
};
use citadel_internal_service::types::settings::SecurityLevel;
use std::collections::HashMap;

fn id(bits: u128) -> Uuid {
    Uuid { bits }
}

fn connected(cid: u64, request_id: Option<Uuid>) -> InternalServiceResponse {
    InternalServiceResponse::ConnectSuccess(ConnectSuccess { cid, request_id })
}

fn message(message_id: u64) -> WrappedMessage {
    WrappedMessage::construct_from_parts(
        1,
        2,
        message_id,
        InternalServicePayload::Response(connected(1, None)),
    )
}

fn ids(queue: MessageMap) -> Vec<u64> {
    let mut out: Vec<u64> = queue
        .into_messages()
        .into_iter()
        .map(|m| m.message_id)
        .collect();
    out.sort_unstable();
    out
}

fn insert(message_id: u64) -> Change {
    Change::Store {
        peer: 2,
        message_id,
        message: message(message_id),
    }
}

/// An insert and a removal both survive, whichever comes first.
#[test]
fn a_concurrent_insert_and_removal_both_survive() {
    let remove = || Change::Clear {
        peer: 2,
        message_id: 1,
    };
    let start = || {
        let mut queue = MessageMap::new();
        queue.store(2, 1, message(1));
        Ok::<_, BackendError>(queue)
    };
    // Under one lock, each call reads what the one before it wrote.
    let after = |first: Change, second: Change| {
        let first = mutate(start(), id(1), first).unwrap();
        assert_eq!(first.request_id, id(1));
        let second = mutate(Ok::<_, BackendError>(first.queue), id(2), second).unwrap();
        assert_eq!(second.request_id, id(2));
        ids(second.queue)
    };
    assert_eq!(after(insert(2), remove()), vec![2]);
    assert_eq!(after(remove(), insert(2)), vec![2]);
}

#[test]
fn concurrent_inserts_do_not_overwrite_each_other() {
    let mut queue = Ok::<_, BackendError>(MessageMap::new());
    for id in 1..=8u64 {
        queue = mutate(queue, Uuid::new_v4(), insert(id)).map(|write| write.queue);
    }
    assert_eq!(ids(queue.unwrap()), (1..=8).collect::<Vec<_>>());
}

/// A failed read is not an empty queue, and is not written back.
#[test]
fn a_failed_read_does_not_write_anything() {
    let read = Err(BackendError::StorageError("read failed".to_string()));
    let outcome = mutate(read, id(1), insert(1));
    assert!(
        matches!(outcome, Err(BackendError::StorageError(text)) if text == "read failed"),
        "a failed read must not report success"
    );
}

#[test]
fn queues_clear_several_messages_of_one_peer() {
    let mut queue = MessageMap::new();
    for id in 1..=4 {
        queue.apply(insert(id));
    }
    queue.store(3, 9, message(9));
    queue.apply(Change::ClearMany {
        peer: 2,
        message_ids: vec![1, 3, 7],
    });
    queue.apply(Change::ClearMany {
        peer: 8,
        message_ids: vec![2],
    });
    assert_eq!(ids(queue), vec![2, 4, 9]);
}

#[test]
fn queues_are_maps_of_maps() {
    let mut state = HashMap::new();
    state.insert(2, HashMap::from([(1, message(1))]));
    state.insert(3, HashMap::new());
    let mut queue = MessageMap::from_state(state);
    queue.store(2, 4, message(4));
    let state = queue.into_state();
    assert_eq!(state.len(), 2);
    assert_eq!(state[&2].len(), 2);
    assert!(state[&2][&4] == message(4));
    assert!(state[&3].is_empty());
}

#[test]
fn envelopes_are_plain_little_endian_fields() {
    assert_eq!(
        encode_message(1, 2, 3, &vec![7, 8]),
        [
            vec![0, 0, 0, 0],
            vec![1, 0, 0, 0, 0, 0, 0, 0],
            vec![2, 0, 0, 0, 0, 0, 0, 0],
            vec![3, 0, 0, 0, 0, 0, 0, 0],
            vec![2, 0, 0, 0, 0, 0, 0, 0],
            vec![7, 8],
        ]
        .concat()
    );
    assert_eq!(encode_ack(1, 2, 3).len(), 32);
    assert_eq!(encode_ack(1, 2, 3)[..8], [1, 0, 0, 0, 0, 0, 0, 0]);
    assert_eq!(encode_poll(1, 2).len(), 24);
    assert_eq!(encode_poll(1, 2)[..8], [1, 0, 0, 0, 2, 0, 0, 0]);
}

#[test]
fn what_was_encoded_decodes() {
    let big = u64::MAX - 1;
    assert!(
        decode(&encode_message(big, 2, 3, &vec![9; 300]))
            == Decoded::Message {
                source: big,
                destination: 2,
                message_id: 3,
                contents: vec![9; 300],
            }
    );
    assert!(
        decode(&encode_ack(4, big, 6))
            == Decoded::Ack {
                from_id: 4,
                to_id: big,
                message_id: 6,
            }
    );
    assert!(
        decode(&encode_poll(4, 5))
            == Decoded::Poll {
                from_id: 4,
                to_id: 5,
            }
    );
    assert!(
        decode(&encode_envelope(4, 5, 6, vec![1, 2, 3]))
            == Decoded::Envelope {
                source: 4,
                destination: 5,
                message_id: 6,
                payload: vec![1, 2, 3],
            }
    );
}

#[test]
fn a_payload_of_nobody_in_particular_is_addressed_to_the_service() {
    let payload = || InternalServicePayload::Response(connected(4, None));
    assert!(
        send_from_non_ism_source_to_ism_destination(4, payload())
            == WireWrapper::ISMAux {
                signal: InternalMessage::Message(WrappedMessage::construct_from_parts(
                    4,
                    LOOPBACK_ONLY,
                    0,
                    payload()
                )),
            }
    );
}

#[test]
fn what_nobody_encoded_is_foreign() {
    let mut cut = encode_message(1, 2, 3, &vec![7, 8]);
    cut.pop();
    let mut long = encode_message(1, 2, 3, &vec![7, 8]);
    long[28..36].copy_from_slice(&[0xff; 8]);
    let mut tag = encode_poll(1, 2);
    tag[0] = 2;
    let mut kind = encode_ack(1, 2, 3);
    kind[4] = 3;
    let mut short = encode_ack(1, 2, 3);
    short.pop();
    for bytes in [cut, long, tag, kind, short, vec![], b"hello".to_vec()] {
        assert!(decode(&bytes) == Decoded::Foreign);
    }
}

#[test]
fn the_envelope_is_what_the_enums_serialize_to() {
    // The same bytes as an enum's: the number of the variant, then its fields.
    let (tag, source, destination, message_id, contents): (u32, u64, u64, u64, Vec<u8>) =
        bincode2::deserialize(&encode_message(1, 2, 3, &vec![4])).unwrap();
    assert_eq!(
        (tag, source, destination, message_id, contents),
        (0, 1, 2, 3, vec![4])
    );
}

fn user_message(bytes: Vec<u8>) -> InternalServicePayload {
    message_request(1, 2, SecurityLevel::High, id(77), bytes)
}

fn wrapped(contents: InternalServicePayload) -> InternalMessage {
    InternalMessage::Message(WrappedMessage::construct_from_parts(1, 2, 3, contents))
}

#[test]
fn messages_leave_in_envelopes_and_requests_as_they_are() {
    assert!(
        dispatch(StreamKey::ism(1), wrapped(user_message(vec![5])), id(9))
            == Outbound::Send {
                request: InternalServiceRequest::Message {
                    request_id: id(77),
                    message: encode_message(1, 2, 3, &vec![5]),
                    cid: 1,
                    peer_cid: Some(2),
                    security_level: SecurityLevel::High,
                },
                vital: true,
            }
    );
    let request = || InternalServiceRequest::GetSessions { request_id: id(5) };
    let (key, message) = bypass_message(
        StreamKey::ism(1),
        InternalServicePayload::Request(request()),
    );
    assert_eq!(key, StreamKey::bypass_ism());
    assert!(
        dispatch(key, message, id(9))
            == Outbound::Send {
                request: request(),
                vital: false,
            }
    );
}

#[test]
fn signals_become_messages_of_their_own() {
    let ack = InternalMessage::Ack {
        from_id: 1,
        to_id: 2,
        message_id: 3,
    };
    assert_eq!((ack.source_id(), ack.destination_id()), (1, 2));
    assert!(
        dispatch(StreamKey::ism(1), ack, id(9))
            == Outbound::Send {
                request: InternalServiceRequest::Message {
                    request_id: id(9),
                    message: encode_ack(1, 2, 3),
                    cid: 1,
                    peer_cid: Some(2),
                    security_level: SecurityLevel::Standard,
                },
                vital: true,
            }
    );
    let poll = || InternalMessage::Poll {
        from_id: 1,
        to_id: 2,
    };
    match dispatch_outbound(StreamKey::ism(1), poll()) {
        Outbound::Send {
            request:
                InternalServiceRequest::Message {
                    request_id,
                    message,
                    ..
                },
            ..
        } => {
            assert_eq!((request_id.bits >> 76) & 0xf, 4);
            assert_eq!(message, encode_poll(1, 2));
        }
        _ => panic!("a poll is sent"),
    }
    assert!(dispatch(StreamKey::bypass_ism(), poll(), id(9)) == Outbound::Discard);
    assert!(
        dispatch(
            StreamKey::ism(1),
            wrapped(InternalServicePayload::Response(connected(1, None))),
            id(9)
        ) == Outbound::Discard
    );
}

fn notification(bytes: Vec<u8>) -> MessageNotification {
    MessageNotification {
        message: bytes,
        cid: 2,
        peer_cid: 1,
        request_id: Some(id(8)),
    }
}

fn arrives(router: &mut Router, bytes: Vec<u8>) -> Inbound {
    router.on_network(InternalServiceResponse::MessageNotification(notification(
        bytes,
    )))
}

fn unwrapped(message_id: u64, bytes: Vec<u8>) -> InternalMessage {
    InternalMessage::Message(WrappedMessage::construct_from_parts(
        1,
        2,
        message_id,
        InternalServicePayload::Response(InternalServiceResponse::MessageNotification(
            notification(bytes),
        )),
    ))
}

#[test]
fn a_message_reaches_its_delivery_layer_and_the_user() {
    let mut router = Router::new();
    assert!(router.multiplex(2).is_empty());
    assert!(
        arrives(&mut router, encode_message(1, 2, 3, &vec![5, 6]))
            == Inbound::Deliver {
                forward: Some(notification(vec![5, 6])),
                cid: 2,
                message: unwrapped(3, vec![5, 6]),
            }
    );
    assert!(
        arrives(&mut router, encode_ack(1, 2, 3))
            == Inbound::Deliver {
                forward: None,
                cid: 2,
                message: InternalMessage::Ack {
                    from_id: 1,
                    to_id: 2,
                    message_id: 3,
                },
            }
    );
    assert!(
        arrives(&mut router, b"plain".to_vec())
            == Inbound::ToUser(InternalServiceResponse::MessageNotification(notification(
                b"plain".to_vec()
            )))
    );
}

#[test]
fn early_messages_wait_in_order() {
    let mut router = Router::new();
    assert!(
        arrives(&mut router, encode_message(1, 2, 3, &vec![5]))
            == Inbound::Queued {
                forward: Some(notification(vec![5])),
            }
    );
    assert!(arrives(&mut router, encode_poll(1, 2)) == Inbound::Queued { forward: None });
    assert!(arrives(&mut router, encode_poll(1, 4)) == Inbound::Queued { forward: None });
    let waited = router.multiplex(2);
    assert!(
        waited
            == vec![
                unwrapped(3, vec![5]),
                InternalMessage::Poll {
                    from_id: 1,
                    to_id: 2
                }
            ]
    );
    assert!(router.multiplex(2).is_empty());
    assert_eq!(router.multiplex(4).len(), 1);
    router.remove_handle(2);
    assert!(arrives(&mut router, encode_poll(1, 2)) == Inbound::Queued { forward: None });
}

#[test]
fn a_payload_is_read_before_it_is_handed_on() {
    let mut router = Router::new();
    router.multiplex(2);
    let bytes = encode_envelope(1, 2, 3, vec![4]);
    match arrives(&mut router, bytes.clone()) {
        Inbound::ReadPayload {
            notification: kept,
            source,
            destination,
            message_id,
            payload,
        } => {
            assert_eq!((source, destination, message_id), (1, 2, 3));
            assert_eq!(payload, vec![4]);
            assert!(
                router.on_payload(
                    kept,
                    source,
                    destination,
                    message_id,
                    Some(InternalServicePayload::Response(connected(1, None)))
                ) == Inbound::Deliver {
                    forward: None,
                    cid: 2,
                    message: wrapped(InternalServicePayload::Response(connected(1, None))),
                }
            );
        }
        _ => panic!("the payload is still to be read"),
    }
    assert!(
        router.on_payload(notification(bytes.clone()), 1, 2, 3, None)
            == Inbound::ToUser(InternalServiceResponse::MessageNotification(notification(
                bytes
            )))
    );
}

#[test]
fn answers_are_shown_to_backends_before_the_user() {
    let mut router = Router::new();
    assert!(router.on_network(connected(7, None)) == Inbound::ToUser(connected(7, None)));
    assert!(
        router.on_network(connected(7, Some(id(1))))
            == Inbound::Inspect {
                by: Inspector::Every,
                response: connected(7, Some(id(1))),
            }
    );
    router.add_backend(7);
    assert!(
        router.on_network(connected(7, None))
            == Inbound::Inspect {
                by: Inspector::Backend(7),
                response: connected(7, None),
            }
    );
    assert!(
        router.on_network(InternalServiceResponse::MessageSendSuccess(
            MessageSendSuccess {
                cid: 7,
                peer_cid: None,
                request_id: None,
            }
        )) == Inbound::Done
    );
    assert_eq!(
        after_inspection(0, Inspection::Passed(connected(7, None))),
        Round::ToUser(connected(7, None))
    );
    assert_eq!(
        after_inspection(2, Inspection::Passed(connected(7, None))),
        Round::Next(connected(7, None))
    );
    assert_eq!(after_inspection(2, Inspection::Consumed), Round::Done);
    assert_eq!(after_inspection(2, Inspection::Failed), Round::Done);
}

fn sessions(request_id: Option<Uuid>, list: &[(u64, &[u64])]) -> InternalServiceResponse {
    InternalServiceResponse::GetSessionsResponse(GetSessionsResponse {
        cid: 0,
        sessions: list
            .iter()
            .map(|(cid, peers)| SessionInformation {
                cid: *cid,
                username: "alice".to_string(),
                peer_connections: peers
                    .iter()
                    .map(|peer| {
                        (
                            *peer,
                            PeerSessionInformation {
                                cid: *cid,
                                peer_cid: *peer,
                                peer_username: "bob".to_string(),
                            },
                        )
                    })
                    .collect::<HashMap<_, _>>(),
            })
            .collect(),
        request_id,
    })
}

#[test]
fn the_messenger_keeps_its_own_answers_to_itself() {
    let mut router = Router::new();
    assert!(router.is_running());
    router.multiplex(5);
    router.multiplex(6);
    let requests = router.poll_sessions();
    assert_eq!(requests.len(), 2);
    let mut asked = Vec::new();
    for (key, message) in requests {
        assert_eq!(key, StreamKey::bypass_ism());
        match message {
            InternalMessage::Message(WrappedMessage {
                source_id,
                destination_id,
                contents:
                    InternalServicePayload::Request(InternalServiceRequest::GetSessions { request_id }),
                ..
            }) => {
                assert_eq!(destination_id, LOOPBACK_ONLY);
                asked.push((source_id, request_id));
            }
            _ => panic!("a poll asks for the sessions"),
        }
    }
    asked.sort_by_key(|(cid, _)| *cid);
    assert_eq!(asked[0].0, 5);
    assert_eq!(asked[1].0, 6);
    let answer = sessions(Some(asked[0].1), &[(5, &[9]), (6, &[7, 8])]);
    assert!(router.on_network(answer) == Inbound::Done);
    assert_eq!(router.connected_peers(5), vec![9]);
    let mut peers = router.connected_peers(6);
    peers.sort_unstable();
    assert_eq!(peers, vec![7, 8]);
    assert_eq!(router.connected_peers(4), Vec::<u64>::new());
    let again = || sessions(Some(asked[0].1), &[(5, &[])]);
    assert!(
        router.on_network(again())
            == Inbound::Inspect {
                by: Inspector::Every,
                response: again(),
            },
        "an identifier is the messenger's own only once"
    );
    assert_eq!(router.connected_peers(5), Vec::<u64>::new());
    assert_eq!(router.connected_peers(6), Vec::<u64>::new());
    router.stop();
    assert!(!router.is_running());
}

#[test]
fn senders_get_their_messages_back() {
    assert!(
        send_error(LayerError::SendFailed {
            reason: "full".to_string(),
            contents: user_message(vec![1, 2]),
        }) == MessengerError::SendError {
            reason: "full".to_string(),
            message: Unsent::Bytes(vec![1, 2]),
        }
    );
    let other = || InternalServicePayload::Response(connected(1, None));
    assert!(
        send_error(LayerError::SendFailed {
            reason: "full".to_string(),
            contents: other(),
        }) == MessengerError::SendError {
            reason: "full".to_string(),
            message: Unsent::Payload(other()),
        }
    );
    assert!(
        send_error(LayerError::Other {
            described: "x".to_string()
        }) == MessengerError::OtherError {
            reason: "x".to_string()
        }
    );
}

#[test]
fn waiting_for_a_peer_ends_with_the_messenger() {
    assert!(peer_wait(true, &vec![3, 4], 4) == PeerWait::Connected);
    assert!(peer_wait(false, &vec![3, 4], 4) == PeerWait::Connected);
    assert!(peer_wait(true, &vec![3], 4) == PeerWait::Again);
    assert!(peer_wait(false, &vec![], 4) == PeerWait::Shutdown);
}

fn found(value: &[u8]) -> InternalServiceResponse {
    InternalServiceResponse::LocalDBGetKVSuccess(LocalDBGetKVSuccess {
        cid: 5,
        peer_cid: None,
        key: "k".to_string(),
        value: value.to_vec(),
        request_id: None,
    })
}

fn not_found(message: &str) -> InternalServiceResponse {
    InternalServiceResponse::LocalDBGetKVFailure(LocalDBGetKVFailure {
        cid: 5,
        peer_cid: None,
        message: message.to_string(),
        request_id: None,
    })
}

fn kept() -> InternalServiceResponse {
    InternalServiceResponse::LocalDBSetKVSuccess(LocalDBSetKVSuccess {
        cid: 5,
        peer_cid: None,
        key: "k".to_string(),
        request_id: None,
    })
}

fn not_kept() -> InternalServiceResponse {
    InternalServiceResponse::LocalDBSetKVFailure(LocalDBSetKVFailure {
        cid: 5,
        peer_cid: None,
        message: "full".to_string(),
        request_id: None,
    })
}

fn storage(text: &str) -> BackendError {
    BackendError::StorageError(text.to_string())
}

#[test]
fn values_are_kept_under_their_name_and_client() {
    assert!(
        get_request(5, "state", id(1))
            == InternalServiceRequest::LocalDBGetKV {
                request_id: id(1),
                cid: 5,
                peer_cid: None,
                key: "state-5".to_string(),
            }
    );
    assert!(
        set_request(5, "state", id(1), vec![3])
            == InternalServiceRequest::LocalDBSetKV {
                request_id: id(1),
                cid: 5,
                peer_cid: None,
                key: "state-5".to_string(),
                value: vec![3],
            }
    );
    assert_eq!(inbound_message_prefix(), "inbound_messages");
    assert_eq!(outbound_message_prefix(), "outbound_messages");
    assert_eq!(
        send_failed("closed"),
        storage("Failed to send bypass message: closed")
    );
}

#[test]
fn no_answer_is_not_an_empty_queue() {
    assert_eq!(
        map_read("in", None),
        MapRead::Failed(storage(
            "Timed out reading the in map; refusing to treat that as an empty queue"
        ))
    );
    assert_eq!(
        map_read("in", Some(not_found("Key not found"))),
        MapRead::Absent
    );
    assert_eq!(
        map_read("in", Some(not_found("busy"))),
        MapRead::Failed(storage("Failed to get in map: busy"))
    );
    assert_eq!(
        map_read("in", Some(kept())),
        MapRead::Failed(storage("Unexpected response when getting in map"))
    );
    assert_eq!(map_read("in", Some(found(&[1]))), MapRead::Value(vec![1]));
}

#[test]
fn a_missing_queue_is_written_before_it_is_read() {
    let step =
        |phase, answer| get_map(phase, 5, "in", answer, id(1), vec![0; 8]);
    assert!(step(ReadPhase::Asked, Some(found(&[1]))) == ReadStep::Decode(vec![1]));
    assert!(
        step(ReadPhase::Asked, Some(not_found("Key not found")))
            == ReadStep::Send(set_request(5, "in", id(1), vec![0; 8]))
    );
    assert!(step(ReadPhase::Initializing, Some(kept())) == ReadStep::Empty);
    assert!(
        step(ReadPhase::Initializing, Some(not_kept()))
            == ReadStep::Failed(storage("Failed to initialize in map"))
    );
    assert!(
        step(ReadPhase::Initializing, None)
            == ReadStep::Failed(storage(
                "Timed out initializing the in map; it may not exist"
            ))
    );
    assert_eq!(map_initialized("in", Some(kept())), Ok(()));
    assert_eq!(
        map_unreadable("in", "eof"),
        storage("Failed to deserialize in map: eof")
    );
    assert_eq!(
        map_unwritable("in", "size"),
        storage("Failed to serialize in map: size")
    );
}

#[test]
fn a_write_that_is_not_acknowledged_is_no_success() {
    assert_eq!(map_updated("in", Some(kept())), Ok(()));
    assert_eq!(
        map_updated("in", Some(not_kept())),
        Err(storage("Failed to write in map"))
    );
    assert_eq!(
        map_updated("in", None),
        Err(storage(
            "Timed out writing the in map; the change may not be stored"
        ))
    );
    assert_eq!(value_stored("k", Some(kept())), Ok(()));
    assert_eq!(
        value_stored("k", Some(not_kept())),
        Err(storage("Failed to store the value for key=k"))
    );
    assert_eq!(
        value_stored("k", None),
        Err(storage(
            "Timed out storing the value for key=k; it may not be stored"
        ))
    );
    assert_eq!(value_loaded(Some(found(&[2]))), Some(vec![2]));
    assert_eq!(value_loaded(Some(kept())), None);
    assert_eq!(value_loaded(None), None);
}

#[test]
fn batches_are_answered_in_order() {
    assert!(batch_request(vec![], id(1)).is_none());
    let requests = get_requests(5, &vec!["a".to_string(), "b".to_string()]);
    for (request, key) in requests.iter().zip(["a-5", "b-5"]) {
        match request {
            InternalServiceRequest::LocalDBGetKV {
                key: asked, cid, ..
            } => assert_eq!((asked.as_str(), *cid), (key, 5)),
            _ => panic!("a value is asked for"),
        }
    }
    assert!(matches!(
        batch_request(requests, id(1)),
        Some(InternalServiceRequest::Batched { commands, .. }) if commands.len() == 2
    ));
    let kept_requests = set_requests(5, &vec![("a".to_string(), vec![1])]);
    assert!(matches!(
        &kept_requests[0],
        InternalServiceRequest::LocalDBSetKV { key, value, .. } if key == "a-5" && value == &vec![1]
    ));
    let batch = |results| {
        Some(InternalServiceResponse::BatchedResponse(
            BatchedResponseData {
                cid: 5,
                results,
                request_id: None,
            },
        ))
    };
    assert_eq!(
        batch_answered(batch(vec![kept()])),
        Ok(vec![kept()])
    );
    assert_eq!(
        batch_answered(Some(kept())),
        Err(storage("Unexpected response type for batched request"))
    );
    assert_eq!(
        batch_answered(None),
        Err(storage("Timeout waiting for batched response"))
    );
    assert_eq!(
        values_loaded(vec![found(&[1]), kept(), found(&[2])]),
        vec![Some(vec![1]), None, Some(vec![2])]
    );
}

#[test]
fn a_batch_is_stored_only_where_every_value_is() {
    assert_eq!(batch_stored(2, &vec![kept(), kept()]), Ok(()));
    assert_eq!(
        batch_stored(2, &vec![kept(), not_kept()]),
        Err(BatchProblem::Unacknowledged(1))
    );
    assert_eq!(
        batch_stored(2, &vec![kept()]),
        Err(BatchProblem::Count {
            expected: 2,
            got: 1
        })
    );
    assert_eq!(
        batch_stored(1, &vec![kept(), not_kept()]),
        Err(BatchProblem::Count {
            expected: 1,
            got: 2
        })
    );
    assert_eq!(
        batch_unacknowledged("k", "no"),
        storage("Batched store for key=k was not acknowledged: no")
    );
    assert_eq!(
        batch_miscounted(12, 3),
        storage("Batched store expected 12 acknowledgements, got 3")
    );
}

#[test]
fn a_read_is_repeated_where_the_connection_is_not_up() {
    assert!(retry_read("x: Failed to deliver message to y"));
    assert!(retry_read("get_kv: Server connection not found"));
    assert!(!retry_read("Key not found"));
    assert!(!retry_read(""));
}

#[test]
fn messages_are_stored_under_the_other_side() {
    assert!(
        store_outbound(message(4))
            == Change::Store {
                peer: 2,
                message_id: 4,
                message: message(4),
            }
    );
    assert!(
        store_inbound(message(4))
            == Change::Store {
                peer: 1,
                message_id: 4,
                message: message(4),
            }
    );
    let request = WrappedMessage::construct_from_parts(1, 2, 3, user_message(vec![]));
    assert_eq!(store_request_id(&request), id(77));
    assert_eq!((store_request_id(&message(4)).bits >> 76) & 0xf, 4);
}

#[test]
fn a_backend_takes_the_answers_it_waits_for() {
    let mut backend = CitadelWorkspaceBackend::new(5);
    assert_eq!(backend.cid(), 5);
    let answer = |n| connected(5, Some(id(n)));
    backend.add_expected_request(id(1));
    backend.add_expected_request(id(2));
    backend.give_up_on(id(2));
    assert!(backend.inspect_received_payload(answer(1)) == Inspected::Awaited(answer(1)));
    assert!(backend.inspect_received_payload(answer(1)) == Inspected::NotOurs(answer(1)));
    assert!(backend.inspect_received_payload(answer(2)) == Inspected::NotOurs(answer(2)));
    assert!(
        backend.inspect_received_payload(connected(5, None))
            == Inspected::NotOurs(connected(5, None))
    );
}

#[test]
fn an_acknowledgement_clears_everything_it_covers() {
    assert!(
        clear_message_inbound(2, 3)
            == Change::Clear {
                peer: 2,
                message_id: 3
            }
    );
    assert!(clear_message_outbound(2, 3) == clear_message_inbound(2, 3));
    assert!(clear_messages_outbound(2, vec![]).is_none());
    assert!(
        clear_messages_outbound(2, vec![3, 4])
            == Some(Change::ClearMany {
                peer: 2,
                message_ids: vec![3, 4]
            })
    );
}

#[test]
fn a_request_that_was_not_taken_comes_back_whole() {
    assert!(
        bypass_error("closed".to_string(), wrapped(user_message(vec![1])))
            == MessengerError::SendError {
                reason: "closed".to_string(),
                message: Unsent::Payload(user_message(vec![1])),
            }
    );
    assert!(
        bypass_error(
            "closed".to_string(),
            InternalMessage::Poll {
                from_id: 1,
                to_id: 2
            }
        ) == MessengerError::OtherError {
            reason: "closed".to_string()
        }
    );
}

#[test]
fn only_responses_are_delivered_to_the_user() {
    assert_eq!(local_delivery(message(1)), Some(connected(1, None)));
    let request = WrappedMessage::construct_from_parts(1, 2, 3, user_message(vec![]));
    assert_eq!(local_delivery(request), None);
}
