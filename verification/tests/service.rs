//! The agent's sessions, groups and clients.

use citadel_internal_service::kernel::c2s_reader::forward;
use citadel_internal_service::kernel::cid_scoped_state::PrunedCidState;
use citadel_internal_service::kernel::connection::{Connection, Links};
use citadel_internal_service::kernel::ext::{greeting, next_write, read_step, ReadStep, Ready, WriteStep};
use citadel_internal_service::kernel::group_channels::GroupChannels;
use citadel_internal_service::kernel::media::lane::PushOutcome;
use citadel_internal_service::kernel::reconnect::credentials::Credentials;
use citadel_internal_service::kernel::service::{
    client_or_peer_in_protocol, tick, tick_target, CitadelWorkspaceService, ClientSend,
    ProtocolSession, Tick,
};
use citadel_internal_service::types::file::FileTransferTickNotification;
use citadel_internal_service::types::ids::{MessageGroupKey, ObjectId, Uuid};
use citadel_internal_service::types::payload::InternalServicePayload;
use citadel_internal_service::types::request::InternalServiceRequest;
use citadel_internal_service::types::response::InternalServiceResponse;
use citadel_internal_service::types::session::{MessageNotification, ServiceConnectionAccepted};
use citadel_internal_service::types::settings::{
    ConnectMode, ObjectTransferStatus, SecBuffer, SessionSecuritySettings, UdpMode,
};

struct Fake;

impl Links for Fake {
    type Sink = u32;
    type ServerRemote = ();
    type PeerRemote = u8;
    type Transfer = char;
    type GroupSink = u16;
}

type Svc = CitadelWorkspaceService<Fake, (u64, u64)>;

fn credentials() -> Credentials {
    Credentials {
        password: SecBuffer::new(vec![1, 2, 3]),
        connect_mode: ConnectMode::default(),
        udp_mode: UdpMode::default(),
        keep_alive_timeout: None,
        session_security_settings: SessionSecuritySettings::default(),
        server_password: None,
        connect_request_id: Uuid { bits: 40 },
    }
}

fn session(cid: u64, owner: Uuid) -> Connection<Fake> {
    Connection::new(cid, 1, (), owner, "alice".to_string(), "s:1".to_string(), credentials())
}

fn seeded() -> Svc {
    let mut svc: Svc = CitadelWorkspaceService::new();
    {
        let m = &mut svc.scoped.pending_peer_registrations;
        m.insert(1, 2, (1, 2)); // 1 is the local session
        m.insert(3, 1, (3, 1)); // 1 appears as the peer
        m.insert(3, 4, (3, 4)); // unrelated
    }
    {
        let m = &mut svc.scoped.pending_peer_connect_signals;
        m.insert(1, 2, (1, 2));
        m.insert(3, 4, (3, 4));
    }
    {
        let m = &mut svc.scoped.peer_username_cache;
        m.insert(1, 2, "bob".into());
        m.insert(3, 4, "carol".into());
    }
    svc
}

/// A session teardown clears the CID from both sides of the key.
#[test]
fn session_teardown_prunes_both_sides_and_spares_others() {
    let mut svc = seeded();
    let pruned = svc.prune_cid_scoped_state(1, None);
    assert_eq!(pruned.pending_registrations, 2, "both (1,2) and (3,1)");
    assert_eq!(pruned.pending_connects, 1);
    assert_eq!(pruned.cached_usernames, 1);

    assert_eq!(svc.scoped.pending_peer_registrations.len(), 1);
    assert!(svc.scoped.pending_peer_registrations.contains_key(3, 4));
    assert!(svc.scoped.peer_username_cache.contains_key(3, 4));
}

/// The teardown of one peer connection leaves the session alive: only the pair goes.
#[test]
fn p2p_teardown_prunes_only_that_pair() {
    let mut svc = seeded();
    let pruned = svc.prune_cid_scoped_state(1, Some(2));
    assert_eq!(pruned.pending_registrations, 1);
    assert_eq!(pruned.total(), 3, "one entry per map for the (1,2) pair");

    let regs = &svc.scoped.pending_peer_registrations;
    assert!(regs.contains_key(3, 1), "1's request from 3 is untouched");
    assert!(regs.contains_key(3, 4), "unrelated pair untouched");
}

#[test]
fn nothing_survives_a_deregistration() {
    let mut svc = seeded();
    svc.prune_cid_scoped_state(1, None);
    svc.prune_cid_scoped_state(3, None);
    svc.prune_cid_scoped_state(4, None);
    assert_eq!(svc.scoped.pending_peer_registrations.len(), 0);
    assert_eq!(svc.scoped.pending_peer_connect_signals.len(), 0);
    assert_eq!(svc.scoped.peer_username_cache.len(), 0);
}

#[test]
fn a_pair_is_kept_once() {
    let mut svc = seeded();
    svc.scoped.peer_username_cache.insert(1, 2, "bert".into());
    assert_eq!(svc.scoped.peer_username_cache.len(), 2);
    assert_eq!(
        svc.scoped.peer_username_cache.get(1, 2),
        Some(&"bert".to_string())
    );
    assert_eq!(svc.scoped.peer_username_cache.get(2, 1), None);
    assert_eq!(PrunedCidState::default().total(), 0);
}

#[test]
fn a_client_that_leaves_keeps_its_sessions() {
    let mut svc: Svc = CitadelWorkspaceService::new();
    let conn = Uuid::new_v4();
    svc.on_client(conn);
    svc.server_connection_map.insert(5, session(5, conn));
    let hello = greeting(conn);
    assert_eq!(
        hello,
        InternalServiceResponse::ServiceConnectionAccepted(ServiceConnectionAccepted {
            cid: 0,
            request_id: Some(conn),
        })
    );
    assert_eq!(
        svc.send_response_to_tcp_client(hello, conn),
        ClientSend::Send(greeting(conn))
    );
    svc.clients.set_orphan_mode(conn);
    let lane = svc.on_client_gone(conn);
    assert_eq!(
        lane.unwrap().push(greeting(conn)),
        PushOutcome::Closed,
        "the lane of a client that is gone is closed"
    );
    assert!(svc.server_connection_map.get(5).is_some());
    assert_eq!(
        svc.send_response_to_tcp_client(greeting(conn), conn),
        ClientSend::Dropped
    );
}

#[test]
fn a_client_that_cannot_be_written_to_loses_its_sessions() {
    let mut svc: Svc = CitadelWorkspaceService::new();
    let gone = Uuid::new_v4();
    let other = Uuid::new_v4();
    svc.on_client(gone);
    svc.server_connection_map.insert(5, session(5, gone));
    svc.server_connection_map.insert(6, session(6, other));
    svc.server_connection_map.insert(7, session(7, gone));
    let mut removed: Vec<u64> = svc
        .on_send_failed(gone)
        .iter()
        .map(|session| session.session_cid)
        .collect();
    removed.sort_unstable();
    assert_eq!(removed, vec![5, 7], "they are handed out to be disconnected");
    assert!(!svc.clients.is_connected(gone));
    assert!(svc.server_connection_map.get(5).is_none());
    assert!(svc.server_connection_map.get(6).is_some());
    assert!(svc.server_connection_map.get(7).is_none());
    assert_eq!(svc.server_connection_map.cids(), vec![6]);
}

#[test]
fn a_session_that_is_replaced_is_handed_out() {
    let mut svc: Svc = CitadelWorkspaceService::new();
    let owner = Uuid::new_v4();
    assert!(svc.server_connection_map.insert(5, session(5, owner)).is_none());
    let replaced = svc.server_connection_map.insert(5, session(5, Uuid::new_v4()));
    assert_eq!(replaced.unwrap().associated_localhost_connection, owner);
}

#[test]
fn messages_of_a_server_follow_the_session() {
    let mut svc: Svc = CitadelWorkspaceService::new();
    let owner = Uuid::new_v4();
    let opener = Uuid::new_v4();
    let request = Uuid::new_v4();
    svc.server_connection_map.insert(5, session(5, owner));
    let told = |cid| {
        InternalServiceResponse::MessageNotification(MessageNotification {
            message: vec![1, 2],
            cid,
            peer_cid: 0,
            request_id: Some(request),
        })
    };
    assert_eq!(
        forward(&svc.server_connection_map, 5, vec![1, 2], request, opener),
        (owner, told(5))
    );
    assert_eq!(
        forward(&svc.server_connection_map, 6, vec![1, 2], request, opener),
        (opener, told(6))
    );
}

#[test]
fn control_is_written_before_media() {
    let a = || greeting(Uuid { bits: 1 });
    let b = || greeting(Uuid { bits: 2 });
    assert_eq!(
        next_write(Ready::Item(a()), true, Ready::Item(b())),
        WriteStep::Write(a())
    );
    assert_eq!(
        next_write(Ready::NotYet, true, Ready::Item(b())),
        WriteStep::Write(b())
    );
    assert_eq!(
        next_write(Ready::NotYet, true, Ready::Ended),
        WriteStep::MediaEnded
    );
    assert_eq!(
        next_write(Ready::NotYet, false, Ready::Item(b())),
        WriteStep::Wait
    );
    assert_eq!(
        next_write(Ready::Ended, true, Ready::Item(b())),
        WriteStep::Close
    );
    assert_eq!(
        next_write(Ready::NotYet, true, Ready::NotYet),
        WriteStep::Wait
    );
}

#[test]
fn only_requests_reach_the_kernel() {
    let request = || InternalServiceRequest::GetSessions {
        request_id: Uuid { bits: 3 },
    };
    assert!(
        read_step::<()>(Some(Ok(InternalServicePayload::Request(request()))))
            == ReadStep::ToKernel(request())
    );
    assert!(
        read_step::<()>(Some(Ok(InternalServicePayload::Response(greeting(Uuid {
            bits: 1
        }))))) == ReadStep::Ignore
    );
    assert!(read_step(Some(Err(()))) == ReadStep::Ignore);
    assert!(read_step::<()>(None) == ReadStep::End);
}

#[test]
fn the_protocol_is_asked_for_sessions_and_peers() {
    let list = vec![
        ProtocolSession {
            cid: 5,
            peer_cids: vec![None, Some(9)],
        },
        ProtocolSession {
            cid: 6,
            peer_cids: vec![Some(8)],
        },
    ];
    assert!(client_or_peer_in_protocol(&list, 5, None));
    assert!(client_or_peer_in_protocol(&list, 5, Some(9)));
    assert!(client_or_peer_in_protocol(&list, 5, Some(0)));
    assert!(!client_or_peer_in_protocol(&list, 5, Some(8)));
    assert!(!client_or_peer_in_protocol(&list, 7, None));
}

#[test]
fn a_transfer_is_reported_until_it_is_complete() {
    let mut svc: Svc = CitadelWorkspaceService::new();
    let owner = Uuid::new_v4();
    let request = Uuid::new_v4();
    svc.server_connection_map.insert(5, session(5, owner));
    assert_eq!(
        tick_target(&svc.server_connection_map, 5, Some(request)),
        Some((owner, request))
    );
    assert_eq!(
        tick_target(&svc.server_connection_map, 5, None),
        Some((owner, owner))
    );
    assert_eq!(tick_target(&svc.server_connection_map, 6, None), None);
    let told = |status: ObjectTransferStatus| {
        InternalServiceResponse::FileTransferTickNotification(FileTransferTickNotification {
            cid: 5,
            peer_cid: Some(9),
            status,
            request_id: Some(request),
        })
    };
    let report = |connected, status| tick(connected, 5, Some(9), status, request);
    assert_eq!(
        report(true, ObjectTransferStatus::TransferTick(1, 2, 3)),
        Tick::Tell(told(ObjectTransferStatus::TransferTick(1, 2, 3)))
    );
    for done in [
        ObjectTransferStatus::TransferComplete,
        ObjectTransferStatus::ReceptionComplete,
    ] {
        assert_eq!(report(true, done.clone()), Tick::TellAndEnd(told(done)));
    }
    assert_eq!(
        report(false, ObjectTransferStatus::TransferComplete),
        Tick::Untold
    );
}

#[test]
fn transfers_belong_to_the_server_or_to_a_connected_peer() {
    let mut connection = session(5, Uuid::new_v4());
    let object = ObjectId { bits: 77 };
    connection.add_object_transfer_handler(5, object, Some('s'));
    connection.add_object_transfer_handler(9, object, Some('x'));
    assert_eq!(
        connection.take_file_transfer_handle(9, object),
        None,
        "a peer that is not connected keeps nothing"
    );
    connection.add_peer_connection_channel_only(9, 2);
    connection.add_object_transfer_handler(9, object, None);
    assert_eq!(connection.take_file_transfer_handle(9, object), Some(None));
    assert_eq!(
        connection.take_file_transfer_handle(5, object),
        Some(Some('s'))
    );
    assert_eq!(connection.take_file_transfer_handle(5, object), None);
    connection.add_peer_connection(9, 3, 4);
    let peer = connection.clear_peer_connection(9).unwrap();
    assert_eq!((peer.sink, peer.remote), (3, Some(4)));
    assert!(connection.clear_peer_connection(9).is_none());
}

const GROUP: MessageGroupKey = MessageGroupKey { cid: 5, mgid: 1 };
const OTHER: MessageGroupKey = MessageGroupKey { cid: 5, mgid: 2 };

#[test]
fn a_group_that_was_left_is_no_membership() {
    let mut connection = session(5, Uuid::new_v4());
    let ticket = connection.add_group_channel(GROUP, 5, 10);
    connection.add_group_channel(OTHER, 5, 20);
    let groups = &mut connection.groups;
    assert_eq!(groups.get(GROUP).map(|c| c.tx), Some(10));
    assert_eq!(groups.departure_flag(GROUP), Some(ticket));
    assert_eq!(groups.reject_if_departed(ticket, "leave"), Ok(()));

    groups.depart(ticket);
    assert!(groups.departed(ticket));
    assert!(groups.get(GROUP).is_none());
    assert_eq!(groups.departure_flag(GROUP), Some(ticket));
    assert_eq!(
        groups.reject_if_departed(ticket, "send"),
        Err("Cannot send: this session has left the group".to_string())
    );
    assert!(!groups.mark_departed(GROUP), "it was no member any more");
    assert!(groups.get(OTHER).is_some());

    assert!(groups.get_mut(GROUP).is_none());
    assert_eq!(groups.departure_flag(GROUP), None, "a change removes it");
    groups.get_mut(OTHER).unwrap().tx = 21;
    assert_eq!(groups.get(OTHER).map(|c| (c.cid, c.tx)), Some((5, 21)));

    let again = groups.insert(GROUP, 5, 30);
    assert_ne!(again, ticket);
    assert_eq!(groups.get(GROUP).map(|c| c.tx), Some(30));
    assert!(groups.mark_departed(GROUP));
    assert!(groups.get(GROUP).is_none());
}

#[test]
fn only_an_accepted_departure_counts() {
    let mut groups: GroupChannels<u16> = GroupChannels::new();
    let first = groups.insert(GROUP, 5, 1);
    let second = groups.insert(OTHER, 5, 2);
    assert_eq!(groups.leave(first, Err("dead")), Err("dead"));
    assert!(groups.get(GROUP).is_some());
    assert_eq!(groups.send_message(first), Ok(()));
    assert_eq!(groups.invite(first), Ok(()));
    assert_eq!(groups.kick(first), Ok(()));
    assert_eq!(groups.leave::<()>(first, Ok(())), Ok(()));
    assert!(groups.get(GROUP).is_none());
    assert_eq!(
        groups.send_message(first),
        Err("Cannot message group: this session has left the group".to_string())
    );
    assert_eq!(
        groups.invite(first),
        Err("Cannot invite to group: this session has left the group".to_string())
    );
    assert_eq!(
        groups.kick(first),
        Err("Cannot kick from group: this session has left the group".to_string())
    );
    assert_eq!(groups.end(second, Err("not the owner")), Err("not the owner"));
    assert!(groups.get(OTHER).is_some());
    assert_eq!(groups.end::<()>(second, Ok(())), Ok(()));
    assert!(groups.get(OTHER).is_none());
}

#[test]
fn a_late_departure_spares_the_channels_of_a_new_link() {
    let mut groups: GroupChannels<u16> = GroupChannels::new();
    let old = groups.insert(GROUP, 5, 1);
    groups.clear();
    assert!(groups.get(GROUP).is_none());
    let new = groups.insert(GROUP, 5, 2);
    assert_ne!(old, new);
    assert!(groups.issued(old) && groups.issued(new) && !groups.issued(new + 1));
    assert_eq!(groups.leave::<()>(old, Ok(())), Ok(()));
    assert_eq!(groups.get(GROUP).map(|c| c.tx), Some(2));
}

#[test]
fn joining_groups_sweeps_those_that_were_left() {
    let mut groups: GroupChannels<u16> = GroupChannels::new();
    groups.insert(GROUP, 5, 1);
    assert!(groups.mark_departed(GROUP));
    groups.insert(OTHER, 5, 2);
    assert_eq!(groups.departure_flag(GROUP), None);
    groups.insert(OTHER, 5, 3);
    assert_eq!(groups.get(OTHER).map(|c| c.tx), Some(3));
}

#[test]
fn a_session_that_goes_disconnects_the_peers_it_has_a_handle_on() {
    let mut connection = session(5, Uuid::new_v4());
    connection.add_peer_connection(9, 2, 90);
    connection.add_peer_connection(8, 2, 80);
    connection.add_peer_connection_channel_only(7, 2);
    let (mut remotes, ()) = connection.into_remotes();
    remotes.sort_unstable();
    assert_eq!(remotes, vec![80, 90]);
}
