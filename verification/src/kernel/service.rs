//! The agent's state: its clients, their sessions, and what is kept for both.

use crate::kernel::cid_scoped_state::{CidScopedState, PrunedCidState};
use crate::kernel::connection::{Connection, Links};
use crate::kernel::media::lane;
use crate::kernel::media::lane::{MediaLane, MediaLanes, MEDIA_LANE_CAPACITY};
use crate::kernel::pair_table;
use crate::kernel::sessions;
use crate::kernel::sessions::Sessions;
use crate::types::file::FileTransferTickNotification;
use crate::types::ids::Uuid;
use crate::types::response::InternalServiceResponse;
use crate::types::settings::ObjectTransferStatus;
use std::collections::HashSet;
use vstd::prelude::*;

verus! {

broadcast use vstd::std_specs::hash::group_hash_axioms;

/// The agent's state. `S` is a peer's signal as it came.
pub struct CitadelWorkspaceService<R: Links, S> {
    pub server_connection_map: Sessions<R>,
    pub scoped: CidScopedState<S>,
    pub media_lanes: MediaLanes,
    pub clients: Clients,
}

/// The clients of the agent, by connection.
pub struct Clients {
    connected: HashSet<u128>,
    orphaned: HashSet<u128>,
}

impl Clients {
    /// The clients that are connected.
    pub closed spec fn connected(self) -> Set<u128> {
        self.connected@
    }

    /// The clients that asked for their sessions to stay.
    pub closed spec fn orphaned(self) -> Set<u128> {
        self.orphaned@
    }

    pub fn new() -> (clients: Self)
        ensures
            clients.connected() == Set::<u128>::empty(),
            clients.orphaned() == Set::<u128>::empty(),
    {
        Clients { connected: HashSet::new(), orphaned: HashSet::new() }
    }

    /// A client has connected.
    pub fn add(&mut self, conn_id: Uuid)
        ensures
            final(self).connected() == old(self).connected().insert(conn_id.bits),
            final(self).orphaned() == old(self).orphaned(),
    {
        self.connected.insert(conn_id.bits);
    }

    /// A client asks for its sessions to stay.
    pub fn set_orphan_mode(&mut self, conn_id: Uuid)
        ensures
            final(self).connected() == old(self).connected(),
            final(self).orphaned() == old(self).orphaned().insert(conn_id.bits),
    {
        self.orphaned.insert(conn_id.bits);
    }

    /// A client is no longer connected.
    pub fn remove(&mut self, conn_id: Uuid)
        ensures
            final(self).connected() == old(self).connected().remove(conn_id.bits),
            final(self).orphaned() == old(self).orphaned(),
    {
        self.connected.remove(&conn_id.bits);
        assert(self.connected() =~= old(self).connected().remove(conn_id.bits));
    }

    /// Nothing is recorded of a client any more.
    pub fn forget(&mut self, conn_id: Uuid)
        ensures
            final(self).connected() == old(self).connected().remove(conn_id.bits),
            final(self).orphaned() == old(self).orphaned().remove(conn_id.bits),
    {
        self.connected.remove(&conn_id.bits);
        self.orphaned.remove(&conn_id.bits);
        assert(self.connected() =~= old(self).connected().remove(conn_id.bits));
        assert(self.orphaned() =~= old(self).orphaned().remove(conn_id.bits));
    }

    /// Whether a client is connected.
    pub fn is_connected(&self, conn_id: Uuid) -> (r: bool)
        ensures
            r == self.connected().contains(conn_id.bits),
    {
        self.connected.contains(&conn_id.bits)
    }
}

/// What to do with a response for a client.
#[derive(Debug, PartialEq, Eq)]
pub enum ClientSend {
    /// Send it.
    Send(InternalServiceResponse),
    /// The client is not connected: drop it.
    Dropped,
}

/// A session that the protocol knows, and its peers; `None` stands for the server.
pub struct ProtocolSession {
    pub cid: u64,
    pub peer_cids: Vec<Option<u64>>,
}

/// The session is connected to this peer. A connection without a peer counts as one to CID zero.
pub open spec fn linked_to(session: ProtocolSession, peer: u64) -> bool {
    exists|i: int|
        0 <= i < session.peer_cids@.len() && (match #[trigger] session.peer_cids@[i] {
            Some(cid) => cid,
            None => 0,
        }) == peer
}

/// The first session with this CID.
pub open spec fn first_session(
    list: Seq<ProtocolSession>,
    cid: u64,
) -> Option<ProtocolSession>
    decreases list.len(),
{
    if list.len() == 0 {
        None
    } else if list.first().cid == cid {
        Some(list.first())
    } else {
        first_session(list.drop_first(), cid)
    }
}

/// Whether the protocol still knows a session, or its connection with a peer.
pub fn client_or_peer_in_protocol(
    list: &Vec<ProtocolSession>,
    cid: u64,
    peer_cid: Option<u64>,
) -> (known: bool)
    ensures
        known == match first_session(list@, cid) {
            Some(session) => match peer_cid {
                Some(peer) => linked_to(session, peer),
                None => true,
            },
            None => false,
        },
        peer_cid is None ==> known == exists|i: int|
            0 <= i < list@.len() && (#[trigger] list@[i]).cid == cid,
{
    let mut i: usize = 0;
    assert(list@.skip(0) =~= list@);
    while i < list.len()
        invariant
            i <= list.len(),
            first_session(list@, cid) == first_session(list@.skip(i as int), cid),
            forall|j: int| 0 <= j < i ==> (#[trigger] list@[j]).cid != cid,
        decreases list.len() - i,
    {
        let session = &list[i];
        assert(list@.skip(i as int).first() == *session);
        assert(list@.skip(i as int).drop_first() =~= list@.skip(i + 1));
        if session.cid == cid {
            return match peer_cid {
                Some(peer) => has_peer(session, peer),
                None => true,
            };
        }
        i = i + 1;
    }
    false
}

fn has_peer(session: &ProtocolSession, peer: u64) -> (r: bool)
    ensures
        r == linked_to(*session, peer),
{
    let mut i: usize = 0;
    while i < session.peer_cids.len()
        invariant
            i <= session.peer_cids.len(),
            forall|j: int|
                0 <= j < i ==> (match #[trigger] session.peer_cids@[j] {
                    Some(cid) => cid,
                    None => 0,
                }) != peer,
        decreases session.peer_cids.len() - i,
    {
        let cid: u64 = match session.peer_cids[i] {
            Some(cid) => cid,
            None => 0,
        };
        if cid == peer {
            assert((match session.peer_cids@[i as int] {
                Some(cid) => cid,
                None => 0,
            }) == peer);
            return true;
        }
        i = i + 1;
    }
    false
}

impl<R: Links, S> CitadelWorkspaceService<R, S> {
    /// An agent without clients and sessions.
    pub fn new() -> (service: Self)
        ensures
            service.server_connection_map@ == Map::<u64, Connection<R>>::empty(),
            service.scoped.well_formed(),
            service.scoped.pending_peer_connect_signals@.len() == 0,
            service.scoped.pending_peer_registrations@.len() == 0,
            service.scoped.peer_username_cache@.len() == 0,
            service.media_lanes@ == Map::<u128, lane::LaneView>::empty(),
            service.clients.connected() == Set::<u128>::empty(),
            service.clients.orphaned() == Set::<u128>::empty(),
    {
        CitadelWorkspaceService {
            server_connection_map: Sessions::new(),
            scoped: CidScopedState::new(),
            media_lanes: MediaLanes::new(),
            clients: Clients::new(),
        }
    }

    /// A client has connected: it is known from now on, and has a lane for media.
    pub fn on_client(&mut self, conn_id: Uuid)
        ensures
            final(self).clients.connected() == old(self).clients.connected().insert(conn_id.bits),
            final(self).clients.orphaned() == old(self).clients.orphaned(),
            final(self).media_lanes@ == old(self).media_lanes@.insert(
                conn_id.bits,
                lane::LaneView {
                    queue: Seq::empty(),
                    closed: false,
                    dropped: 0,
                    capacity: MEDIA_LANE_CAPACITY as nat,
                },
            ),
            final(self).server_connection_map == old(self).server_connection_map,
            final(self).scoped == old(self).scoped,
    {
        self.clients.add(conn_id);
        self.media_lanes.open(conn_id.bits, MEDIA_LANE_CAPACITY);
    }

    /// A client's connection has closed: its lane is closed and nothing is recorded of the client,
    /// and every session stays, to be found again when the client comes back.
    pub fn on_client_gone(&mut self, conn_id: Uuid) -> (lane: Option<MediaLane>)
        ensures
            final(self).clients.connected() == old(self).clients.connected().remove(conn_id.bits),
            final(self).clients.orphaned() == old(self).clients.orphaned().remove(conn_id.bits),
            final(self).media_lanes@ == old(self).media_lanes@.remove(conn_id.bits),
            match lane {
                Some(retired) => old(self).media_lanes@.contains_key(conn_id.bits) && retired@ == (
                lane::LaneView { closed: true, ..old(self).media_lanes@[conn_id.bits] }),
                None => !old(self).media_lanes@.contains_key(conn_id.bits),
            },
            final(self).server_connection_map == old(self).server_connection_map,
            final(self).scoped == old(self).scoped,
    {
        self.clients.forget(conn_id);
        self.media_lanes.retire_media_lane(conn_id.bits)
    }

    /// What to do with a response for a client: one that is not connected is no error, and the
    /// response is dropped.
    pub fn send_response_to_tcp_client(&self, response: InternalServiceResponse, to: Uuid) -> (send:
        ClientSend)
        ensures
            send == if self.clients.connected().contains(to.bits) {
                ClientSend::Send(response)
            } else {
                ClientSend::Dropped
            },
    {
        if self.clients.is_connected(to) {
            ClientSend::Send(response)
        } else {
            ClientSend::Dropped
        }
    }

    /// A response could not be sent to a client that was thought to be connected: the client goes,
    /// and its sessions with it, which are handed out to be disconnected.
    pub fn on_send_failed(&mut self, to: Uuid) -> (removed: Vec<Connection<R>>)
        ensures
            exists|cids: Seq<u64>| #[trigger]
                sessions::lists_owned(removed@, cids, old(self).server_connection_map@, to),
            final(self).clients.connected() == old(self).clients.connected().remove(to.bits),
            final(self).clients.orphaned() == old(self).clients.orphaned(),
            final(self).server_connection_map@ == sessions::not_of(
                old(self).server_connection_map@,
                to,
            ),
            final(self).media_lanes == old(self).media_lanes,
            final(self).scoped == old(self).scoped,
    {
        self.clients.remove(to);
        self.server_connection_map.remove_owned(to)
    }

    /// Drop what a teardown has just invalidated.
    pub fn prune_cid_scoped_state(&mut self, cid: u64, peer_cid: Option<u64>) -> (pruned:
        PrunedCidState)
        requires
            old(self).scoped.well_formed(),
        ensures
            final(self).scoped.well_formed(),
            final(self).scoped.pending_peer_connect_signals@ == pair_table::spared(
                old(self).scoped.pending_peer_connect_signals@,
                cid,
                peer_cid,
            ),
            final(self).scoped.pending_peer_registrations@ == pair_table::spared(
                old(self).scoped.pending_peer_registrations@,
                cid,
                peer_cid,
            ),
            final(self).scoped.peer_username_cache@ == pair_table::spared(
                old(self).scoped.peer_username_cache@,
                cid,
                peer_cid,
            ),
            pruned.pending_connects == old(self).scoped.pending_peer_connect_signals@.len()
                - final(self).scoped.pending_peer_connect_signals@.len(),
            pruned.pending_registrations == old(self).scoped.pending_peer_registrations@.len()
                - final(self).scoped.pending_peer_registrations@.len(),
            pruned.cached_usernames == old(self).scoped.peer_username_cache@.len() - final(
                self).scoped.peer_username_cache@.len(),
            final(self).server_connection_map == old(self).server_connection_map,
            final(self).media_lanes == old(self).media_lanes,
            final(self).clients == old(self).clients,
    {
        self.scoped.prune_cid_scoped_state(cid, peer_cid)
    }
}

/// What follows from one report on a file transfer.
#[derive(Debug, PartialEq, Eq)]
pub enum Tick {
    /// Tell the client; the transfer goes on.
    Tell(InternalServiceResponse),
    /// Tell the client; the transfer is complete.
    TellAndEnd(InternalServiceResponse),
    /// There is no client to tell; the transfer goes on.
    Untold,
}

/// The transfer is complete.
pub open spec fn complete(status: ObjectTransferStatus) -> bool {
    status is TransferComplete || status is ReceptionComplete
}

/// Who is told about a file transfer of a session, and under which request: the client that the
/// session belongs to, and the request that asked for it or else the client's own identifier.
/// `None` where there is no such session.
pub fn tick_target<R: Links>(sessions: &Sessions<R>, cid: u64, request_id: Option<Uuid>) -> (target:
    Option<(Uuid, Uuid)>)
    ensures
        target == match sessions::owner_of(sessions@, cid) {
            Some(owner) => Some(
                (
                    owner,
                    match request_id {
                        Some(id) => id,
                        None => owner,
                    },
                ),
            ),
            None => None,
        },
{
    match sessions.owner(cid) {
        Some(owner) => {
            let id = match request_id {
                Some(id) => id,
                None => owner,
            };
            Some((owner, id))
        },
        None => None,
    }
}

/// What follows from one report on a file transfer. `connected` tells whether the client is.
pub fn tick(
    connected: bool,
    cid: u64,
    peer_cid: Option<u64>,
    status: ObjectTransferStatus,
    request_id: Uuid,
) -> (tick: Tick)
    ensures
        ({
            let told = InternalServiceResponse::FileTransferTickNotification(
                FileTransferTickNotification {
                    cid,
                    peer_cid,
                    status,
                    request_id: Some(request_id),
                },
            );
            tick == if !connected {
                Tick::Untold
            } else if complete(status) {
                Tick::TellAndEnd(told)
            } else {
                Tick::Tell(told)
            }
        }),
{
    if !connected {
        return Tick::Untold;
    }
    let done = match &status {
        ObjectTransferStatus::TransferComplete => true,
        ObjectTransferStatus::ReceptionComplete => true,
        _ => false,
    };
    let told = InternalServiceResponse::FileTransferTickNotification(
        FileTransferTickNotification { cid, peer_cid, status, request_id: Some(request_id) },
    );
    if done {
        Tick::TellAndEnd(told)
    } else {
        Tick::Tell(told)
    }
}

/// The protocol knows every session of the list, wherever in the list it stands, and knows no CID
/// that no entry has.
pub proof fn law_known_where_listed(list: Seq<ProtocolSession>, cid: u64)
    ensures
        forall|i: int|
            0 <= i < list.len() ==> first_session(list, (#[trigger] list[i]).cid) is Some,
        (forall|i: int| 0 <= i < list.len() ==> (#[trigger] list[i]).cid != cid)
            ==> first_session(list, cid) is None,
{
    assert forall|i: int| 0 <= i < list.len() implies first_session(list, (#[trigger] list[i]).cid)
        is Some by {
        lemma_listed_is_found(list, i);
    }
    if forall|i: int| 0 <= i < list.len() ==> (#[trigger] list[i]).cid != cid {
        law_the_first_entry_counts(list, cid, list.len() as int);
    }
}

proof fn lemma_listed_is_found(list: Seq<ProtocolSession>, i: int)
    requires
        0 <= i < list.len(),
    ensures
        first_session(list, list[i].cid) is Some,
    decreases i,
{
    if i > 0 {
        lemma_listed_is_found(list.drop_first(), i - 1);
        assert(list.drop_first()[i - 1] == list[i]);
    }
}

/// Of several entries with one CID the first tells the session's peers; `i` is where it stands, or
/// the length of the list where there is none.
pub proof fn law_the_first_entry_counts(list: Seq<ProtocolSession>, cid: u64, i: int)
    requires
        0 <= i <= list.len(),
        forall|j: int| 0 <= j < i ==> (#[trigger] list[j]).cid != cid,
        i < list.len() ==> list[i].cid == cid,
    ensures
        first_session(list, cid) == if i < list.len() {
            Some(list[i])
        } else {
            None
        },
    decreases i,
{
    if i > 0 {
        let rest = list.drop_first();
        assert(list[0].cid != cid);
        assert forall|j: int| 0 <= j < i - 1 implies (#[trigger] rest[j]).cid != cid by {
            assert(rest[j] == list[j + 1]);
        }
        law_the_first_entry_counts(rest, cid, i - 1);
    }
}

/// A session is connected to exactly the peers on its list, and to CID zero where a connection
/// without a peer is on it.
pub proof fn law_linked_to_the_listed_peers(session: ProtocolSession, peer: u64)
    ensures
        linked_to(session, peer) <==> session.peer_cids@.contains(Some(peer)) || (peer == 0
            && session.peer_cids@.contains(None)),
{
    let peers = session.peer_cids@;
    if peers.contains(Some(peer)) {
        let i = choose|i: int| 0 <= i < peers.len() && peers[i] == Some(peer);
        assert(peers[i] == Some(peer));
    }
    if peer == 0 && peers.contains(None) {
        let i = choose|i: int| 0 <= i < peers.len() && peers[i] == None::<u64>;
        assert(peers[i] is None);
    }
}

/// A transfer is complete where the last of it was sent or received, and at no other report.
pub proof fn law_complete_at_the_last_report(status: ObjectTransferStatus)
    ensures
        match status {
            ObjectTransferStatus::TransferBeginning => !complete(status),
            ObjectTransferStatus::ReceptionBeginning(..) => !complete(status),
            ObjectTransferStatus::TransferTick(..) => !complete(status),
            ObjectTransferStatus::ReceptionTick(..) => !complete(status),
            ObjectTransferStatus::TransferComplete => complete(status),
            ObjectTransferStatus::ReceptionComplete => complete(status),
            ObjectTransferStatus::Fail(_) => !complete(status),
        },
{
}

/// Who asks whether a session is known, without a peer, is told so exactly where some entry of the
/// list has its CID.
pub proof fn law_a_session_is_known_where_listed(
    list: Vec<ProtocolSession>,
    cid: u64,
    known: bool,
)
    requires
        call_ensures(client_or_peer_in_protocol, (&list, cid, None), known),
    ensures
        known <==> exists|i: int| 0 <= i < list@.len() && (#[trigger] list@[i]).cid == cid,
{
}

/// A connection with a peer is known only where its session is, and then exactly where the first
/// entry of the session has the peer.
pub proof fn law_a_peer_is_known_with_its_session(
    list: Vec<ProtocolSession>,
    cid: u64,
    peer: u64,
    known: bool,
    i: int,
)
    requires
        call_ensures(client_or_peer_in_protocol, (&list, cid, Some(peer)), known),
        0 <= i <= list@.len(),
        forall|j: int| 0 <= j < i ==> (#[trigger] list@[j]).cid != cid,
        i < list@.len() ==> list@[i].cid == cid,
    ensures
        i == list@.len() ==> !known,
        i < list@.len() ==> (known <==> list@[i].peer_cids@.contains(Some(peer)) || (peer == 0
            && list@[i].peer_cids@.contains(None))),
{
    law_the_first_entry_counts(list@, cid, i);
    if i < list@.len() {
        law_linked_to_the_listed_peers(list@[i], peer);
    }
}

/// A report on a file transfer tells a client that is connected exactly what was reported, and is
/// the last where the transfer is complete; a client that is not connected is told nothing, and
/// the transfer goes on.
pub proof fn law_what_a_report_tells(
    connected: bool,
    cid: u64,
    peer_cid: Option<u64>,
    status: ObjectTransferStatus,
    request_id: Uuid,
    told: Tick,
)
    requires
        call_ensures(tick, (connected, cid, peer_cid, status, request_id), told),
    ensures
        told is Untold <==> !connected,
        told is TellAndEnd <==> connected && (status is TransferComplete || status
            is ReceptionComplete),
        told is Tell ==> told->Tell_0 is FileTransferTickNotification
            && told->Tell_0.session() == cid && told->Tell_0.answered() == Some(request_id),
        told is TellAndEnd ==> told->TellAndEnd_0 is FileTransferTickNotification
            && told->TellAndEnd_0.session() == cid && told->TellAndEnd_0.answered() == Some(
            request_id,
        ),
        told matches Tick::Tell(InternalServiceResponse::FileTransferTickNotification(data))
            ==> data.peer_cid == peer_cid && data.status == status,
        told matches Tick::TellAndEnd(InternalServiceResponse::FileTransferTickNotification(data))
            ==> data.peer_cid == peer_cid && data.status == status,
{
}

/// Whoever owns a session is told about its transfers, under the request that asked, or else under
/// the client's own identifier; without a session nobody is.
pub proof fn law_the_owner_is_told<R: Links>(
    sessions: Sessions<R>,
    cid: u64,
    request_id: Option<Uuid>,
    target: Option<(Uuid, Uuid)>,
)
    requires
        call_ensures(tick_target::<R>, (&sessions, cid, request_id), target),
    ensures
        target is None <==> !sessions@.contains_key(cid),
        target matches Some((client, id)) ==> client
            == sessions@[cid].associated_localhost_connection && (request_id is Some ==> id
            == request_id->0) && (request_id is None ==> id == client),
{
}

/// A response goes to a client that is connected, as it is, and to no other.
pub proof fn law_only_connected_clients_are_sent_to<R: Links, S>(
    service: CitadelWorkspaceService<R, S>,
    response: InternalServiceResponse,
    to: Uuid,
    send: ClientSend,
)
    requires
        call_ensures(
            CitadelWorkspaceService::<R, S>::send_response_to_tcp_client,
            (&service, response, to),
            send,
        ),
    ensures
        send is Send <==> service.clients.connected().contains(to.bits),
        send matches ClientSend::Send(sent) ==> sent == response,
{
}

/// A client that has connected is sent to until its connection closes, and its lane is open as
/// long; no other client is touched by either, and no session.
pub proof fn law_a_client_is_known_while_it_is_connected<R: Links, S>(conn_id: Uuid, other: u128)
    ensures
        forall|service: &mut CitadelWorkspaceService<R, S>| #[trigger]
            call_ensures(CitadelWorkspaceService::<R, S>::on_client, (service, conn_id), ()) ==> {
                let after = *final(service);
                &&& after.clients.connected().contains(conn_id.bits)
                &&& lane::present(after.media_lanes@, conn_id.bits)
                &&& after.media_lanes@[conn_id.bits].queue.len() == 0
                &&& other != conn_id.bits ==> after.clients.connected().contains(other)
                    == service.clients.connected().contains(other)
                &&& other != conn_id.bits ==> after.media_lanes@.contains_key(other)
                    == service.media_lanes@.contains_key(other)
                &&& after.server_connection_map == service.server_connection_map
            },
        forall|service: &mut CitadelWorkspaceService<R, S>, gone: Option<MediaLane>| #[trigger]
            call_ensures(
                CitadelWorkspaceService::<R, S>::on_client_gone,
                (service, conn_id),
                gone,
            ) ==> {
                let after = *final(service);
                &&& !after.clients.connected().contains(conn_id.bits)
                &&& !after.clients.orphaned().contains(conn_id.bits)
                &&& !lane::present(after.media_lanes@, conn_id.bits)
                &&& other != conn_id.bits ==> after.clients.connected().contains(other)
                    == service.clients.connected().contains(other)
                &&& other != conn_id.bits ==> after.media_lanes@.contains_key(other)
                    == service.media_lanes@.contains_key(other)
                &&& after.server_connection_map == service.server_connection_map
            },
{
}

} // verus!
