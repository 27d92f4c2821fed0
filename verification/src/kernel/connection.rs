//! One session with a server: its link, its peers, its groups and its file transfers.

use crate::kernel::group_channels;
use crate::kernel::group_channels::GroupChannels;
use crate::kernel::reconnect::credentials::Credentials;
use crate::kernel::reconnect::policy::LinkState;
use crate::messenger::backend_map::keys_of;
use crate::types::ids::MessageGroupKey;
use crate::types::ids::ObjectId;
use crate::types::ids::Uuid;
use std::collections::HashMap;
use vstd::prelude::*;

verus! {

broadcast use vstd::std_specs::hash::group_hash_axioms;

/// What a session's links are made of.
pub trait Links {
    /// The send half of a link.
    type Sink;
    /// The handle on the link to the server.
    type ServerRemote;
    /// The handle on the link to a peer.
    type PeerRemote;
    /// The handle on a file transfer.
    type Transfer;
    /// The send half of a message group.
    type GroupSink;
}

/// The file transfers of one link, by object. `None` stands for one that is not accepted yet.
pub struct Transfers<T> {
    map: HashMap<u128, Option<T>>,
}

impl<T> View for Transfers<T> {
    type V = Map<u128, Option<T>>;

    closed spec fn view(&self) -> Map<u128, Option<T>> {
        self.map@
    }
}

impl<T> Transfers<T> {
    pub fn new() -> (transfers: Self)
        ensures
            transfers@ == Map::<u128, Option<T>>::empty(),
    {
        Transfers { map: HashMap::new() }
    }

    pub fn insert(&mut self, object: ObjectId, handler: Option<T>)
        ensures
            final(self)@ == old(self)@.insert(object.bits, handler),
    {
        self.map.insert(object.bits, handler);
    }

    pub fn remove(&mut self, object: ObjectId) -> (handler: Option<Option<T>>)
        ensures
            final(self)@ == old(self)@.remove(object.bits),
            handler == if old(self)@.contains_key(object.bits) {
                Some(old(self)@[object.bits])
            } else {
                None
            },
    {
        let taken = self.map.remove(&object.bits);
        assert(self@ =~= old(self)@.remove(object.bits));
        taken
    }
}

/// The connection with one peer.
pub struct PeerConnection<R: Links> {
    pub sink: R::Sink,
    /// `None` where the peer connected to us and only the channel is known.
    pub remote: Option<R::PeerRemote>,
    pub handler_map: Transfers<R::Transfer>,
}

/// One session with a server.
pub struct Connection<R: Links> {
    pub session_cid: u64,
    pub sink_to_server: R::Sink,
    pub client_server_remote: R::ServerRemote,
    pub peers: Peers<R>,
    /// The client that the session's messages go to.
    pub associated_localhost_connection: Uuid,
    pub c2s_file_transfer_handlers: Transfers<R::Transfer>,
    pub groups: GroupChannels<R::GroupSink>,
    pub username: String,
    pub server_address: String,
    pub link: LinkState,
    pub reconnect: Credentials,
}

/// The peers that a session is connected to.
pub struct Peers<R: Links> {
    map: HashMap<u64, PeerConnection<R>>,
}

impl<R: Links> View for Peers<R> {
    type V = Map<u64, PeerConnection<R>>;

    closed spec fn view(&self) -> Map<u64, PeerConnection<R>> {
        self.map@
    }
}

impl<R: Links> Peers<R> {
    pub fn new() -> (peers: Self)
        ensures
            peers@ == Map::<u64, PeerConnection<R>>::empty(),
    {
        Peers { map: HashMap::new() }
    }

    pub fn insert(&mut self, peer_cid: u64, peer: PeerConnection<R>)
        ensures
            final(self)@ == old(self)@.insert(peer_cid, peer),
    {
        self.map.insert(peer_cid, peer);
    }

    pub fn remove(&mut self, peer_cid: u64) -> (peer: Option<PeerConnection<R>>)
        ensures
            final(self)@ == old(self)@.remove(peer_cid),
            peer == if old(self)@.contains_key(peer_cid) {
                Some(old(self)@[peer_cid])
            } else {
                None
            },
    {
        let taken = self.map.remove(&peer_cid);
        assert(self@ =~= old(self)@.remove(peer_cid));
        taken
    }
}

/// What a session has in place of the files of a link, after one more.
pub open spec fn with_transfer<R: Links>(
    peer: PeerConnection<R>,
    after: PeerConnection<R>,
    transfers: Map<u128, Option<R::Transfer>>,
) -> bool {
    &&& after.sink == peer.sink
    &&& after.remote == peer.remote
    &&& after.handler_map@ == transfers
}

impl<R: Links> Connection<R> {
    /// Nothing but the transfers of a session has changed.
    pub open spec fn same_but_transfers(self, other: Self) -> bool {
        &&& self.session_cid == other.session_cid
        &&& self.sink_to_server == other.sink_to_server
        &&& self.client_server_remote == other.client_server_remote
        &&& self.same_but_links(other)
        &&& self.groups == other.groups
        &&& self.link == other.link
    }

    /// Who the session is of has not changed.
    pub open spec fn same_but_links(self, other: Self) -> bool {
        &&& self.associated_localhost_connection == other.associated_localhost_connection
        &&& self.username == other.username
        &&& self.server_address == other.server_address
        &&& self.reconnect == other.reconnect
    }

    /// A session whose link is up, without peers, groups or transfers.
    pub fn new(
        session_cid: u64,
        sink: R::Sink,
        client_server_remote: R::ServerRemote,
        owner: Uuid,
        username: String,
        server_address: String,
        reconnect: Credentials,
    ) -> (connection: Self)
        ensures
            connection.session_cid == session_cid,
            connection.sink_to_server == sink,
            connection.client_server_remote == client_server_remote,
            connection.associated_localhost_connection == owner,
            connection.username == username,
            connection.server_address == server_address,
            connection.reconnect == reconnect,
            connection.link == LinkState::Up,
            connection.peers@.dom() =~= Set::<u64>::empty(),
            connection.c2s_file_transfer_handlers@.dom() =~= Set::<u128>::empty(),
            connection.groups@ == (group_channels::GroupsView::<R::GroupSink> {
                entries: Seq::empty(),
                departed: Set::empty(),
                next_ticket: 0,
            }),
            connection.groups@.well_formed(),
    {
        Connection {
            session_cid,
            sink_to_server: sink,
            client_server_remote,
            peers: Peers::new(),
            associated_localhost_connection: owner,
            c2s_file_transfer_handlers: Transfers::new(),
            groups: GroupChannels::new(),
            username,
            server_address,
            link: LinkState::Up,
            reconnect,
        }
    }

    /// A peer is connected.
    pub fn add_peer_connection(&mut self, peer_cid: u64, sink: R::Sink, remote: R::PeerRemote)
        ensures
            final(self).same_but_transfers(*old(self)),
            final(self).c2s_file_transfer_handlers == old(self).c2s_file_transfer_handlers,
            exists|peer: PeerConnection<R>| #[trigger]
                final(self).peers@ == old(self).peers@.insert(peer_cid, peer) && peer.sink == sink
                    && peer.remote == Some(remote) && peer.handler_map@ == Map::<
                    u128,
                    Option<R::Transfer>,
                >::empty(),
    {
        let peer = PeerConnection { sink, remote: Some(remote), handler_map: Transfers::new() };
        self.peers.insert(peer_cid, peer);
        assert(self.peers@ == old(self).peers@.insert(peer_cid, peer));
    }

    /// A peer has connected to us, and only the channel is known.
    pub fn add_peer_connection_channel_only(&mut self, peer_cid: u64, sink: R::Sink)
        ensures
            final(self).same_but_transfers(*old(self)),
            final(self).c2s_file_transfer_handlers == old(self).c2s_file_transfer_handlers,
            exists|peer: PeerConnection<R>| #[trigger]
                final(self).peers@ == old(self).peers@.insert(peer_cid, peer) && peer.sink == sink
                    && peer.remote is None && peer.handler_map@ == Map::<
                    u128,
                    Option<R::Transfer>,
                >::empty(),
    {
        let peer = PeerConnection { sink, remote: None, handler_map: Transfers::new() };
        self.peers.insert(peer_cid, peer);
        assert(self.peers@ == old(self).peers@.insert(peer_cid, peer));
    }

    /// A peer is connected no longer.
    pub fn clear_peer_connection(&mut self, peer_cid: u64) -> (peer: Option<PeerConnection<R>>)
        ensures
            final(self).same_but_transfers(*old(self)),
            final(self).c2s_file_transfer_handlers == old(self).c2s_file_transfer_handlers,
            final(self).peers@ == old(self).peers@.remove(peer_cid),
            peer == if old(self).peers@.contains_key(peer_cid) {
                Some(old(self).peers@[peer_cid])
            } else {
                None
            },
    {
        self.peers.remove(peer_cid)
    }

    /// A file transfer is known. The session's own CID stands for its server; a transfer of a
    /// peer that is not connected is not kept.
    pub fn add_object_transfer_handler(
        &mut self,
        peer_cid: u64,
        object_id: ObjectId,
        handler: Option<R::Transfer>,
    )
        ensures
            final(self).same_but_transfers(*old(self)),
            if old(self).session_cid == peer_cid {
                &&& final(self).c2s_file_transfer_handlers@ == old(self).c2s_file_transfer_handlers@.insert(object_id.bits, handler)
                &&& final(self).peers == old(self).peers
            } else {
                &&& final(self).c2s_file_transfer_handlers == old(self).c2s_file_transfer_handlers
                &&& if old(self).peers@.contains_key(peer_cid) {
                    exists|peer: PeerConnection<R>| #[trigger]
                        final(self).peers@ == old(self).peers@.insert(peer_cid, peer)
                            && with_transfer(
                            old(self).peers@[peer_cid],
                            peer,
                            old(self).peers@[peer_cid].handler_map@.insert(
                                object_id.bits,
                                handler,
                            ),
                        )
                } else {
                    final(self).peers@ == old(self).peers@
                }
            },
    {
        if self.session_cid == peer_cid {
            self.c2s_file_transfer_handlers.insert(object_id, handler);
        } else {
            match self.peers.remove(peer_cid) {
                Some(found) => {
                    let mut peer = found;
                    peer.handler_map.insert(object_id, handler);
                    self.peers.insert(peer_cid, peer);
                    assert(self.peers@ =~= old(self).peers@.insert(peer_cid, peer));
                },
                None => {
                    assert(self.peers@ =~= old(self).peers@);
                },
            }
        }
    }

    /// Take a file transfer over.
    pub fn take_file_transfer_handle(&mut self, peer_cid: u64, object_id: ObjectId) -> (handler:
        Option<Option<R::Transfer>>)
        ensures
            final(self).same_but_transfers(*old(self)),
            if old(self).session_cid == peer_cid {
                &&& final(self).c2s_file_transfer_handlers@ == old(self).c2s_file_transfer_handlers@.remove(object_id.bits)
                &&& final(self).peers == old(self).peers
                &&& handler == if old(self).c2s_file_transfer_handlers@.contains_key(
                    object_id.bits,
                ) {
                    Some(old(self).c2s_file_transfer_handlers@[object_id.bits])
                } else {
                    None
                }
            } else {
                &&& final(self).c2s_file_transfer_handlers == old(self).c2s_file_transfer_handlers
                &&& if old(self).peers@.contains_key(peer_cid) {
                    let before = old(self).peers@[peer_cid];
                    &&& handler == if before.handler_map@.contains_key(object_id.bits) {
                        Some(before.handler_map@[object_id.bits])
                    } else {
                        None
                    }
                    &&& exists|peer: PeerConnection<R>| #[trigger]
                        final(self).peers@ == old(self).peers@.insert(peer_cid, peer)
                            && with_transfer(
                            before,
                            peer,
                            before.handler_map@.remove(object_id.bits),
                        )
                } else {
                    &&& handler is None
                    &&& final(self).peers@ == old(self).peers@
                }
            },
    {
        if self.session_cid == peer_cid {
            self.c2s_file_transfer_handlers.remove(object_id)
        } else {
            match self.peers.remove(peer_cid) {
                Some(found) => {
                    let mut peer = found;
                    let handler = peer.handler_map.remove(object_id);
                    self.peers.insert(peer_cid, peer);
                    assert(self.peers@ =~= old(self).peers@.insert(peer_cid, peer));
                    handler
                },
                None => {
                    assert(self.peers@ =~= old(self).peers@);
                    None
                },
            }
        }
    }

    /// The session has joined a group.
    pub fn add_group_channel(&mut self, group_key: MessageGroupKey, cid: u64, tx: R::GroupSink) -> (ticket:
        u64)
        requires
            old(self).groups@.well_formed(),
            old(self).groups@.next_ticket < u64::MAX,
        ensures
            final(self).groups@.well_formed(),
            final(self).groups@.member(group_key),
            final(self).groups@.entries == group_channels::without(
                old(self).groups@.live(),
                group_key,
            ).push(
                group_channels::ActiveGroupChannel { key: group_key, cid, ticket, tx },
            ),
            ticket == old(self).groups@.next_ticket,
            final(self).groups@.departed == old(self).groups@.departed,
            final(self).groups@.next_ticket == old(self).groups@.next_ticket + 1,
            final(self).peers == old(self).peers,
            final(self).c2s_file_transfer_handlers == old(self).c2s_file_transfer_handlers,
            final(self).session_cid == old(self).session_cid,
            final(self).sink_to_server == old(self).sink_to_server,
            final(self).client_server_remote == old(self).client_server_remote,
            final(self).link == old(self).link,
            final(self).same_but_links(*old(self)),
    {
        self.groups.insert(group_key, cid, tx)
    }
}

/// `remotes` are the handles on the peers `cids`: every peer that has one, once, in an order that
/// is not said.
pub open spec fn lists_remotes<R: Links>(
    remotes: Seq<R::PeerRemote>,
    cids: Seq<u64>,
    peers: Map<u64, PeerConnection<R>>,
) -> bool {
    &&& cids.no_duplicates()
    &&& cids.len() == remotes.len()
    &&& forall|i: int|
        0 <= i < cids.len() ==> peers.contains_key(#[trigger] cids[i]) && peers[cids[i]].remote
            == Some(remotes[i])
    &&& forall|cid: u64| #[trigger]
        peers.contains_key(cid) && peers[cid].remote is Some ==> cids.contains(cid)
}

impl<R: Links> Connection<R> {
    /// What is to be disconnected when a session goes: its peers, as far as there is a handle on
    /// them, and then its server.
    pub fn into_remotes(self) -> (r: (Vec<R::PeerRemote>, R::ServerRemote))
        ensures
            exists|cids: Seq<u64>| #[trigger] lists_remotes::<R>(r.0@, cids, self.peers@),
            r.1 == self.client_server_remote,
    {
        let ghost all = self.peers@;
        let mut left = self.peers.map;
        let cids: Vec<u64> = keys_of(&left);
        let mut remotes: Vec<R::PeerRemote> = Vec::new();
        let ghost mut listed: Seq<u64> = Seq::empty();
        let mut i: usize = 0;
        assert(forall|cid: u64| cids@.contains(cid) <==> cids@.to_set().contains(cid));
        while i < cids.len()
            invariant
                i <= cids.len(),
                cids@.no_duplicates(),
                forall|cid: u64| #[trigger] cids@.contains(cid) <==> all.contains_key(cid),
                forall|j: int|
                    i <= j < cids.len() ==> left@.contains_key(#[trigger] cids@[j])
                        && left@[cids@[j]] == all[cids@[j]],
                listed.no_duplicates(),
                listed.len() == remotes@.len(),
                forall|k: int|
                    0 <= k < listed.len() ==> all.contains_key(#[trigger] listed[k])
                        && all[listed[k]].remote == Some(remotes@[k]) && cids@.take(
                        i as int,
                    ).contains(listed[k]),
                forall|j: int|
                    0 <= j < i && all[#[trigger] cids@[j]].remote is Some ==> listed.contains(
                        cids@[j],
                    ),
            decreases cids.len() - i,
        {
            let cid: u64 = cids[i];
            assert(left@.contains_key(cids@[i as int]));
            assert(cids@.contains(cids@[i as int]));
            let ghost before = listed;
            let ghost taken = cids@.take(i as int);
            let ghost next = cids@.take(i + 1);
            proof {
                assert(next[i as int] == cid);
                assert forall|k: int| 0 <= k < before.len() implies next.contains(
                    #[trigger] before[k],
                ) && before[k] != cid by {
                    let j = choose|j: int| 0 <= j < taken.len() && taken[j] == before[k];
                    assert(next[j] == before[k]);
                    assert(cids@[j] != cids@[i as int]);
                }
            }
            match left.remove(&cid) {
                Some(peer) => {
                    if let Some(remote) = peer.remote {
                        remotes.push(remote);
                        proof {
                            listed = listed.push(cid);
                            assert forall|j: int|
                                0 <= j < i && all[#[trigger] cids@[j]].remote is Some implies listed.contains(
                                cids@[j],
                            ) by {
                                assert(before.contains(cids@[j]));
                                let k = choose|k: int|
                                    0 <= k < before.len() && before[k] == cids@[j];
                                assert(listed[k] == cids@[j]);
                            }
                            assert(listed[before.len() as int] == cid);
                        }
                    }
                },
                None => {},
            }
            i = i + 1;
        }
        proof {
            assert forall|cid: u64| #[trigger]
                all.contains_key(cid) && all[cid].remote is Some implies listed.contains(cid) by {
                assert(cids@.contains(cid));
                let j = choose|j: int| 0 <= j < cids@.len() && cids@[j] == cid;
                assert(all[cids@[j]].remote is Some);
            }
        }
        let r = (remotes, self.client_server_remote);
        assert(lists_remotes::<R>(r.0@, listed, all));
        r
    }
}

/// What a change of a session's peers or transfers leaves as it was: its CID, its link, whose it
/// is, what it was opened with, and its groups.
pub proof fn law_a_session_keeps_its_identity<R: Links>(before: Connection<R>, after: Connection<R>)
    ensures
        after.same_but_transfers(before) <==> after.session_cid == before.session_cid
            && after.sink_to_server == before.sink_to_server && after.client_server_remote
            == before.client_server_remote && after.associated_localhost_connection
            == before.associated_localhost_connection && after.username == before.username
            && after.server_address == before.server_address && after.reconnect == before.reconnect
            && after.groups == before.groups && after.link == before.link,
        after.same_but_links(before) <==> after.associated_localhost_connection
            == before.associated_localhost_connection && after.username == before.username
            && after.server_address == before.server_address && after.reconnect
            == before.reconnect,
{
}

/// A change of a peer's transfers leaves its channel and the handle on it as they were.
pub proof fn law_a_peer_keeps_its_channel<R: Links>(
    before: PeerConnection<R>,
    after: PeerConnection<R>,
    transfers: Map<u128, Option<R::Transfer>>,
)
    ensures
        with_transfer(before, after, transfers) <==> after.sink == before.sink && after.remote
            == before.remote && after.handler_map@ == transfers,
{
}

/// A session that goes disconnects every peer that there is a handle on, once, and nobody else.
pub proof fn law_every_peer_is_disconnected_once<R: Links>(
    remotes: Seq<R::PeerRemote>,
    cids: Seq<u64>,
    peers: Map<u64, PeerConnection<R>>,
    peer_cid: u64,
)
    requires
        lists_remotes::<R>(remotes, cids, peers),
    ensures
        cids.len() == remotes.len(),
        forall|i: int, j: int|
            0 <= i < cids.len() && 0 <= j < cids.len() && i != j ==> #[trigger] cids[i]
                != #[trigger] cids[j],
        forall|i: int|
            0 <= i < cids.len() ==> peers.contains_key(#[trigger] cids[i]) && peers[cids[i]].remote
                == Some(remotes[i]),
        peers.contains_key(peer_cid) && peers[peer_cid].remote is Some ==> exists|i: int|
            0 <= i < cids.len() && #[trigger] cids[i] == peer_cid && remotes[i]
                == peers[peer_cid].remote->0,
{
    if peers.contains_key(peer_cid) && peers[peer_cid].remote is Some {
        assert(cids.contains(peer_cid));
        let i = choose|i: int| 0 <= i < cids.len() && cids[i] == peer_cid;
        assert(cids[i] == peer_cid);
    }
}

/// A peer that goes is there no longer and is handed out; no other peer is touched, nor anything
/// else of the session.
pub proof fn law_peers_go_one_by_one<R: Links>(peer_cid: u64, other: u64)
    ensures
        forall|session: &mut Connection<R>, gone: Option<PeerConnection<R>>| #[trigger]
            call_ensures(Connection::<R>::clear_peer_connection, (session, peer_cid), gone) ==> {
                let after = *final(session);
                &&& !after.peers@.contains_key(peer_cid)
                &&& gone is Some <==> session.peers@.contains_key(peer_cid)
                &&& gone is Some ==> gone->0 == session.peers@[peer_cid]
                &&& other != peer_cid ==> after.peers@.contains_key(other)
                    == session.peers@.contains_key(other)
                &&& other != peer_cid && session.peers@.contains_key(other) ==> after.peers@[other]
                    == session.peers@[other]
                &&& after.groups == session.groups
                &&& after.link == session.link
                &&& after.session_cid == session.session_cid
                &&& after.c2s_file_transfer_handlers == session.c2s_file_transfer_handlers
            },
{
}

/// A transfer that is made known is the one that is taken over, and it is taken over once; other
/// transfers are as they were.
pub proof fn law_a_transfer_is_taken_over_once<T>(
    object: ObjectId,
    handler: Option<T>,
    other: u128,
)
    ensures
        forall|transfers: &mut Transfers<T>| #[trigger]
            call_ensures(Transfers::<T>::insert, (transfers, object, handler), ()) ==> {
                &&& final(transfers)@.contains_key(object.bits)
                &&& final(transfers)@[object.bits] == handler
                &&& other != object.bits ==> final(transfers)@.contains_key(other)
                    == transfers@.contains_key(other)
            },
        forall|transfers: &mut Transfers<T>, taken: Option<Option<T>>| #[trigger]
            call_ensures(Transfers::<T>::remove, (transfers, object), taken) ==> {
                &&& !final(transfers)@.contains_key(object.bits)
                &&& taken is Some <==> transfers@.contains_key(object.bits)
                &&& taken is Some ==> taken->0 == transfers@[object.bits]
                &&& other != object.bits ==> final(transfers)@.contains_key(other)
                    == transfers@.contains_key(other)
            },
{
}

} // verus!
