//! The sessions of the agent, by CID.

use crate::kernel::connection::{Connection, Links, PeerConnection};
use crate::kernel::reconnect::policy::LinkState;
use crate::types::ids::Uuid;
use std::collections::HashMap;
use vstd::prelude::*;

verus! {

broadcast use vstd::std_specs::hash::group_hash_axioms;

/// The sessions of the agent, by CID.
pub struct Sessions<R: Links> {
    map: HashMap<u64, Connection<R>>,
}

impl<R: Links> View for Sessions<R> {
    type V = Map<u64, Connection<R>>;

    closed spec fn view(&self) -> Map<u64, Connection<R>> {
        self.map@
    }
}

/// The client that a session's messages go to, where there is such a session.
pub open spec fn owner_of<R: Links>(sessions: Map<u64, Connection<R>>, cid: u64) -> Option<Uuid> {
    if sessions.contains_key(cid) {
        Some(sessions[cid].associated_localhost_connection)
    } else {
        None
    }
}

/// The session is there, and its link is being brought back.
pub open spec fn reconnecting<R: Links>(sessions: Map<u64, Connection<R>>, cid: u64) -> bool {
    sessions.contains_key(cid) && sessions[cid].link == LinkState::Reconnecting
}

/// The sessions that do not belong to a client.
pub open spec fn not_of<R: Links>(
    sessions: Map<u64, Connection<R>>,
    owner: Uuid,
) -> Map<u64, Connection<R>> {
    sessions.restrict(
        Set::new(
            |cid: u64|
                sessions.contains_key(cid) && sessions[cid].associated_localhost_connection
                    != owner,
        ),
    )
}

/// `removed` are the sessions `cids`: every session of the client, once, in an order that is not
/// said.
pub open spec fn lists_owned<R: Links>(
    removed: Seq<Connection<R>>,
    cids: Seq<u64>,
    sessions: Map<u64, Connection<R>>,
    owner: Uuid,
) -> bool {
    &&& cids.no_duplicates()
    &&& cids.len() == removed.len()
    &&& forall|i: int|
        0 <= i < cids.len() ==> owner_of(sessions, #[trigger] cids[i]) == Some(owner)
            && removed[i] == sessions[cids[i]]
    &&& forall|cid: u64| #[trigger] owner_of(sessions, cid) == Some(owner) ==> cids.contains(cid)
}

impl<R: Links> Sessions<R> {
    /// No sessions.
    pub fn new() -> (sessions: Self)
        ensures
            sessions@ == Map::<u64, Connection<R>>::empty(),
    {
        Sessions { map: HashMap::new() }
    }

    /// Keep a session. One that it replaces is handed out to be disconnected.
    pub fn insert(&mut self, cid: u64, connection: Connection<R>) -> (replaced: Option<
        Connection<R>,
    >)
        ensures
            final(self)@ == old(self)@.insert(cid, connection),
            replaced == if old(self)@.contains_key(cid) {
                Some(old(self)@[cid])
            } else {
                None
            },
    {
        self.map.insert(cid, connection)
    }

    /// Take a session out.
    pub fn remove(&mut self, cid: u64) -> (connection: Option<Connection<R>>)
        ensures
            final(self)@ == old(self)@.remove(cid),
            connection == if old(self)@.contains_key(cid) {
                Some(old(self)@[cid])
            } else {
                None
            },
    {
        let taken = self.map.remove(&cid);
        assert(self@ =~= old(self)@.remove(cid));
        taken
    }

    /// A session.
    pub fn get(&self, cid: u64) -> (connection: Option<&Connection<R>>)
        ensures
            match connection {
                Some(found) => self@.contains_key(cid) && *found == self@[cid],
                None => !self@.contains_key(cid),
            },
    {
        self.map.get(&cid)
    }

    /// The client that a session's messages go to.
    pub fn owner(&self, cid: u64) -> (owner: Option<Uuid>)
        ensures
            owner == owner_of(self@, cid),
    {
        match self.map.get(&cid) {
            Some(connection) => Some(connection.associated_localhost_connection),
            None => None,
        }
    }

    /// Take out the connection of a session with a peer.
    pub fn clear_peer_connection(&mut self, cid: u64, peer_cid: u64) -> (peer: Option<
        PeerConnection<R>,
    >)
        ensures
            if old(self)@.contains_key(cid) {
                &&& peer == if old(self)@[cid].peers@.contains_key(peer_cid) {
                    Some(old(self)@[cid].peers@[peer_cid])
                } else {
                    None
                }
                &&& final(self)@.dom() == old(self)@.dom()
                &&& final(self)@[cid].peers@ == old(self)@[cid].peers@.remove(peer_cid)
                &&& final(self)@[cid].same_but_transfers(old(self)@[cid])
                &&& final(self)@[cid].c2s_file_transfer_handlers
                    == old(self)@[cid].c2s_file_transfer_handlers
                &&& forall|other: u64|
                    other != cid && old(self)@.contains_key(other) ==> #[trigger] final(self)@[other]
                        == old(self)@[other]
            } else {
                &&& peer is None
                &&& final(self)@ == old(self)@
            },
    {
        match self.remove(cid) {
            Some(found) => {
                let mut connection = found;
                let peer = connection.clear_peer_connection(peer_cid);
                let _ = self.insert(cid, connection);
                assert(self@.dom() =~= old(self)@.dom());
                peer
            },
            None => {
                assert(self@ =~= old(self)@);
                None
            },
        }
    }

    /// Take out every session of a client.
    pub fn remove_owned(&mut self, owner: Uuid) -> (removed: Vec<Connection<R>>)
        ensures
            final(self)@ == not_of(old(self)@, owner),
            exists|cids: Seq<u64>| #[trigger] lists_owned(removed@, cids, old(self)@, owner),
    {
        let ghost all = self@;
        let cids: Vec<u64> = self.cids();
        let mut removed: Vec<Connection<R>> = Vec::new();
        let ghost mut listed: Seq<u64> = Seq::empty();
        let mut i: usize = 0;
        while i < cids.len()
            invariant
                i <= cids.len(),
                cids@.no_duplicates(),
                cids@.to_set() == all.dom(),
                forall|cid: u64| #[trigger]
                    self@.contains_key(cid) ==> all.contains_key(cid) && self@[cid] == all[cid],
                forall|j: int|
                    i <= j < cids.len() ==> self@.contains_key(#[trigger] cids@[j]),
                forall|j: int|
                    0 <= j < i ==> (self@.contains_key(#[trigger] cids@[j]) <==> all[cids@[j]].associated_localhost_connection
                        != owner),
                listed.no_duplicates(),
                listed.len() == removed@.len(),
                forall|k: int|
                    0 <= k < listed.len() ==> owner_of(all, #[trigger] listed[k]) == Some(owner)
                        && removed@[k] == all[listed[k]] && !self@.contains_key(listed[k]),
                forall|j: int|
                    0 <= j < i && all[#[trigger] cids@[j]].associated_localhost_connection == owner
                        ==> listed.contains(cids@[j]),
            decreases cids.len() - i,
        {
            let cid: u64 = cids[i];
            assert(self@.contains_key(cids@[i as int]));
            let owned = match self.map.get(&cid) {
                Some(connection) => connection.associated_localhost_connection == owner,
                None => false,
            };
            if owned {
                match self.remove(cid) {
                    Some(connection) => {
                        removed.push(connection);
                        proof {
                            let before = listed;
                            listed = listed.push(cid);
                            assert forall|j: int|
                                0 <= j < i && all[#[trigger] cids@[j]].associated_localhost_connection
                                    == owner implies listed.contains(cids@[j]) by {
                                let k = choose|k: int| 0 <= k < before.len() && before[k] == cids@[j];
                                assert(listed[k] == cids@[j]);
                            }
                            assert(listed[before.len() as int] == cid);
                        }
                    },
                    None => {},
                }
                assert forall|j: int| i < j < cids.len() implies self@.contains_key(
                    #[trigger] cids@[j],
                ) by {
                    assert(cids@[j] != cids@[i as int]);
                }
            }
            i = i + 1;
        }
        proof {
            assert forall|cid: u64| all.contains_key(cid) implies exists|j: int|
                0 <= j < cids@.len() && #[trigger] cids@[j] == cid by {
                assert(cids@.to_set().contains(cid));
            }
            assert forall|cid: u64| self@.contains_key(cid) <==> not_of(all, owner).contains_key(
                cid,
            ) by {
                if all.contains_key(cid) {
                    let j = choose|j: int| 0 <= j < cids@.len() && #[trigger] cids@[j] == cid;
                    assert(self@.contains_key(cids@[j])
                        <==> all[cids@[j]].associated_localhost_connection != owner);
                }
            }
            assert(self@ =~= not_of(all, owner));
            assert forall|cid: u64| #[trigger] owner_of(all, cid) == Some(owner) implies listed.contains(
                cid,
            ) by {
                let j = choose|j: int| 0 <= j < cids@.len() && #[trigger] cids@[j] == cid;
                assert(all[cids@[j]].associated_localhost_connection == owner);
            }
            assert(lists_owned(removed@, listed, all, owner));
        }
        removed
    }

    /// The CIDs of the sessions, each once.
    pub fn cids(&self) -> (cids: Vec<u64>)
        ensures
            cids@.no_duplicates(),
            cids@.to_set() == self@.dom(),
    {
        crate::messenger::backend_map::keys_of(&self.map)
    }
}

/// A session belongs to the client that it names, and a CID without a session to none.
pub proof fn law_a_session_belongs_to_its_client<R: Links>(
    sessions: Map<u64, Connection<R>>,
    cid: u64,
    client: Uuid,
)
    ensures
        owner_of(sessions, cid) == Some(client) <==> sessions.contains_key(cid)
            && sessions[cid].associated_localhost_connection == client,
        owner_of(sessions, cid) is None <==> !sessions.contains_key(cid),
        reconnecting(sessions, cid) <==> sessions.contains_key(cid)
            && sessions[cid].link is Reconnecting,
{
}

/// A client takes its own sessions with it, every one of them, and no other: what stays is what
/// belongs to others, as it was, and what is handed out is each session of the client once.
pub proof fn law_a_client_takes_its_own_sessions<R: Links>(
    sessions: Map<u64, Connection<R>>,
    client: Uuid,
    removed: Seq<Connection<R>>,
    cids: Seq<u64>,
    cid: u64,
)
    requires
        lists_owned(removed, cids, sessions, client),
    ensures
        not_of(sessions, client).contains_key(cid) <==> sessions.contains_key(cid)
            && sessions[cid].associated_localhost_connection != client,
        not_of(sessions, client).contains_key(cid) ==> not_of(sessions, client)[cid]
            == sessions[cid],
        sessions.contains_key(cid) && sessions[cid].associated_localhost_connection == client
            ==> exists|i: int|
            0 <= i < removed.len() && #[trigger] cids[i] == cid && removed[i] == sessions[cid],
        cids.len() == removed.len(),
        forall|i: int, j: int|
            0 <= i < cids.len() && 0 <= j < cids.len() && i != j ==> #[trigger] cids[i]
                != #[trigger] cids[j],
        forall|i: int|
            0 <= i < removed.len() ==> sessions.contains_key(#[trigger] cids[i]) && removed[i]
                == sessions[cids[i]] && removed[i].associated_localhost_connection == client,
{
    if sessions.contains_key(cid) && sessions[cid].associated_localhost_connection == client {
        assert(owner_of(sessions, cid) == Some(client));
        assert(cids.contains(cid));
        let i = choose|i: int| 0 <= i < cids.len() && cids[i] == cid;
        assert(cids[i] == cid);
    }
    assert forall|i: int| 0 <= i < removed.len() implies sessions.contains_key(#[trigger] cids[i])
        && removed[i] == sessions[cids[i]] && removed[i].associated_localhost_connection
        == client by {
        assert(owner_of(sessions, cids[i]) == Some(client));
    }
}

/// When a client goes, each of its sessions is handed out once and none is left; the sessions of
/// others stay as they were.
pub proof fn law_no_session_of_a_client_is_left<R: Links>(client: Uuid)
    ensures
        forall|sessions: &mut Sessions<R>, removed: Vec<Connection<R>>, cid: u64|
            #![trigger call_ensures(Sessions::<R>::remove_owned, (sessions, client), removed), final(sessions)@.contains_key(cid)]
            call_ensures(Sessions::<R>::remove_owned, (sessions, client), removed) ==> {
                &&& final(sessions)@.contains_key(cid) <==> sessions@.contains_key(cid)
                    && sessions@[cid].associated_localhost_connection != client
                &&& final(sessions)@.contains_key(cid) ==> final(sessions)@[cid] == sessions@[cid]
                &&& sessions@.contains_key(cid) && !final(sessions)@.contains_key(cid)
                    ==> removed@.contains(sessions@[cid])
            },
{
    assert forall|sessions: &mut Sessions<R>, removed: Vec<Connection<R>>, cid: u64|
        #![trigger call_ensures(Sessions::<R>::remove_owned, (sessions, client), removed), final(sessions)@.contains_key(cid)]
        call_ensures(Sessions::<R>::remove_owned, (sessions, client), removed) implies {
        &&& final(sessions)@.contains_key(cid) <==> sessions@.contains_key(cid)
            && sessions@[cid].associated_localhost_connection != client
        &&& final(sessions)@.contains_key(cid) ==> final(sessions)@[cid] == sessions@[cid]
        &&& sessions@.contains_key(cid) && !final(sessions)@.contains_key(cid) ==> removed@.contains(
            sessions@[cid],
        )
    } by {
        let cids = choose|cids: Seq<u64>| #[trigger]
            lists_owned(removed@, cids, sessions@, client);
        law_a_client_takes_its_own_sessions(sessions@, client, removed@, cids, cid);
    }
}

/// A session that is kept is found, and one that is taken out is handed over and not found; other
/// sessions are as they were. One that is replaced is handed out.
pub proof fn law_sessions_are_kept_by_cid<R: Links>(
    cid: u64,
    connection: Connection<R>,
    other: u64,
)
    ensures
        forall|sessions: &mut Sessions<R>, replaced: Option<Connection<R>>| #[trigger]
            call_ensures(Sessions::<R>::insert, (sessions, cid, connection), replaced) ==> {
                &&& final(sessions)@.contains_key(cid)
                &&& final(sessions)@[cid] == connection
                &&& replaced is Some <==> sessions@.contains_key(cid)
                &&& replaced is Some ==> replaced->0 == sessions@[cid]
                &&& other != cid ==> final(sessions)@.contains_key(other) == sessions@.contains_key(
                    other,
                ) && final(sessions)@[other] == sessions@[other]
            },
        forall|sessions: &mut Sessions<R>, taken: Option<Connection<R>>| #[trigger]
            call_ensures(Sessions::<R>::remove, (sessions, cid), taken) ==> {
                &&& !final(sessions)@.contains_key(cid)
                &&& taken is Some <==> sessions@.contains_key(cid)
                &&& taken is Some ==> taken->0 == sessions@[cid]
                &&& other != cid ==> final(sessions)@.contains_key(other) == sessions@.contains_key(
                    other,
                ) && (sessions@.contains_key(other) ==> final(sessions)@[other]
                    == sessions@[other])
            },
{
}

} // verus!
