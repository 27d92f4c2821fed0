//! What arrives from the agent, and where it goes: to the user, to the delivery layer of a local
//! client, to whoever waits for an answer, or nowhere.

use crate::bytes::copy_bytes;
use crate::messenger::backend_map::keys_of;
use crate::messenger::stream_key::StreamKey;
use crate::messenger::tables;
use crate::messenger::tables::{
    add_cid, has_cid, list_cids, new_cids, new_queues, put_queue, remove_cid, take_queue,
};
use crate::messenger::wire;
use crate::messenger::wire::{decode, Decoded, InternalMessage, WrappedMessage, LOOPBACK_ONLY};
use crate::types::ids::Uuid;
use crate::types::info::SessionInformation;
use crate::types::payload::InternalServicePayload;
use crate::types::request::InternalServiceRequest;
use crate::types::response::InternalServiceResponse;
use crate::types::session::MessageNotification;
use dashmap::DashMap;
use std::collections::HashMap;
use std::collections::HashSet;
use vstd::prelude::*;

verus! {

broadcast use vstd::std_specs::hash::group_hash_axioms;

/// Who is asked whether a response answers something of theirs.
#[derive(Debug, Clone, Copy, PartialEq, Eq, Structural)]
pub enum Inspector {
    /// The backend of this CID.
    Backend(u64),
    /// Every backend in turn, until one takes it.
    Every,
}

/// What to do with something that arrived.
#[derive(PartialEq, Eq)]
pub enum Inbound {
    /// It is dealt with.
    Done,
    /// Give this to the user. Where that fails, the messenger stops.
    ToUser(InternalServiceResponse),
    /// Give the user `forward`, if there is one, and the delivery layer of `cid` the message.
    Deliver { forward: Option<MessageNotification>, cid: u64, message: InternalMessage },
    /// Give the user `forward`, if there is one. A message for a client without a delivery layer
    /// waits until there is one.
    Queued { forward: Option<MessageNotification> },
    /// Read the payload from its bytes, and come back with what it is.
    ReadPayload {
        notification: MessageNotification,
        source: u64,
        destination: u64,
        message_id: u64,
        payload: Vec<u8>,
    },
    /// Ask whether somebody waits for this.
    Inspect { by: Inspector, response: InternalServiceResponse },
}

/// What a backend made of a response it was shown.
#[derive(PartialEq, Eq)]
pub enum Inspection {
    /// It is not for the backend.
    Passed(InternalServiceResponse),
    /// The backend took it.
    Consumed,
    /// The backend could not deal with it.
    Failed,
}

/// What to do with a response after a backend has seen it.
#[derive(Debug, PartialEq, Eq)]
pub enum Round {
    /// Show it to the next backend.
    Next(InternalServiceResponse),
    /// Nobody took it: give it to the user.
    ToUser(InternalServiceResponse),
    /// It goes nowhere else.
    Done,
}

/// What to do with a response after a backend has seen it, where `left` backends have not. The
/// first that takes it ends the round, and so does one that fails on it: such a response is not
/// shown to anybody else.
pub fn after_inspection(left: usize, inspection: Inspection) -> (next: Round)
    ensures
        next == match inspection {
            Inspection::Passed(response) => if left > 0 {
                Round::Next(response)
            } else {
                Round::ToUser(response)
            },
            _ => Round::Done,
        },
{
    match inspection {
        Inspection::Passed(response) => {
            if left > 0 {
                Round::Next(response)
            } else {
                Round::ToUser(response)
            }
        },
        Inspection::Consumed => Round::Done,
        Inspection::Failed => Round::Done,
    }
}

/// What a delivery layer gives the user of a message that has come through: the response in it. A
/// message that holds none is refused.
pub fn local_delivery(message: WrappedMessage) -> (response: Option<InternalServiceResponse>)
    ensures
        response == match message.contents {
            InternalServicePayload::Response(response) => Some(response),
            InternalServicePayload::Request(_) => None,
        },
{
    match message.contents {
        InternalServicePayload::Response(response) => Some(response),
        InternalServicePayload::Request(_) => None,
    }
}

/// Between two polls of the sessions, in milliseconds.
pub const POLL_CONNECTED_PEERS_REFRESH_PERIOD_MS: u64 = 1_000;

/// The messenger's tables.
pub struct Router {
    /// The CIDs that have a delivery layer.
    handles: DashMap<u64, ()>,
    /// The CIDs that have a backend.
    backends: DashMap<u64, ()>,
    /// What waits for a CID that has no delivery layer yet.
    pending: DashMap<u64, Vec<InternalMessage>>,
    /// The peers that each session is connected to, as the agent last said.
    connected: HashMap<u64, Vec<u64>>,
    /// The requests that the messenger made for itself; their answers go to nobody else.
    own_requests: HashSet<u128>,
    running: bool,
}

/// The messenger's tables, as mathematical values.
#[verifier::ext_equal]
pub struct RouterView {
    pub handles: Set<u64>,
    pub backends: Set<u64>,
    pub pending: Map<u64, Seq<InternalMessage>>,
    pub connected: Map<u64, Seq<u64>>,
    pub own_requests: Set<u128>,
    pub running: bool,
}

impl View for Router {
    type V = RouterView;

    closed spec fn view(&self) -> RouterView {
        RouterView {
            handles: tables::cids(self.handles),
            backends: tables::cids(self.backends),
            pending: tables::queues(self.pending),
            connected: self.connected@.map_values(|peers: Vec<u64>| peers@),
            own_requests: self.own_requests@,
            running: self.running,
        }
    }
}

impl RouterView {
    /// What waits for `cid`.
    pub open spec fn waiting(self, cid: u64) -> Seq<InternalMessage> {
        if self.pending.contains_key(cid) {
            self.pending[cid]
        } else {
            Seq::empty()
        }
    }

    /// The tables after `message` had to wait.
    pub open spec fn queue(self, message: InternalMessage) -> Self {
        RouterView {
            pending: self.pending.insert(
                message.destination(),
                self.waiting(message.destination()).push(message),
            ),
            ..self
        }
    }

    /// The tables after a message for a delivery layer: unchanged where there is one, and the
    /// message waiting where there is none.
    pub open spec fn route(self, message: InternalMessage) -> Self {
        if self.handles.contains(message.destination()) {
            self
        } else {
            self.queue(message)
        }
    }

    /// The tables after `cid` has got a delivery layer, which takes what waited for it.
    pub open spec fn register(self, cid: u64) -> Self {
        RouterView { handles: self.handles.insert(cid), pending: self.pending.remove(cid), ..self }
    }
}

/// `n` is `like`, with `bytes` in place of its message.
pub open spec fn with_bytes(n: MessageNotification, like: MessageNotification, bytes: Seq<u8>) -> bool {
    &&& n.message@ == bytes
    &&& n.cid == like.cid
    &&& n.peer_cid == like.peer_cid
    &&& n.request_id == like.request_id
}

/// `message` is the message that the envelope held, and its contents are the notification it
/// came in with the bytes of the envelope taken off.
pub open spec fn unwrapped(
    message: InternalMessage,
    notification: MessageNotification,
    source: u64,
    destination: u64,
    message_id: u64,
    contents: Seq<u8>,
) -> bool {
    &&& message matches InternalMessage::Message(wrapped)
    &&& wrapped.source_id == source
    &&& wrapped.destination_id == destination
    &&& wrapped.message_id == message_id
    &&& wrapped.contents matches InternalServicePayload::Response(
        InternalServiceResponse::MessageNotification(inner),
    )
    &&& with_bytes(inner, notification, contents)
}

/// `out` hands `message` to its delivery layer, or leaves it waiting, and `forward` goes to the
/// user.
pub open spec fn handed_on(
    before: RouterView,
    after: RouterView,
    message: InternalMessage,
    forward: Option<MessageNotification>,
    out: Inbound,
) -> bool {
    &&& after == before.route(message)
    &&& if before.handles.contains(message.destination()) {
        out == (Inbound::Deliver { forward, cid: message.destination(), message })
    } else {
        out == (Inbound::Queued { forward })
    }
}

/// `peers` are the peers of the connections `keys`: every connection of the session, once, in an
/// order that is not said.
pub open spec fn lists_by(peers: Seq<u64>, keys: Seq<u64>, session: SessionInformation) -> bool {
    &&& keys.no_duplicates()
    &&& keys.to_set() == session.peer_connections@.dom()
    &&& peers.len() == keys.len()
    &&& forall|i: int|
        0 <= i < keys.len() ==> #[trigger] peers[i] == session.peer_connections@[keys[i]].peer_cid
}

/// The peers of a session: each once per connection, in an order that is not said.
pub open spec fn lists_peers(peers: Seq<u64>, session: SessionInformation) -> bool {
    exists|keys: Seq<u64>| #[trigger] lists_by(peers, keys, session)
}

/// `connected` is what `sessions` say: every session of the list, and no other; where one CID is
/// listed twice, the later entry counts.
pub open spec fn lists_sessions(
    connected: Map<u64, Seq<u64>>,
    sessions: Seq<SessionInformation>,
) -> bool {
    &&& forall|cid: u64| #[trigger]
        connected.contains_key(cid) <==> exists|i: int|
            0 <= i < sessions.len() && (#[trigger] sessions[i]).cid == cid
    &&& forall|i: int|
        0 <= i < sessions.len() && (forall|j: int|
            i < j < sessions.len() ==> (#[trigger] sessions[j]).cid != sessions[i].cid)
            ==> lists_peers(connected[(#[trigger] sessions[i]).cid], sessions[i])
}

/// The peers of a session.
fn peers_of(session: &SessionInformation) -> (peers: Vec<u64>)
    ensures
        lists_peers(peers@, *session),
{
    let ghost map = session.peer_connections@;
    let keys: Vec<u64> = keys_of(&session.peer_connections);
    let mut peers: Vec<u64> = Vec::new();
    let mut i: usize = 0;
    while i < keys.len()
        invariant
            i <= keys.len(),
            map == session.peer_connections@,
            keys@.to_set() == map.dom(),
            peers@.len() == i,
            forall|j: int| 0 <= j < i ==> #[trigger] peers@[j] == map[keys@[j]].peer_cid,
        decreases keys.len() - i,
    {
        let key: u64 = keys[i];
        assert(keys@.to_set().contains(keys@[i as int]));
        match session.peer_connections.get(&key) {
            Some(connection) => {
                peers.push(connection.peer_cid);
            },
            None => {
                assert(false);
            },
        }
        i = i + 1;
    }
    assert(lists_by(peers@, keys@, *session));
    peers
}

proof fn lemma_one_more_session(
    connected: Map<u64, Seq<u64>>,
    sessions: Seq<SessionInformation>,
    session: SessionInformation,
    peers: Seq<u64>,
)
    requires
        lists_sessions(connected, sessions),
        lists_peers(peers, session),
    ensures
        lists_sessions(connected.insert(session.cid, peers), sessions.push(session)),
{
    let more = connected.insert(session.cid, peers);
    let all = sessions.push(session);
    let n = sessions.len() as int;
    assert(all[n] == session);
    assert forall|cid: u64| #[trigger] more.contains_key(cid) implies exists|i: int|
        0 <= i < all.len() && (#[trigger] all[i]).cid == cid by {
        if cid != session.cid {
            assert(connected.contains_key(cid));
            let i = choose|i: int| 0 <= i < n && (#[trigger] sessions[i]).cid == cid;
            assert(all[i].cid == cid);
        }
    }
    assert forall|cid: u64|
        (exists|i: int| 0 <= i < all.len() && (#[trigger] all[i]).cid == cid) implies #[trigger]
    more.contains_key(cid) by {
        let i = choose|i: int| 0 <= i < all.len() && (#[trigger] all[i]).cid == cid;
        if i < n {
            assert(sessions[i].cid == cid);
            assert(connected.contains_key(cid));
        }
    }
    assert forall|i: int|
        0 <= i < all.len() && (forall|j: int|
            i < j < all.len() ==> (#[trigger] all[j]).cid != all[i].cid) implies lists_peers(
        more[(#[trigger] all[i]).cid],
        all[i],
    ) by {
        if i < n {
            assert(all[n].cid != all[i].cid);
            assert(sessions[i] == all[i]);
            assert forall|j: int| i < j < n implies (#[trigger] sessions[j]).cid
                != sessions[i].cid by {
                assert(all[j].cid != all[i].cid);
            }
            assert(lists_peers(connected[sessions[i].cid], sessions[i]));
        }
    }
}

/// The peers of every session of the list.
fn connections_of(sessions: &Vec<SessionInformation>) -> (connected: HashMap<u64, Vec<u64>>)
    ensures
        lists_sessions(connected@.map_values(|peers: Vec<u64>| peers@), sessions@),
{
    let mut connected: HashMap<u64, Vec<u64>> = HashMap::new();
    let ghost view = |peers: Vec<u64>| peers@;
    let mut i: usize = 0;
    while i < sessions.len()
        invariant
            i <= sessions.len(),
            view == (|peers: Vec<u64>| peers@),
            lists_sessions(connected@.map_values(view), sessions@.take(i as int)),
        decreases sessions.len() - i,
    {
        let session = &sessions[i];
        let peers = peers_of(session);
        proof {
            lemma_one_more_session(
                connected@.map_values(view),
                sessions@.take(i as int),
                *session,
                peers@,
            );
            assert(sessions@.take(i as int).push(*session) =~= sessions@.take(i + 1));
            assert(connected@.insert(session.cid, peers).map_values(view)
                =~= connected@.map_values(view).insert(session.cid, peers@));
        }
        connected.insert(session.cid, peers);
        i = i + 1;
    }
    assert(sessions@.take(i as int) =~= sessions@);
    connected
}

/// `message` is what the envelope of `notification` held, and `out` hands it on, with the bytes
/// of the envelope taken off in what the user gets.
pub open spec fn delivered(
    before: RouterView,
    after: RouterView,
    notification: MessageNotification,
    envelope: (u64, u64, u64, Seq<u8>),
    message: InternalMessage,
    forward: MessageNotification,
    out: Inbound,
) -> bool {
    let (source, destination, message_id, contents) = envelope;
    &&& unwrapped(message, notification, source, destination, message_id, contents)
    &&& with_bytes(forward, notification, contents)
    &&& handed_on(before, after, message, Some(forward), out)
}

/// What becomes of a notification that a message came in: an envelope is taken off, the user
/// gets what was in it, and the delivery layer of the client it is for gets the message; the
/// signals of delivery layers go to the delivery layers alone; anything else goes to the user as
/// it came.
pub open spec fn notification_handled(
    before: RouterView,
    after: RouterView,
    notification: MessageNotification,
    out: Inbound,
) -> bool {
    match wire::decoded(notification.message@) {
        wire::DecodedView::Message { source, destination, message_id, contents } => {
            exists|message: InternalMessage, forward: MessageNotification| #[trigger]
                delivered(
                    before,
                    after,
                    notification,
                    (source, destination, message_id, contents),
                    message,
                    forward,
                    out,
                )
        },
        wire::DecodedView::Ack { from_id, to_id, message_id } => handed_on(
            before,
            after,
            InternalMessage::Ack { from_id, to_id, message_id },
            None,
            out,
        ),
        wire::DecodedView::Poll { from_id, to_id } => handed_on(
            before,
            after,
            InternalMessage::Poll { from_id, to_id },
            None,
            out,
        ),
        wire::DecodedView::Envelope { source, destination, message_id, payload } => {
            &&& after == before
            &&& out matches Inbound::ReadPayload {
                notification: kept,
                source: s,
                destination: d,
                message_id: m,
                payload: p,
            }
            &&& kept == notification
            &&& s == source
            &&& d == destination
            &&& m == message_id
            &&& p@ == payload
        },
        wire::DecodedView::Foreign => {
            &&& after == before
            &&& out == Inbound::ToUser(InternalServiceResponse::MessageNotification(notification))
        },
    }
}

/// What becomes of any other response. The agent's list of sessions replaces what was known of
/// them. An answer to one of the messenger's own requests goes no further; any other goes to the
/// backend of its CID, or to every backend where its CID has none and it answers a request, and
/// else to the user.
pub open spec fn response_handled(
    before: RouterView,
    after: RouterView,
    response: InternalServiceResponse,
    out: Inbound,
) -> bool {
    let own = response.answered() matches Some(id) && before.own_requests.contains(id.bits);
    &&& after.handles == before.handles
    &&& after.backends == before.backends
    &&& after.pending == before.pending
    &&& after.running == before.running
    &&& match response {
        InternalServiceResponse::GetSessionsResponse(list) => lists_sessions(
            after.connected,
            list.sessions@,
        ),
        _ => after.connected == before.connected,
    }
    &&& after.own_requests == if own {
        before.own_requests.remove(response.answered()->0.bits)
    } else {
        before.own_requests
    }
    &&& out == if own {
        Inbound::Done
    } else if before.backends.contains(response.session()) {
        Inbound::Inspect { by: Inspector::Backend(response.session()), response }
    } else if response.answered() is Some {
        Inbound::Inspect { by: Inspector::Every, response }
    } else {
        Inbound::ToUser(response)
    }
}

impl Router {
    /// A messenger that runs, with nothing in its tables.
    pub fn new() -> (router: Self)
        ensures
            router@ == (RouterView {
                handles: Set::empty(),
                backends: Set::empty(),
                pending: Map::empty(),
                connected: Map::empty(),
                own_requests: Set::empty(),
                running: true,
            }),
    {
        let router = Router {
            handles: new_cids(),
            backends: new_cids(),
            pending: new_queues(),
            connected: HashMap::new(),
            own_requests: HashSet::new(),
            running: true,
        };
        assert(router@.pending =~= Map::<u64, Seq<InternalMessage>>::empty());
        assert(router@.connected =~= Map::<u64, Seq<u64>>::empty());
        router
    }

    /// Whether the messenger runs.
    pub fn is_running(&self) -> (running: bool)
        ensures
            running == self@.running,
    {
        self.running
    }

    /// The messenger has stopped.
    pub fn stop(&mut self)
        ensures
            final(self)@ == (RouterView { running: false, ..old(self)@ }),
    {
        self.running = false;
    }

    /// A delivery layer for `cid` is ready. It gets what waited for it, the oldest first.
    pub fn multiplex(&mut self, cid: u64) -> (waited: Vec<InternalMessage>)
        ensures
            final(self)@ == old(self)@.register(cid),
            waited@ == old(self)@.waiting(cid),
    {
        add_cid(&mut self.handles, cid);
        let queue = take_queue(&mut self.pending, cid);
        match queue {
            Some(messages) => messages,
            None => Vec::new(),
        }
    }

    /// A backend for `cid` is ready.
    pub fn add_backend(&mut self, cid: u64)
        ensures
            final(self)@ == (RouterView {
                backends: old(self)@.backends.insert(cid),
                ..old(self)@
            }),
    {
        add_cid(&mut self.backends, cid);
    }

    /// The delivery layer of `cid` is gone.
    pub fn remove_handle(&mut self, cid: u64)
        ensures
            final(self)@ == (RouterView {
                handles: old(self)@.handles.remove(cid),
                ..old(self)@
            }),
    {
        remove_cid(&mut self.handles, cid);
    }

    /// Hand a message to its delivery layer, or let it wait for one.
    fn hand_on(&mut self, message: InternalMessage, forward: Option<MessageNotification>) -> (out:
        Inbound)
        ensures
            handed_on(old(self)@, final(self)@, message, forward, out),
    {
        let cid = message.destination_id();
        if has_cid(&self.handles, cid) {
            return Inbound::Deliver { forward, cid, message };
        }
        let queue = take_queue(&mut self.pending, cid);
        let mut waiting = match queue {
            Some(messages) => messages,
            None => Vec::new(),
        };
        waiting.push(message);
        put_queue(&mut self.pending, cid, waiting);
        assert(self@.pending =~= old(self)@.queue(message).pending);
        Inbound::Queued { forward }
    }

    /// Something came from the agent.
    pub fn on_network(&mut self, response: InternalServiceResponse) -> (out: Inbound)
        ensures
            match response {
                InternalServiceResponse::MessageNotification(notification) => notification_handled(
                    old(self)@,
                    final(self)@,
                    notification,
                    out,
                ),
                InternalServiceResponse::MessageSendSuccess(_) => final(self)@ == old(self)@
                    && out is Done,
                _ => response_handled(old(self)@, final(self)@, response, out),
            },
    {
        match response {
            InternalServiceResponse::MessageNotification(notification) => self.on_notification(
                notification,
            ),
            InternalServiceResponse::MessageSendSuccess(_) => Inbound::Done,
            other => self.on_response(other),
        }
    }

    fn on_notification(&mut self, notification: MessageNotification) -> (out: Inbound)
        ensures
            notification_handled(old(self)@, final(self)@, notification, out),
    {
        match decode(&notification.message) {
            Decoded::Message { source, destination, message_id, contents } => {
                let forward = MessageNotification {
                    message: copy_bytes(&contents),
                    cid: notification.cid,
                    peer_cid: notification.peer_cid,
                    request_id: notification.request_id,
                };
                let inner = MessageNotification {
                    message: contents,
                    cid: notification.cid,
                    peer_cid: notification.peer_cid,
                    request_id: notification.request_id,
                };
                let message = InternalMessage::Message(
                    WrappedMessage {
                        source_id: source,
                        destination_id: destination,
                        message_id,
                        contents: InternalServicePayload::Response(
                            InternalServiceResponse::MessageNotification(inner),
                        ),
                    },
                );
                let out = self.hand_on(message, Some(forward));
                assert(delivered(
                    old(self)@,
                    self@,
                    notification,
                    (source, destination, message_id, contents@),
                    message,
                    forward,
                    out,
                ));
                assert(wire::decoded(notification.message@)->Message_contents == contents@);
                out
            },
            Decoded::Ack { from_id, to_id, message_id } => self.hand_on(
                InternalMessage::Ack { from_id, to_id, message_id },
                None,
            ),
            Decoded::Poll { from_id, to_id } => self.hand_on(
                InternalMessage::Poll { from_id, to_id },
                None,
            ),
            Decoded::Envelope { source, destination, message_id, payload } => {
                Inbound::ReadPayload { notification, source, destination, message_id, payload }
            },
            Decoded::Foreign => Inbound::ToUser(
                InternalServiceResponse::MessageNotification(notification),
            ),
        }
    }

    /// The payload of a signal has been read, or turned out to be unreadable. A signal whose
    /// payload cannot be read is nothing that a delivery layer wrote, and goes to the user as it
    /// came.
    pub fn on_payload(
        &mut self,
        notification: MessageNotification,
        source: u64,
        destination: u64,
        message_id: u64,
        payload: Option<InternalServicePayload>,
    ) -> (out: Inbound)
        ensures
            match payload {
                Some(contents) => handed_on(
                    old(self)@,
                    final(self)@,
                    InternalMessage::Message(
                        WrappedMessage {
                            source_id: source,
                            destination_id: destination,
                            message_id,
                            contents,
                        },
                    ),
                    None,
                    out,
                ),
                None => final(self)@ == old(self)@ && out == Inbound::ToUser(
                    InternalServiceResponse::MessageNotification(notification),
                ),
            },
    {
        match payload {
            Some(contents) => self.hand_on(
                InternalMessage::Message(
                    WrappedMessage {
                        source_id: source,
                        destination_id: destination,
                        message_id,
                        contents,
                    },
                ),
                None,
            ),
            None => Inbound::ToUser(InternalServiceResponse::MessageNotification(notification)),
        }
    }

    fn on_response(&mut self, response: InternalServiceResponse) -> (out: Inbound)
        ensures
            response_handled(old(self)@, final(self)@, response, out),
    {
        if let InternalServiceResponse::GetSessionsResponse(list) = &response {
            self.connected = connections_of(&list.sessions);
        }
        let answers = match response.request_id() {
            Some(id) => {
                if self.own_requests.remove(&id.bits) {
                    return Inbound::Done;
                }
                true
            },
            None => false,
        };
        assert(self.own_requests@ == old(self).own_requests@);
        let cid = response.cid();
        if has_cid(&self.backends, cid) {
            Inbound::Inspect { by: Inspector::Backend(cid), response }
        } else if answers {
            Inbound::Inspect { by: Inspector::Every, response }
        } else {
            Inbound::ToUser(response)
        }
    }

    /// The peers that `cid` is connected to, as the agent last said; none where the agent has
    /// not spoken of `cid`.
    pub fn connected_peers(&self, cid: u64) -> (peers: Vec<u64>)
        ensures
            peers@ == if self@.connected.contains_key(cid) {
                self@.connected[cid]
            } else {
                Seq::empty()
            },
    {
        match self.connected.get(&cid) {
            Some(known) => {
                let mut peers: Vec<u64> = Vec::new();
                let mut i: usize = 0;
                while i < known.len()
                    invariant
                        i <= known.len(),
                        peers@ == known@.take(i as int),
                    decreases known.len() - i,
                {
                    peers.push(known[i]);
                    i = i + 1;
                }
                assert(known@.take(i as int) =~= known@);
                peers
            },
            None => Vec::new(),
        }
    }

    /// The requests by which the messenger keeps its knowledge of the sessions fresh: one for
    /// each delivery layer. Their answers will go no further than the messenger.
    pub fn poll_sessions(&mut self) -> (requests: Vec<(StreamKey, InternalMessage)>)
        ensures
            polls(old(self)@.handles, requests@),
            final(self)@ == (RouterView {
                own_requests: old(self)@.own_requests.union(polled_ids(requests@).to_set()),
                ..old(self)@
            }),
    {
        let cids: Vec<u64> = list_cids(&self.handles);
        let mut requests: Vec<(StreamKey, InternalMessage)> = Vec::new();
        let mut i: usize = 0;
        assert(self@.own_requests =~= old(self)@.own_requests.union(
            polled_ids(requests@).to_set(),
        ));
        while i < cids.len()
            invariant
                i <= cids.len(),
                requests@.len() == i,
                forall|j: int| 0 <= j < i ==> polls_for(#[trigger] requests@[j], cids@[j]),
                cids@.no_duplicates(),
                cids@.to_set() == old(self)@.handles,
                self@ == (RouterView {
                    own_requests: old(self)@.own_requests.union(polled_ids(requests@).to_set()),
                    ..old(self)@
                }),
            decreases cids.len() - i,
        {
            let request_id = Uuid::new_v4();
            self.own_requests.insert(request_id.bits);
            let ghost before = requests@;
            requests.push(
                (
                    StreamKey::bypass_ism(),
                    InternalMessage::Message(
                        WrappedMessage {
                            source_id: cids[i],
                            destination_id: LOOPBACK_ONLY,
                            message_id: 0,
                            contents: InternalServicePayload::Request(
                                InternalServiceRequest::GetSessions { request_id },
                            ),
                        },
                    ),
                ),
            );
            proof {
                let ids = polled_ids(before);
                assert(polled_ids(requests@) =~= ids.push(request_id.bits));
                assert(ids.push(request_id.bits).to_set() =~= ids.to_set().insert(
                    request_id.bits,
                )) by {
                    assert forall|b: u128| ids.push(request_id.bits).contains(b) implies ids.contains(
                        b,
                    ) || b == request_id.bits by {}
                    assert forall|b: u128| ids.contains(b) implies ids.push(
                        request_id.bits,
                    ).contains(b) by {
                        let k = choose|k: int| 0 <= k < ids.len() && ids[k] == b;
                        assert(ids.push(request_id.bits)[k] == b);
                    }
                    assert(ids.push(request_id.bits)[ids.len() as int] == request_id.bits);
                }
                assert(self@.own_requests =~= old(self)@.own_requests.union(
                    polled_ids(requests@).to_set(),
                ));
            }
            i = i + 1;
        }
        requests
    }
}

/// `request` asks the agent, for the client `cid`, which sessions there are, under an identifier
/// that was drawn for it.
pub open spec fn polls_for(request: (StreamKey, InternalMessage), cid: u64) -> bool {
    &&& request.0 == StreamKey::bypass()
    &&& request.1 matches InternalMessage::Message(wrapped)
    &&& wrapped.source_id == cid
    &&& wrapped.destination_id == LOOPBACK_ONLY
    &&& wrapped.message_id == 0
    &&& wrapped.contents matches InternalServicePayload::Request(
        InternalServiceRequest::GetSessions { request_id },
    )
    &&& request_id.is_random()
}

/// One poll for each CID of `handles`, in an order that is not said.
pub open spec fn polls(handles: Set<u64>, requests: Seq<(StreamKey, InternalMessage)>) -> bool {
    exists|cids: Seq<u64>| #[trigger]
        cids.no_duplicates() && cids.to_set() == handles && cids.len() == requests.len() && forall|
            i: int,
        |
            0 <= i < cids.len() ==> polls_for(#[trigger] requests[i], cids[i])
}

/// The identifiers of the requests.
pub open spec fn polled_ids(requests: Seq<(StreamKey, InternalMessage)>) -> Seq<u128> {
    requests.map_values(
        |request: (StreamKey, InternalMessage)|
            request.1->Message_0.contents->Request_0.id().bits,
    )
}

/// A message that comes before its delivery layer is not lost: it waits behind what came before
/// it, no other client's queue changes, and the delivery layer gets the queue once.
pub proof fn law_early_messages_wait_in_order(before: RouterView, message: InternalMessage)
    requires
        !before.handles.contains(message.destination()),
    ensures
        before.route(message).waiting(message.destination()) == before.waiting(
            message.destination(),
        ).push(message),
        forall|cid: u64|
            cid != message.destination() ==> #[trigger] before.route(message).waiting(cid)
                == before.waiting(cid),
        before.route(message).register(message.destination()).waiting(message.destination())
            == Seq::<InternalMessage>::empty(),
        before.route(message).register(message.destination()).handles.contains(
            message.destination(),
        ),
{
}

/// The answer to a request that the messenger made for itself goes to nobody, and the same
/// identifier is its own no longer.
pub proof fn law_own_answers_stay_private(
    before: RouterView,
    after: RouterView,
    response: InternalServiceResponse,
    out: Inbound,
)
    requires
        response_handled(before, after, response, out),
        response.answered() is Some,
        before.own_requests.contains(response.answered()->0.bits),
    ensures
        out is Done,
        !after.own_requests.contains(response.answered()->0.bits),
{
}

/// What one client's delivery layer sends, the other's receives: the bytes that `dispatch` puts
/// on the wire, arriving at a messenger that has a delivery layer for the destination, are
/// handed to that delivery layer with their source, number and contents, and the user gets the
/// contents without the envelope.
pub proof fn law_messages_reach_their_delivery_layer(
    key: StreamKey,
    wrapped: WrappedMessage,
    fresh: Uuid,
    sent: crate::messenger::outbound::Outbound,
    before: RouterView,
    after: RouterView,
    notification: MessageNotification,
    out: Inbound,
)
    requires
        key != StreamKey::bypass(),
        wrapped.contents matches InternalServicePayload::Request(
            InternalServiceRequest::Message { message, .. },
        ) && message@.len() <= u64::MAX,
        crate::messenger::outbound::dispatched(
            key,
            InternalMessage::Message(wrapped),
            fresh,
            sent,
        ),
        notification.message@ == sent->request->Message_message@,
        notification_handled(before, after, notification, out),
        before.handles.contains(wrapped.destination_id),
    ensures
        after == before,
        out matches Inbound::Deliver { forward: Some(forward), cid, message } && cid
            == wrapped.destination_id && with_bytes(
            forward,
            notification,
            wrapped.contents->Request_0->Message_message@,
        ) && unwrapped(
            message,
            notification,
            wrapped.source_id,
            wrapped.destination_id,
            wrapped.message_id,
            wrapped.contents->Request_0->Message_message@,
        ),
{
    crate::messenger::outbound::law_sent_messages_decode(key, wrapped, fresh, sent);
    let contents = wrapped.contents->Request_0->Message_message@;
    let (message, forward) = choose|message: InternalMessage, forward: MessageNotification|
        #[trigger] delivered(
            before,
            after,
            notification,
            (wrapped.source_id, wrapped.destination_id, wrapped.message_id, contents),
            message,
            forward,
            out,
        );
    assert(message.destination() == wrapped.destination_id);
}

/// A message whose delivery layer is there waits for nothing, and a delivery layer that is ready
/// takes its own queue and leaves every other client's as it was.
pub proof fn law_a_delivery_layer_takes_its_own_queue(
    before: RouterView,
    message: InternalMessage,
    cid: u64,
    other: u64,
)
    ensures
        before.handles.contains(message.destination()) ==> before.route(message) == before,
        before.register(cid).handles.contains(cid),
        before.register(cid).waiting(cid).len() == 0,
        other != cid ==> before.register(cid).waiting(other) == before.waiting(other),
        other != cid ==> before.register(cid).handles.contains(other) == before.handles.contains(
            other,
        ),
        before.register(cid).backends == before.backends,
        before.register(cid).connected == before.connected,
        before.register(cid).own_requests == before.own_requests,
        before.register(cid).running == before.running,
        before.pending.contains_key(cid) ==> before.waiting(cid) == before.pending[cid],
        !before.pending.contains_key(cid) ==> before.waiting(cid).len() == 0,
{
}

/// To let a message wait changes nothing but the queue of the client it is for.
pub proof fn law_waiting_changes_one_queue(before: RouterView, message: InternalMessage, other: u64)
    ensures
        before.queue(message).waiting(message.destination()) == before.waiting(
            message.destination(),
        ).push(message),
        other != message.destination() ==> before.queue(message).waiting(other) == before.waiting(
            other,
        ),
        before.queue(message).handles == before.handles,
        before.queue(message).backends == before.backends,
        before.queue(message).connected == before.connected,
        before.queue(message).own_requests == before.own_requests,
        before.queue(message).running == before.running,
{
}

/// What is handed on goes to the delivery layer of the client it is for, where there is one, and
/// else waits behind what waits for that client; what goes to the user goes there either way.
pub proof fn law_handed_on_to_its_own_client(
    before: RouterView,
    after: RouterView,
    message: InternalMessage,
    forward: Option<MessageNotification>,
    out: Inbound,
)
    requires
        handed_on(before, after, message, forward, out),
    ensures
        before.handles.contains(message.destination()) ==> after == before && out == (
        Inbound::Deliver { forward, cid: message.destination(), message }),
        !before.handles.contains(message.destination()) ==> out == (Inbound::Queued { forward })
            && after.waiting(message.destination()) == before.waiting(message.destination()).push(
            message,
        ),
        after.handles == before.handles,
        after.own_requests == before.own_requests,
{
}

/// A notification keeps whom it is for and from and what it answers when its bytes are replaced.
pub proof fn law_only_the_bytes_are_replaced(
    n: MessageNotification,
    like: MessageNotification,
    bytes: Seq<u8>,
)
    ensures
        with_bytes(n, like, bytes) <==> n.message@ == bytes && n.cid == like.cid && n.peer_cid
            == like.peer_cid && n.request_id == like.request_id,
{
}

/// What a delivery layer gets of an envelope is what was in it: its source, its destination, its
/// number and its contents, in a notification that is otherwise the one that came.
pub proof fn law_what_was_in_the_envelope(
    message: InternalMessage,
    notification: MessageNotification,
    source: u64,
    destination: u64,
    message_id: u64,
    contents: Seq<u8>,
)
    requires
        unwrapped(message, notification, source, destination, message_id, contents),
    ensures
        message is Message,
        message->Message_0.source_id == source,
        message->Message_0.destination_id == destination,
        message->Message_0.message_id == message_id,
        message->Message_0.contents is Response,
        message->Message_0.contents->Response_0 matches InternalServiceResponse::MessageNotification(
            inner,
        ) && inner.message@ == contents && inner.cid == notification.cid && inner.peer_cid
            == notification.peer_cid && inner.request_id == notification.request_id,
{
}

/// What becomes of what a delivery layer wrote: a message reaches the delivery layer of the client
/// it names, or waits for it, and the user gets its contents; an acknowledgement or a poll does
/// the same and the user gets nothing of it; a payload is read first; and what no delivery layer
/// wrote goes to the user as it came.
pub proof fn law_what_becomes_of_a_notification(
    before: RouterView,
    after: RouterView,
    notification: MessageNotification,
    out: Inbound,
)
    requires
        notification_handled(before, after, notification, out),
    ensures
        match wire::decoded(notification.message@) {
            wire::DecodedView::Message { source, destination, message_id, contents } => {
                if before.handles.contains(destination) {
                    after == before && (out matches Inbound::Deliver {
                        forward: Some(forward),
                        cid,
                        message,
                    } && cid == destination && with_bytes(forward, notification, contents)
                        && unwrapped(
                        message,
                        notification,
                        source,
                        destination,
                        message_id,
                        contents,
                    ))
                } else {
                    (out matches Inbound::Queued { forward: Some(forward) } && with_bytes(
                        forward,
                        notification,
                        contents,
                    )) && after.waiting(destination).len() == before.waiting(destination).len() + 1
                        && unwrapped(
                        after.waiting(destination).last(),
                        notification,
                        source,
                        destination,
                        message_id,
                        contents,
                    )
                }
            },
            wire::DecodedView::Ack { from_id, to_id, message_id } => {
                let signal = InternalMessage::Ack { from_id, to_id, message_id };
                if before.handles.contains(to_id) {
                    after == before && out == (Inbound::Deliver {
                        forward: None,
                        cid: to_id,
                        message: signal,
                    })
                } else {
                    out == (Inbound::Queued { forward: None }) && after.waiting(to_id)
                        == before.waiting(to_id).push(signal)
                }
            },
            wire::DecodedView::Poll { from_id, to_id } => {
                let signal = InternalMessage::Poll { from_id, to_id };
                if before.handles.contains(to_id) {
                    after == before && out == (Inbound::Deliver {
                        forward: None,
                        cid: to_id,
                        message: signal,
                    })
                } else {
                    out == (Inbound::Queued { forward: None }) && after.waiting(to_id)
                        == before.waiting(to_id).push(signal)
                }
            },
            wire::DecodedView::Envelope { source, destination, message_id, payload } => {
                after == before && (out matches Inbound::ReadPayload {
                    notification: kept,
                    source: s,
                    destination: d,
                    message_id: m,
                    payload: p,
                } && kept == notification && s == source && d == destination && m == message_id
                    && p@ == payload)
            },
            wire::DecodedView::Foreign => after == before && out == Inbound::ToUser(
                InternalServiceResponse::MessageNotification(notification),
            ),
        },
{
    if let wire::DecodedView::Message { source, destination, message_id, contents } = wire::decoded(
        notification.message@,
    ) {
        let (message, forward) = choose|message: InternalMessage, forward: MessageNotification|
            #[trigger] delivered(
                before,
                after,
                notification,
                (source, destination, message_id, contents),
                message,
                forward,
                out,
            );
        assert(message.destination() == destination);
    }
}

/// Where a response goes: an answer to the messenger's own request nowhere, any other to the
/// backend of its CID where there is one, else to every backend where it answers something, and
/// else to the user. Only the agent's list of sessions changes what is known of them.
pub proof fn law_where_a_response_goes(
    before: RouterView,
    after: RouterView,
    response: InternalServiceResponse,
    out: Inbound,
    other: u128,
)
    requires
        response_handled(before, after, response, out),
    ensures
        response.answered() is Some && before.own_requests.contains(response.answered()->0.bits)
            <==> out is Done,
        out !is Done && before.backends.contains(response.session()) ==> out == (Inbound::Inspect {
            by: Inspector::Backend(response.session()),
            response,
        }),
        out !is Done && !before.backends.contains(response.session()) && response.answered()
            is Some ==> out == (Inbound::Inspect { by: Inspector::Every, response }),
        out !is Done && !before.backends.contains(response.session()) && response.answered()
            is None ==> out == Inbound::ToUser(response),
        after.own_requests.contains(other) <==> before.own_requests.contains(other) && !(
        response.answered() is Some && response.answered()->0.bits == other),
        after.handles == before.handles,
        after.backends == before.backends,
        after.pending == before.pending,
        after.running == before.running,
        response !is GetSessionsResponse ==> after.connected == before.connected,
        response matches InternalServiceResponse::GetSessionsResponse(list) ==> lists_sessions(
            after.connected,
            list.sessions@,
        ),
{
}

/// What is known of the sessions is what the agent's list says: the sessions on the list and no
/// others, each with the peers of its last entry.
pub proof fn law_the_list_says_it_all(
    connected: Map<u64, Seq<u64>>,
    sessions: Seq<SessionInformation>,
    cid: u64,
    i: int,
)
    requires
        lists_sessions(connected, sessions),
    ensures
        (forall|j: int| 0 <= j < sessions.len() ==> (#[trigger] sessions[j]).cid != cid)
            <==> !connected.contains_key(cid),
        0 <= i < sessions.len() && (forall|j: int|
            i < j < sessions.len() ==> (#[trigger] sessions[j]).cid != sessions[i].cid)
            ==> connected.contains_key(sessions[i].cid) && lists_peers(
            connected[sessions[i].cid],
            sessions[i],
        ),
{
    if 0 <= i < sessions.len() {
        assert(connected.contains_key(sessions[i].cid));
    }
}

/// The peers of a session are those of its connections: as many as there are connections, every
/// connection's among them, and none that no connection has.
pub proof fn law_peers_are_those_of_the_connections(
    peers: Seq<u64>,
    session: SessionInformation,
    key: u64,
    i: int,
)
    requires
        lists_peers(peers, session),
    ensures
        peers.len() == session.peer_connections@.dom().len(),
        session.peer_connections@.contains_key(key) ==> peers.contains(
            session.peer_connections@[key].peer_cid,
        ),
        0 <= i < peers.len() ==> exists|k: u64| #[trigger]
            session.peer_connections@.contains_key(k) && session.peer_connections@[k].peer_cid
                == peers[i],
{
    let keys = choose|keys: Seq<u64>| #[trigger] lists_by(peers, keys, session);
    keys.unique_seq_to_set();
    if session.peer_connections@.contains_key(key) {
        assert(keys.to_set().contains(key));
        let at = choose|at: int| 0 <= at < keys.len() && keys[at] == key;
        assert(peers[at] == session.peer_connections@[keys[at]].peer_cid);
    }
    if 0 <= i < peers.len() {
        assert(keys.to_set().contains(keys[i]));
        assert(session.peer_connections@.contains_key(keys[i]));
        assert(peers[i] == session.peer_connections@[keys[i]].peer_cid);
    }
}

/// Every delivery layer is polled for once: as many requests as there are delivery layers, one of
/// each, past the delivery layers to the agent, asking which sessions there are.
pub proof fn law_every_delivery_layer_is_polled_for(
    handles: Set<u64>,
    requests: Seq<(StreamKey, InternalMessage)>,
    cid: u64,
)
    requires
        polls(handles, requests),
    ensures
        requests.len() == handles.len(),
        handles.contains(cid) ==> exists|i: int|
            0 <= i < requests.len() && (#[trigger] requests[i]).1.source() == cid,
        forall|i: int|
            0 <= i < requests.len() ==> handles.contains((#[trigger] requests[i]).1.source())
                && requests[i].1.destination() == 0 && requests[i].0 == StreamKey::bypass()
                && requests[i].1 is Message && requests[i].1->Message_0.message_id == 0
                && requests[i].1->Message_0.contents is Request
                && requests[i].1->Message_0.contents->Request_0 is GetSessions,
{
    let cids = choose|cids: Seq<u64>| #[trigger]
        cids.no_duplicates() && cids.to_set() == handles && cids.len() == requests.len() && forall|
            i: int,
        |
            0 <= i < cids.len() ==> polls_for(#[trigger] requests[i], cids[i]);
    cids.unique_seq_to_set();
    if handles.contains(cid) {
        assert(cids.to_set().contains(cid));
        let i = choose|i: int| 0 <= i < cids.len() && cids[i] == cid;
        assert(polls_for(requests[i], cids[i]));
    }
    assert forall|i: int| 0 <= i < requests.len() implies handles.contains(
        (#[trigger] requests[i]).1.source(),
    ) && requests[i].1.destination() == 0 && requests[i].0 == StreamKey::bypass()
        && requests[i].1 is Message && requests[i].1->Message_0.message_id == 0
        && requests[i].1->Message_0.contents is Request
        && requests[i].1->Message_0.contents->Request_0 is GetSessions by {
        assert(polls_for(requests[i], cids[i]));
        assert(cids.to_set().contains(cids[i]));
    }
}

/// The answer to every poll is the messenger's own: the identifier under which it was asked is
/// among those that were added, so the answer goes no further.
pub proof fn law_answers_to_polls_stay_private(
    handles: Set<u64>,
    requests: Seq<(StreamKey, InternalMessage)>,
    own: Set<u128>,
    i: int,
)
    requires
        polls(handles, requests),
        0 <= i < requests.len(),
    ensures
        requests[i].1->Message_0.contents->Request_0 matches InternalServiceRequest::GetSessions {
            request_id,
        } && polled_ids(requests)[i] == request_id.bits && own.union(
            polled_ids(requests).to_set(),
        ).contains(request_id.bits),
        polled_ids(requests).len() == requests.len(),
{
    let cids = choose|cids: Seq<u64>| #[trigger]
        cids.no_duplicates() && cids.to_set() == handles && cids.len() == requests.len() && forall|
            i: int,
        |
            0 <= i < cids.len() ==> polls_for(#[trigger] requests[i], cids[i]);
    assert(polls_for(requests[i], cids[i]));
    let ids = polled_ids(requests);
    assert(ids[i] == requests[i].1->Message_0.contents->Request_0.id().bits);
    assert(ids.to_set().contains(ids[i]));
}

/// A response is shown to one backend after the other until one takes it or fails on it; only one
/// that all have passed goes to the user, and it goes there as it came.
pub proof fn law_the_first_that_takes_it_ends_the_round(
    left: usize,
    inspection: Inspection,
    next: Round,
)
    requires
        call_ensures(after_inspection, (left, inspection), next),
    ensures
        next is Done <==> inspection !is Passed,
        inspection matches Inspection::Passed(response) ==> (left > 0 ==> next == Round::Next(
            response,
        )),
        inspection matches Inspection::Passed(response) ==> (left == 0 ==> next == Round::ToUser(
            response,
        )),
{
}

/// The user gets the response of a message that has come through, and of no other.
pub proof fn law_the_user_gets_responses(
    message: WrappedMessage,
    response: Option<InternalServiceResponse>,
)
    requires
        call_ensures(local_delivery, (message,), response),
    ensures
        response is Some <==> message.contents is Response,
        response is Some ==> message.contents == InternalServicePayload::Response(response->0),
{
}

/// The peers of a session are known as the agent last said, and there are none of a session that it
/// has not spoken of.
pub proof fn law_known_peers(router: Router, cid: u64, peers: Vec<u64>)
    requires
        call_ensures(Router::connected_peers, (&router, cid), peers),
    ensures
        router@.connected.contains_key(cid) ==> peers@ == router@.connected[cid],
        !router@.connected.contains_key(cid) ==> peers@.len() == 0,
{
}

/// A message that came before its delivery layer is handed to it when it is ready, as the last of
/// what waited, and waits no longer.
pub proof fn law_an_early_message_is_handed_over(
    notification: MessageNotification,
    source: u64,
    destination: u64,
    message_id: u64,
    contents: InternalServicePayload,
)
    ensures
        forall|
            router: &mut Router,
            then: &mut Router,
            out: Inbound,
            waited: Vec<InternalMessage>,
        |
            #![trigger call_ensures(Router::on_payload, (router, notification, source, destination, message_id, Some(contents)), out), call_ensures(Router::multiplex, (then, destination), waited)]
            call_ensures(
                Router::on_payload,
                (router, notification, source, destination, message_id, Some(contents)),
                out,
            ) && !router@.handles.contains(destination) && *then == *final(router)
                && call_ensures(Router::multiplex, (then, destination), waited) ==> {
                &&& out == (Inbound::Queued { forward: None })
                &&& waited@.len() > 0
                &&& waited@.last() == InternalMessage::Message(
                    WrappedMessage {
                        source_id: source,
                        destination_id: destination,
                        message_id,
                        contents,
                    },
                )
                &&& final(then)@.waiting(destination).len() == 0
                &&& final(then)@.handles.contains(destination)
            },
{
}

/// The acknowledgement that a message was sent is the messenger's own affair and goes to nobody; a
/// messenger that was stopped runs no longer; and what is taken out of the tables is taken out
/// alone.
pub proof fn law_small_changes_of_the_tables(
    sent: crate::types::session::MessageSendSuccess,
    cid: u64,
)
    ensures
        forall|router: &mut Router, out: Inbound| #[trigger]
            call_ensures(
                Router::on_network,
                (router, InternalServiceResponse::MessageSendSuccess(sent)),
                out,
            ) ==> out is Done && final(router)@ == router@,
        forall|router: &mut Router| #[trigger]
            call_ensures(Router::stop, (router,), ()) ==> !final(router)@.running
                && final(router)@.handles == router@.handles && final(router)@.pending
                == router@.pending,
        forall|router: &mut Router| #[trigger]
            call_ensures(Router::remove_handle, (router, cid), ())
                ==> !final(router)@.handles.contains(cid) && final(router)@.backends
                == router@.backends && final(router)@.pending == router@.pending,
        forall|router: &mut Router| #[trigger]
            call_ensures(Router::add_backend, (router, cid), ())
                ==> final(router)@.backends.contains(cid) && final(router)@.handles
                == router@.handles && final(router)@.pending == router@.pending,
{
}

} // verus!
