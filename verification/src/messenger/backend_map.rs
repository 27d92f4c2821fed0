//! The queues of messages that a delivery layer keeps in the agent's store: what is on its way
//! out, and what came in and is not delivered yet.
//!
//! Each queue is one value under one key, so every change reads the whole, changes it and writes
//! the whole back, with nothing in between. A read that failed must not be taken for an empty
//! queue: writing that back would erase every message in it.

use crate::messenger::wire::WrappedMessage;
use crate::types::ids::Uuid;
use std::collections::HashMap;
use vstd::prelude::*;

verus! {

broadcast use vstd::std_specs::hash::group_hash_axioms;

/// The messages of a queue, by peer and number.
pub struct MessageMap {
    peers: HashMap<u64, HashMap<u64, WrappedMessage>>,
}

/// The messages of a queue, as a mathematical value.
pub type MessageMapView = Map<u64, Map<u64, WrappedMessage>>;

impl View for MessageMap {
    type V = Map<u64, Map<u64, WrappedMessage>>;

    closed spec fn view(&self) -> Map<u64, Map<u64, WrappedMessage>> {
        self.peers@.map_values(|messages: HashMap<u64, WrappedMessage>| messages@)
    }
}

/// One change of a queue.
#[derive(PartialEq, Eq)]
pub enum Change {
    /// A message to keep; one with the same peer and number is replaced.
    Store { peer: u64, message_id: u64, message: WrappedMessage },
    /// A message to keep no longer.
    Clear { peer: u64, message_id: u64 },
    /// Several messages of one peer to keep no longer.
    ClearMany { peer: u64, message_ids: Vec<u64> },
}

/// The messages of `peer`.
pub open spec fn of_peer(queue: MessageMapView, peer: u64) -> Map<u64, WrappedMessage> {
    if queue.contains_key(peer) {
        queue[peer]
    } else {
        Map::empty()
    }
}

/// The queue with one more message.
pub open spec fn stored(
    queue: MessageMapView,
    peer: u64,
    message_id: u64,
    message: WrappedMessage,
) -> MessageMapView {
    queue.insert(peer, of_peer(queue, peer).insert(message_id, message))
}

/// The queue without these messages of `peer`.
pub open spec fn cleared(queue: MessageMapView, peer: u64, message_ids: Set<u64>) -> MessageMapView {
    if queue.contains_key(peer) {
        queue.insert(peer, queue[peer].remove_keys(message_ids))
    } else {
        queue
    }
}

/// The queue after a change.
pub open spec fn changed(queue: MessageMapView, change: Change) -> MessageMapView {
    match change {
        Change::Store { peer, message_id, message } => stored(queue, peer, message_id, message),
        Change::Clear { peer, message_id } => cleared(queue, peer, set![message_id]),
        Change::ClearMany { peer, message_ids } => cleared(queue, peer, message_ids@.to_set()),
    }
}

/// The queue has this message.
pub open spec fn holds(queue: MessageMapView, peer: u64, message_id: u64) -> bool {
    queue.contains_key(peer) && queue[peer].contains_key(message_id)
}

impl MessageMap {
    /// A queue without messages.
    pub fn new() -> (queue: Self)
        ensures
            queue@ == Map::<u64, Map<u64, WrappedMessage>>::empty(),
    {
        let queue = MessageMap { peers: HashMap::new() };
        assert(queue@ =~= Map::<u64, Map<u64, WrappedMessage>>::empty());
        queue
    }

    /// The queue of these messages, by peer and number.
    pub fn from_state(peers: HashMap<u64, HashMap<u64, WrappedMessage>>) -> (queue: Self)
        ensures
            queue@ == peers@.map_values(|messages: HashMap<u64, WrappedMessage>| messages@),
    {
        MessageMap { peers }
    }

    /// The messages of the queue, by peer and number.
    pub fn into_state(self) -> (peers: HashMap<u64, HashMap<u64, WrappedMessage>>)
        ensures
            self@ == peers@.map_values(|messages: HashMap<u64, WrappedMessage>| messages@),
    {
        self.peers
    }

    /// Take the messages of `peer` out.
    fn take_peer(&mut self, peer: u64) -> (messages: Option<HashMap<u64, WrappedMessage>>)
        ensures
            final(self)@ == old(self)@.remove(peer),
            match messages {
                Some(map) => old(self)@.contains_key(peer) && map@ == old(self)@[peer],
                None => !old(self)@.contains_key(peer),
            },
    {
        let messages = self.peers.remove(&peer);
        assert(self@ =~= old(self)@.remove(peer));
        messages
    }

    /// Put the messages of `peer` in.
    fn put_peer(&mut self, peer: u64, messages: HashMap<u64, WrappedMessage>)
        ensures
            final(self)@ == old(self)@.insert(peer, messages@),
    {
        self.peers.insert(peer, messages);
        assert(self@ =~= old(self)@.insert(peer, messages@));
    }

    /// Keep one more message of a peer.
    pub fn store(&mut self, peer: u64, message_id: u64, message: WrappedMessage)
        ensures
            final(self)@ == stored(old(self)@, peer, message_id, message),
    {
        let taken = self.take_peer(peer);
        let mut messages = match taken {
            Some(map) => map,
            None => HashMap::new(),
        };
        messages.insert(message_id, message);
        self.put_peer(peer, messages);
        assert(self@ =~= stored(old(self)@, peer, message_id, message));
    }

    /// Keep these messages of a peer no longer.
    pub fn clear(&mut self, peer: u64, message_ids: &Vec<u64>)
        ensures
            final(self)@ == cleared(old(self)@, peer, message_ids@.to_set()),
    {
        let taken = self.take_peer(peer);
        let mut messages = match taken {
            Some(map) => map,
            None => {
                assert(self@ =~= old(self)@);
                return;
            },
        };
        let ghost all = messages@;
        let mut i: usize = 0;
        assert(all.remove_keys(message_ids@.take(0).to_set()) =~= all);
        while i < message_ids.len()
            invariant
                i <= message_ids.len(),
                messages@ == all.remove_keys(message_ids@.take(i as int).to_set()),
            decreases message_ids.len() - i,
        {
            let id: u64 = message_ids[i];
            messages.remove(&id);
            proof {
                let before = message_ids@.take(i as int);
                let now = message_ids@.take(i + 1);
                assert(now =~= before.push(id));
                assert forall|k: u64| now.contains(k) == (before.contains(k) || k == id) by {
                    if before.contains(k) {
                        let j = choose|j: int| 0 <= j < before.len() && before[j] == k;
                        assert(now[j] == k);
                    }
                    assert(now[i as int] == id);
                }
                assert(all.remove_keys(before.to_set()).remove(id) =~= all.remove_keys(
                    now.to_set(),
                ));
            }
            i = i + 1;
        }
        assert(message_ids@.take(i as int) =~= message_ids@);
        self.put_peer(peer, messages);
        assert(self@ =~= cleared(old(self)@, peer, message_ids@.to_set()));
    }

    /// Apply a change.
    pub fn apply(&mut self, change: Change)
        ensures
            final(self)@ == changed(old(self)@, change),
    {
        match change {
            Change::Store { peer, message_id, message } => self.store(peer, message_id, message),
            Change::Clear { peer, message_id } => {
                let mut one: Vec<u64> = Vec::new();
                one.push(message_id);
                assert(one@.to_set() =~= set![message_id]) by {
                    assert(one@[0] == message_id);
                }
                self.clear(peer, &one)
            },
            Change::ClearMany { peer, message_ids } => self.clear(peer, &message_ids),
        }
    }
}

/// `list` is every message of the queue, each once, in an order that is not said: `keys` are
/// their peers and numbers.
pub open spec fn lists_by(
    list: Seq<WrappedMessage>,
    keys: Seq<(u64, u64)>,
    queue: MessageMapView,
) -> bool {
    &&& keys.no_duplicates()
    &&& keys.len() == list.len()
    &&& forall|i: int|
        0 <= i < keys.len() ==> holds(queue, (#[trigger] keys[i]).0, keys[i].1) && list[i]
            == queue[keys[i].0][keys[i].1]
    &&& forall|peer: u64, message_id: u64| #[trigger]
        holds(queue, peer, message_id) ==> keys.contains((peer, message_id))
}

/// The keys of a map, each once.
pub fn keys_of<V>(map: &HashMap<u64, V>) -> (keys: Vec<u64>)
    ensures
        keys@.no_duplicates(),
        keys@.to_set() == map@.dom(),
{
    let mut keys: Vec<u64> = Vec::new();
    let ghost all = vstd::std_specs::iter::IteratorSpec::remaining(
        &vstd::std_specs::hash::spec_keys_iter(map),
    ).unref();
    for key in it: map.keys()
        invariant
            it.seq().unref() == all,
            all.to_set() == map@.dom(),
            all.no_duplicates(),
            keys@ == all.take(it.index() as int),
    {
        keys.push(*key);
    }
    assert(all.take(all.len() as int) =~= all);
    keys
}

impl MessageMap {
    /// Every message of the queue.
    pub fn into_messages(self) -> (list: Vec<WrappedMessage>)
        ensures
            exists|keys: Seq<(u64, u64)>| #[trigger] lists_by(list@, keys, self@),
    {
        let ghost queue = self@;
        let mut peers = self.peers;
        let mut list: Vec<WrappedMessage> = Vec::new();
        let ghost mut keys: Seq<(u64, u64)> = Seq::empty();
        let peer_keys: Vec<u64> = keys_of(&peers);
        let mut i: usize = 0;
        assert(forall|peer: u64| peer_keys@.contains(peer) <==> peer_keys@.to_set().contains(peer));
        while i < peer_keys.len()
            invariant
                i <= peer_keys.len(),
                queue == self@,
                peer_keys@.no_duplicates(),
                forall|peer: u64| #[trigger]
                    peer_keys@.contains(peer) <==> self.peers@.contains_key(peer),
                forall|j: int|
                    i <= j < peer_keys.len() ==> peers@.contains_key(#[trigger] peer_keys@[j])
                        && peers@[peer_keys@[j]] == self.peers@[peer_keys@[j]],
                keys.no_duplicates(),
                keys.len() == list.len(),
                forall|k: int|
                    0 <= k < keys.len() ==> holds(queue, (#[trigger] keys[k]).0, keys[k].1)
                        && list@[k] == queue[keys[k].0][keys[k].1] && peer_keys@.take(
                        i as int,
                    ).contains(keys[k].0),
                forall|j: int, message_id: u64|
                    0 <= j < i && #[trigger] holds(queue, peer_keys@[j], message_id)
                        ==> keys.contains((peer_keys@[j], message_id)),
            decreases peer_keys.len() - i,
        {
            let peer: u64 = peer_keys[i];
            assert(peers@.contains_key(peer_keys@[i as int]));
            assert(peer_keys@.contains(peer_keys@[i as int]));
            match peers.remove(&peer) {
                Some(found) => {
                    let mut messages = found;
                    let ghost whole = messages@;
                    assert(whole == queue[peer]);
                    let ids: Vec<u64> = keys_of(&messages);
                    let mut m: usize = 0;
                    let ghost before = keys;
                    assert(forall|id: u64| ids@.contains(id) <==> ids@.to_set().contains(id));
                    while m < ids.len()
                        invariant
                            i < peer_keys.len(),
                            peer == peer_keys@[i as int],
                            peer_keys@.no_duplicates(),
                            m <= ids.len(),
                            ids@.no_duplicates(),
                            forall|id: u64| #[trigger]
                                ids@.contains(id) <==> whole.contains_key(id),
                            queue.contains_key(peer),
                            whole == queue[peer],
                            forall|j: int|
                                m <= j < ids.len() ==> messages@.contains_key(#[trigger] ids@[j])
                                    && messages@[ids@[j]] == whole[ids@[j]],
                            keys.no_duplicates(),
                            keys.len() == list.len(),
                            keys.len() == before.len() + m,
                            forall|k: int| 0 <= k < before.len() ==> keys[k] == before[k],
                            forall|k: int|
                                0 <= k < before.len() ==> peer_keys@.take(i as int).contains(
                                    (#[trigger] before[k]).0,
                                ),
                            forall|k: int|
                                0 <= k < m ==> #[trigger] keys[before.len() + k] == (peer, ids@[k]),
                            forall|k: int|
                                0 <= k < keys.len() ==> holds(queue, (#[trigger] keys[k]).0, keys[k].1)
                                    && list@[k] == queue[keys[k].0][keys[k].1],
                        decreases ids.len() - m,
                    {
                        let id: u64 = ids[m];
                        assert(messages@.contains_key(ids@[m as int]));
                        match messages.remove(&id) {
                            Some(message) => {
                                list.push(message);
                                proof {
                                    let old_keys = keys;
                                    assert(ids@.contains(ids@[m as int]));
                                    assert forall|k: int| 0 <= k < old_keys.len() implies #[trigger] old_keys[k]
                                        != (peer, id) by {
                                        if k < before.len() {
                                            let taken = peer_keys@.take(i as int);
                                            assert(taken.contains(before[k].0));
                                            let j = choose|j: int|
                                                0 <= j < taken.len() && taken[j] == before[k].0;
                                            assert(peer_keys@[j] != peer_keys@[i as int]);
                                        } else {
                                            assert(old_keys[before.len() + (k - before.len())] == (
                                                peer,
                                                ids@[k - before.len()],
                                            ));
                                        }
                                    }
                                    keys = keys.push((peer, id));
                                }
                            },
                            None => {
                                assert(false);
                            },
                        }
                        m = m + 1;
                    }
                    proof {
                        assert forall|id: u64| #[trigger] holds(queue, peer, id) implies keys.contains(
                            (peer, id),
                        ) by {
                            assert(ids@.contains(id));
                            let j = choose|j: int| 0 <= j < ids@.len() && ids@[j] == id;
                            assert(keys[before.len() + j] == (peer, ids@[j]));
                        }
                        assert forall|j: int, message_id: u64|
                            0 <= j < i && #[trigger] holds(queue, peer_keys@[j], message_id) implies keys.contains(
                            (peer_keys@[j], message_id),
                        ) by {
                            assert(before.contains((peer_keys@[j], message_id)));
                            let k = choose|k: int|
                                0 <= k < before.len() && before[k] == (
                                    peer_keys@[j],
                                    message_id,
                                );
                            assert(keys[k] == before[k]);
                        }
                        let next = peer_keys@.take(i + 1);
                        assert(next[i as int] == peer);
                        assert forall|k: int| 0 <= k < keys.len() implies next.contains(
                            (#[trigger] keys[k]).0,
                        ) by {
                            if k < before.len() {
                                let taken = peer_keys@.take(i as int);
                                assert(taken.contains(before[k].0));
                                let j = choose|j: int|
                                    0 <= j < taken.len() && taken[j] == before[k].0;
                                assert(next[j] == before[k].0);
                            } else {
                                assert(keys[before.len() + (k - before.len())] == (
                                    peer,
                                    ids@[k - before.len()],
                                ));
                            }
                        }
                    }
                },
                None => {
                    assert(false);
                },
            }
            i = i + 1;
        }
        proof {
            assert forall|peer: u64, message_id: u64| #[trigger]
                holds(queue, peer, message_id) implies keys.contains((peer, message_id)) by {
                assert(peer_keys@.contains(peer));
                let j = choose|j: int| 0 <= j < peer_keys@.len() && peer_keys@[j] == peer;
                assert(holds(queue, peer_keys@[j], message_id));
            }
            assert(lists_by(list@, keys, self@));
        }
        list
    }
}

/// One write of a queue: what is written, and under which request.
pub struct MapWrite {
    pub request_id: Uuid,
    pub queue: MessageMap,
}

/// The queue to write back after a change, where the read went well; a failed read writes
/// nothing.
pub fn mutate<E>(read: Result<MessageMap, E>, request_id: Uuid, change: Change) -> (write: Result<
    MapWrite,
    E,
>)
    ensures
        match read {
            Ok(queue) => write matches Ok(done) && done.request_id == request_id && done.queue@
                == changed(queue@, change),
            Err(problem) => write == Err::<MapWrite, E>(problem),
        },
{
    match read {
        Ok(queue) => {
            let mut queue = queue;
            queue.apply(change);
            Ok(MapWrite { request_id, queue })
        },
        Err(problem) => Err(problem),
    }
}

/// One call that changes a queue.
pub struct MutateCall {
    pub request_id: Uuid,
    pub change: Change,
}

/// What happens among calls that share one queue and one lock. The number is that of the call.
pub enum LockEvent {
    /// The call takes the lock.
    Enter(nat),
    /// Its read of the queue is answered.
    Read(nat),
    /// Its read of the queue fails, and it gives the lock back without a write.
    ReadFailed(nat),
    /// What it writes is stored.
    Write(nat),
    /// It gives the lock back, successful.
    Leave(nat),
}

/// A queue and its lock, among the calls that change it.
pub struct LockedQueue {
    /// What the store holds.
    pub queue: MessageMapView,
    /// The calls that have taken the lock, now or before.
    pub entered: Set<nat>,
    /// The call that holds the lock.
    pub inside: Option<nat>,
    /// What the call that holds the lock has read.
    pub read: Option<MessageMapView>,
    /// Whether the call that holds the lock has written.
    pub wrote: bool,
    /// Every write so far: the call, its request and what was written.
    pub writes: Seq<(nat, Uuid, MessageMapView)>,
}

impl LockedQueue {
    /// Nobody has come yet.
    pub open spec fn untouched(queue: MessageMapView) -> Self {
        LockedQueue {
            queue,
            entered: Set::empty(),
            inside: None,
            read: None,
            wrote: false,
            writes: Seq::empty(),
        }
    }

    /// This can happen now. One call holds the lock at a time, each call reads and then writes,
    /// and it does so once.
    pub open spec fn can(self, calls: Seq<MutateCall>, event: LockEvent) -> bool {
        match event {
            LockEvent::Enter(i) => i < calls.len() && self.inside is None
                && !self.entered.contains(i),
            LockEvent::Read(i) => self.inside == Some(i) && self.read is None,
            LockEvent::ReadFailed(i) => self.inside == Some(i) && self.read is None,
            LockEvent::Write(i) => self.inside == Some(i) && self.read is Some && !self.wrote,
            LockEvent::Leave(i) => self.inside == Some(i) && self.wrote,
        }
    }

    /// What there is after an event. A read gives what the store holds; a write stores what
    /// `mutate` makes of what was read.
    pub open spec fn after(self, calls: Seq<MutateCall>, event: LockEvent) -> Self {
        match event {
            LockEvent::Enter(i) => LockedQueue {
                entered: self.entered.insert(i),
                inside: Some(i),
                read: None,
                wrote: false,
                ..self
            },
            LockEvent::Read(i) => LockedQueue { read: Some(self.queue), ..self },
            LockEvent::ReadFailed(i) => LockedQueue { inside: None, ..self },
            LockEvent::Write(i) => {
                let written = changed(self.read->0, calls[i as int].change);
                LockedQueue {
                    queue: written,
                    wrote: true,
                    writes: self.writes.push((i, calls[i as int].request_id, written)),
                    ..self
                }
            },
            LockEvent::Leave(i) => LockedQueue { inside: None, ..self },
        }
    }

    /// The call has written.
    pub open spec fn written(self, i: nat) -> bool {
        exists|k: int| 0 <= k < self.writes.len() && (#[trigger] self.writes[k]).0 == i
    }
}

/// What there is after a run of events; `None` where one of them cannot happen.
pub open spec fn run(
    calls: Seq<MutateCall>,
    start: MessageMapView,
    events: Seq<LockEvent>,
) -> Option<LockedQueue>
    decreases events.len(),
{
    if events.len() == 0 {
        Some(LockedQueue::untouched(start))
    } else {
        match run(calls, start, events.drop_last()) {
            Some(before) => if before.can(calls, events.last()) {
                Some(before.after(calls, events.last()))
            } else {
                None
            },
            None => None,
        }
    }
}

/// The queue after the changes of the first `n` writes, one after the other.
pub open spec fn changed_by(
    start: MessageMapView,
    calls: Seq<MutateCall>,
    writes: Seq<(nat, Uuid, MessageMapView)>,
    n: nat,
) -> MessageMapView
    decreases n,
{
    if n == 0 {
        start
    } else {
        changed(
            changed_by(start, calls, writes, (n - 1) as nat),
            calls[writes[n - 1].0 as int].change,
        )
    }
}

proof fn lemma_changed_by(
    start: MessageMapView,
    calls: Seq<MutateCall>,
    a: Seq<(nat, Uuid, MessageMapView)>,
    b: Seq<(nat, Uuid, MessageMapView)>,
    n: nat,
)
    requires
        n <= a.len(),
        n <= b.len(),
        forall|k: int| 0 <= k < n ==> a[k] == b[k],
    ensures
        changed_by(start, calls, a, n) == changed_by(start, calls, b, n),
    decreases n,
{
    if n > 0 {
        lemma_changed_by(start, calls, a, b, (n - 1) as nat);
    }
}

/// What holds in every state of a run.
spec fn serial(calls: Seq<MutateCall>, start: MessageMapView, now: LockedQueue) -> bool {
    let writes = now.writes;
    &&& now.queue == changed_by(start, calls, writes, writes.len())
    &&& now.inside is Some && now.read is Some && !now.wrote ==> now.read->0 == now.queue
    &&& now.inside matches Some(i) ==> i < calls.len() && now.entered.contains(i) && (!now.wrote
        ==> !now.written(i))
    &&& forall|k: int|
        0 <= k < writes.len() ==> {
            &&& (#[trigger] writes[k]).0 < calls.len()
            &&& now.entered.contains(writes[k].0)
            &&& writes[k].1 == calls[writes[k].0 as int].request_id
            &&& writes[k].2 == changed_by(start, calls, writes, (k + 1) as nat)
        }
    &&& forall|j: int, k: int|
        0 <= j < k < writes.len() ==> (#[trigger] writes[j]).0 != (#[trigger] writes[k]).0
}

proof fn lemma_serial(calls: Seq<MutateCall>, start: MessageMapView, events: Seq<LockEvent>)
    requires
        run(calls, start, events) is Some,
    ensures
        serial(calls, start, run(calls, start, events)->0),
    decreases events.len(),
{
    if events.len() > 0 {
        lemma_serial(calls, start, events.drop_last());
        let before = run(calls, start, events.drop_last())->0;
        let now = run(calls, start, events)->0;
        match events.last() {
            LockEvent::Write(i) => {
                let old_writes = before.writes;
                let writes = now.writes;
                let n = old_writes.len();
                lemma_changed_by(start, calls, old_writes, writes, n);
                assert(writes[n as int].0 == i);
                assert(now.queue == changed_by(start, calls, writes, n + 1));
                assert forall|k: int| 0 <= k < writes.len() implies {
                    &&& (#[trigger] writes[k]).0 < calls.len()
                    &&& now.entered.contains(writes[k].0)
                    &&& writes[k].1 == calls[writes[k].0 as int].request_id
                    &&& writes[k].2 == changed_by(start, calls, writes, (k + 1) as nat)
                } by {
                    if k < n {
                        assert(writes[k] == old_writes[k]);
                        lemma_changed_by(start, calls, old_writes, writes, (k + 1) as nat);
                    }
                }
                assert forall|j: int, k: int| 0 <= j < k < writes.len() implies (
                #[trigger] writes[j]).0 != (#[trigger] writes[k]).0 by {
                    assert(writes[j] == old_writes[j]);
                    if k == n {
                        assert(!before.written(i));
                    } else {
                        assert(writes[k] == old_writes[k]);
                    }
                }
            },
            LockEvent::Enter(i) => {
                assert(!now.written(i)) by {
                    if now.written(i) {
                        let k = choose|k: int|
                            0 <= k < now.writes.len() && (#[trigger] now.writes[k]).0 == i;
                        assert(before.entered.contains(before.writes[k].0));
                    }
                }
            },
            LockEvent::Read(i) => {
                assert(before.written(i) == now.written(i));
            },
            _ => {},
        }
    }
}

/// No change is lost, however the calls that share a lock come and go: the queue is what it was at
/// the start, with the changes of all calls that have written applied one after the other, in the
/// order of their writes. Each call writes once at most, under its own request, and what it writes
/// is the queue with its change and those before it. So where every call has succeeded, every
/// change is there.
pub proof fn law_locked_changes_all_survive(
    calls: Seq<MutateCall>,
    start: MessageMapView,
    events: Seq<LockEvent>,
)
    requires
        run(calls, start, events) is Some,
    ensures
        ({
            let end = run(calls, start, events)->0;
            let writes = end.writes;
            &&& end.queue == changed_by(start, calls, writes, writes.len())
            &&& forall|k: int|
                0 <= k < writes.len() ==> {
                    &&& (#[trigger] writes[k]).0 < calls.len()
                    &&& writes[k].1 == calls[writes[k].0 as int].request_id
                    &&& writes[k].2 == changed_by(start, calls, writes, (k + 1) as nat)
                }
            &&& forall|j: int, k: int|
                0 <= j < k < writes.len() ==> (#[trigger] writes[j]).0 != (#[trigger] writes[k]).0
            &&& forall|i: nat| #[trigger]
                events.contains(LockEvent::Leave(i)) ==> end.written(i)
        }),
{
    lemma_serial(calls, start, events);
    assert forall|i: nat| #[trigger] events.contains(LockEvent::Leave(i)) implies run(
        calls,
        start,
        events,
    )->0.written(i) by {
        lemma_left_has_written(calls, start, events, i);
    }
}

/// A call that has left successfully, or holds the lock after its write, has written.
proof fn lemma_left_has_written(
    calls: Seq<MutateCall>,
    start: MessageMapView,
    events: Seq<LockEvent>,
    i: nat,
)
    requires
        run(calls, start, events) is Some,
    ensures
        events.contains(LockEvent::Leave(i)) ==> run(calls, start, events)->0.written(i),
        run(calls, start, events)->0.inside == Some(i) && run(calls, start, events)->0.wrote
            ==> run(calls, start, events)->0.written(i),
    decreases events.len(),
{
    if events.len() > 0 {
        let front = events.drop_last();
        lemma_left_has_written(calls, start, front, i);
        let before = run(calls, start, front)->0;
        let now = run(calls, start, events)->0;
        if before.written(i) {
            let k = choose|k: int| 0 <= k < before.writes.len() && (#[trigger] before.writes[k]).0 == i;
            assert(now.writes[k] == before.writes[k]);
        }
        if events.last() == LockEvent::Write(i) {
            assert(now.writes[before.writes.len() as int].0 == i);
        }
        if events.contains(LockEvent::Leave(i)) && events.last() != LockEvent::Leave(i) {
            let k = choose|k: int| 0 <= k < events.len() && events[k] == LockEvent::Leave(i);
            assert(front[k] == LockEvent::Leave(i));
        }
    }
}

/// A message that was stored stays until it is itself cleared: storing another, or clearing
/// another, leaves it as it is.
pub proof fn law_changes_keep_other_messages(
    queue: MessageMapView,
    change: Change,
    peer: u64,
    message_id: u64,
)
    requires
        holds(queue, peer, message_id),
        match change {
            Change::Store { peer: p, message_id: m, .. } => p != peer || m != message_id,
            Change::Clear { peer: p, message_id: m } => p != peer || m != message_id,
            Change::ClearMany { peer: p, message_ids } => p != peer || !message_ids@.contains(
                message_id,
            ),
        },
    ensures
        holds(changed(queue, change), peer, message_id),
        changed(queue, change)[peer][message_id] == queue[peer][message_id],
{
}

/// A store and a clear of different messages of one peer come to the same in either order:
/// neither is lost to the other.
pub proof fn law_store_and_clear_commute(
    queue: MessageMapView,
    peer: u64,
    kept: u64,
    message: WrappedMessage,
    gone: Set<u64>,
)
    requires
        !gone.contains(kept),
    ensures
        cleared(stored(queue, peer, kept, message), peer, gone) == stored(
            cleared(queue, peer, gone),
            peer,
            kept,
            message,
        ),
        holds(cleared(stored(queue, peer, kept, message), peer, gone), peer, kept),
        forall|id: u64|
            gone.contains(id) ==> !#[trigger] holds(
                cleared(stored(queue, peer, kept, message), peer, gone),
                peer,
                id,
            ),
{
    let a = cleared(stored(queue, peer, kept, message), peer, gone);
    let b = stored(cleared(queue, peer, gone), peer, kept, message);
    assert(a[peer] =~= b[peer]);
    assert(a =~= b);
}

/// Two stores of different messages both survive, and come to the same in either order.
pub proof fn law_stores_commute(
    queue: MessageMapView,
    peer_a: u64,
    a: u64,
    message_a: WrappedMessage,
    peer_b: u64,
    b: u64,
    message_b: WrappedMessage,
)
    requires
        peer_a != peer_b || a != b,
    ensures
        stored(stored(queue, peer_a, a, message_a), peer_b, b, message_b) == stored(
            stored(queue, peer_b, b, message_b),
            peer_a,
            a,
            message_a,
        ),
        holds(stored(stored(queue, peer_a, a, message_a), peer_b, b, message_b), peer_a, a),
        holds(stored(stored(queue, peer_a, a, message_a), peer_b, b, message_b), peer_b, b),
{
    let x = stored(stored(queue, peer_a, a, message_a), peer_b, b, message_b);
    let y = stored(stored(queue, peer_b, b, message_b), peer_a, a, message_a);
    if peer_a == peer_b {
        assert(x[peer_a] =~= y[peer_a]);
    }
    assert(x =~= y);
}

/// A queue holds a message where its peer has one with its number.
pub proof fn law_what_a_queue_holds(queue: MessageMapView, peer: u64, message_id: u64)
    ensures
        holds(queue, peer, message_id) <==> queue.contains_key(peer) && queue[peer].contains_key(
            message_id,
        ),
        of_peer(queue, peer).contains_key(message_id) <==> holds(queue, peer, message_id),
        holds(queue, peer, message_id) ==> of_peer(queue, peer)[message_id]
            == queue[peer][message_id],
{
}

/// A message that is stored is there, as it was given, and no other message is more, less or
/// different for it.
pub proof fn law_a_stored_message_is_there(
    queue: MessageMapView,
    peer: u64,
    message_id: u64,
    message: WrappedMessage,
    other_peer: u64,
    other_id: u64,
)
    ensures
        ({
            let after = changed(queue, Change::Store { peer, message_id, message });
            &&& holds(after, peer, message_id)
            &&& after[peer][message_id] == message
            &&& other_peer != peer || other_id != message_id ==> holds(after, other_peer, other_id)
                == holds(queue, other_peer, other_id)
            &&& (other_peer != peer || other_id != message_id) && holds(queue, other_peer, other_id)
                ==> after[other_peer][other_id] == queue[other_peer][other_id]
        }),
{
}

/// A message that is cleared is gone, and no other message is more, less or different for it. To
/// clear several is to clear each of them, and to clear what is not there does nothing.
pub proof fn law_a_cleared_message_is_gone(
    queue: MessageMapView,
    peer: u64,
    message_id: u64,
    message_ids: Vec<u64>,
    other_peer: u64,
    other_id: u64,
)
    ensures
        ({
            let one = changed(queue, Change::Clear { peer, message_id });
            let many = changed(queue, Change::ClearMany { peer, message_ids });
            &&& !holds(one, peer, message_id)
            &&& holds(one, other_peer, other_id) <==> holds(queue, other_peer, other_id) && !(
            other_peer == peer && other_id == message_id)
            &&& holds(many, other_peer, other_id) <==> holds(queue, other_peer, other_id) && !(
            other_peer == peer && message_ids@.contains(other_id))
            &&& holds(one, other_peer, other_id) ==> one[other_peer][other_id]
                == queue[other_peer][other_id]
            &&& holds(many, other_peer, other_id) ==> many[other_peer][other_id]
                == queue[other_peer][other_id]
        }),
{
}

/// A list of a queue has every message of it once, and nothing else.
pub proof fn law_every_message_is_listed_once(
    list: Seq<WrappedMessage>,
    keys: Seq<(u64, u64)>,
    queue: MessageMapView,
    peer: u64,
    message_id: u64,
)
    requires
        lists_by(list, keys, queue),
    ensures
        list.len() == keys.len(),
        forall|i: int, j: int|
            0 <= i < keys.len() && 0 <= j < keys.len() && i != j ==> #[trigger] keys[i]
                != #[trigger] keys[j],
        forall|i: int|
            0 <= i < keys.len() ==> queue.contains_key((#[trigger] keys[i]).0)
                && queue[keys[i].0].contains_key(keys[i].1) && list[i]
                == queue[keys[i].0][keys[i].1],
        queue.contains_key(peer) && queue[peer].contains_key(message_id) ==> exists|i: int|
            0 <= i < list.len() && #[trigger] keys[i] == (peer, message_id) && list[i]
                == queue[peer][message_id],
{
    assert forall|i: int| 0 <= i < keys.len() implies queue.contains_key((#[trigger] keys[i]).0)
        && queue[keys[i].0].contains_key(keys[i].1) && list[i]
        == queue[keys[i].0][keys[i].1] by {
        assert(holds(queue, keys[i].0, keys[i].1));
    }
    if queue.contains_key(peer) && queue[peer].contains_key(message_id) {
        assert(holds(queue, peer, message_id));
        assert(keys.contains((peer, message_id)));
        let i = choose|i: int| 0 <= i < keys.len() && keys[i] == (peer, message_id);
        assert(keys[i] == (peer, message_id));
    }
}

/// What is stored in a queue is there and what is cleared is gone, and no other message is touched
/// by either.
pub proof fn law_store_and_clear(
    peer: u64,
    message_id: u64,
    message: WrappedMessage,
    message_ids: Vec<u64>,
    other_peer: u64,
    other_id: u64,
)
    ensures
        forall|queue: &mut MessageMap| #[trigger]
            call_ensures(MessageMap::store, (queue, peer, message_id, message), ()) ==> {
                &&& holds(final(queue)@, peer, message_id)
                &&& final(queue)@[peer][message_id] == message
                &&& other_peer != peer || other_id != message_id ==> holds(
                    final(queue)@,
                    other_peer,
                    other_id,
                ) == holds(queue@, other_peer, other_id)
            },
        forall|queue: &mut MessageMap| #[trigger]
            call_ensures(MessageMap::clear, (queue, peer, &message_ids), ()) ==> {
                &&& holds(final(queue)@, other_peer, other_id) <==> holds(
                    queue@,
                    other_peer,
                    other_id,
                ) && !(other_peer == peer && message_ids@.contains(other_id))
                &&& holds(final(queue)@, other_peer, other_id)
                    ==> final(queue)@[other_peer][other_id] == queue@[other_peer][other_id]
            },
{
}

/// A failed read writes nothing, and a read that went well writes the queue with the change, under
/// the request that it was asked under.
pub proof fn law_a_failed_read_writes_nothing<E>(
    read: Result<MessageMap, E>,
    request_id: Uuid,
    change: Change,
    write: Result<MapWrite, E>,
)
    requires
        call_ensures(mutate::<E>, (read, request_id, change), write),
    ensures
        write is Ok <==> read is Ok,
        read matches Err(problem) ==> write == Err::<MapWrite, E>(problem),
        write matches Ok(done) ==> done.request_id == request_id && done.queue@ == changed(
            read->Ok_0@,
            change,
        ),
{
}

} // verus!
