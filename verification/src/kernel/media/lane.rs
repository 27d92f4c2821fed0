//! A bounded, latest-frame queue for media on its way to a client.
//!
//! Media and control share one socket but must not share one queue. A client that cannot keep up
//! would make an unbounded queue grow with video that is stale before it is sent. Dropping is the
//! right response to a full media queue, and dropping the oldest is the right choice: it bounds
//! the delay to the depth of the queue, however long the congestion lasts.

use crate::types::response::InternalServiceResponse;
use std::collections::HashMap;
use std::collections::VecDeque;
use vstd::prelude::*;

verus! {

broadcast use vstd::std_specs::hash::group_hash_axioms;

/// How many frames may wait for a client that has stopped keeping up: about half a second of
/// video.
pub const MEDIA_LANE_CAPACITY: usize = 32;

#[derive(Debug, Clone, Copy, PartialEq, Eq, Structural)]
pub enum PushOutcome {
    Queued,
    /// The queue was full; the oldest frame was evicted to make room.
    DroppedOldest,
    /// The client is gone. Callers stop producing rather than filling a queue nobody will read.
    Closed,
}

/// What a reader of the lane gets.
#[derive(Debug, PartialEq, Eq)]
pub enum LaneRecv {
    Item(InternalServiceResponse),
    /// Closed, and everything is drained.
    Ended,
    /// Nothing yet: wait for the next push or the close.
    Wait,
}

/// The lane of one client.
pub struct MediaLane {
    queue: VecDeque<InternalServiceResponse>,
    closed: bool,
    dropped: u64,
    capacity: usize,
}

/// The lane of one client, as a mathematical value.
#[verifier::ext_equal]
pub struct LaneView {
    pub queue: Seq<InternalServiceResponse>,
    pub closed: bool,
    pub dropped: nat,
    pub capacity: nat,
}

impl View for MediaLane {
    type V = LaneView;

    closed spec fn view(&self) -> LaneView {
        LaneView {
            queue: self.queue@,
            closed: self.closed,
            dropped: self.dropped as nat,
            capacity: self.capacity as nat,
        }
    }
}

impl LaneView {
    /// How many frames can wait at most: the capacity, and one where the capacity is zero.
    pub open spec fn room(self) -> nat {
        if self.capacity == 0 {
            1
        } else {
            self.capacity
        }
    }

    /// No more frames wait than there is room for.
    pub open spec fn bounded(self) -> bool {
        self.queue.len() <= self.room()
    }

    /// The lane after a push. A closed lane takes nothing; a full one loses its oldest frame.
    pub open spec fn pushed(self, item: InternalServiceResponse) -> Self {
        if self.closed {
            self
        } else if self.queue.len() >= self.capacity {
            LaneView {
                queue: (if self.queue.len() > 0 {
                    self.queue.drop_first()
                } else {
                    self.queue
                }).push(item),
                dropped: self.dropped + 1,
                ..self
            }
        } else {
            LaneView { queue: self.queue.push(item), ..self }
        }
    }

    /// What a push reports.
    pub open spec fn push_outcome(self) -> PushOutcome {
        if self.closed {
            PushOutcome::Closed
        } else if self.queue.len() >= self.capacity {
            PushOutcome::DroppedOldest
        } else {
            PushOutcome::Queued
        }
    }

    /// The lane after several pushes.
    pub open spec fn pushed_all(self, items: Seq<InternalServiceResponse>) -> Self
        decreases items.len(),
    {
        if items.len() == 0 {
            self
        } else {
            self.pushed_all(items.drop_last()).pushed(items.last())
        }
    }
}

/// An open lane in which nothing waits.
pub fn media_lane(capacity: usize) -> (lane: MediaLane)
    ensures
        lane@ == (LaneView {
            queue: Seq::empty(),
            closed: false,
            dropped: 0,
            capacity: capacity as nat,
        }),
        lane@.bounded(),
{
    MediaLane { queue: VecDeque::new(), closed: false, dropped: 0, capacity }
}

impl MediaLane {
    /// Put a frame on the lane. Never waits: the producer must not be held up by a slow client.
    pub fn push(&mut self, item: InternalServiceResponse) -> (outcome: PushOutcome)
        requires
            old(self)@.dropped < u64::MAX,
        ensures
            final(self)@ == old(self)@.pushed(item),
            outcome == old(self)@.push_outcome(),
            old(self)@.bounded() ==> final(self)@.bounded(),
    {
        if self.closed {
            return PushOutcome::Closed;
        }
        if self.queue.len() >= self.capacity {
            let _ = self.queue.pop_front();
            self.dropped = self.dropped + 1;
            self.queue.push_back(item);
            assert(self@ =~= old(self)@.pushed(item));
            PushOutcome::DroppedOldest
        } else {
            self.queue.push_back(item);
            PushOutcome::Queued
        }
    }

    /// The client is gone: the lane takes nothing more, and what it holds can still be drained.
    pub fn close(&mut self)
        ensures
            final(self)@ == (LaneView { closed: true, ..old(self)@ }),
    {
        self.closed = true;
    }

    /// Frames discarded because the client could not keep up.
    pub fn dropped(&self) -> (n: u64)
        ensures
            n == self@.dropped,
    {
        self.dropped
    }

    pub fn len(&self) -> (n: usize)
        ensures
            n == self@.queue.len(),
    {
        self.queue.len()
    }

    pub fn is_empty(&self) -> (empty: bool)
        ensures
            empty == (self@.queue.len() == 0),
    {
        self.queue.len() == 0
    }

    /// The oldest frame; where there is none, the end of a closed lane, or a wait.
    pub fn recv(&mut self) -> (got: LaneRecv)
        ensures
            old(self)@.queue.len() > 0 ==> got == LaneRecv::Item(old(self)@.queue[0]) && final(
                self)@ == (LaneView { queue: old(self)@.queue.drop_first(), ..old(self)@ }),
            old(self)@.queue.len() == 0 ==> final(self)@ == old(self)@,
            old(self)@.queue.len() == 0 && old(self)@.closed ==> got is Ended,
            old(self)@.queue.len() == 0 && !old(self)@.closed ==> got is Wait,
    {
        match self.queue.pop_front() {
            Some(item) => {
                assert(self@ =~= (LaneView { queue: old(self)@.queue.drop_first(), ..old(self)@ }));
                LaneRecv::Item(item)
            },
            None => {
                if self.closed {
                    LaneRecv::Ended
                } else {
                    LaneRecv::Wait
                }
            },
        }
    }
}

/// The lane keeps the newest frames, in their order, and counts the rest: after any number of
/// pushes on an open lane, what waits is the end of everything that was pushed, as long as there
/// is room for, and every frame that is not there was counted.
pub proof fn law_the_newest_frames_wait(lane: LaneView, items: Seq<InternalServiceResponse>)
    requires
        lane.bounded(),
        !lane.closed,
        lane.capacity > 0,
    ensures
        ({
            let all = lane.queue + items;
            let after = lane.pushed_all(items);
            let kept = if all.len() <= lane.capacity {
                all.len() as int
            } else {
                lane.capacity as int
            };
            &&& after.queue == all.skip(all.len() - kept)
            &&& after.dropped == lane.dropped + all.len() - kept
            &&& after.bounded()
            &&& !after.closed
            &&& after.capacity == lane.capacity
        }),
    decreases items.len(),
{
    if items.len() == 0 {
        assert(lane.queue + items =~= lane.queue);
        assert(lane.queue.skip(0) =~= lane.queue);
    } else {
        let front = items.drop_last();
        law_the_newest_frames_wait(lane, front);
        let before = lane.queue + front;
        let all = lane.queue + items;
        assert(all =~= before.push(items.last()));
        let mid = lane.pushed_all(front);
        let after = lane.pushed_all(items);
        if before.len() >= lane.capacity {
            assert(after.queue =~= all.skip(all.len() - lane.capacity));
        } else {
            assert(mid.queue =~= before);
            assert(after.queue =~= all);
            assert(all.skip(0) =~= all);
        }
    }
}

/// A closed lane takes nothing, however often it is tried, and loses nothing that it holds.
pub proof fn law_a_closed_lane_takes_nothing(lane: LaneView, items: Seq<InternalServiceResponse>)
    requires
        lane.closed,
    ensures
        lane.pushed_all(items) == lane,
        lane.push_outcome() is Closed,
    decreases items.len(),
{
    if items.len() > 0 {
        law_a_closed_lane_takes_nothing(lane, items.drop_last());
    }
}

/// The lanes after a push on the lane of a connection, which changes nothing where it has none.
pub open spec fn pushed_to(
    lanes: Map<u128, LaneView>,
    conn_id: u128,
    item: InternalServiceResponse,
) -> Map<u128, LaneView> {
    if lanes.contains_key(conn_id) {
        lanes.insert(conn_id, lanes[conn_id].pushed(item))
    } else {
        lanes
    }
}

/// The client of a connection is there: it has a lane, and the lane is open.
pub open spec fn present(lanes: Map<u128, LaneView>, conn_id: u128) -> bool {
    lanes.contains_key(conn_id) && !lanes[conn_id].closed
}

/// The lanes of all clients, by connection.
pub struct MediaLanes {
    lanes: HashMap<u128, MediaLane>,
}

impl View for MediaLanes {
    type V = Map<u128, LaneView>;

    closed spec fn view(&self) -> Map<u128, LaneView> {
        self.lanes@.map_values(|lane: MediaLane| lane@)
    }
}

impl MediaLanes {
    /// No lanes.
    pub fn new() -> (lanes: Self)
        ensures
            lanes@ == Map::<u128, LaneView>::empty(),
    {
        let lanes = MediaLanes { lanes: HashMap::new() };
        assert(lanes@ =~= Map::<u128, LaneView>::empty());
        lanes
    }

    /// Whether there are no lanes.
    pub fn is_empty(&self) -> (empty: bool)
        ensures
            empty == (self@.dom() =~= Set::<u128>::empty()),
    {
        let n: usize = self.lanes.len();
        assert(self@.dom() =~= self.lanes@.dom());
        assert(self.lanes@.dom().len() == 0 <==> self.lanes@.dom() =~= Set::<u128>::empty()) by {
            if self.lanes@.dom().len() == 0 {
                self.lanes@.dom().lemma_len0_is_empty();
            }
        }
        n == 0
    }

    /// The lane of a new connection.
    pub fn open(&mut self, conn_id: u128, capacity: usize)
        ensures
            final(self)@ == old(self)@.insert(
                conn_id,
                LaneView {
                    queue: Seq::empty(),
                    closed: false,
                    dropped: 0,
                    capacity: capacity as nat,
                },
            ),
    {
        let lane = media_lane(capacity);
        self.lanes.insert(conn_id, lane);
        assert(self@ =~= old(self)@.insert(conn_id, lane@));
    }

    /// Put a frame on the lane of a connection. Where the connection has none, its client is
    /// gone.
    pub fn push(&mut self, conn_id: u128, item: InternalServiceResponse) -> (outcome: PushOutcome)
        requires
            old(self)@.contains_key(conn_id) ==> old(self)@[conn_id].dropped < u64::MAX,
        ensures
            final(self)@ == pushed_to(old(self)@, conn_id, item),
            outcome == if old(self)@.contains_key(conn_id) {
                old(self)@[conn_id].push_outcome()
            } else {
                PushOutcome::Closed
            },
    {
        match self.lanes.remove(&conn_id) {
            Some(found) => {
                let mut lane = found;
                assert(lane@ == old(self)@[conn_id]);
                let outcome = lane.push(item);
                self.lanes.insert(conn_id, lane);
                assert(self@ =~= old(self)@.insert(conn_id, lane@));
                outcome
            },
            None => {
                assert(self@ =~= old(self)@);
                PushOutcome::Closed
            },
        }
    }

    /// Frames discarded because the client of a connection could not keep up; none where it has no
    /// lane.
    pub fn dropped(&self, conn_id: u128) -> (n: u64)
        ensures
            n == if self@.contains_key(conn_id) {
                self@[conn_id].dropped
            } else {
                0
            },
    {
        match self.lanes.get(&conn_id) {
            Some(lane) => lane.dropped(),
            None => 0,
        }
    }

    /// The oldest frame of a connection's lane; where there is none, the end of a lane that is
    /// closed or gone, or a wait.
    pub fn recv(&mut self, conn_id: u128) -> (got: LaneRecv)
        ensures
            if old(self)@.contains_key(conn_id) && old(self)@[conn_id].queue.len() > 0 {
                &&& got == LaneRecv::Item(old(self)@[conn_id].queue[0])
                &&& final(self)@ == old(self)@.insert(
                    conn_id,
                    LaneView {
                        queue: old(self)@[conn_id].queue.drop_first(),
                        ..old(self)@[conn_id]
                    },
                )
            } else {
                &&& final(self)@ == old(self)@
                &&& got == if present(old(self)@, conn_id) {
                    LaneRecv::Wait
                } else {
                    LaneRecv::Ended
                }
            },
    {
        match self.lanes.remove(&conn_id) {
            Some(found) => {
                let mut lane = found;
                assert(lane@ == old(self)@[conn_id]);
                let got = lane.recv();
                self.lanes.insert(conn_id, lane);
                assert(self@ =~= old(self)@.insert(conn_id, lane@));
                assert(old(self)@.insert(conn_id, old(self)@[conn_id]) =~= old(self)@);
                got
            },
            None => {
                assert(self@ =~= old(self)@);
                LaneRecv::Ended
            },
        }
    }

    /// Take a dropped connection's lane out and close it. Closing as well as dropping is the
    /// point: a producer that still holds the lane learns that the client is gone, and stops.
    pub fn retire_media_lane(&mut self, conn_id: u128) -> (retired: Option<MediaLane>)
        ensures
            final(self)@ == old(self)@.remove(conn_id),
            match retired {
                Some(lane) => old(self)@.contains_key(conn_id) && lane@ == (LaneView {
                    closed: true,
                    ..old(self)@[conn_id]
                }),
                None => !old(self)@.contains_key(conn_id),
            },
    {
        let taken = self.lanes.remove(&conn_id);
        assert(self@ =~= old(self)@.remove(conn_id));
        match taken {
            Some(found) => {
                let mut lane = found;
                lane.close();
                Some(lane)
            },
            None => None,
        }
    }
}

/// What one push does, and what it reports: an open lane always takes the frame, behind all
/// others. The report is that the oldest was dropped exactly where as many frames waited as the
/// lane holds, and exactly then is one more counted.
pub proof fn law_one_push(lane: LaneView, item: InternalServiceResponse)
    ensures
        lane.push_outcome() is Closed <==> lane.closed,
        lane.push_outcome() is DroppedOldest <==> !lane.closed && lane.queue.len()
            >= lane.capacity,
        lane.push_outcome() is Queued <==> !lane.closed && lane.queue.len() < lane.capacity,
        lane.closed ==> lane.pushed(item) == lane,
        !lane.closed ==> lane.pushed(item).queue.last() == item,
        lane.push_outcome() is Queued ==> lane.pushed(item).queue == lane.queue.push(item),
        lane.push_outcome() is DroppedOldest && lane.queue.len() > 0 ==> lane.pushed(item).queue
            == lane.queue.skip(1).push(item),
        lane.push_outcome() is DroppedOldest && lane.queue.len() == 0 ==> lane.pushed(item).queue
            == seq![item],
        lane.pushed(item).dropped == lane.dropped + if lane.push_outcome() is DroppedOldest {
            1int
        } else {
            0
        },
        lane.pushed(item).closed == lane.closed,
        lane.pushed(item).capacity == lane.capacity,
{
    if lane.queue.len() > 0 {
        assert(lane.queue.skip(1) =~= lane.queue.drop_first());
    } else {
        assert(lane.queue.push(item) =~= seq![item]);
    }
}

/// A lane has room for as many frames as its capacity says, and for one where that is none; to
/// push never makes more wait.
pub proof fn law_room(lane: LaneView, item: InternalServiceResponse)
    ensures
        lane.bounded() <==> lane.queue.len() <= lane.capacity || (lane.capacity == 0
            && lane.queue.len() == 1),
        lane.bounded() ==> lane.pushed(item).bounded(),
{
}

/// A frame goes to the lane of its own connection and to no other, and where that connection has
/// none it goes nowhere.
pub proof fn law_a_frame_goes_to_its_own_lane(
    lanes: Map<u128, LaneView>,
    conn_id: u128,
    other: u128,
    item: InternalServiceResponse,
)
    ensures
        pushed_to(lanes, conn_id, item).contains_key(other) <==> lanes.contains_key(other),
        other != conn_id ==> pushed_to(lanes, conn_id, item)[other] == lanes[other],
        lanes.contains_key(conn_id) ==> pushed_to(lanes, conn_id, item)[conn_id]
            == lanes[conn_id].pushed(item),
        !lanes.contains_key(conn_id) ==> pushed_to(lanes, conn_id, item) == lanes,
        present(lanes, conn_id) <==> lanes.contains_key(conn_id) && !lanes[conn_id].closed,
        present(lanes, conn_id) ==> pushed_to(lanes, conn_id, item)[conn_id].queue.last() == item,
{
}

/// However much is pushed for a client that reads nothing, the last thirty-two frames wait and the
/// rest is counted.
pub proof fn law_a_client_that_reads_nothing_has_thirty_two_frames(
    items: Seq<InternalServiceResponse>,
)
    ensures
        ({
            let lane = LaneView {
                queue: Seq::empty(),
                closed: false,
                dropped: 0,
                capacity: MEDIA_LANE_CAPACITY as nat,
            };
            let after = lane.pushed_all(items);
            &&& items.len() <= 32 ==> after.queue == items && after.dropped == 0
            &&& items.len() > 32 ==> after.queue == items.skip(items.len() - 32) && after.dropped
                == items.len() - 32
        }),
{
    let lane = LaneView {
        queue: Seq::empty(),
        closed: false,
        dropped: 0,
        capacity: MEDIA_LANE_CAPACITY as nat,
    };
    law_the_newest_frames_wait(lane, items);
    assert(lane.queue + items =~= items);
    assert(items.skip(0) =~= items);
}

/// Frames come out of a lane in the order in which they went in, each once; a lane in which nothing
/// waits ends the reading only where it is closed.
pub proof fn law_frames_come_out_in_order()
    ensures
        forall|lane: &mut MediaLane, got: LaneRecv| #[trigger]
            call_ensures(MediaLane::recv, (lane,), got) ==> {
                &&& got is Item <==> lane@.queue.len() > 0
                &&& got matches LaneRecv::Item(item) ==> lane@.queue == seq![item]
                    + final(lane)@.queue
                &&& got is Ended <==> lane@.queue.len() == 0 && lane@.closed
                &&& got is Wait <==> lane@.queue.len() == 0 && !lane@.closed
                &&& got !is Item ==> final(lane)@ == lane@
                &&& final(lane)@.dropped == lane@.dropped
                &&& final(lane)@.closed == lane@.closed
            },
{
    assert forall|lane: &mut MediaLane, got: LaneRecv| #[trigger]
        call_ensures(MediaLane::recv, (lane,), got) implies {
        &&& got is Item <==> lane@.queue.len() > 0
        &&& got matches LaneRecv::Item(item) ==> lane@.queue == seq![item] + final(lane)@.queue
        &&& got is Ended <==> lane@.queue.len() == 0 && lane@.closed
        &&& got is Wait <==> lane@.queue.len() == 0 && !lane@.closed
        &&& got !is Item ==> final(lane)@ == lane@
        &&& final(lane)@.dropped == lane@.dropped
        &&& final(lane)@.closed == lane@.closed
    } by {
        if let LaneRecv::Item(item) = got {
            assert(lane@.queue =~= seq![item] + final(lane)@.queue);
        }
    }
}

/// After its client is gone a lane takes nothing, and the table has it no longer; other lanes are
/// as they were.
pub proof fn law_a_retired_lane_is_closed(conn_id: u128, other: u128)
    ensures
        forall|lanes: &mut MediaLanes, retired: Option<MediaLane>| #[trigger]
            call_ensures(MediaLanes::retire_media_lane, (lanes, conn_id), retired) ==> {
                &&& !final(lanes)@.contains_key(conn_id)
                &&& retired is Some <==> lanes@.contains_key(conn_id)
                &&& retired is Some ==> retired->0@.closed && retired->0@.queue
                    == lanes@[conn_id].queue && retired->0@.push_outcome() is Closed
                &&& other != conn_id ==> final(lanes)@.contains_key(other) == lanes@.contains_key(
                    other,
                ) && (lanes@.contains_key(other) ==> final(lanes)@[other] == lanes@[other])
            },
{
}

} // verus!
