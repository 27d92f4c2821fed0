//! The pump of a call: datagrams become frames, frames go to the client in order, and gaps are
//! reported.
//!
//! The pump borrows the receive half of the datagram channel and hands it back when it stops,
//! unless the channel itself has ended.

use crate::kernel::media::lane;
use crate::kernel::media::lane::{MediaLanes, PushOutcome};
use crate::types::ids::Uuid;
use crate::types::media::{MediaFrameNotification, MediaGapNotification};
use crate::types::response::InternalServiceResponse;
use vstd::prelude::*;

verus! {

/// One frame, put together again.
#[derive(Debug, PartialEq, Eq)]
pub struct MediaFrame {
    pub track: u8,
    pub kind: u8,
    pub sequence: u32,
    pub timestamp: u32,
    pub flags: u8,
    pub payload: Vec<u8>,
}

/// What a datagram did.
#[derive(Debug, Clone, Copy, PartialEq, Eq, Structural)]
pub enum Reassembly {
    /// It completed a frame, which is in the jitter buffer now.
    Complete,
    /// It is not acceptable.
    Rejected,
    /// A part of a frame, a duplicate, or a control message.
    Other,
}

/// What the jitter buffer releases.
#[derive(Debug, PartialEq, Eq)]
pub enum Popped {
    Frame(MediaFrame),
    /// Frames of a track are missing, and this is the one behind them.
    Gap { track: u8, missing_from: u32, missing_to: u32, next: MediaFrame },
    NotReady,
}

/// What the pump does next.
#[derive(Debug, Clone, Copy, PartialEq, Eq, Structural)]
pub enum PumpStep {
    /// Read the next datagram.
    Read,
    /// Ask the jitter buffer for what is ready.
    Pop,
    /// Stop, and hand the receive half back.
    HandBack,
    /// Stop; the channel is gone.
    Gone,
}

/// What the pump reads.
#[derive(Debug, Clone, Copy, PartialEq, Eq, Structural)]
pub enum PumpEvent {
    /// The owner of the call asks to stop. This counts before any datagram.
    Shutdown,
    /// The channel has ended.
    Ended,
    Datagram(Reassembly),
}

/// What the pump does after it read something.
pub open spec fn step_after(event: PumpEvent) -> PumpStep {
    match event {
        PumpEvent::Shutdown => PumpStep::HandBack,
        PumpEvent::Ended => PumpStep::Gone,
        PumpEvent::Datagram(Reassembly::Complete) => PumpStep::Pop,
        PumpEvent::Datagram(_) => PumpStep::Read,
    }
}

/// What the pump does after it read something. Only a completed frame can make anything ready.
pub fn after_read(event: PumpEvent) -> (step: PumpStep)
    ensures
        step == step_after(event),
{
    match event {
        PumpEvent::Shutdown => PumpStep::HandBack,
        PumpEvent::Ended => PumpStep::Gone,
        PumpEvent::Datagram(Reassembly::Complete) => PumpStep::Pop,
        PumpEvent::Datagram(_) => PumpStep::Read,
    }
}

/// The notification that a frame becomes.
pub open spec fn frame_notification(cid: u64, peer_cid: u64, frame: MediaFrame) -> InternalServiceResponse {
    InternalServiceResponse::MediaFrameNotification(
        MediaFrameNotification {
            cid,
            peer_cid,
            track: frame.track,
            kind: frame.kind,
            sequence: frame.sequence,
            timestamp: frame.timestamp,
            flags: frame.flags,
            payload: frame.payload,
            request_id: None,
        },
    )
}

/// The notification that a gap becomes.
pub open spec fn gap_notification(
    cid: u64,
    peer_cid: u64,
    track: u8,
    missing_from: u32,
    missing_to: u32,
) -> InternalServiceResponse {
    InternalServiceResponse::MediaGapNotification(
        MediaGapNotification {
            cid,
            peer_cid,
            track,
            missing_from,
            missing_to,
            request_id: None,
        },
    )
}

/// Put a frame on the lane of the client that opened the call. False once the client is gone, which
/// is the pump's signal to stop.
pub fn send_frame_to_client(
    lanes: &mut MediaLanes,
    owner: Uuid,
    cid: u64,
    peer_cid: u64,
    frame: MediaFrame,
) -> (alive: bool)
    requires
        old(lanes)@.contains_key(owner.bits) ==> old(lanes)@[owner.bits].dropped < u64::MAX,
    ensures
        final(lanes)@ == lane::pushed_to(
            old(lanes)@,
            owner.bits,
            frame_notification(cid, peer_cid, frame),
        ),
        alive == lane::present(old(lanes)@, owner.bits),
{
    let outcome = lanes.push(
        owner.bits,
        InternalServiceResponse::MediaFrameNotification(
            MediaFrameNotification {
                cid,
                peer_cid,
                track: frame.track,
                kind: frame.kind,
                sequence: frame.sequence,
                timestamp: frame.timestamp,
                flags: frame.flags,
                payload: frame.payload,
                request_id: None,
            },
        ),
    );
    match outcome {
        PushOutcome::Closed => false,
        PushOutcome::DroppedOldest => true,
        PushOutcome::Queued => true,
    }
}

/// What the pump does after the jitter buffer released something, where the client is there or
/// gone.
pub open spec fn step_after_pop(popped: Popped, client: bool) -> PumpStep {
    if popped is NotReady {
        PumpStep::Read
    } else if client {
        PumpStep::Pop
    } else {
        PumpStep::HandBack
    }
}

/// What the pump does with what the jitter buffer released. A frame goes on the lane. A gap is
/// reported on the reliable path (the first part of the result), and the frame behind it goes on
/// the lane too: a decoder must know to ask for a keyframe, and no frame is lost to a gap. Where
/// the client is gone, the pump stops and hands the receive half back.
pub fn after_pop(
    lanes: &mut MediaLanes,
    owner: Uuid,
    cid: u64,
    peer_cid: u64,
    popped: Popped,
) -> (r: (Option<InternalServiceResponse>, PumpStep))
    requires
        old(lanes)@.contains_key(owner.bits) ==> old(lanes)@[owner.bits].dropped < u64::MAX,
    ensures
        match popped {
            Popped::NotReady => final(lanes)@ == old(lanes)@ && r.0 is None,
            Popped::Frame(frame) => final(lanes)@ == lane::pushed_to(
                old(lanes)@,
                owner.bits,
                frame_notification(cid, peer_cid, frame),
            ) && r.0 is None,
            Popped::Gap { track, missing_from, missing_to, next } => final(lanes)@
                == lane::pushed_to(
                old(lanes)@,
                owner.bits,
                frame_notification(cid, peer_cid, next),
            ) && r.0 == Some(gap_notification(cid, peer_cid, track, missing_from, missing_to)),
        },
        r.1 == step_after_pop(popped, lane::present(old(lanes)@, owner.bits)),
{
    match popped {
        Popped::NotReady => (None, PumpStep::Read),
        Popped::Frame(frame) => {
            if send_frame_to_client(lanes, owner, cid, peer_cid, frame) {
                (None, PumpStep::Pop)
            } else {
                (None, PumpStep::HandBack)
            }
        },
        Popped::Gap { track, missing_from, missing_to, next } => {
            let gap = InternalServiceResponse::MediaGapNotification(
                MediaGapNotification {
                    cid,
                    peer_cid,
                    track,
                    missing_from,
                    missing_to,
                    request_id: None,
                },
            );
            if send_frame_to_client(lanes, owner, cid, peer_cid, next) {
                (Some(gap), PumpStep::Pop)
            } else {
                (Some(gap), PumpStep::HandBack)
            }
        },
    }
}

/// How many frames must be lost before a call that delivers nothing is worth a report.
pub const NO_MEDIA_DROPS: u64 = 30;

/// Whether to report that a call delivers nothing: frames arrive and every one of them is
/// dropped. Loss beside delivery is ordinary, a handful of drops at the start is reordering that
/// settles, and the report is made once.
pub fn should_report_no_media(already_reported: bool, delivered: u64, dropped: u64) -> (report: bool)
    ensures
        report == (!already_reported && delivered == 0 && dropped >= NO_MEDIA_DROPS),
{
    !already_reported && delivered == 0 && dropped >= NO_MEDIA_DROPS
}

/// The receive half is lost only where the channel itself ended: every other way in which the
/// pump stops hands it back, a client that went away among them.
pub proof fn law_only_the_end_loses_the_channel(event: PumpEvent, popped: Popped, client: bool)
    ensures
        step_after(event) is Gone <==> event is Ended,
        step_after_pop(popped, client) !is Gone,
        step_after_pop(popped, client) is HandBack <==> popped !is NotReady && !client,
{
}

/// What the pump does with what it reads: the owner's wish to stop counts, the end of the channel
/// is the end, only a completed frame can make anything ready, and anything else is read past.
pub proof fn law_what_the_pump_does_next(event: PumpEvent, popped: Popped, client: bool)
    ensures
        event is Shutdown ==> step_after(event) is HandBack,
        event is Ended ==> step_after(event) is Gone,
        event matches PumpEvent::Datagram(part) ==> (step_after(event) is Pop <==> part is Complete),
        event matches PumpEvent::Datagram(part) ==> (step_after(event) is Read <==> part
            !is Complete),
        step_after_pop(popped, client) is Read <==> popped is NotReady,
        step_after_pop(popped, client) is Pop <==> popped !is NotReady && client,
{
}

/// A client is told of a frame as it came: each number that the frame has is the one that the
/// notification has, and its payload is the frame's.
pub proof fn law_a_frame_is_told_as_it_came(cid: u64, peer_cid: u64, frame: MediaFrame)
    ensures
        frame_notification(cid, peer_cid, frame) matches InternalServiceResponse::MediaFrameNotification(
            told,
        ) && told.cid == cid && told.peer_cid == peer_cid && told.track == frame.track && told.kind
            == frame.kind && told.sequence == frame.sequence && told.timestamp == frame.timestamp
            && told.flags == frame.flags && told.payload == frame.payload && told.request_id
            is None,
{
}

/// A client is told of a gap as it was found: its track, and the first and the last frame that is
/// missing.
pub proof fn law_a_gap_is_told_as_it_was_found(
    cid: u64,
    peer_cid: u64,
    track: u8,
    missing_from: u32,
    missing_to: u32,
)
    ensures
        gap_notification(cid, peer_cid, track, missing_from, missing_to) matches InternalServiceResponse::MediaGapNotification(
            told,
        ) && told.cid == cid && told.peer_cid == peer_cid && told.track == track
            && told.missing_from == missing_from && told.missing_to == missing_to
            && told.request_id is None,
{
}

/// A call that delivers nothing is worth a report once thirty frames are lost.
pub proof fn law_thirty_lost_frames_are_worth_a_report()
    ensures
        NO_MEDIA_DROPS == 30,
{
}

/// A call that delivers nothing is reported once: only where no frame was delivered, thirty or more
/// were lost, and it was not reported before.
pub proof fn law_a_silent_call_is_reported_once(
    already_reported: bool,
    delivered: u64,
    dropped: u64,
    report: bool,
)
    requires
        call_ensures(should_report_no_media, (already_reported, delivered, dropped), report),
    ensures
        already_reported ==> !report,
        delivered > 0 ==> !report,
        dropped < 30 ==> !report,
        !already_reported && delivered == 0 && dropped >= 30 ==> report,
{
}

} // verus!
