//! Frames off the agent socket.

use crate::types::payload::InternalServicePayload;
use crate::types::response::InternalServiceResponse;
use vstd::prelude::*;

verus! {

/// What to do with one frame taken off the agent socket.
#[derive(Debug)]
pub enum FramePlan {
    /// A response for the caller.
    Deliver(Box<InternalServiceResponse>),
    /// Not a response, or not decodable. The socket is still open; keep reading.
    Skip,
    /// The socket is finished.
    End,
}

/// Classify one frame. A frame that cannot be decoded says nothing about the socket, which is
/// still open; only its end is the end.
pub fn classify_frame<E>(item: Option<Result<InternalServicePayload, E>>) -> (plan: FramePlan)
    ensures
        match item {
            Some(Ok(InternalServicePayload::Response(response))) => plan matches FramePlan::Deliver(
                delivered,
            ) && *delivered == response,
            Some(Ok(InternalServicePayload::Request(_))) => plan is Skip,
            Some(Err(_)) => plan is Skip,
            None => plan is End,
        },
{
    match item {
        Some(Ok(InternalServicePayload::Response(response))) => {
            FramePlan::Deliver(Box::new(response))
        },
        Some(Ok(InternalServicePayload::Request(_))) => FramePlan::Skip,
        Some(Err(_)) => FramePlan::Skip,
        None => FramePlan::End,
    }
}

/// How many unusable frames in a row before the stream is treated as finished.
///
/// A socket that only produces garbage is dead, and skipping forever would spin. A handful
/// survives a version skew or a corrupt frame without hiding a broken peer.
pub const CONSECUTIVE_UNUSABLE_LIMIT: usize = 16;

/// How reading goes on after a frame.
#[derive(Debug)]
pub enum FrameStep {
    Deliver(Box<InternalServiceResponse>),
    /// Read the next frame; this many in a row were unusable.
    Continue(usize),
    End,
}

/// A frame that nothing can be done with.
pub open spec fn unusable<E>(item: Option<Result<InternalServicePayload, E>>) -> bool {
    item matches Some(frame) && !(frame is Ok && frame->Ok_0 is Response)
}

/// How reading goes on after a frame, where the `in_a_row` before it were unusable.
pub fn next_step<E>(in_a_row: usize, item: Option<Result<InternalServicePayload, E>>) -> (step:
    FrameStep)
    requires
        in_a_row < CONSECUTIVE_UNUSABLE_LIMIT,
    ensures
        match item {
            None => step is End,
            Some(Ok(InternalServicePayload::Response(response))) => step matches FrameStep::Deliver(
                delivered,
            ) && *delivered == response,
            Some(_) => if in_a_row + 1 >= CONSECUTIVE_UNUSABLE_LIMIT {
                step is End
            } else {
                step matches FrameStep::Continue(n) && n == in_a_row + 1
            },
        },
{
    match classify_frame(item) {
        FramePlan::Deliver(response) => FrameStep::Deliver(response),
        FramePlan::End => FrameStep::End,
        FramePlan::Skip => {
            if in_a_row + 1 >= CONSECUTIVE_UNUSABLE_LIMIT {
                FrameStep::End
            } else {
                FrameStep::Continue(in_a_row + 1)
            }
        },
    }
}

/// Where reading stands after some frames: how many in a row were unusable at the end, and
/// whether the stream is still read.
pub open spec fn reading<E>(frames: Seq<Option<Result<InternalServicePayload, E>>>) -> (int, bool)
    decreases frames.len(),
{
    if frames.len() == 0 {
        (0, true)
    } else {
        let (in_a_row, open) = reading(frames.drop_last());
        if !open || frames.last() is None {
            (in_a_row, false)
        } else if unusable(frames.last()) {
            (in_a_row + 1, in_a_row + 1 < CONSECUTIVE_UNUSABLE_LIMIT)
        } else {
            (0, true)
        }
    }
}

/// A few unusable frames never end a stream: fewer than the limit leave it open, and the limit
/// ends it.
pub proof fn law_unusable_frames_in_a_row<E>(frames: Seq<Option<Result<InternalServicePayload, E>>>)
    requires
        forall|i: int| 0 <= i < frames.len() ==> unusable(#[trigger] frames[i]),
        frames.len() <= CONSECUTIVE_UNUSABLE_LIMIT,
    ensures
        reading(frames) == (frames.len() as int, frames.len() < CONSECUTIVE_UNUSABLE_LIMIT),
    decreases frames.len(),
{
    if frames.len() > 0 {
        assert forall|i: int| 0 <= i < frames.drop_last().len() implies unusable(
            #[trigger] frames.drop_last()[i],
        ) by {
            assert(unusable(frames[i]));
        }
        law_unusable_frames_in_a_row(frames.drop_last());
        assert(unusable(frames[frames.len() - 1]));
    }
}

/// A response is usable and nothing else is: a request and a frame that cannot be decoded are
/// not, and the end of the stream is no frame.
pub proof fn law_only_responses_are_usable<E>(item: Option<Result<InternalServicePayload, E>>)
    ensures
        match item {
            Some(Ok(InternalServicePayload::Response(_))) => !unusable(item),
            Some(Ok(InternalServicePayload::Request(_))) => unusable(item),
            Some(Err(_)) => unusable(item),
            None => !unusable(item),
        },
{
}

/// How reading goes on after one more frame: a response starts the count again, fifteen unusable
/// frames in a row are survived and the sixteenth ends the stream, and so does its own end.
pub proof fn law_one_more_frame<E>(
    frames: Seq<Option<Result<InternalServicePayload, E>>>,
    next: Option<Result<InternalServicePayload, E>>,
)
    requires
        reading(frames).1,
    ensures
        next is None ==> !reading(frames.push(next)).1,
        unusable(next) ==> reading(frames.push(next)) == (reading(frames).0 + 1, reading(frames).0
            + 1 < 16),
        next is Some && !unusable(next) ==> reading(frames.push(next)) == (0int, true),
{
    assert(frames.push(next).drop_last() =~= frames);
}

/// Every response is delivered, as it is; a frame that nothing can be done with ends nothing but a
/// row of sixteen; and the end of the stream is its end.
pub proof fn law_what_follows_a_frame<E>(
    in_a_row: usize,
    item: Option<Result<InternalServicePayload, E>>,
    step: FrameStep,
)
    requires
        in_a_row < 16,
        call_ensures(next_step::<E>, (in_a_row, item), step),
    ensures
        item matches Some(Ok(InternalServicePayload::Response(response))) ==> (
        step matches FrameStep::Deliver(delivered) && *delivered == response),
        step is Deliver <==> item is Some && !unusable(item),
        unusable(item) && in_a_row < 15 ==> (step matches FrameStep::Continue(n) && n == in_a_row
            + 1),
        step is End <==> item is None || (unusable(item) && in_a_row == 15),
{
}

} // verus!
