//! How media is put on the wire.

use crate::duration::Duration;
use crate::text;
use crate::text::decimal_text;
use vstd::prelude::*;
use vstd::string::StringExecFns;

verus! {

/// How media is cut into datagrams and put together again.
#[derive(Debug, Clone, Copy, PartialEq, Eq, Structural)]
pub struct MediaConfig {
    pub max_fragment_payload: usize,
    pub max_frame_bytes: usize,
    pub max_reorder_window: usize,
    pub jitter_depth_micros: u64,
    pub max_pending_frames: usize,
}

impl MediaConfig {
    /// Fragments of 1000 bytes stay under a common datagram size with the overhead of
    /// encryption; a frame of 512 KiB fits a large keyframe, and a larger one is a fault of the
    /// encoder; 64 frames and 60 milliseconds absorb ordinary reordering without making a
    /// conversation lag.
    pub fn agent() -> (config: Self)
        ensures
            config == (MediaConfig {
                max_fragment_payload: 1000,
                max_frame_bytes: 524_288,
                max_reorder_window: 64,
                jitter_depth_micros: 60_000,
                max_pending_frames: 256,
            }),
    {
        MediaConfig {
            max_fragment_payload: 1000,
            max_frame_bytes: 512 * 1024,
            max_reorder_window: 64,
            jitter_depth_micros: 60_000,
            max_pending_frames: 256,
        }
    }
}

/// The largest encoded frame a client may submit.
pub const MAX_FRAME_BYTES: u32 = 524_288;

/// How long to wait for the datagram channel after a peer connects: it is negotiated after the
/// handshake, and this bounds the case where it never comes up.
pub fn udp_wait() -> (wait: Duration)
    ensures
        wait.nanos() == 5_000_000_000,
{
    Duration::from_secs(5)
}

/// How waiting for the datagram channel has ended. `C` is the channel.
#[derive(Debug, PartialEq, Eq)]
pub enum ChannelWait<C> {
    Arrived(C),
    /// It will not come: whoever was to send it is gone.
    SenderDropped,
    /// It has not come in time.
    TimedOut,
}

/// The channel for a call, or why there is none. There is no other channel to fall back on: one
/// that buffers without bound looks like a working call for seconds and like a broken one after.
pub fn open_channel<C>(peer_cid: u64, wait: ChannelWait<C>) -> (r: Result<C, String>)
    ensures
        match wait {
            ChannelWait::Arrived(channel) => r == Ok::<C, String>(channel),
            ChannelWait::SenderDropped => r matches Err(said) && said@
                == "UDP channel sender dropped"@,
            ChannelWait::TimedOut => r matches Err(said) && said@ == "no UDP channel for peer "@
                + text::decimal(peer_cid as nat)
                + " within 5s; the peer connection was likely established with UdpMode disabled"@,
        },
{
    match wait {
        ChannelWait::Arrived(channel) => Ok(channel),
        ChannelWait::SenderDropped => Err("UDP channel sender dropped".to_owned()),
        ChannelWait::TimedOut => Err(
            "no UDP channel for peer ".to_owned().concat(decimal_text(peer_cid).as_str()).concat(
                " within 5s; the peer connection was likely established with UdpMode disabled",
            ),
        ),
    }
}

/// What a track carries.
#[derive(Debug, Clone, Copy, PartialEq, Eq, Structural)]
pub enum TrackKind {
    Audio,
    Video,
}

/// What a track carries, where `video` is the number for video on the wire. Anything that is not
/// explicitly video is audio, the stream a call cannot do without.
pub fn track_kind(kind: u8, video: u8) -> (track: TrackKind)
    ensures
        track == if kind == video {
            TrackKind::Video
        } else {
            TrackKind::Audio
        },
{
    if kind == video {
        TrackKind::Video
    } else {
        TrackKind::Audio
    }
}

/// How sending the fragments of a frame goes on: each is sent in turn, and the first that cannot
/// be sent ends it.
#[derive(Debug, PartialEq, Eq)]
pub enum FragmentStep<E> {
    /// Send the fragment at this place.
    Send(usize),
    /// All are sent.
    Done,
    Failed(E),
}

/// What comes after the fragment at `sent` of `count` was sent, or could not be.
pub fn after_fragment<E>(sent: usize, count: usize, result: Result<(), E>) -> (step: FragmentStep<E>)
    requires
        sent < count,
    ensures
        step == match result {
            Err(error) => FragmentStep::Failed(error),
            Ok(_) => if sent + 1 < count {
                FragmentStep::Send((sent + 1) as usize)
            } else {
                FragmentStep::Done
            },
        },
{
    match result {
        Err(error) => FragmentStep::Failed(error),
        Ok(_) => if sent + 1 < count {
            FragmentStep::Send(sent + 1)
        } else {
            FragmentStep::Done
        },
    }
}

/// A frame may be half a mebibyte.
pub proof fn law_the_largest_frame()
    ensures
        MAX_FRAME_BYTES == 512 * 1024,
{
}

/// A call has a channel exactly where one has arrived, and that one.
pub proof fn law_only_a_channel_that_arrived_is_used<C>(
    peer_cid: u64,
    wait: ChannelWait<C>,
    channel: Result<C, String>,
)
    requires
        call_ensures(open_channel::<C>, (peer_cid, wait), channel),
    ensures
        channel is Ok <==> wait is Arrived,
        wait matches ChannelWait::Arrived(arrived) ==> channel == Ok::<C, String>(arrived),
{
}

/// A track is video exactly where it has the number for video.
pub proof fn law_a_track_that_is_not_video_is_audio(kind: u8, video: u8, track: TrackKind)
    requires
        call_ensures(track_kind, (kind, video), track),
    ensures
        track is Video <==> kind == video,
        track is Audio <==> kind != video,
{
}

/// The fragments of a frame are sent one after the other, none of them twice and none left out;
/// the first that cannot be sent ends it, and the last that is sent is the last there is.
pub proof fn law_fragments_go_out_in_turn<E>(
    sent: usize,
    count: usize,
    result: Result<(), E>,
    step: FragmentStep<E>,
)
    requires
        sent < count,
        call_ensures(after_fragment::<E>, (sent, count, result), step),
    ensures
        step is Failed <==> result is Err,
        result matches Err(error) ==> step == FragmentStep::Failed(error),
        step matches FragmentStep::Send(next) ==> next == sent + 1 && next < count,
        result is Ok ==> (step is Done <==> sent + 1 == count),
{
}

} // verus!
