//! Media on its way to a client.

use citadel_internal_service::kernel::media::config::{
    after_fragment, open_channel, track_kind, udp_wait, ChannelWait, FragmentStep, MediaConfig,
    TrackKind, MAX_FRAME_BYTES,
};
use citadel_internal_service::kernel::media::lane::{
    media_lane, LaneRecv, MediaLanes, PushOutcome, MEDIA_LANE_CAPACITY,
};
use citadel_internal_service::kernel::media::pump::{
    after_pop, after_read, send_frame_to_client, should_report_no_media, MediaFrame, Popped,
    PumpEvent, PumpStep, Reassembly,
};
use citadel_internal_service::kernel::media::udp_state::UdpState;
use citadel_internal_service::types::ids::Uuid;
use citadel_internal_service::types::media::{MediaFrameNotification, MediaGapNotification};
use citadel_internal_service::types::response::InternalServiceResponse;

fn frame(timestamp: u32) -> InternalServiceResponse {
    InternalServiceResponse::MediaFrameNotification(MediaFrameNotification {
        cid: 1,
        peer_cid: 2,
        track: 0,
        kind: 0,
        timestamp,
        flags: 0,
        payload: vec![0u8; 4],
        sequence: timestamp,
        request_id: None,
    })
}

fn timestamp_of(got: &LaneRecv) -> u32 {
    match got {
        LaneRecv::Item(InternalServiceResponse::MediaFrameNotification(f)) => f.timestamp,
        other => panic!("expected a media frame, got {other:?}"),
    }
}

#[test]
fn delivers_in_order_while_the_client_keeps_up() {
    let mut lane = media_lane(4);
    for t in 0..3 {
        assert_eq!(lane.push(frame(t)), PushOutcome::Queued);
    }
    for t in 0..3 {
        assert_eq!(timestamp_of(&lane.recv()), t);
    }
    assert_eq!(lane.dropped(), 0);
}

#[test]
fn evicts_the_oldest_frame_rather_than_refusing_the_newest() {
    let mut lane = media_lane(3);
    for t in 0..5 {
        lane.push(frame(t));
    }

    assert_eq!(lane.len(), 3);
    assert_eq!(lane.dropped(), 2);
    // 0 and 1 evicted; what survives is the most recent, in order.
    for t in 2..5 {
        assert_eq!(timestamp_of(&lane.recv()), t);
    }
}

#[test]
fn a_full_lane_never_blocks_the_pump() {
    let mut lane = media_lane(2);
    for t in 0..1_000 {
        assert_ne!(lane.push(frame(t)), PushOutcome::Closed);
    }
    assert_eq!(lane.len(), 2);
    assert_eq!(lane.dropped(), 998);
}

#[test]
fn a_waiting_receiver_wakes_on_a_later_push() {
    let mut lane = media_lane(4);
    assert_eq!(lane.recv(), LaneRecv::Wait);
    lane.push(frame(7));
    assert_eq!(timestamp_of(&lane.recv()), 7);
}

#[test]
fn a_closed_lane_still_drains_what_it_holds() {
    let mut lane = media_lane(4);
    lane.push(frame(1));
    lane.close();

    assert_eq!(timestamp_of(&lane.recv()), 1);
    assert_eq!(lane.recv(), LaneRecv::Ended);
    assert_eq!(lane.push(frame(2)), PushOutcome::Closed);
}

#[test]
fn a_receiver_parked_on_an_empty_lane_observes_the_close() {
    let mut lane = media_lane(4);
    assert_eq!(lane.recv(), LaneRecv::Wait);
    lane.close();
    assert_eq!(lane.recv(), LaneRecv::Ended);
}

#[test]
fn a_lane_without_room_holds_the_newest_frame() {
    let mut lane = media_lane(0);
    assert!(lane.is_empty());
    assert_eq!(lane.push(frame(1)), PushOutcome::DroppedOldest);
    assert_eq!(lane.push(frame(2)), PushOutcome::DroppedOldest);
    assert_eq!(lane.len(), 1);
    assert_eq!(timestamp_of(&lane.recv()), 2);
}

fn a_frame() -> InternalServiceResponse {
    InternalServiceResponse::MediaGapNotification(MediaGapNotification {
        cid: 1,
        peer_cid: 2,
        track: 0,
        missing_from: 1,
        missing_to: 2,
        request_id: None,
    })
}

#[test]
fn retiring_a_lane_closes_it_so_a_live_pump_stops() {
    let mut map = MediaLanes::new();
    let conn = Uuid::new_v4();
    map.open(conn.bits, 8);

    assert!(
        !matches!(map.push(conn.bits, a_frame()), PushOutcome::Closed),
        "the lane must accept frames before the connection drops"
    );

    let mut lane = map.retire_media_lane(conn.bits).unwrap();

    assert!(
        matches!(lane.push(a_frame()), PushOutcome::Closed),
        "a pump still holding a producer handle must learn the client is gone"
    );
    assert_eq!(map.push(conn.bits, a_frame()), PushOutcome::Closed);
}

#[test]
fn retiring_removes_the_lane_from_the_map() {
    let mut map = MediaLanes::new();
    let conn = Uuid::new_v4();
    map.open(conn.bits, 8);

    map.retire_media_lane(conn.bits);

    assert!(
        map.is_empty(),
        "a dropped connection must not keep its lane"
    );
}

#[test]
fn retiring_a_connection_with_no_lane_is_harmless() {
    // The common case: a connection that never opened a call.
    let mut map = MediaLanes::new();
    assert!(map.retire_media_lane(Uuid::new_v4().bits).is_none());
    assert!(map.is_empty());
}

#[test]
fn retiring_one_connection_leaves_another_alone() {
    let mut map = MediaLanes::new();
    let mine = Uuid::new_v4();
    let theirs = Uuid::new_v4();
    map.open(mine.bits, 8);
    map.open(theirs.bits, 8);

    map.retire_media_lane(mine.bits);

    assert!(
        !matches!(map.push(theirs.bits, a_frame()), PushOutcome::Closed),
        "one client's disconnect must not end another's call"
    );
}

#[test]
fn pump_returns_receive_half_on_shutdown() {
    assert_eq!(after_read(PumpEvent::Shutdown), PumpStep::HandBack);
}

#[test]
fn pump_reports_dead_path_when_stream_ends() {
    assert_eq!(
        after_read(PumpEvent::Ended),
        PumpStep::Gone,
        "an exhausted rx must not be re-parked"
    );
}

fn media_frame(sequence: u32) -> MediaFrame {
    MediaFrame {
        track: 3,
        kind: 1,
        sequence,
        timestamp: 90,
        flags: 1,
        payload: vec![5; 2500],
    }
}

#[test]
fn pump_survives_client_loss_and_returns_receive_half() {
    let owner = Uuid::new_v4();
    let mut lanes = MediaLanes::new();
    lanes.open(owner.bits, 4);
    lanes.retire_media_lane(owner.bits);
    let (told, step) = after_pop(&mut lanes, owner, 11, 22, Popped::Frame(media_frame(0)));
    assert_eq!(told, None);
    assert_eq!(
        step,
        PumpStep::HandBack,
        "rx must survive a client disconnect"
    );
}

#[test]
fn a_gap_is_reported_and_its_frame_is_not_lost() {
    let owner = Uuid::new_v4();
    let mut lanes = MediaLanes::new();
    lanes.open(owner.bits, 4);
    assert_eq!(
        after_read(PumpEvent::Datagram(Reassembly::Complete)),
        PumpStep::Pop
    );
    assert_eq!(
        after_read(PumpEvent::Datagram(Reassembly::Rejected)),
        PumpStep::Read
    );
    assert_eq!(
        after_read(PumpEvent::Datagram(Reassembly::Other)),
        PumpStep::Read
    );
    let (told, step) = after_pop(
        &mut lanes,
        owner,
        11,
        22,
        Popped::Gap {
            track: 3,
            missing_from: 4,
            missing_to: 6,
            next: media_frame(7),
        },
    );
    assert_eq!(
        told,
        Some(InternalServiceResponse::MediaGapNotification(
            MediaGapNotification {
                cid: 11,
                peer_cid: 22,
                track: 3,
                missing_from: 4,
                missing_to: 6,
                request_id: None,
            }
        ))
    );
    assert_eq!(step, PumpStep::Pop);
    assert_eq!(
        lanes.recv(owner.bits),
        LaneRecv::Item(InternalServiceResponse::MediaFrameNotification(
            MediaFrameNotification {
                cid: 11,
                peer_cid: 22,
                track: 3,
                kind: 1,
                sequence: 7,
                timestamp: 90,
                flags: 1,
                payload: vec![5; 2500],
                request_id: None,
            }
        ))
    );
    let (told, step) = after_pop(&mut lanes, owner, 11, 22, Popped::NotReady);
    assert_eq!((told, step), (None, PumpStep::Read));
    assert_eq!(lanes.recv(owner.bits), LaneRecv::Wait);
    assert!(send_frame_to_client(
        &mut lanes,
        owner,
        11,
        22,
        media_frame(8)
    ));
    assert_eq!(lanes.recv(Uuid::new_v4().bits), LaneRecv::Ended);
}

/// Frames arrive, every one is dropped, and nothing is delivered.
#[test]
fn a_call_that_delivers_nothing_is_reported() {
    assert!(should_report_no_media(false, 0, 30));
    assert!(should_report_no_media(false, 0, 5_000));
}

/// Loss alongside delivery is ordinary for real-time media.
#[test]
fn a_lossy_call_that_is_working_stays_quiet() {
    assert!(!should_report_no_media(false, 1, 5_000));
    assert!(!should_report_no_media(false, 10_000, 10_000));
}

#[test]
fn it_is_said_only_once() {
    assert!(!should_report_no_media(true, 0, 5_000));
}

/// A handful of drops at startup is reordering settling, not a dead call.
#[test]
fn a_brief_startup_reorder_does_not_trip_it() {
    assert!(!should_report_no_media(false, 0, 1));
    assert!(!should_report_no_media(false, 0, 29));
}

type Udp = UdpState<u8, (), ()>;

#[test]
fn a_second_offer_is_kept_alongside_the_first() {
    let mut state: Udp = UdpState::from_optional_channel(Some(1));
    assert_eq!(state.pending_offers(), 1);

    state.offer(2);

    assert_eq!(
        state.pending_offers(),
        2,
        "the second offer replaced the first instead of joining it"
    );
}

#[test]
fn an_offer_after_unavailable_starts_a_fresh_set() {
    let mut state: Udp = UdpState::Unavailable;

    state.offer(1);

    assert_eq!(state.pending_offers(), 1);
}

#[test]
fn no_offer_means_unavailable_rather_than_an_empty_wait() {
    let state: Udp = UdpState::from_optional_channel(None);

    assert!(matches!(state, UdpState::Unavailable));
    assert_eq!(state.pending_offers(), 0);
}

#[test]
fn an_offer_leaves_a_usable_path_alone() {
    for mut state in [
        UdpState::Opening,
        UdpState::Idle { tx: (), rx: () },
        UdpState::Lent { tx: () },
    ] {
        let before = std::mem::discriminant::<Udp>(&state);
        state.offer(1);
        assert_eq!(std::mem::discriminant(&state), before);
        assert_eq!(state.pending_offers(), 0);
    }
}

#[test]
fn media_is_cut_as_configured() {
    let config = MediaConfig::agent();
    assert_eq!(config.max_fragment_payload, 1000);
    assert_eq!(config.max_frame_bytes, 524_288);
    assert_eq!(config.max_reorder_window, 64);
    assert_eq!(config.jitter_depth_micros, 60_000);
    assert_eq!(config.max_pending_frames, 256);
    assert_eq!(MAX_FRAME_BYTES as usize, config.max_frame_bytes);
    assert_eq!(MEDIA_LANE_CAPACITY, 32);
    assert_eq!(udp_wait().as_millis(), 5_000);
    assert_eq!(track_kind(1, 1), TrackKind::Video);
    assert_eq!(track_kind(9, 1), TrackKind::Audio);
    assert_eq!(after_fragment::<u8>(0, 3, Ok(())), FragmentStep::Send(1));
    assert_eq!(after_fragment::<u8>(2, 3, Ok(())), FragmentStep::Done);
    assert_eq!(after_fragment::<u8>(0, 3, Err(4)), FragmentStep::Failed(4));
}

#[test]
fn a_call_without_a_channel_says_why() {
    assert_eq!(open_channel(7, ChannelWait::Arrived('c')), Ok('c'));
    assert_eq!(
        open_channel::<char>(7, ChannelWait::SenderDropped),
        Err("UDP channel sender dropped".to_string())
    );
    assert_eq!(
        open_channel::<char>(7, ChannelWait::TimedOut),
        Err(
            "no UDP channel for peer 7 within 5s; the peer connection was likely established with UdpMode disabled"
                .to_string()
        )
    );
}

#[test]
fn the_lanes_count_what_each_client_lost() {
    let mut lanes = MediaLanes::new();
    lanes.open(1, 2);
    lanes.open(2, 2);
    for _ in 0..5 {
        lanes.push(1, a_frame());
    }
    assert_eq!(lanes.dropped(1), 3);
    assert_eq!(lanes.dropped(2), 0);
    assert_eq!(lanes.dropped(3), 0);
}
