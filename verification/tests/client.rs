//! The client library's decisions.

use citadel_internal_service::client::cid::{parse_cid, read_number, NumberFault};
use citadel_internal_service::client::connection_lifecycle::{
    refuse_init, should_report_death, teardown_before_connect,
};
use citadel_internal_service::client::messengers::{
    after_brief_wait, ensure_messenger_open, open_messenger_for, opened,
    send_p2p_message_reliable, MessengerAction, ReliableMessage, MAX_POLLS, POLL_INTERVAL_MS,
};
use citadel_internal_service::client::queue::{drain_queued, take_queued, Inbox};
use citadel_internal_service::client::send::{
    parse_security_level, send_direct_to_internal_service, send_media_frame,
};
use citadel_internal_service::client::task::{
    task_action, TaskAction, TaskEvent, WasmWebSocketIO,
};
use citadel_internal_service::client::texts::{panic_text, WasmClientError};
use citadel_internal_service::client::workspace::{
    Client, Closed, NextMessage, Restored, Undelivered,
};
use citadel_internal_service::types::ids::Uuid;
use citadel_internal_service::types::payload::InternalServicePayload;
use citadel_internal_service::types::request::InternalServiceRequest;
use citadel_internal_service::types::response::InternalServiceResponse;
use citadel_internal_service::types::session::ConnectSuccess;
use citadel_internal_service::types::settings::SecurityLevel;
use std::collections::VecDeque;
use tokio::sync::mpsc::{unbounded_channel, UnboundedSender};

#[test]
fn a_second_init_is_refused_but_a_restart_is_not() {
    assert!(refuse_init(false, true), "init() twice is a caller error");
    assert!(
        !refuse_init(true, true),
        "restart() over a live connection is the point of it"
    );
    assert!(!refuse_init(false, false), "the first init must proceed");
    assert!(
        !refuse_init(true, false),
        "a restart with nothing to replace must proceed"
    );
}

#[test]
fn only_a_restart_over_a_live_connection_tears_down() {
    assert!(teardown_before_connect(true, true));
    assert!(
        !teardown_before_connect(true, false),
        "nothing to tear down"
    );
    assert!(!teardown_before_connect(false, false));
    assert!(!teardown_before_connect(false, true));
}

#[test]
fn a_failed_restart_does_not_disable_retrying() {
    // Restart tears down, its connect fails, so the flag is now false, and the only retry path
    // is restart().
    let initialized_after_failed_restart = false;
    assert!(
        !refuse_init(true, initialized_after_failed_restart),
        "a retry after a failed restart must be allowed to proceed"
    );
}

#[test]
fn a_superseded_task_stays_quiet_and_the_live_one_does_not() {
    assert!(
        !should_report_death(1, 2),
        "a torn-down connection is not a failure"
    );
    assert!(
        should_report_death(2, 2),
        "the live connection dying IS a failure"
    );
    // And a task from two restarts ago stays quiet too.
    assert!(!should_report_death(1, 3));
}

fn response(cid: u64) -> InternalServiceResponse {
    InternalServiceResponse::ConnectSuccess(ConnectSuccess {
        cid,
        request_id: None,
    })
}

type Page = Client<Inbox<InternalServiceResponse>>;

fn page() -> (Page, UnboundedSender<InternalServiceResponse>) {
    let mut client: Page = Client::new();
    client.init_inner(false).unwrap();
    let (tx, rx) = unbounded_channel();
    client.finish_init(Inbox::new(rx));
    (client, tx)
}

/// The decisions above are worth nothing unless the client asks them.
#[test]
fn lib_actually_asks_these_questions() {
    let mut client: Page = Client::new();
    // A restart with nothing initialised, which is what its own failed attempt leaves behind.
    assert!(client.init_inner(true).is_ok());
    assert!(client.init_inner(true).is_ok());
    let (_tx, rx) = unbounded_channel();
    client.finish_init(Inbox::new(rx));
    assert!(client.is_initialized());
    let first = client.generation;

    let undelivered = |closed: Option<Closed>| closed.map(|closed| closed.undelivered);
    assert_eq!(
        client.init_inner(false).map(undelivered),
        Err("Already initialized. If required, call restart() instead followed by claiming any orphaned connections.".to_string()),
        "init_inner no longer asks refuse_init"
    );
    assert!(client.is_initialized());
    assert!(client.report_death(first), "the live connection's death is reported");

    assert_eq!(
        client.init_inner(true).map(undelivered),
        Ok(Some(Undelivered {
            queued: 0,
            pending: 0
        })),
        "init_inner no longer asks teardown_before_connect"
    );
    assert!(!client.is_initialized());
    assert!(client.sink, "the new way to send is there before the connect");
    assert!(
        !client.report_death(first),
        "a deliberate close still reports the connection as failed"
    );
    assert_ne!(client.generation, first, "closing bumps the generation");
}

#[test]
fn moves_every_queued_message_in_order() {
    let (tx, rx) = unbounded_channel();
    let mut inbox = Inbox::new(rx);
    for i in 0..3 {
        tx.send(i).unwrap();
    }
    let mut sink = VecDeque::new();
    assert_eq!(drain_queued(&mut inbox, &mut sink), 3);
    assert_eq!(sink.into_iter().collect::<Vec<_>>(), vec![0, 1, 2]);
    assert!(inbox.into_stream().try_recv().is_err(), "nothing stays queued");
}

#[test]
fn appends_rather_than_replacing_what_the_sink_already_holds() {
    let (tx, rx) = unbounded_channel();
    let mut inbox = Inbox::new(rx);
    tx.send(9).unwrap();
    let mut sink: VecDeque<i32> = VecDeque::from(vec![7, 8]);
    assert_eq!(drain_queued(&mut inbox, &mut sink), 1);
    assert_eq!(sink.into_iter().collect::<Vec<_>>(), vec![7, 8, 9]);
}

#[test]
fn reports_nothing_moved_for_an_empty_queue() {
    let (_tx, rx) = unbounded_channel::<i32>();
    let mut inbox = Inbox::new(rx);
    let mut sink = VecDeque::new();
    assert_eq!(drain_queued(&mut inbox, &mut sink), 0);
    assert!(sink.is_empty());
}

#[test]
fn what_came_out_is_taken_and_nothing_else() {
    let mut sink: VecDeque<u8> = VecDeque::new();
    assert!(take_queued(Some(4), &mut sink));
    assert!(!take_queued(None, &mut sink));
    assert_eq!(sink, VecDeque::from(vec![4]));
}

#[test]
fn closing_counts_what_was_not_delivered() {
    let (mut client, tx) = page();
    tx.send(response(1)).unwrap();
    tx.send(response(2)).unwrap();
    assert_eq!(
        client.close_connection().map(|closed| closed.undelivered),
        Ok(Undelivered {
            queued: 2,
            pending: 0
        })
    );
    assert!(!client.sink);
    assert_eq!(
        client.close_connection().map(|closed| closed.undelivered),
        Err("Workspace not initialized".to_string())
    );
}

#[test]
fn one_listener_at_a_time_has_the_source() {
    let mut nobody: Page = Client::new();
    assert!(matches!(
        nobody.next_message(),
        NextMessage::Failed(text) if text == "Workspace not initialized"
    ));
    let (mut client, tx) = page();
    let NextMessage::Listen(source) = client.next_message() else {
        panic!("the source is free")
    };
    let mut stream = source.into_stream();
    assert!(matches!(
        client.next_message(),
        NextMessage::Failed(text)
            if text == "next_message is already being called by another process"
    ));
    tx.send(response(1)).unwrap();
    assert_eq!(stream.try_recv().ok(), Some(response(1)));
    let (restored, left) = client.restore_message_stream(Inbox::new(stream));
    assert_eq!(restored, Restored::PutBack);
    assert!(left.is_none());
    assert!(matches!(client.next_message(), NextMessage::Listen(_)));
}

#[test]
fn messages_of_a_replaced_source_are_rescued_in_order() {
    let (mut client, tx) = page();
    let NextMessage::Listen(old) = client.next_message() else {
        panic!("the source is free")
    };
    tx.send(response(1)).unwrap();
    tx.send(response(2)).unwrap();
    client.init_inner(true).unwrap();
    let (_new, rx) = unbounded_channel();
    client.finish_init(Inbox::new(rx));
    let (restored, left) = client.restore_message_stream(old);
    assert_eq!(restored, Restored::Rescued(2));
    assert!(left.unwrap().into_stream().try_recv().is_err());
    for cid in [1, 2] {
        match client.next_message() {
            NextMessage::Rescued(got) => assert_eq!(got, response(cid)),
            _ => panic!("rescued messages go first"),
        }
    }
    assert!(matches!(client.next_message(), NextMessage::Listen(_)));
}

#[test]
fn messages_without_a_connection_are_lost_and_counted() {
    let (mut client, tx) = page();
    let NextMessage::Listen(old) = client.next_message() else {
        panic!("the source is free")
    };
    tx.send(response(1)).unwrap();
    client.close_connection().unwrap();
    let (restored, left) = client.restore_message_stream(old);
    assert_eq!(restored, Restored::Lost(1));
    assert!(left.unwrap().into_stream().try_recv().is_err());
}

#[test]
fn one_caller_at_a_time_opens_a_messenger() {
    let mut nobody: Page = Client::new();
    assert_eq!(
        open_messenger_for(&mut nobody, "5"),
        MessengerAction::Failed("Workspace not initialized".to_string())
    );
    let (mut client, _tx) = page();
    let generation = client.generation;
    assert_eq!(
        open_messenger_for(&mut client, "five"),
        MessengerAction::Failed("Invalid CID format: invalid digit found in string".to_string())
    );
    assert_eq!(
        open_messenger_for(&mut client, "5"),
        MessengerAction::Open(5, generation)
    );
    assert_eq!(
        open_messenger_for(&mut client, "5"),
        MessengerAction::Wait(5, 0)
    );
    assert_eq!(
        after_brief_wait(&client, 5),
        MessengerAction::Failed("Messenger handle is being opened by another task".to_string())
    );
    assert_eq!(
        ensure_messenger_open(&mut client, 5, 0),
        MessengerAction::Wait(5, 1)
    );
    assert_eq!(
        ensure_messenger_open(&mut client, 5, MAX_POLLS - 1),
        MessengerAction::Failed("Timeout waiting for messenger handle for CID: 5".to_string())
    );
    assert_eq!(
        opened(&mut client, generation, 5, Err("no".to_string())),
        MessengerAction::Failed("no".to_string())
    );
    assert_eq!(
        ensure_messenger_open(&mut client, 5, 1),
        MessengerAction::Open(5, generation),
        "after a failure the next one opens it"
    );
    assert_eq!(
        opened(&mut client, generation, 5, Ok(())),
        MessengerAction::Done(true)
    );
    assert_eq!(
        ensure_messenger_open(&mut client, 5, 2),
        MessengerAction::Done(false)
    );
    assert_eq!(after_brief_wait(&client, 5), MessengerAction::Done(false));
    assert_eq!(
        open_messenger_for(&mut client, "+5"),
        MessengerAction::Done(false)
    );
    assert_eq!(POLL_INTERVAL_MS * MAX_POLLS, 30_000);
}

#[test]
fn an_open_of_an_earlier_connection_changes_nothing() {
    let (mut client, _tx) = page();
    let old = client.generation;
    open_messenger_for(&mut client, "5");
    client.init_inner(true).unwrap();
    let (_new, rx) = unbounded_channel();
    client.finish_init(Inbox::new(rx));
    opened(&mut client, old, 5, Ok(()));
    assert_eq!(
        open_messenger_for(&mut client, "5"),
        MessengerAction::Open(5, client.generation)
    );
}

#[test]
fn reliable_messages_need_a_messenger() {
    let (mut client, _tx) = page();
    let send = |client: &Page, local: &str, peer: &str, level: Option<&str>| {
        send_p2p_message_reliable(client, local, peer, vec![1], level)
    };
    assert_eq!(
        send(&client, "", "x", None),
        Err("Invalid local CID format: cannot parse integer from empty string".to_string())
    );
    assert_eq!(
        send(&client, "5", "18446744073709551616", None),
        Err("Invalid peer CID format: number too large to fit in target type".to_string())
    );
    assert_eq!(
        send(&client, "5", "6", None),
        Err(
            "No messaging handle found for local CID: 5. Call open_p2p_connection first."
                .to_string()
        )
    );
    let generation = client.generation;
    open_messenger_for(&mut client, "5");
    opened(&mut client, generation, 5, Ok(()));
    assert_eq!(
        send(&client, "5", "6", Some("High")),
        Ok(ReliableMessage {
            local_cid: 5,
            peer_cid: 6,
            security_level: SecurityLevel::High,
            message: vec![1],
        })
    );
    client.close_connection().unwrap();
    assert_eq!(
        send(&client, "5", "6", None),
        Err("Workspace not initialized".to_string())
    );
}

#[test]
fn security_levels_are_known_by_name() {
    for (name, level) in [
        (Some("Standard"), SecurityLevel::Standard),
        (Some("Reinforced"), SecurityLevel::Reinforced),
        (Some("High"), SecurityLevel::High),
        (Some("Extreme"), SecurityLevel::Extreme),
        (Some("extreme"), SecurityLevel::Standard),
        (None, SecurityLevel::Standard),
    ] {
        assert_eq!(parse_security_level(name), level);
    }
}

#[test]
fn cids_are_read_as_the_standard_library_reads_them() {
    for s in [
        "0",
        "+7",
        "18446744073709551615",
        "18446744073709551616",
        "99999999999999999999x",
        "1844674407370955161x",
        "",
        "+",
        "-",
        "-1",
        "++1",
        " 1",
        "1_0",
        "\u{661}",
        "000000000000000000000000001",
    ] {
        match s.parse::<u64>() {
            Ok(n) => assert_eq!(parse_cid(s, "CID"), Ok(n), "{s}"),
            Err(e) => assert_eq!(
                parse_cid(s, "CID"),
                Err(format!("Invalid CID format: {e}")),
                "{s}"
            ),
        }
    }
    assert_eq!(read_number(""), Err(NumberFault::Empty));
}

#[test]
fn media_frames_go_straight_to_the_agent() {
    let send = |local: &str, connected: bool| {
        send_media_frame(local, "6", 1, 2, 3, 4, vec![5], connected)
    };
    match send("5", true) {
        Ok(InternalServicePayload::Request(InternalServiceRequest::MediaSend {
            request_id,
            cid,
            peer_cid,
            track,
            kind,
            timestamp,
            flags,
            payload,
        })) => {
            assert_eq!((request_id.bits >> 76) & 0xf, 4);
            assert_eq!((cid, peer_cid, track, kind), (5, 6, 1, 2));
            assert_eq!((timestamp, flags, payload), (3, 4, vec![5]));
        }
        _ => panic!("a frame is sent"),
    }
    assert_eq!(
        send("5", false).err(),
        Some("Client not properly initialized".to_string())
    );
    assert_eq!(
        send("x", false).err(),
        Some("Invalid local CID format: invalid digit found in string".to_string())
    );
}

#[test]
fn requests_need_a_connection() {
    let request = || InternalServiceRequest::GetSessions {
        request_id: Uuid::new_v4(),
    };
    assert!(matches!(
        send_direct_to_internal_service(request(), true),
        Ok(InternalServicePayload::Request(
            InternalServiceRequest::GetSessions { .. }
        ))
    ));
    assert_eq!(
        send_direct_to_internal_service(request(), false).err(),
        Some("Client not properly initialized".to_string())
    );
}

#[test]
fn the_task_ends_on_its_own_faults_and_not_on_its_peers() {
    let action = |event: TaskEvent<u8>| task_action(event);
    assert_eq!(
        action(TaskEvent::Text(Err("bad".to_string()))),
        TaskAction::Forward(Err("bad".to_string()))
    );
    assert_eq!(
        action(TaskEvent::Text(Ok(1))),
        TaskAction::Forward(Ok(1))
    );
    assert_eq!(action(TaskEvent::Binary), TaskAction::Continue);
    assert_eq!(
        action(TaskEvent::Outgoing(Some("{}".to_string()))),
        TaskAction::Send("{}".to_string())
    );
    for end in [
        TaskEvent::Outgoing(None),
        TaskEvent::Shutdown,
        TaskEvent::SendFailed,
        TaskEvent::ReceiverGone,
        TaskEvent::Closed,
    ] {
        assert_eq!(action(end), TaskAction::Stop);
    }
}

#[test]
fn a_connection_is_handed_out_once() {
    let mut io = WasmWebSocketIO::new(1, 'r');
    assert_eq!(io.next_connection(), Some((1, 'r')));
    assert_eq!(io.next_connection(), None);
}

#[test]
fn errors_say_what_went_wrong() {
    let e = || "e".to_string();
    for (error, text) in [
        (WasmClientError::WebSocket(e()), "WebSocket error: e"),
        (
            WasmClientError::Serialization(e()),
            "Serialization error: e",
        ),
        (
            WasmClientError::NotInitialized,
            "Connection not initialized",
        ),
        (WasmClientError::Connection(e()), "Connection error: e"),
        (WasmClientError::Channel(e()), "Channel error: e"),
    ] {
        assert_eq!(error.text(), text);
    }
    assert_eq!(
        panic_text(Some("boom"), Some(("src/lib.rs", 42))),
        "WASM panic: boom at src/lib.rs:42"
    );
    assert_eq!(panic_text(None, None), "WASM panic: Unknown error");
}
