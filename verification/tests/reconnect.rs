//! Bringing a dropped session back.

use citadel_internal_service::duration::Duration;
use citadel_internal_service::kernel::cid_scoped_state::CidScopedState;
use citadel_internal_service::kernel::connection::{Connection, Links};
use citadel_internal_service::kernel::reconnect::classify::{classify, ErrorCode};
use citadel_internal_service::kernel::reconnect::credentials::Credentials;
use citadel_internal_service::kernel::reconnect::policy::{
    on_unrequested_drop, DropAction, FailureKind, GiveUp, LinkState, Next, ReconnectPolicy,
};
use citadel_internal_service::kernel::reconnect::report::{
    connection_lost, fail, notify, reconnected,
};
use citadel_internal_service::kernel::reconnect::task::{
    after_attempt, begin, install, still_reconnecting, AfterAttempt, Attempt, Began,
};
use citadel_internal_service::kernel::sessions::Sessions;
use citadel_internal_service::types::ids::Uuid;
use citadel_internal_service::types::response::InternalServiceResponse;
use citadel_internal_service::types::server_link::{
    ServerConnectionLost, ServerReconnectFailed, ServerReconnected,
};
use citadel_internal_service::types::session::DisconnectNotification;
use citadel_internal_service::types::settings::{
    ConnectMode, SecBuffer, SessionSecuritySettings, UdpMode,
};

fn policy() -> ReconnectPolicy {
    ReconnectPolicy::server_reconnect()
}

#[test]
fn the_waits_double_from_half_a_second_and_stop_at_thirty() {
    let waits: Vec<u64> = (0..9)
        .map(|attempt| policy().delay_before(attempt).as_millis() as u64)
        .collect();
    assert_eq!(
        waits,
        [500, 1_000, 2_000, 4_000, 8_000, 16_000, 30_000, 30_000, 30_000]
    );
}

#[test]
fn a_huge_attempt_number_is_capped_not_overflowed() {
    let p = policy();
    assert_eq!(p.delay_before(31), p.max_delay);
    assert_eq!(p.delay_before(32), p.max_delay);
    assert_eq!(p.delay_before(u32::MAX), p.max_delay);
}

#[test]
fn a_transient_failure_waits_the_next_step() {
    let p = policy();
    assert_eq!(
        p.after_failure(0, Duration::from_millis(600), FailureKind::Transient),
        Next::RetryAfter(Duration::from_secs(1))
    );
    assert_eq!(
        p.after_failure(7, Duration::from_secs(120), FailureKind::Transient),
        Next::RetryAfter(Duration::from_secs(30))
    );
}

#[test]
fn a_refusal_stops_at_once_however_early() {
    assert_eq!(
        policy().after_failure(0, Duration::zero(), FailureKind::Refused),
        Next::GiveUp(GiveUp::Refused)
    );
}

#[test]
fn it_gives_up_rather_than_start_an_attempt_past_ten_minutes() {
    let p = policy();
    assert_eq!(
        p.after_failure(20, Duration::from_secs(570), FailureKind::Transient),
        Next::RetryAfter(Duration::from_secs(30))
    );
    assert_eq!(
        p.after_failure(20, Duration::from_secs(571), FailureKind::Transient),
        Next::GiveUp(GiveUp::OutOfTime)
    );
}

#[test]
fn the_whole_schedule_ends_near_ten_minutes() {
    let p = policy();
    let mut elapsed = p.delay_before(0);
    let mut attempt = 0;
    loop {
        match p.after_failure(attempt, elapsed, FailureKind::Transient) {
            Next::RetryAfter(delay) => {
                elapsed = elapsed.saturating_add(&delay);
                attempt += 1;
            }
            Next::GiveUp(reason) => {
                assert_eq!(reason, GiveUp::OutOfTime);
                break;
            }
        }
    }
    assert!(elapsed <= p.give_up_after, "{elapsed:?}");
    assert!(
        elapsed.as_millis() > p.give_up_after.as_millis() - p.max_delay.as_millis(),
        "{elapsed:?}"
    );
    assert!(attempt < 40, "{attempt} attempts");
    assert_eq!(attempt, 23);
}

#[test]
fn only_an_up_session_is_reconnected() {
    assert_eq!(on_unrequested_drop(LinkState::Up), DropAction::Reconnect);
    assert_eq!(
        on_unrequested_drop(LinkState::Reconnecting),
        DropAction::AlreadyReconnecting
    );
    assert_eq!(on_unrequested_drop(LinkState::Ending), DropAction::Remove);
}

fn refusals() -> Vec<String> {
    [
        "Client account does not exist: {}",
        "Server account does not exist: {}",
        "Invalid username",
        "Invalid password",
        "Account disengaged: {}",
    ]
    .map(str::to_string)
    .to_vec()
}

#[test]
fn account_errors_raised_here_are_refusals() {
    for code in [
        ErrorCode::AccountClientNonExists,
        ErrorCode::AccountServerNonExists,
        ErrorCode::AccountInvalidUsername,
        ErrorCode::AccountInvalidPassword,
        ErrorCode::AccountDisengaged,
    ] {
        assert_eq!(
            classify(code, "", &refusals()),
            FailureKind::Refused,
            "{code:?}"
        );
    }
}

#[test]
fn a_server_refusal_is_recognised_by_its_rendered_text() {
    let remote = ErrorCode::RemoteConnectFailed;
    let classify = |message: &str| classify(remote, message, &refusals());
    assert_eq!(classify("Invalid password"), FailureKind::Refused);
    assert_eq!(classify("Invalid username"), FailureKind::Refused);
    assert_eq!(
        classify("Client account does not exist: 42"),
        FailureKind::Refused
    );
    assert_eq!(classify("Account disengaged: 42"), FailureKind::Refused);
}

#[test]
fn an_unreachable_or_busy_server_is_transient() {
    let remote = ErrorCode::RemoteConnectFailed;
    assert_eq!(
        classify(remote, "Session Already Connected", &refusals()),
        FailureKind::Transient
    );
    assert_eq!(
        classify(ErrorCode::Other, "connect", &refusals()),
        FailureKind::Transient
    );
    assert_eq!(
        classify(ErrorCode::Other, "Connection refused", &refusals()),
        FailureKind::Transient
    );
    // The refusal's text must lead: a transport error that merely mentions one is not one.
    assert_eq!(
        classify(remote, "timed out after Invalid password", &refusals()),
        FailureKind::Transient
    );
}

#[test]
fn a_template_without_a_lead_refuses_nothing() {
    let remote = ErrorCode::RemoteConnectFailed;
    assert_eq!(
        classify(remote, "anything", &vec!["{} is wrong".to_string()]),
        FailureKind::Transient
    );
    assert_eq!(
        classify(remote, "Invalid password", &vec![]),
        FailureKind::Transient
    );
}

struct Fake;

impl Links for Fake {
    type Sink = u32;
    type ServerRemote = &'static str;
    type PeerRemote = ();
    type Transfer = ();
    type GroupSink = ();
}

fn credentials() -> Credentials {
    Credentials {
        password: SecBuffer::new(vec![1, 2, 3]),
        connect_mode: ConnectMode::default(),
        udp_mode: UdpMode::default(),
        keep_alive_timeout: None,
        session_security_settings: SessionSecuritySettings::default(),
        server_password: None,
        connect_request_id: Uuid { bits: 40 },
    }
}

fn session(cid: u64, owner: Uuid) -> Connection<Fake> {
    Connection::new(
        cid,
        1,
        "old",
        owner,
        "alice".to_string(),
        "127.0.0.1:1".to_string(),
        credentials(),
    )
}

#[test]
fn a_dropped_session_is_kept_and_brought_back() {
    let owner = Uuid::new_v4();
    let mut sessions: Sessions<Fake> = Sessions::new();
    assert_eq!(begin(&mut sessions, 5), Began::NotTracked);
    let mut connection = session(5, owner);
    connection.add_peer_connection(9, 2, ());
    sessions.insert(5, connection);
    assert!(still_reconnecting(&sessions, 5).is_none());

    assert_eq!(begin(&mut sessions, 5), Began::Reconnecting);
    assert_eq!(begin(&mut sessions, 5), Began::AlreadyReconnecting);
    let kept = still_reconnecting(&sessions, 5).unwrap();
    assert_eq!(kept.username, "alice");
    assert_eq!(kept.client_server_remote, "old");
    assert_eq!(kept.reconnect.password.clone().into_buffer(), vec![1, 2, 3]);
    assert!(
        sessions.clear_peer_connection(5, 9).is_none(),
        "the peers of the dead link are gone"
    );

    assert_eq!(install(&mut sessions, 5, 7, "new"), Some(owner));
    let back = sessions.get(5).unwrap();
    assert_eq!(back.link, LinkState::Up);
    assert_eq!(back.sink_to_server, 7);
    assert_eq!(back.client_server_remote, "new");
    assert_eq!(
        install(&mut sessions, 5, 8, "again"),
        None,
        "a session that is up takes no second link"
    );
}

#[test]
fn a_session_that_its_user_ends_is_not_brought_back() {
    let owner = Uuid::new_v4();
    let mut sessions: Sessions<Fake> = Sessions::new();
    let mut connection = session(5, owner);
    connection.link = LinkState::Ending;
    sessions.insert(5, connection);
    assert_eq!(begin(&mut sessions, 5), Began::Remove);
    assert_eq!(install(&mut sessions, 5, 7, "new"), None);
    let mut scoped: CidScopedState<()> = CidScopedState::new();
    assert!(fail(&mut sessions, &mut scoped, 5, "x".to_string()).is_none());
    assert_eq!(notify(&sessions, 5), Some(owner));
    assert_eq!(notify(&sessions, 6), None);
}

#[test]
fn giving_up_removes_the_session_and_says_so() {
    let owner = Uuid::new_v4();
    let mut sessions: Sessions<Fake> = Sessions::new();
    sessions.insert(5, session(5, owner));
    let mut scoped: CidScopedState<()> = CidScopedState::new();
    scoped.pending_peer_registrations.insert(5, 6, ());
    scoped.pending_peer_registrations.insert(7, 8, ());
    begin(&mut sessions, 5);
    let (report, removed) = fail(&mut sessions, &mut scoped, 5, "refused".to_string()).unwrap();
    assert_eq!(removed.session_cid, 5);
    assert_eq!(report.to, owner);
    assert_eq!(
        report.responses,
        vec![
            InternalServiceResponse::ServerReconnectFailed(ServerReconnectFailed {
                cid: 5,
                reason: "refused".to_string(),
                request_id: None,
            }),
            InternalServiceResponse::DisconnectNotification(DisconnectNotification {
                cid: 5,
                peer_cid: None,
                request_id: None,
            }),
        ]
    );
    assert!(sessions.get(5).is_none());
    assert_eq!(scoped.pending_peer_registrations.len(), 1);
    assert!(
        fail(&mut sessions, &mut scoped, 5, "again".to_string()).is_none(),
        "it is said once"
    );
}

#[test]
fn attempts_end_as_their_outcomes_say() {
    let failed = |kind| Attempt::Failed {
        kind,
        message: "no route".to_string(),
    };
    let at = |secs| Duration::from_secs(secs);
    assert_eq!(
        after_attempt(0, 5, Attempt::Connected(5), at(1)),
        AfterAttempt::Install
    );
    assert_eq!(
        after_attempt(0, 5, Attempt::Connected(6), at(1)),
        AfterAttempt::CloseAndFail("the server answered as 6".to_string())
    );
    assert_eq!(
        after_attempt(0, 5, failed(FailureKind::Refused), at(1)),
        AfterAttempt::Fail("no route".to_string())
    );
    assert_eq!(
        after_attempt(0, 5, failed(FailureKind::Transient), at(1)),
        AfterAttempt::Retry {
            attempt: 1,
            delay: at(1)
        }
    );
    assert_eq!(
        after_attempt(20, 5, failed(FailureKind::Transient), at(599)),
        AfterAttempt::Fail("no answer from the server in 600s: no route".to_string())
    );
}

#[test]
fn clients_hear_of_a_lost_and_a_restored_link() {
    assert_eq!(
        connection_lost(5),
        InternalServiceResponse::ServerConnectionLost(ServerConnectionLost {
            cid: 5,
            reconnecting: true,
            request_id: None,
        })
    );
    assert_eq!(
        reconnected(5),
        InternalServiceResponse::ServerReconnected(ServerReconnected {
            cid: 5,
            request_id: None,
        })
    );
}

#[test]
fn spans_are_counted_in_nanoseconds() {
    let d = Duration::from_parts(2, 500_000_001);
    assert_eq!(d.as_secs(), 2);
    assert_eq!(d.subsec_nanos(), 500_000_001);
    assert_eq!(d.as_millis(), 2_500);
    assert_eq!(
        Duration::from_millis(1_500).checked_mul(3),
        Some(Duration::from_millis(4_500))
    );
    assert_eq!(Duration::from_secs(u64::MAX).checked_mul(2), None);
    assert!(Duration::from_secs(2).exceeds(&Duration::from_millis(1_999)));
    assert_eq!(
        Duration::from_secs(u64::MAX)
            .saturating_add(&Duration::from_secs(u64::MAX))
            .as_secs(),
        u64::MAX
    );
}

#[test]
fn the_wait_doubles_for_as_long_as_it_is_short() {
    let p = ReconnectPolicy {
        first_delay: Duration::from_nanos(1),
        max_delay: Duration::from_secs(30),
        give_up_after: Duration::from_secs(600),
        attempt_timeout: Duration::from_secs(30),
    };
    assert_eq!(p.delay_before(31), Duration::from_nanos(2_147_483_648));
    assert_eq!(p.delay_before(34), Duration::from_nanos(17_179_869_184));
    assert_eq!(p.delay_before(35), Duration::from_secs(30));
    assert_eq!(p.delay_before(40), Duration::from_secs(30));
    let none = ReconnectPolicy {
        first_delay: Duration::zero(),
        ..p
    };
    assert_eq!(none.delay_before(u32::MAX), Duration::zero());
    let longest = ReconnectPolicy {
        max_delay: Duration::from_parts(u64::MAX, 999_999_999),
        ..p
    };
    assert_eq!(longest.delay_before(u32::MAX), longest.max_delay);
}
