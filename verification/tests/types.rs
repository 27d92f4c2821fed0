//! What clients and the agent say to each other.

use citadel_internal_service::types::ids::Uuid;
use citadel_internal_service::types::payload::InternalServicePayload;
use citadel_internal_service::types::peer::PeerRegisterNotification;
use citadel_internal_service::types::request::InternalServiceRequest;
use citadel_internal_service::types::response::InternalServiceResponse;
use citadel_internal_service::types::session::{ConnectFailure, ConnectSuccess};
use citadel_internal_service::types::settings::{
    ConnectMode, SecBuffer, SessionSecuritySettings, UdpMode,
};
use citadel_internal_service::types::turn::{
    secret_opt_text, IceServer, P2pPathReport, PeerTurnConfig, TurnPolicy,
};

#[test]
fn test_is_error_derive() {
    let success_response = InternalServiceResponse::ConnectSuccess(ConnectSuccess {
        cid: 0,
        request_id: None,
    });
    let error_response = InternalServiceResponse::ConnectFailure(ConnectFailure {
        cid: 0,
        message: "test".to_string(),
        request_id: None,
    });
    assert!(!success_response.is_error());
    assert!(error_response.is_error());
}

#[test]
fn test_is_notification_derive() {
    let success_response = InternalServiceResponse::ConnectSuccess(ConnectSuccess {
        cid: 0,
        request_id: None,
    });
    let notification_response =
        InternalServiceResponse::PeerRegisterNotification(PeerRegisterNotification {
            cid: 0,
            peer_cid: 0,
            peer_username: "".to_string(),
            request_id: None,
        });
    assert!(!success_response.is_notification());
    assert!(notification_response.is_notification());
}

#[test]
fn test_request_id_derive() {
    let request_id = Uuid::new_v4();
    let request = InternalServiceRequest::Connect {
        request_id,
        username: "test".to_string(),
        password: SecBuffer::new(vec![]),
        connect_mode: ConnectMode::default(),
        udp_mode: UdpMode::Enabled,
        keep_alive_timeout: None,
        session_security_settings: SessionSecuritySettings::default(),
        server_password: None,
    };
    assert_eq!(request.request_id(), Some(&request_id));
}

#[test]
fn test_cid_derive() {
    let cid = 1234;
    let request = InternalServiceResponse::ConnectSuccess(ConnectSuccess {
        cid,
        request_id: None,
    });

    assert_eq!(request.cid(), cid);
}

#[test]
fn a_credential_is_never_printed() {
    let config = PeerTurnConfig {
        policy: TurnPolicy::RelayOnly,
        ice_servers: vec![IceServer {
            urls: vec!["turns:turn.example:443?transport=tcp".to_string()],
            username: Some("user".to_string()),
            credential: Some("hunter2-turn-password".to_string()),
        }],
        expires_at: 1,
    };
    let printed = format!(
        "{} {}",
        config.debug_text(),
        config.ice_servers[0].debug_text()
    );
    assert!(!printed.contains("hunter2"), "{printed}");
    assert!(printed.contains("<redacted>"), "{printed}");
}

#[test]
fn a_configuration_prints_everything_else() {
    let server = |name: Option<&str>, credential: Option<&str>| IceServer {
        urls: vec!["turn:\"a\"".to_string(), "turn:b".to_string()],
        username: name.map(str::to_string),
        credential: credential.map(str::to_string),
    };
    assert_eq!(
        server(Some("u"), Some("c")).debug_text(),
        r#"IceServer { urls: ["turn:\"a\"", "turn:b"], username: Some("u"), credential: Some(<redacted>) }"#
    );
    let config = PeerTurnConfig {
        policy: TurnPolicy::Fallback,
        ice_servers: vec![server(None, None), server(Some("u"), None)],
        expires_at: 1_800_000_000,
    };
    assert_eq!(
        config.debug_text(),
        concat_all(&[
            r#"PeerTurnConfig { policy: Fallback, ice_servers: ["#,
            r#"IceServer { urls: ["turn:\"a\"", "turn:b"], username: None, credential: None }, "#,
            r#"IceServer { urls: ["turn:\"a\"", "turn:b"], username: Some("u"), credential: None }"#,
            "], expires_at: 1800000000 }",
        ])
    );
    assert_eq!(secret_opt_text(&None), "None");
    assert_eq!(secret_opt_text(&Some("s".to_string())), "Some(<redacted>)");
}

fn concat_all(parts: &[&str]) -> String {
    parts.concat()
}

#[test]
fn wire_names_are_snake_case() {
    let policy = |p: TurnPolicy| serde_json::to_string(p.wire_name()).unwrap();
    let path = |p: P2pPathReport| serde_json::to_string(p.wire_name()).unwrap();
    assert_eq!(policy(TurnPolicy::Fallback), r#""fallback""#);
    assert_eq!(policy(TurnPolicy::RelayOnly), r#""relay_only""#);
    assert_eq!(path(P2pPathReport::Direct), r#""direct""#);
    assert_eq!(path(P2pPathReport::Turn), r#""turn""#);
    assert_eq!(path(P2pPathReport::ServerRelay), r#""server_relay""#);
}

#[test]
fn new_identifiers_are_random_ones() {
    let a = Uuid::new_v4();
    let b = Uuid::new_v4();
    for id in [a, b] {
        assert_eq!((id.bits >> 76) & 0xf, 4);
        assert_eq!((id.bits >> 62) & 3, 2);
    }
    assert_ne!(a, b);
}

#[test]
fn payloads_are_made_from_requests_and_responses() {
    let request_id = Uuid::new_v4();
    let payload = InternalServicePayload::from(InternalServiceRequest::GetSessions { request_id });
    assert!(matches!(
        payload,
        InternalServicePayload::Request(InternalServiceRequest::GetSessions { .. })
    ));
    let response = InternalServiceResponse::ConnectSuccess(ConnectSuccess {
        cid: 1,
        request_id: Some(request_id),
    });
    assert_eq!(response.request_id(), Some(&request_id));
    assert!(matches!(
        InternalServicePayload::from(response),
        InternalServicePayload::Response(InternalServiceResponse::ConnectSuccess(_))
    ));
}
