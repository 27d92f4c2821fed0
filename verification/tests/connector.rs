//! The agent's socket.

use citadel_internal_service::connector::frame::{
    classify_frame, next_step, FramePlan, FrameStep, CONSECUTIVE_UNUSABLE_LIMIT,
};
use citadel_internal_service::connector::handshake::{answer_handshake, listener_hosts, FORBIDDEN};
use citadel_internal_service::connector::host_policy::{split_host_port, HostPolicy};
use citadel_internal_service::connector::origin_policy::OriginPolicy;
use citadel_internal_service::connector::tls::{
    acceptor_from_pem, chosen_provider, identity, tls_problem_text, KeyFormat, PrivateKey, TlsProblem,
};
use citadel_internal_service::connector::websocket::{
    receive_step, socket_step, SocketMessage, SocketStep,
};
use citadel_internal_service::types::ids::Uuid;
use citadel_internal_service::types::payload::InternalServicePayload;
use citadel_internal_service::types::request::InternalServiceRequest;
use citadel_internal_service::types::response::InternalServiceResponse;
use citadel_internal_service::types::session::ConnectSuccess;

/// The client must not read a frame that it cannot decode as the end of the socket.
#[test]
fn a_decode_error_does_not_end_the_stream() {
    let err = std::io::Error::new(std::io::ErrorKind::InvalidData, "unknown variant");
    assert!(matches!(classify_frame(Some(Err(err))), FramePlan::Skip));
}

#[test]
fn end_of_stream_is_the_only_end() {
    assert!(matches!(
        classify_frame::<std::io::Error>(None),
        FramePlan::End
    ));
}

#[test]
fn the_three_outcomes_are_distinct() {
    let err = std::io::Error::other("x");
    let skip = classify_frame(Some(Err(err)));
    let end = classify_frame::<std::io::Error>(None);
    assert!(
        !matches!(skip, FramePlan::End),
        "a decode error is not an end"
    );
    assert!(
        !matches!(end, FramePlan::Skip),
        "an end is not a skippable frame"
    );
}

fn response() -> InternalServiceResponse {
    InternalServiceResponse::ConnectSuccess(ConnectSuccess {
        cid: 12345,
        request_id: None,
    })
}

#[test]
fn a_response_is_delivered_and_a_request_skipped() {
    match classify_frame::<()>(Some(Ok(InternalServicePayload::Response(response())))) {
        FramePlan::Deliver(got) => assert_eq!(*got, response()),
        _ => panic!("a response is for the caller"),
    }
    let request = InternalServiceRequest::GetSessions {
        request_id: Uuid::new_v4(),
    };
    assert!(matches!(
        classify_frame::<()>(Some(Ok(InternalServicePayload::Request(request)))),
        FramePlan::Skip
    ));
}

#[test]
fn unusable_frames_end_a_stream_only_at_the_limit() {
    let mut in_a_row: usize = 0;
    let mut read: usize = 0;
    loop {
        read += 1;
        match next_step(in_a_row, Some(Err(()))) {
            FrameStep::Continue(n) => {
                assert_eq!(n, in_a_row + 1);
                in_a_row = n;
            }
            FrameStep::End => break,
            FrameStep::Deliver(_) => panic!("nothing to deliver"),
        }
    }
    assert_eq!(read, CONSECUTIVE_UNUSABLE_LIMIT);
    assert_eq!(CONSECUTIVE_UNUSABLE_LIMIT, 16);
    assert!(matches!(
        next_step::<()>(15, Some(Ok(InternalServicePayload::Response(response())))),
        FrameStep::Deliver(_)
    ));
    assert!(matches!(next_step::<()>(0, None), FrameStep::End));
}

#[test]
fn a_binary_message_is_text_in_utf8() {
    let binary = |bytes: &[u8]| Some(Ok::<_, ()>(SocketMessage::Binary(bytes.to_vec())));
    assert_eq!(
        socket_step(binary("gr\u{fc}n \u{1f600}".as_bytes())),
        SocketStep::Parse("gr\u{fc}n \u{1f600}".to_string())
    );
    assert_eq!(
        socket_step(binary(&[0xff, 0xfe])),
        SocketStep::NotText("invalid utf-8 sequence of 1 bytes from index 0".to_string())
    );
    assert_eq!(
        receive_step(binary(&[0x61, 0xc3])),
        SocketStep::NotText("incomplete utf-8 byte sequence from index 1".to_string())
    );
    assert_eq!(socket_step(binary(&[])), SocketStep::Parse(String::new()));
}

#[test]
fn messages_of_a_socket_are_told_apart() {
    let message = |m: SocketMessage| Some(Ok::<_, u8>(m));
    assert_eq!(
        socket_step(message(SocketMessage::Text("{}".to_string()))),
        SocketStep::Parse("{}".to_string())
    );
    assert_eq!(socket_step(message(SocketMessage::Close)), SocketStep::End);
    assert_eq!(
        socket_step(message(SocketMessage::Control)),
        SocketStep::Again
    );
    assert_eq!(socket_step::<u8>(Some(Err(7))), SocketStep::Failed(7));
    assert_eq!(socket_step::<u8>(None), SocketStep::End);
    assert_eq!(
        receive_step(message(SocketMessage::Control)),
        SocketStep::End
    );
    assert_eq!(receive_step::<u8>(Some(Err(7))), SocketStep::Failed(7));
}

#[test]
fn a_foreign_host_or_origin_is_answered_with_403() {
    let origins = OriginPolicy::parse("https://app.test").unwrap();
    let hosts = listener_hosts(true, 443, Some(" Local.TEST "));
    let answer = |origin, host| answer_handshake(&origins, &hosts, origin, host);
    assert_eq!(
        answer(Some("https://app.test"), Some("local.test:443")),
        Ok(())
    );
    assert_eq!(
        answer(Some("https://app.test"), Some("evil.test:443")),
        Err(403)
    );
    assert_eq!(
        answer(Some("https://evil.test"), Some("local.test:443")),
        Err(FORBIDDEN)
    );
    assert_eq!(answer(Some("https://app.test"), None), Err(403));
    assert_eq!(listener_hosts(false, 443, Some("x")), HostPolicy::Any);
}

#[test]
fn hosts_are_split_from_their_ports() {
    assert_eq!(
        split_host_port("localhost:80"),
        Some(("localhost", Some(80)))
    );
    assert_eq!(split_host_port("[::1]:80"), Some(("[::1]", Some(80))));
    assert_eq!(split_host_port("localhost"), Some(("localhost", None)));
}

#[test]
fn a_self_signed_pair_becomes_an_acceptor() {
    let ck = rcgen::generate_simple_self_signed(vec!["local.test".to_string()]).unwrap();
    assert!(acceptor_from_pem(
        &ck.cert.pem().into_bytes(),
        &ck.signing_key.serialize_pem().into_bytes()
    )
    .is_ok());
}

#[test]
fn html_where_a_certificate_should_be_is_named_not_swallowed() {
    let ck = rcgen::generate_simple_self_signed(vec!["local.test".to_string()]).unwrap();
    let err = acceptor_from_pem(
        &b"<html>404</html>".to_vec(),
        &ck.signing_key.serialize_pem().into_bytes(),
    )
    .err()
    .expect("must be refused");
    assert!(err.contains("certificate"), "{err}");
    let err = acceptor_from_pem(
        &ck.cert.pem().into_bytes(),
        &b"<html>404</html>".to_vec(),
    )
    .err()
    .expect("html is not a key");
    assert!(err.contains("private key"), "{err}");
}

#[test]
fn a_key_of_another_certificate_is_refused() {
    let one = rcgen::generate_simple_self_signed(vec!["a.test".to_string()]).unwrap();
    let other = rcgen::generate_simple_self_signed(vec!["b.test".to_string()]).unwrap();
    let err = acceptor_from_pem(
        &one.cert.pem().into_bytes(),
        &other.signing_key.serialize_pem().into_bytes(),
    )
    .err()
    .expect("the key is not the certificate's");
    assert!(
        err.starts_with("certificate and key do not form a usable server identity: "),
        "{err}"
    );
}

#[test]
fn an_unusable_half_of_an_identity_is_named() {
    let key = || PrivateKey {
        format: KeyFormat::Pkcs8,
        der: vec![1],
    };
    assert_eq!(
        identity(Err("cut short".to_string()), Ok(key())).err(),
        Some("certificate PEM is not readable: cut short".to_string())
    );
    assert_eq!(
        identity(Ok(vec![]), Err("x".to_string())).err(),
        Some("certificate PEM contains no certificate".to_string())
    );
    assert_eq!(
        identity(Ok(vec![vec![1]]), Err("no items".to_string())).err(),
        Some("private key PEM is not readable: no items".to_string())
    );
    assert!(identity(Ok(vec![vec![1]]), Ok(key())).is_ok());
    assert_eq!(
        tls_problem_text(TlsProblem::Protocol("none".to_string())),
        "TLS protocol configuration: none"
    );
}

#[test]
fn the_cryptography_that_the_process_has_chosen_comes_first() {
    assert_eq!(chosen_provider(Some("installed"), "ring"), "installed");
    assert_eq!(chosen_provider(None, "ring"), "ring");
}
