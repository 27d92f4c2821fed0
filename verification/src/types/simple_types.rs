//! Payloads with plain fields only, for clients that generate bindings from them.

use vstd::prelude::*;

verus! {

#[derive(Debug, Clone)]
pub enum SimpleInternalServicePayload {
    Request(SimpleInternalServiceRequest),
    Response(SimpleInternalServiceResponse),
}

#[derive(Debug, Clone)]
pub enum SimpleInternalServiceRequest {
    Connect {
        request_id: String,
        username: String,
        password: Vec<u8>,
        connect_mode: String,
        udp_mode: String,
        /// In seconds.
        keep_alive_timeout: Option<u64>,
        session_security_settings: String,
        server_password: Option<String>,
    },
    Message {
        request_id: String,
        message: Vec<u8>,
        cid: u64,
        peer_cid: Option<u64>,
        security_level: String,
    },
    Disconnect { request_id: String },
}

#[derive(Debug, Clone)]
pub enum SimpleInternalServiceResponse {
    ConnectSuccess { cid: u64, request_id: Option<String> },
    MessageSuccess { request_id: Option<String> },
    DisconnectSuccess { request_id: Option<String> },
    Error { request_id: Option<String>, error: String },
}

} // verus!
