//! What a session was opened with.

use crate::duration::Duration;
use crate::types::ids::Uuid;
use crate::types::settings::{
    ConnectMode, PreSharedKey, SecBuffer, SessionSecuritySettings, UdpMode,
};
use vstd::prelude::*;

verus! {

/// What a session was opened with, so that it can be opened again the same way. It lives on the
/// session and goes with it, and has no textual form.
#[derive(Clone, PartialEq, Eq)]
pub struct Credentials {
    pub password: SecBuffer,
    pub connect_mode: ConnectMode,
    pub udp_mode: UdpMode,
    pub keep_alive_timeout: Option<Duration>,
    pub session_security_settings: SessionSecuritySettings,
    pub server_password: Option<PreSharedKey>,
    /// The request that opened the session; its notifications keep carrying it.
    pub connect_request_id: Uuid,
}

} // verus!
