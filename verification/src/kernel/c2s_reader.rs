//! What a server sends a session goes to whichever client owns the session.

use crate::kernel::connection::Links;
use crate::kernel::sessions;
use crate::kernel::sessions::Sessions;
use crate::types::ids::Uuid;
use crate::types::response::InternalServiceResponse;
use crate::types::session::MessageNotification;
use vstd::prelude::*;

verus! {

/// A message of the server for the session `cid`, and the client it goes to. `request_id` is that
/// of the request which opened the session. The session may have changed hands since; where it has
/// left the table, the message goes to `fallback`.
pub fn forward<R: Links>(
    sessions: &Sessions<R>,
    cid: u64,
    message: Vec<u8>,
    request_id: Uuid,
    fallback: Uuid,
) -> (r: (Uuid, InternalServiceResponse))
    ensures
        r.0 == match sessions::owner_of(sessions@, cid) {
            Some(owner) => owner,
            None => fallback,
        },
        r.1 == InternalServiceResponse::MessageNotification(
            MessageNotification { message, cid, peer_cid: 0, request_id: Some(request_id) },
        ),
{
    let to = match sessions.owner(cid) {
        Some(owner) => owner,
        None => fallback,
    };
    (
        to,
        InternalServiceResponse::MessageNotification(
            MessageNotification { message, cid, peer_cid: 0, request_id: Some(request_id) },
        ),
    )
}

/// What a server sends goes to the client that owns the session now, and to the one that opened it
/// only where there is no session; it goes out as it came, under the request that opened it.
pub proof fn law_a_servers_message_goes_to_the_owner<R: Links>(
    sessions: Sessions<R>,
    cid: u64,
    message: Vec<u8>,
    request_id: Uuid,
    fallback: Uuid,
    r: (Uuid, InternalServiceResponse),
)
    requires
        call_ensures(forward::<R>, (&sessions, cid, message, request_id, fallback), r),
    ensures
        sessions@.contains_key(cid) ==> r.0 == sessions@[cid].associated_localhost_connection,
        !sessions@.contains_key(cid) ==> r.0 == fallback,
        r.1.session() == cid,
        r.1.answered() == Some(request_id),
        r.1 matches InternalServiceResponse::MessageNotification(told) && told.message == message
            && told.peer_cid == 0,
{
}

} // verus!
