//! What a client is told about a reconnect, and the give-up that removes the session.

use crate::kernel::cid_scoped_state::CidScopedState;
use crate::kernel::connection::{Connection, Links};
use crate::kernel::pair_table;
use crate::kernel::reconnect::policy::LinkState;
use crate::kernel::sessions;
use crate::kernel::sessions::Sessions;
use crate::types::ids::Uuid;
use crate::types::response::InternalServiceResponse;
use crate::types::server_link::{ServerConnectionLost, ServerReconnectFailed, ServerReconnected};
use crate::types::session::DisconnectNotification;
use vstd::prelude::*;

verus! {

/// What to tell a client, and which.
pub struct Report {
    pub to: Uuid,
    pub responses: Vec<InternalServiceResponse>,
}

/// What a client is told when the link to the server goes.
pub fn connection_lost(cid: u64) -> (response: InternalServiceResponse)
    ensures
        response == InternalServiceResponse::ServerConnectionLost(
            ServerConnectionLost { cid, reconnecting: true, request_id: None },
        ),
{
    InternalServiceResponse::ServerConnectionLost(
        ServerConnectionLost { cid, reconnecting: true, request_id: None },
    )
}

/// What a client is told when the link is back.
pub fn reconnected(cid: u64) -> (response: InternalServiceResponse)
    ensures
        response == InternalServiceResponse::ServerReconnected(
            ServerReconnected { cid, request_id: None },
        ),
{
    InternalServiceResponse::ServerReconnected(ServerReconnected { cid, request_id: None })
}

/// What a client is told when the session is gone after all.
pub open spec fn failure_told(cid: u64, reason: String) -> Seq<InternalServiceResponse> {
    seq![
        InternalServiceResponse::ServerReconnectFailed(
            ServerReconnectFailed { cid, reason, request_id: None },
        ),
        InternalServiceResponse::DisconnectNotification(
            DisconnectNotification { cid, peer_cid: None, request_id: None },
        ),
    ]
}

/// The session is gone after all: it is removed with everything that mentions it and handed out to
/// be disconnected, and its client is told why, then what a removal always says. Where a user ended the session first, that owns
/// the answer, and this does nothing.
pub fn fail<R: Links, S>(
    sessions: &mut Sessions<R>,
    scoped: &mut CidScopedState<S>,
    cid: u64,
    reason: String,
) -> (failed: Option<(Report, Connection<R>)>)
    requires
        old(scoped).well_formed(),
    ensures
        final(scoped).well_formed(),
        if sessions::reconnecting(old(sessions)@, cid) {
            &&& final(sessions)@ == old(sessions)@.remove(cid)
            &&& final(scoped).pending_peer_connect_signals@ == pair_table::spared(
                old(scoped).pending_peer_connect_signals@,
                cid,
                None,
            )
            &&& final(scoped).pending_peer_registrations@ == pair_table::spared(
                old(scoped).pending_peer_registrations@,
                cid,
                None,
            )
            &&& final(scoped).peer_username_cache@ == pair_table::spared(
                old(scoped).peer_username_cache@,
                cid,
                None,
            )
            &&& failed matches Some((told, removed)) && Some(told.to) == sessions::owner_of(
                old(sessions)@,
                cid,
            ) && told.responses@ == failure_told(cid, reason) && removed == old(sessions)@[cid]
        } else {
            &&& final(sessions)@ == old(sessions)@
            &&& *final(scoped) == *old(scoped)
            &&& failed is None
        },
{
    let link = match sessions.get(cid) {
        Some(connection) => connection.link,
        None => {
            return None;
        },
    };
    if link != LinkState::Reconnecting {
        return None;
    }
    match sessions.remove(cid) {
        Some(removed) => {
            let _ = scoped.prune_cid_scoped_state(cid, None);
            let to = removed.associated_localhost_connection;
            let mut responses: Vec<InternalServiceResponse> = Vec::new();
            responses.push(
                InternalServiceResponse::ServerReconnectFailed(
                    ServerReconnectFailed { cid, reason, request_id: None },
                ),
            );
            responses.push(
                InternalServiceResponse::DisconnectNotification(
                    DisconnectNotification { cid, peer_cid: None, request_id: None },
                ),
            );
            assert(responses@ =~= failure_told(cid, reason));
            Some((Report { to, responses }, removed))
        },
        None => None,
    }
}

/// The client that a notice about a session goes to; none where there is no such session.
pub fn notify<R: Links>(sessions: &Sessions<R>, cid: u64) -> (to: Option<Uuid>)
    ensures
        to == sessions::owner_of(sessions@, cid),
{
    sessions.owner(cid)
}

/// A reconnect ends in one of two ways: after the link is put in, the session is not
/// reconnecting, so a give-up that comes later finds nothing and says nothing; and after a
/// give-up, there is no session to put a link into. A session that its user ended is neither
/// brought back nor reported as failed.
pub proof fn law_one_end_of_a_reconnect<R: Links>(
    before: Map<u64, Connection<R>>,
    cid: u64,
    after: Connection<R>,
    sink: R::Sink,
    remote: R::ServerRemote,
)
    requires
        sessions::reconnecting(before, cid),
        crate::kernel::reconnect::task::relinked(before[cid], after, sink, remote),
    ensures
        !sessions::reconnecting(before.insert(cid, after), cid),
        !sessions::reconnecting(before.remove(cid), cid),
{
}

/// Whoever is told that a session is gone is told so of that session and of no other, first with
/// the reason and then as any removal is told, and neither answers a request.
pub proof fn law_a_failed_reconnect_is_told_twice(cid: u64, reason: String)
    ensures
        failure_told(cid, reason).len() == 2,
        failure_told(cid, reason)[0] matches InternalServiceResponse::ServerReconnectFailed(told)
            && told.cid == cid && told.reason == reason && told.request_id is None,
        failure_told(cid, reason)[1] matches InternalServiceResponse::DisconnectNotification(told)
            && told.cid == cid && told.peer_cid is None && told.request_id is None,
{
}

/// A client is told of the session that it concerns when its link goes and when it is back, and
/// neither answers a request nor reports a failure.
pub proof fn law_a_client_is_told_of_its_session<R: Links>(
    sessions: Sessions<R>,
    cid: u64,
    lost: InternalServiceResponse,
    back: InternalServiceResponse,
    to: Option<Uuid>,
)
    requires
        call_ensures(connection_lost, (cid,), lost),
        call_ensures(reconnected, (cid,), back),
        call_ensures(notify::<R>, (&sessions, cid), to),
    ensures
        lost matches InternalServiceResponse::ServerConnectionLost(told) && told.reconnecting,
        back is ServerReconnected,
        lost.session() == cid,
        back.session() == cid,
        lost.answered() is None,
        back.answered() is None,
        to is Some <==> sessions@.contains_key(cid),
        to is Some ==> to->0 == sessions@[cid].associated_localhost_connection,
{
}

/// A session whose reconnect has failed is gone, is handed out to be disconnected, and its client is
/// told; every other session is as it was. A session that is not being brought back is left alone,
/// and nobody is told.
pub proof fn law_only_a_failed_reconnect_removes<R: Links, S>(
    cid: u64,
    reason: String,
    other: u64,
)
    ensures
        forall|
            sessions: &mut Sessions<R>,
            scoped: &mut CidScopedState<S>,
            failed: Option<(Report, Connection<R>)>,
        | #[trigger]
            call_ensures(fail::<R, S>, (sessions, scoped, cid, reason), failed) ==> {
                &&& failed is Some <==> sessions@.contains_key(cid) && sessions@[cid].link
                    is Reconnecting
                &&& failed matches Some((told, removed)) ==> {
                    &&& !final(sessions)@.contains_key(cid)
                    &&& removed == sessions@[cid]
                    &&& told.to == sessions@[cid].associated_localhost_connection
                    &&& told.responses@.len() == 2
                    &&& told.responses@[0] is ServerReconnectFailed
                    &&& told.responses@[1] is DisconnectNotification
                    &&& told.responses@[0].session() == cid
                    &&& told.responses@[1].session() == cid
                }
                &&& failed is None ==> final(sessions)@ == sessions@ && *final(scoped) == *scoped
                &&& other != cid ==> final(sessions)@.contains_key(other) == sessions@.contains_key(
                    other,
                ) && (sessions@.contains_key(other) ==> final(sessions)@[other]
                    == sessions@[other])
            },
{
}

} // verus!
