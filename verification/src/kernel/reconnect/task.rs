//! The life of a reconnect: mark the session, try again as the policy says, put the new link in
//! or give up.

use crate::duration::Duration;
use crate::kernel::connection::{Connection, Links, Peers, Transfers};
use crate::kernel::group_channels;
use crate::kernel::reconnect::policy;
use crate::kernel::reconnect::policy::{
    on_unrequested_drop, DropAction, FailureKind, GiveUp, LinkState, Next, ReconnectPolicy,
};
use crate::kernel::sessions;
use crate::kernel::sessions::Sessions;
use crate::text;
use crate::text::decimal_text;
use crate::types::ids::{MessageGroupKey, Uuid};
use vstd::prelude::*;
use vstd::string::StringExecFns;

verus! {

/// What an unrequested drop did to the session.
#[derive(Debug, Clone, Copy, PartialEq, Eq, Structural)]
pub enum Began {
    /// Kept and marked; the caller notifies and starts the reconnect.
    Reconnecting,
    AlreadyReconnecting,
    /// Being ended by its user: the caller removes it.
    Remove,
    /// Not in the table: nothing to keep.
    NotTracked,
}

/// What `begin` answers.
pub open spec fn begun<R: Links>(sessions: Map<u64, Connection<R>>, cid: u64) -> Began {
    if !sessions.contains_key(cid) {
        Began::NotTracked
    } else {
        match sessions[cid].link {
            LinkState::Up => Began::Reconnecting,
            LinkState::Reconnecting => Began::AlreadyReconnecting,
            LinkState::Ending => Began::Remove,
        }
    }
}

/// `after` is the session `before`, marked as reconnecting: its peers, groups and transfers
/// belonged to the dead link and are gone, and everything else is as it was.
pub open spec fn marked<R: Links>(before: Connection<R>, after: Connection<R>) -> bool {
    &&& after.link == LinkState::Reconnecting
    &&& after.peers@ =~= Map::empty()
    &&& after.c2s_file_transfer_handlers@ =~= Map::empty()
    &&& after.groups@ == (group_channels::GroupsView { entries: Seq::empty(), ..before.groups@ })
    &&& before.groups@.well_formed() ==> after.groups@.well_formed()
    &&& after.session_cid == before.session_cid
    &&& after.sink_to_server == before.sink_to_server
    &&& after.client_server_remote == before.client_server_remote
    &&& after.same_but_links(before)
}

/// Decide, and if it is a reconnect, mark the session before anything else can see it up.
pub fn begin<R: Links>(sessions: &mut Sessions<R>, cid: u64) -> (began: Began)
    ensures
        began == begun(old(sessions)@, cid),
        began != Began::Reconnecting ==> final(sessions)@ == old(sessions)@,
        began == Began::Reconnecting ==> exists|after: Connection<R>| #[trigger]
            marked(old(sessions)@[cid], after) && final(sessions)@ == old(sessions)@.insert(
                cid,
                after,
            ),
        began == Began::Reconnecting ==> final(sessions)@[cid].groups@.entries.len() == 0,
{
    let link = match sessions.get(cid) {
        Some(connection) => connection.link,
        None => {
            return Began::NotTracked;
        },
    };
    match on_unrequested_drop(link) {
        DropAction::AlreadyReconnecting => Began::AlreadyReconnecting,
        DropAction::Remove => Began::Remove,
        DropAction::Reconnect => {
            match sessions.remove(cid) {
                Some(found) => {
                    let mut connection = found;
                    connection.link = LinkState::Reconnecting;
                    connection.peers = Peers::new();
                    connection.groups.clear();
                    connection.c2s_file_transfer_handlers = Transfers::new();
                    assert(marked(old(sessions)@[cid], connection));
                    let _ = sessions.insert(cid, connection);
                    assert(sessions@ =~= old(sessions)@.insert(cid, connection));
                    Began::Reconnecting
                },
                None => Began::NotTracked,
            }
        },
    }
}

/// The session, where it is still to be brought back: its user may have ended it meanwhile.
pub fn still_reconnecting<R: Links>(sessions: &Sessions<R>, cid: u64) -> (connection: Option<
    &Connection<R>,
>)
    ensures
        match connection {
            Some(found) => sessions::reconnecting(sessions@, cid) && *found == sessions@[cid],
            None => !sessions::reconnecting(sessions@, cid),
        },
{
    match sessions.get(cid) {
        Some(connection) => {
            if connection.link == LinkState::Reconnecting {
                Some(connection)
            } else {
                None
            }
        },
        None => None,
    }
}

/// `after` is the session `before` with a new link, which is up.
pub open spec fn relinked<R: Links>(
    before: Connection<R>,
    after: Connection<R>,
    sink: R::Sink,
    remote: R::ServerRemote,
) -> bool {
    &&& after.link == LinkState::Up
    &&& after.sink_to_server == sink
    &&& after.client_server_remote == remote
    &&& after.session_cid == before.session_cid
    &&& after.peers == before.peers
    &&& after.groups == before.groups
    &&& after.c2s_file_transfer_handlers == before.c2s_file_transfer_handlers
    &&& after.same_but_links(before)
}

/// Put the new link in. The client that the session's messages go to, or `None` where the
/// session was ended while the attempt was in flight: the new link then has no owner and is to be
/// closed.
pub fn install<R: Links>(
    sessions: &mut Sessions<R>,
    cid: u64,
    sink: R::Sink,
    remote: R::ServerRemote,
) -> (owner: Option<Uuid>)
    ensures
        if sessions::reconnecting(old(sessions)@, cid) {
            &&& owner == sessions::owner_of(old(sessions)@, cid)
            &&& exists|after: Connection<R>| #[trigger]
                relinked(old(sessions)@[cid], after, sink, remote) && final(sessions)@ == old(
                    sessions)@.insert(cid, after)
        } else {
            &&& owner is None
            &&& final(sessions)@ == old(sessions)@
        },
{
    match still_reconnecting(sessions, cid) {
        Some(_) => {},
        None => {
            return None;
        },
    }
    match sessions.remove(cid) {
        Some(found) => {
            let mut connection = found;
            connection.sink_to_server = sink;
            connection.client_server_remote = remote;
            connection.link = LinkState::Up;
            let owner = connection.associated_localhost_connection;
            assert(relinked(old(sessions)@[cid], connection, sink, remote));
            let _ = sessions.insert(cid, connection);
            assert(sessions@ =~= old(sessions)@.insert(cid, connection));
            Some(owner)
        },
        None => None,
    }
}

/// What came of one attempt to connect again.
#[derive(Debug, PartialEq, Eq)]
pub enum Attempt {
    /// The server answered, as this CID.
    Connected(u64),
    /// It failed, for this reason.
    Failed { kind: FailureKind, message: String },
}

/// What to do after an attempt.
#[derive(Debug, PartialEq, Eq)]
pub enum AfterAttempt {
    /// Put the new link in.
    Install,
    /// Close the new link, which belongs to somebody else, and give up for this reason.
    CloseAndFail(String),
    /// Wait, then try once more.
    Retry { attempt: u32, delay: Duration },
    /// Give up for this reason.
    Fail(String),
}

/// The agent's wait before attempt `attempt`, in nanoseconds: from half a second to half a minute.
pub open spec fn agent_wait(attempt: nat) -> nat {
    policy::wait_within(500_000_000, 30_000_000_000, attempt)
}

/// The number of the attempt after `attempt`. The counter stays at its limit.
pub open spec fn next_attempt(attempt: u32) -> u32 {
    if attempt < u32::MAX {
        (attempt + 1) as u32
    } else {
        attempt
    }
}

/// What to do after attempt number `attempt` for the session `cid`, `elapsed` since the drop. A
/// CID is permanent for its account, so an answer under another is never adopted. A refusal gives
/// its own reason. Another failure is tried again where the next attempt can start within ten
/// minutes of the drop; running out of time says so and gives the last reason.
pub fn after_attempt(attempt: u32, cid: u64, outcome: Attempt, elapsed: Duration) -> (next:
    AfterAttempt)
    ensures
        match outcome {
            Attempt::Connected(answered) => if answered == cid {
                next is Install
            } else {
                next matches AfterAttempt::CloseAndFail(reason) && reason@
                    == "the server answered as "@ + text::decimal(answered as nat)
            },
            Attempt::Failed { kind: FailureKind::Refused, message } => next == AfterAttempt::Fail(
                message,
            ),
            Attempt::Failed { kind: FailureKind::Transient, message } => {
                let wait = agent_wait(next_attempt(attempt) as nat);
                if elapsed.nanos() + wait <= 600_000_000_000 {
                    next matches AfterAttempt::Retry { attempt: n, delay } && n == next_attempt(
                        attempt,
                    ) && delay.nanos() == wait
                } else {
                    next matches AfterAttempt::Fail(reason) && reason@
                        == "no answer from the server in 600s: "@ + message@
                }
            },
        },
{
    let schedule = ReconnectPolicy::server_reconnect();
    match outcome {
        Attempt::Connected(answered) => {
            if answered == cid {
                AfterAttempt::Install
            } else {
                AfterAttempt::CloseAndFail(
                    "the server answered as ".to_owned().concat(decimal_text(answered).as_str()),
                )
            }
        },
        Attempt::Failed { kind, message } => {
            match schedule.after_failure(attempt, elapsed, kind) {
                Next::RetryAfter(delay) => {
                    AfterAttempt::Retry { attempt: attempt.saturating_add(1), delay }
                },
                Next::GiveUp(GiveUp::Refused) => AfterAttempt::Fail(message),
                Next::GiveUp(GiveUp::OutOfTime) => AfterAttempt::Fail(
                    "no answer from the server in 600s: ".to_owned().concat(message.as_str()),
                ),
            }
        },
    }
}

/// A session whose reconnect has begun holds nothing of the dead link: it is a member of no
/// group, has no entry for any, is connected to no peer and has no transfer on its way to its
/// server. Whose it is, what it was opened with and its CID are as they were.
pub proof fn law_a_reconnect_starts_with_nothing_of_the_dead_link<R: Links>(
    before: Connection<R>,
    after: Connection<R>,
    key: MessageGroupKey,
    peer_cid: u64,
    object: u128,
)
    requires
        marked(before, after),
    ensures
        !after.groups@.member(key),
        !after.groups@.has_entry(key),
        after.groups@.entries.len() == 0,
        !after.peers@.contains_key(peer_cid),
        !after.c2s_file_transfer_handlers@.contains_key(object),
        after.link is Reconnecting,
        after.session_cid == before.session_cid,
        after.sink_to_server == before.sink_to_server,
        after.client_server_remote == before.client_server_remote,
        after.associated_localhost_connection == before.associated_localhost_connection,
        after.username == before.username,
        after.server_address == before.server_address,
        after.reconnect == before.reconnect,
{
}

/// A departure that is reported late concerns none of the channels to come: the tickets that were
/// given before the link died stay given, and those that were departed stay departed.
pub proof fn law_tickets_outlive_the_link<R: Links>(before: Connection<R>, after: Connection<R>)
    requires
        marked(before, after),
    ensures
        after.groups@.next_ticket == before.groups@.next_ticket,
        after.groups@.departed == before.groups@.departed,
        before.groups@.well_formed() ==> after.groups@.well_formed(),
{
}

/// What a drop begins depends on the session's own link and on nothing else: one that is up is
/// brought back, one that is being brought back is left to the attempt that runs, one that its
/// user is ending goes, and a CID without a session begins nothing.
pub proof fn law_what_a_drop_begins<R: Links>(sessions: Map<u64, Connection<R>>, cid: u64)
    ensures
        begun(sessions, cid) is NotTracked <==> !sessions.contains_key(cid),
        begun(sessions, cid) is Reconnecting <==> sessions.contains_key(cid)
            && sessions[cid].link is Up,
        begun(sessions, cid) is AlreadyReconnecting <==> sessions.contains_key(cid)
            && sessions[cid].link is Reconnecting,
        begun(sessions, cid) is Remove <==> sessions.contains_key(cid)
            && sessions[cid].link is Ending,
{
}

/// One drop begins one reconnect: whatever is reported of the session until the new link is in
/// begins none, and a drop of the new link begins the next.
pub proof fn law_one_reconnect_at_a_time<R: Links>(
    sessions: Map<u64, Connection<R>>,
    cid: u64,
    dropped: Connection<R>,
    back: Connection<R>,
    sink: R::Sink,
    remote: R::ServerRemote,
)
    requires
        sessions.contains_key(cid),
        marked(sessions[cid], dropped),
        relinked(dropped, back, sink, remote),
    ensures
        begun(sessions.insert(cid, dropped), cid) is AlreadyReconnecting,
        begun(sessions.insert(cid, back), cid) is Reconnecting,
{
}

/// A session that was brought back is the one that was dropped: only its link is another.
pub proof fn law_only_the_link_is_new<R: Links>(
    before: Connection<R>,
    after: Connection<R>,
    sink: R::Sink,
    remote: R::ServerRemote,
)
    requires
        relinked(before, after, sink, remote),
    ensures
        after.link is Up,
        after.sink_to_server == sink,
        after.client_server_remote == remote,
        after.session_cid == before.session_cid,
        after.associated_localhost_connection == before.associated_localhost_connection,
        after.username == before.username,
        after.server_address == before.server_address,
        after.reconnect == before.reconnect,
        after.peers == before.peers,
        after.groups == before.groups,
        after.c2s_file_transfer_handlers == before.c2s_file_transfer_handlers,
{
}

/// The agent waits half a second before its first attempt and twice as long before each further
/// one, up to half a minute.
pub proof fn law_the_agent_waits_twice_as_long_each_time(attempt: nat)
    ensures
        agent_wait(0) == 500_000_000,
        agent_wait(attempt + 1) == if 2 * agent_wait(attempt) <= 30_000_000_000 {
            2 * agent_wait(attempt)
        } else {
            30_000_000_000
        },
{
    policy::lemma_doubled(500_000_000, attempt, attempt + 1);
}

/// Attempts are counted one by one, up to the limit of the counter.
pub proof fn law_attempts_are_counted(attempt: u32)
    ensures
        attempt < u32::MAX ==> next_attempt(attempt) == attempt + 1,
        attempt == u32::MAX ==> next_attempt(attempt) == u32::MAX,
{
}

/// An answer under the session's own CID is adopted, and under no other; a refusal gives its own
/// reason; and an attempt that failed otherwise is followed by the next, counted one higher, while
/// that can start within ten minutes of the drop.
pub proof fn law_what_follows_an_attempt(
    attempt: u32,
    cid: u64,
    outcome: Attempt,
    elapsed: Duration,
    next: AfterAttempt,
)
    requires
        attempt < u32::MAX,
        call_ensures(after_attempt, (attempt, cid, outcome, elapsed), next),
    ensures
        outcome matches Attempt::Connected(answered) ==> (next is Install <==> answered == cid),
        outcome matches Attempt::Connected(answered) ==> (next is CloseAndFail <==> answered
            != cid),
        outcome matches Attempt::Failed { kind, message } ==> (kind is Refused ==> next
            == AfterAttempt::Fail(message)),
        outcome matches Attempt::Failed { kind, message } ==> (kind is Transient
            && elapsed.nanos() + agent_wait((attempt + 1) as nat) <= 600_000_000_000 ==> (
        next matches AfterAttempt::Retry { attempt: n, delay } && n == attempt + 1
            && delay.nanos() == agent_wait((attempt + 1) as nat))),
        outcome matches Attempt::Failed { kind, message } ==> (kind is Transient
            && elapsed.nanos() + agent_wait((attempt + 1) as nat) > 600_000_000_000 ==> next
            is Fail),
{
}

/// A session is to be brought back exactly where it is there and its link is being brought back.
pub proof fn law_what_is_to_be_brought_back<R: Links>(
    sessions: Sessions<R>,
    cid: u64,
    connection: Option<&Connection<R>>,
)
    requires
        call_ensures(still_reconnecting::<R>, (&sessions, cid), connection),
    ensures
        connection is Some <==> sessions@.contains_key(cid) && sessions@[cid].link is Reconnecting,
        connection is Some ==> *connection->0 == sessions@[cid],
{
}

/// After `begin` answers that a session is being brought back, the session is a member of no group,
/// has no peer and no transfer, and its link is being brought back; every other session is as it
/// was. Whatever else it answers, it has changed nothing.
pub proof fn law_begin_leaves_nothing_of_the_dead_link<R: Links>(cid: u64)
    ensures
        forall|sessions: &mut Sessions<R>, began: Began, key: MessageGroupKey|
            #![trigger call_ensures(begin::<R>, (sessions, cid), began), final(sessions)@[cid].groups@.member(key)]
            call_ensures(begin::<R>, (sessions, cid), began) && began is Reconnecting
                ==> !final(sessions)@[cid].groups@.member(key),
        forall|sessions: &mut Sessions<R>, began: Began| #[trigger]
            call_ensures(begin::<R>, (sessions, cid), began) && began is Reconnecting ==> {
                &&& sessions@.contains_key(cid)
                &&& sessions@[cid].link is Up
                &&& final(sessions)@[cid].link is Reconnecting
                &&& final(sessions)@[cid].groups@.entries.len() == 0
                &&& final(sessions)@[cid].peers@.dom() =~= Set::<u64>::empty()
                &&& final(sessions)@[cid].c2s_file_transfer_handlers@.dom() =~= Set::<
                    u128,
                >::empty()
                &&& final(sessions)@[cid].session_cid == sessions@[cid].session_cid
                &&& final(sessions)@[cid].associated_localhost_connection
                    == sessions@[cid].associated_localhost_connection
                &&& final(sessions)@[cid].username == sessions@[cid].username
                &&& final(sessions)@[cid].reconnect == sessions@[cid].reconnect
                &&& final(sessions)@.remove(cid) =~= sessions@.remove(cid)
            },
        forall|sessions: &mut Sessions<R>, began: Began| #[trigger]
            call_ensures(begin::<R>, (sessions, cid), began) && began !is Reconnecting
                ==> final(sessions)@ == sessions@,
{
    assert forall|sessions: &mut Sessions<R>, began: Began| #[trigger]
        call_ensures(begin::<R>, (sessions, cid), began) && began is Reconnecting implies {
        &&& sessions@.contains_key(cid)
        &&& sessions@[cid].link is Up
        &&& final(sessions)@[cid].link is Reconnecting
        &&& final(sessions)@[cid].groups@.entries.len() == 0
        &&& final(sessions)@[cid].peers@.dom() =~= Set::<u64>::empty()
        &&& final(sessions)@[cid].c2s_file_transfer_handlers@.dom() =~= Set::<u128>::empty()
        &&& final(sessions)@[cid].session_cid == sessions@[cid].session_cid
        &&& final(sessions)@[cid].associated_localhost_connection
            == sessions@[cid].associated_localhost_connection
        &&& final(sessions)@[cid].username == sessions@[cid].username
        &&& final(sessions)@[cid].reconnect == sessions@[cid].reconnect
        &&& final(sessions)@.remove(cid) =~= sessions@.remove(cid)
    } by {
        let after = choose|after: Connection<R>| #[trigger]
            marked(sessions@[cid], after) && final(sessions)@ == sessions@.insert(cid, after);
        assert(final(sessions)@[cid] == after);
        assert(marked(sessions@[cid], after));
    }
}

/// A new link is put in exactly where its session is being brought back: the session is then up, on
/// that link, whoever owned it is told, and every other session is as it was. Else nothing has
/// changed, and nobody is told.
pub proof fn law_a_new_link_is_put_in_once<R: Links>(
    cid: u64,
    sink: R::Sink,
    remote: R::ServerRemote,
)
    ensures
        forall|sessions: &mut Sessions<R>, owner: Option<Uuid>| #[trigger]
            call_ensures(install::<R>, (sessions, cid, sink, remote), owner) ==> {
                &&& owner is Some <==> sessions@.contains_key(cid) && sessions@[cid].link
                    is Reconnecting
                &&& owner is None ==> final(sessions)@ == sessions@
                &&& owner is Some ==> {
                    &&& owner->0 == sessions@[cid].associated_localhost_connection
                    &&& final(sessions)@.contains_key(cid)
                    &&& final(sessions)@[cid].link is Up
                    &&& final(sessions)@[cid].sink_to_server == sink
                    &&& final(sessions)@[cid].client_server_remote == remote
                    &&& final(sessions)@[cid].associated_localhost_connection == owner->0
                    &&& final(sessions)@[cid].groups == sessions@[cid].groups
                    &&& final(sessions)@.remove(cid) =~= sessions@.remove(cid)
                }
            },
{
    assert forall|sessions: &mut Sessions<R>, owner: Option<Uuid>| #[trigger]
        call_ensures(install::<R>, (sessions, cid, sink, remote), owner) implies {
        &&& owner is Some <==> sessions@.contains_key(cid) && sessions@[cid].link is Reconnecting
        &&& owner is None ==> final(sessions)@ == sessions@
        &&& owner is Some ==> {
            &&& owner->0 == sessions@[cid].associated_localhost_connection
            &&& final(sessions)@.contains_key(cid)
            &&& final(sessions)@[cid].link is Up
            &&& final(sessions)@[cid].sink_to_server == sink
            &&& final(sessions)@[cid].client_server_remote == remote
            &&& final(sessions)@[cid].associated_localhost_connection == owner->0
            &&& final(sessions)@[cid].groups == sessions@[cid].groups
            &&& final(sessions)@.remove(cid) =~= sessions@.remove(cid)
        }
    } by {
        if owner is Some {
            let after = choose|after: Connection<R>| #[trigger]
                relinked(sessions@[cid], after, sink, remote) && final(sessions)@
                    == sessions@.insert(cid, after);
            assert(relinked(sessions@[cid], after, sink, remote));
            assert(final(sessions)@[cid] == after);
        }
    }
}

} // verus!
