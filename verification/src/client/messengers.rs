//! Opening messengers, one per local CID, and sending through them.
//!
//! Opening takes a while and goes on elsewhere, so both entry points are sequences of steps: each
//! takes what has just happened and says what to do next.

use crate::client::cid;
use crate::client::cid::parse_cid;
use crate::client::opens;
use crate::client::opens::{OpenStep, Waited};
use crate::client::send;
use crate::client::send::{parse_cids, parse_security_level};
use crate::client::workspace::{Client, Workspace};
use crate::text;
use crate::text::decimal_text;
use crate::types::settings::SecurityLevel;
use vstd::prelude::*;
use vstd::string::StringExecFns;

verus! {

/// Between looks at somebody else's open, in milliseconds.
pub const POLL_INTERVAL_MS: u64 = 100;

/// How often to look at somebody else's open: half a minute in all.
pub const MAX_POLLS: u64 = 300;

/// What to do next to have a messenger.
#[derive(Debug, PartialEq, Eq)]
pub enum MessengerAction {
    /// Open the messenger of this CID, and say under this generation how that went.
    Open(u64, u64),
    /// Wait for [`POLL_INTERVAL_MS`], then look whether somebody else has opened the messenger of
    /// this CID. This is the look with this number, counted from zero.
    Wait(u64, u64),
    /// There is a messenger. The flag says whether it was opened here.
    Done(bool),
    Failed(String),
}

/// What has happened to the messengers of a client when somebody asks for one.
pub open spec fn asked<T>(before: Client<T>, cid: u64, after: Client<T>, step: OpenStep) -> bool {
    &&& before.workspace matches Some(was)
    &&& after.workspace matches Some(is)
    &&& step == opens::open_step(was.opens.open(), was.opens.pending(), cid)
    &&& is.opens.open() == was.opens.open()
    &&& is.opens.pending() == (if step == OpenStep::Open {
        was.opens.pending().insert(cid)
    } else {
        was.opens.pending()
    })
    &&& is.stream == was.stream
    &&& is.pending == was.pending
    &&& after.sink == before.sink
    &&& after.generation == before.generation
}

/// The first step for a messenger.
pub open spec fn first_action<T>(
    before: Client<T>,
    cid: u64,
    after: Client<T>,
    action: MessengerAction,
) -> bool {
    match before.workspace {
        None => {
            &&& after == before
            &&& action matches MessengerAction::Failed(problem)
            &&& problem@ == "Workspace not initialized"@
        },
        Some(was) => {
            let step = opens::open_step(was.opens.open(), was.opens.pending(), cid);
            &&& asked(before, cid, after, step)
            &&& action == match step {
                OpenStep::AlreadyOpen => MessengerAction::Done(false),
                OpenStep::BeingOpened => MessengerAction::Wait(cid, 0),
                OpenStep::Open => MessengerAction::Open(cid, before.generation),
            }
        },
    }
}

fn first_step<T>(client: &mut Client<T>, cid: u64) -> (action: MessengerAction)
    ensures
        first_action(*old(client), cid, *final(client), action),
{
    let generation: u64 = client.generation;
    match client.begin_open(cid) {
        None => MessengerAction::Failed("Workspace not initialized".to_owned()),
        Some(OpenStep::AlreadyOpen) => MessengerAction::Done(false),
        Some(OpenStep::BeingOpened) => MessengerAction::Wait(cid, 0),
        Some(OpenStep::Open) => MessengerAction::Open(cid, generation),
    }
}

/// A CID as the page writes it, and the first step for its messenger. Both entry points begin so.
pub fn open_messenger_for<T>(client: &mut Client<T>, cid_str: &str) -> (action: MessengerAction)
    ensures
        match cid::number(cid_str@) {
            Err(fault) => {
                &&& *final(client) == *old(client)
                &&& action matches MessengerAction::Failed(problem)
                &&& problem@ == "Invalid "@ + "CID"@ + " format: "@ + cid::fault_text(fault)
            },
            Ok(n) => first_action(*old(client), n as u64, *final(client), action),
        },
{
    match parse_cid(cid_str, "CID") {
        Ok(cid) => first_step(client, cid),
        Err(problem) => MessengerAction::Failed(problem),
    }
}

/// Somebody else was opening the messenger, and the one who asked to open it has waited once: it
/// is there now, or the caller is told who has it.
pub fn after_brief_wait<T>(client: &Client<T>, cid: u64) -> (action: MessengerAction)
    ensures
        if client.workspace is Some && client.workspace->0.opens.open().contains(cid) {
            action == MessengerAction::Done(false)
        } else {
            action matches MessengerAction::Failed(problem) && problem@
                == "Messenger handle is being opened by another task"@
        },
{
    match client.waited(cid) {
        Some(Waited::Ready) => MessengerAction::Done(false),
        _ => MessengerAction::Failed("Messenger handle is being opened by another task".to_owned()),
    }
}

/// Somebody else was opening the messenger, and the one who makes sure of it has waited before
/// look number `look`. Where the other has failed, the one who waits begins anew, and is then the
/// one who opens.
pub fn ensure_messenger_open<T>(client: &mut Client<T>, cid: u64, look: u64) -> (action:
    MessengerAction)
    requires
        look < MAX_POLLS,
    ensures
        match old(client).workspace {
            None => {
                &&& *final(client) == *old(client)
                &&& action matches MessengerAction::Failed(problem)
                &&& problem@ == "Workspace not initialized"@
            },
            Some(was) => match opens::open_step(was.opens.open(), was.opens.pending(), cid) {
                OpenStep::AlreadyOpen => {
                    &&& *final(client) == *old(client)
                    &&& action == MessengerAction::Done(false)
                },
                OpenStep::BeingOpened => {
                    &&& *final(client) == *old(client)
                    &&& if look + 1 < MAX_POLLS {
                        action == MessengerAction::Wait(cid, (look + 1) as u64)
                    } else {
                        action matches MessengerAction::Failed(problem) && problem@
                            == "Timeout waiting for messenger handle for CID: "@ + text::decimal(
                            cid as nat,
                        )
                    }
                },
                OpenStep::Open => {
                    &&& asked(*old(client), cid, *final(client), OpenStep::Open)
                    &&& action == MessengerAction::Open(cid, old(client).generation)
                },
            },
        },
{
    match client.waited(cid) {
        None => MessengerAction::Failed("Workspace not initialized".to_owned()),
        Some(Waited::Ready) => MessengerAction::Done(false),
        Some(Waited::Abandoned) => first_step(client, cid),
        Some(Waited::Pending) => {
            if look + 1 < MAX_POLLS {
                MessengerAction::Wait(cid, look + 1)
            } else {
                MessengerAction::Failed(
                    "Timeout waiting for messenger handle for CID: ".to_owned().concat(
                        decimal_text(cid).as_str(),
                    ),
                )
            }
        },
    }
}

/// An open that was begun here has finished, with the error's text where it has failed. Whoever
/// asks next finds the messenger, or may try.
pub fn opened<T>(
    client: &mut Client<T>,
    generation: u64,
    cid: u64,
    result: Result<(), String>,
) -> (action: MessengerAction)
    ensures
        action == match result {
            Ok(_) => MessengerAction::Done(true),
            Err(problem) => MessengerAction::Failed(problem),
        },
        final(client).sink == old(client).sink,
        final(client).generation == old(client).generation,
        if old(client).workspace is Some && generation == old(client).generation {
            let was = old(client).workspace->0;
            &&& final(client).workspace matches Some(is)
            &&& is.stream == was.stream
            &&& is.pending == was.pending
            &&& is.opens.open() == (if result is Ok {
                was.opens.open().insert(cid)
            } else {
                was.opens.open()
            })
            &&& is.opens.pending() == was.opens.pending().remove(cid)
        } else {
            final(client).workspace == old(client).workspace
        },
{
    match result {
        Ok(_) => {
            client.finish_open(generation, cid, true);
            MessengerAction::Done(true)
        },
        Err(problem) => {
            client.finish_open(generation, cid, false);
            MessengerAction::Failed(problem)
        },
    }
}

/// A message that goes through a messenger.
#[derive(Debug, PartialEq, Eq)]
pub struct ReliableMessage {
    /// Whose messenger.
    pub local_cid: u64,
    pub peer_cid: u64,
    pub security_level: SecurityLevel,
    pub message: Vec<u8>,
}

/// Why a message of the local CID cannot go through a messenger, if it cannot.
pub open spec fn messenger_missing<T>(workspace: Option<Workspace<T>>, local_cid: u64) -> Option<
    Seq<char>,
> {
    match workspace {
        None => Some("Workspace not initialized"@),
        Some(w) => if w.opens.open().contains(local_cid) {
            None
        } else {
            Some(
                "No messaging handle found for local CID: "@ + text::decimal(local_cid as nat)
                    + ". Call open_p2p_connection first."@,
            )
        },
    }
}

/// A message for a peer, to go through the messenger of the local CID; else what is wrong: first
/// the CIDs, then that there is no messenger.
pub fn send_p2p_message_reliable<T>(
    client: &Client<T>,
    local: &str,
    peer: &str,
    message: Vec<u8>,
    security_level: Option<&str>,
) -> (r: Result<ReliableMessage, String>)
    ensures
        match send::cid_problem(local@, peer@) {
            Some(problem) => r matches Err(said) && said@ == problem,
            None => {
                let local_cid = cid::number(local@)->Ok_0 as u64;
                match messenger_missing(client.workspace, local_cid) {
                    Some(problem) => r matches Err(said) && said@ == problem,
                    None => r == Ok::<_, String>(
                        ReliableMessage {
                            local_cid,
                            peer_cid: cid::number(peer@)->Ok_0 as u64,
                            security_level: send::named_level(
                                match security_level {
                                    Some(name) => Some(name@),
                                    None => None,
                                },
                            ),
                            message,
                        },
                    ),
                }
            },
        },
{
    let cids = match parse_cids(local, peer) {
        Ok(cids) => cids,
        Err(problem) => {
            return Err(problem);
        },
    };
    let level = parse_security_level(security_level);
    match &client.workspace {
        None => Err("Workspace not initialized".to_owned()),
        Some(workspace) => {
            if workspace.opens.is_open(cids.0) {
                Ok(
                    ReliableMessage {
                        local_cid: cids.0,
                        peer_cid: cids.1,
                        security_level: level,
                        message,
                    },
                )
            } else {
                Err(
                    "No messaging handle found for local CID: ".to_owned().concat(
                        decimal_text(cids.0).as_str(),
                    ).concat(". Call open_p2p_connection first."),
                )
            }
        },
    }
}

/// What asking for a messenger answers: one that is there is used, one that somebody opens is
/// waited for, and else the one who asks opens it, under the live connection. Without a connection
/// there is none to be had.
pub proof fn law_what_asking_for_a_messenger_answers<T>(
    before: Client<T>,
    cid: u64,
    after: Client<T>,
    action: MessengerAction,
)
    requires
        first_action(before, cid, after, action),
    ensures
        before.workspace is None ==> after == before && (action matches MessengerAction::Failed(
            said,
        ) && said@ == "Workspace not initialized"@),
        before.workspace matches Some(was) ==> (was.opens.open().contains(cid) <==> action
            == MessengerAction::Done(false)),
        before.workspace matches Some(was) ==> (!was.opens.open().contains(cid)
            && was.opens.pending().contains(cid) <==> action == MessengerAction::Wait(cid, 0)),
        before.workspace matches Some(was) ==> (!was.opens.open().contains(cid)
            && !was.opens.pending().contains(cid) <==> action == MessengerAction::Open(
            cid,
            before.generation,
        )),
{
}

/// Asking for a messenger changes nothing but who is opening which, and that only where the one who
/// asks is told to open: then that CID is being opened, and no other is more or less than before.
pub proof fn law_asking_changes_nothing_else<T>(
    before: Client<T>,
    cid: u64,
    after: Client<T>,
    step: OpenStep,
    other: u64,
)
    requires
        asked(before, cid, after, step),
    ensures
        before.workspace is Some,
        after.workspace is Some,
        after.workspace->0.opens.open() == before.workspace->0.opens.open(),
        after.workspace->0.opens.pending().contains(other) <==> before.workspace->0.opens.pending().contains(
            other,
        ) || (other == cid && step is Open),
        after.workspace->0.stream == before.workspace->0.stream,
        after.workspace->0.pending == before.workspace->0.pending,
        after.sink == before.sink,
        after.generation == before.generation,
{
}

/// A message goes through the messenger of its own local CID, which must be open; whose else is
/// open does not count.
pub proof fn law_a_message_needs_its_own_messenger<T>(
    workspace: Option<Workspace<T>>,
    local_cid: u64,
)
    ensures
        messenger_missing(workspace, local_cid) is None <==> workspace is Some
            && workspace->0.opens.open().contains(local_cid),
        workspace is None ==> messenger_missing(workspace, local_cid) == Some(
            "Workspace not initialized"@,
        ),
        workspace is Some && !workspace->0.opens.open().contains(local_cid) ==> messenger_missing(
            workspace,
            local_cid,
        ) == Some(
            "No messaging handle found for local CID: "@ + text::decimal(local_cid as nat)
                + ". Call open_p2p_connection first."@,
        ),
{
}

/// Whoever waits for somebody else's open looks ten times a second, for half a minute.
pub proof fn law_waiting_takes_half_a_minute()
    ensures
        POLL_INTERVAL_MS == 100,
        MAX_POLLS * POLL_INTERVAL_MS == 30_000,
{
}

/// Whoever has waited once for somebody else's open has the messenger exactly where it is open now.
pub proof fn law_after_one_wait<T>(client: Client<T>, cid: u64, action: MessengerAction)
    requires
        call_ensures(after_brief_wait::<T>, (&client, cid), action),
    ensures
        action == MessengerAction::Done(false) <==> client.workspace is Some
            && client.workspace->0.opens.open().contains(cid),
        action != MessengerAction::Done(false) ==> action is Failed,
{
}

/// A message goes through the messenger of its own local CID, to the peer, as it was given, and at
/// the level that was named; where that messenger is not open it does not go.
pub proof fn law_a_reliable_message_goes_as_given<T>(
    client: Client<T>,
    local: &str,
    peer: &str,
    message: Vec<u8>,
    security_level: Option<&str>,
    sent: Result<ReliableMessage, String>,
)
    requires
        call_ensures(
            send_p2p_message_reliable::<T>,
            (&client, local, peer, message, security_level),
            sent,
        ),
    ensures
        sent matches Ok(out) ==> cid::number(local@) == Ok::<nat, cid::NumberFault>(
            out.local_cid as nat,
        ) && cid::number(peer@) == Ok::<nat, cid::NumberFault>(out.peer_cid as nat)
            && out.message == message && client.workspace is Some
            && client.workspace->0.opens.open().contains(out.local_cid),
        sent matches Ok(out) ==> (security_level is None ==> out.security_level is Standard),
        sent matches Ok(out) ==> (security_level matches Some(name) ==> (name@ == "High"@
            ==> out.security_level is High)),
        client.workspace is None ==> sent is Err,
{
    cid::lemma_number_fits(local@);
    cid::lemma_number_fits(peer@);
    send::law_named_levels(None);
}

} // verus!
