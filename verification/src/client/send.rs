//! What a page sends.

use crate::client::cid;
use crate::client::cid::parse_cid;
use crate::text::same_text;
use crate::types::ids::Uuid;
use crate::types::payload::InternalServicePayload;
use crate::types::request::InternalServiceRequest;
use crate::types::settings::SecurityLevel;
use vstd::prelude::*;

verus! {

/// The security level of a name: the standard one where there is no name, or one that is not known.
pub open spec fn named_level(name: Option<Seq<char>>) -> SecurityLevel {
    match name {
        Some(n) => if n == "Reinforced"@ {
            SecurityLevel::Reinforced
        } else if n == "High"@ {
            SecurityLevel::High
        } else if n == "Extreme"@ {
            SecurityLevel::Extreme
        } else {
            SecurityLevel::Standard
        },
        None => SecurityLevel::Standard,
    }
}

/// The security level that a page names.
pub fn parse_security_level(s: Option<&str>) -> (level: SecurityLevel)
    ensures
        level == named_level(
            match s {
                Some(name) => Some(name@),
                None => None,
            },
        ),
{
    match s {
        Some(name) => {
            if same_text(name, "Reinforced") {
                SecurityLevel::Reinforced
            } else if same_text(name, "High") {
                SecurityLevel::High
            } else if same_text(name, "Extreme") {
                SecurityLevel::Extreme
            } else {
                SecurityLevel::Standard
            }
        },
        None => SecurityLevel::Standard,
    }
}

/// What is wrong with the two CIDs of a message, the local one first.
pub open spec fn cid_problem(local: Seq<char>, peer: Seq<char>) -> Option<Seq<char>> {
    match cid::number(local) {
        Err(fault) => Some("Invalid "@ + "local CID"@ + " format: "@ + cid::fault_text(fault)),
        Ok(_) => match cid::number(peer) {
            Err(fault) => Some("Invalid "@ + "peer CID"@ + " format: "@ + cid::fault_text(fault)),
            Ok(_) => None,
        },
    }
}

/// The two CIDs of a message.
pub fn parse_cids(local: &str, peer: &str) -> (r: Result<(u64, u64), String>)
    ensures
        match cid_problem(local@, peer@) {
            Some(problem) => r matches Err(text) && text@ == problem,
            None => r matches Ok(cids) && cid::number(local@) == Ok::<nat, cid::NumberFault>(
                cids.0 as nat,
            ) && cid::number(peer@) == Ok::<nat, cid::NumberFault>(cids.1 as nat),
        },
{
    let local_cid: u64 = match parse_cid(local, "local CID") {
        Ok(n) => n,
        Err(problem) => {
            return Err(problem);
        },
    };
    match parse_cid(peer, "peer CID") {
        Ok(peer_cid) => Ok((local_cid, peer_cid)),
        Err(problem) => Err(problem),
    }
}

/// A media frame on its way to the agent.
pub open spec fn media_payload(
    id: Uuid,
    local: u64,
    peer: u64,
    track: u8,
    kind: u8,
    timestamp: u32,
    flags: u8,
    payload: Vec<u8>,
) -> InternalServicePayload {
    InternalServicePayload::Request(
        InternalServiceRequest::MediaSend {
            request_id: id,
            cid: local,
            peer_cid: peer,
            track,
            kind,
            timestamp,
            flags,
            payload,
        },
    )
}

/// One encoded media frame for a peer, or what is wrong with it. It is sent and forgotten: a frame
/// that cannot be queued is worth dropping.
pub fn send_media_frame(
    local: &str,
    peer: &str,
    track: u8,
    kind: u8,
    timestamp: u32,
    flags: u8,
    payload: Vec<u8>,
    connected: bool,
) -> (r: Result<InternalServicePayload, String>)
    ensures
        match cid_problem(local@, peer@) {
            Some(problem) => r matches Err(text) && text@ == problem,
            None => if connected {
                exists|id: Uuid, cids: (u64, u64)|
                    id.is_random() && cid::number(local@) == Ok::<nat, cid::NumberFault>(
                        cids.0 as nat,
                    ) && cid::number(peer@) == Ok::<nat, cid::NumberFault>(cids.1 as nat) && r
                        == Ok::<_, String>(
                        #[trigger] media_payload(
                            id,
                            cids.0,
                            cids.1,
                            track,
                            kind,
                            timestamp,
                            flags,
                            payload,
                        ),
                    )
            } else {
                r matches Err(text) && text@ == "Client not properly initialized"@
            },
        },
{
    let cids = match parse_cids(local, peer) {
        Ok(cids) => cids,
        Err(problem) => {
            return Err(problem);
        },
    };
    if !connected {
        return Err("Client not properly initialized".to_owned());
    }
    let id = Uuid::new_v4();
    let sent = InternalServicePayload::Request(
        InternalServiceRequest::MediaSend {
            request_id: id,
            cid: cids.0,
            peer_cid: cids.1,
            track,
            kind,
            timestamp,
            flags,
            payload,
        },
    );
    assert(sent == media_payload(id, cids.0, cids.1, track, kind, timestamp, flags, payload));
    Ok(sent)
}

/// A request of the page, on its way to the agent; refused where there is no connection.
pub fn send_direct_to_internal_service(request: InternalServiceRequest, connected: bool) -> (r:
    Result<InternalServicePayload, String>)
    ensures
        connected ==> r == Ok::<_, String>(InternalServicePayload::Request(request)),
        !connected ==> (r matches Err(text) && text@ == "Client not properly initialized"@),
{
    if connected {
        Ok(InternalServicePayload::Request(request))
    } else {
        Err("Client not properly initialized".to_owned())
    }
}

/// The three names are those of their levels; any other name, and none, is the standard level.
pub proof fn law_named_levels(name: Option<Seq<char>>)
    ensures
        named_level(Some("Reinforced"@)) is Reinforced,
        named_level(Some("High"@)) is High,
        named_level(Some("Extreme"@)) is Extreme,
        name != Some("Reinforced"@) && name != Some("High"@) && name != Some("Extreme"@)
            ==> named_level(name) is Standard,
{
    reveal_strlit("Reinforced");
    reveal_strlit("High");
    reveal_strlit("Extreme");
    assert("Reinforced"@.len() == 10);
    assert("High"@.len() == 4);
    assert("Extreme"@.len() == 7);
}

/// The two CIDs of a message are in order exactly where both are numerals; else the first that is
/// not is named, with what is wrong with it.
pub proof fn law_the_first_bad_cid_is_named(local: Seq<char>, peer: Seq<char>)
    ensures
        cid_problem(local, peer) is None <==> cid::number(local) is Ok && cid::number(peer) is Ok,
        cid::number(local) matches Err(fault) ==> cid_problem(local, peer) == Some(
            "Invalid "@ + "local CID"@ + " format: "@ + cid::fault_text(fault),
        ),
        cid::number(peer) matches Err(fault) ==> (cid::number(local) is Ok ==> cid_problem(
            local,
            peer,
        ) == Some("Invalid "@ + "peer CID"@ + " format: "@ + cid::fault_text(fault))),
{
}

/// A media frame goes out as it was given: each of its numbers in its own place, from the local
/// CID to the peer's.
pub proof fn law_a_frame_goes_out_as_given(
    id: Uuid,
    local: u64,
    peer: u64,
    track: u8,
    kind: u8,
    timestamp: u32,
    flags: u8,
    payload: Vec<u8>,
)
    ensures
        media_payload(id, local, peer, track, kind, timestamp, flags, payload) matches InternalServicePayload::Request(
            request,
        ) && request matches InternalServiceRequest::MediaSend {
            request_id,
            cid,
            peer_cid,
            track: sent_track,
            kind: sent_kind,
            timestamp: sent_timestamp,
            flags: sent_flags,
            payload: sent,
        } && request_id == id && cid == local && peer_cid == peer && sent_track == track
            && sent_kind == kind && sent_timestamp == timestamp && sent_flags == flags && sent
            == payload,
{
}

/// A message is between the two CIDs that the page wrote, the local one first, and is refused where
/// either is none.
pub proof fn law_the_two_cids_of_a_message(
    local: &str,
    peer: &str,
    cids: Result<(u64, u64), String>,
)
    requires
        call_ensures(parse_cids, (local, peer), cids),
    ensures
        cids is Ok <==> cid::number(local@) is Ok && cid::number(peer@) is Ok,
        cids matches Ok(pair) ==> cid::number(local@) == Ok::<nat, cid::NumberFault>(pair.0 as nat)
            && cid::number(peer@) == Ok::<nat, cid::NumberFault>(pair.1 as nat),
{
}

/// A request of the page goes to the agent as it is, and only over a connection.
pub proof fn law_a_request_needs_a_connection(
    request: InternalServiceRequest,
    connected: bool,
    sent: Result<InternalServicePayload, String>,
)
    requires
        call_ensures(send_direct_to_internal_service, (request, connected), sent),
    ensures
        sent is Ok <==> connected,
        sent matches Ok(payload) ==> payload == InternalServicePayload::Request(request),
{
}

} // verus!
