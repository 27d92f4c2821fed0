//! The store behind a delivery layer: its queues and values live in the agent's key-value store,
//! and every access is a request to the agent and its answer.

use crate::bytes::copy_bytes;
use crate::messenger::backend_map::Change;
use crate::messenger::tables;
use crate::messenger::tables::{add_awaited, new_awaited, remove_awaited};
use crate::messenger::wire::WrappedMessage;
use crate::text;
use crate::text::{contains, decimal_text, same_text};
use crate::types::ids::Uuid;
use crate::types::payload::InternalServicePayload;
use crate::types::request::InternalServiceRequest;
use crate::types::response::InternalServiceResponse;
use dashmap::DashMap;
use vstd::prelude::*;
use vstd::string::StringExecFns;

verus! {

/// How long the answer to a request is awaited, in milliseconds.
pub const RESPONSE_TIMEOUT_MS: u64 = 5_000;

/// Between two tries at reading a queue, in milliseconds.
pub const RETRY_READ_MS: u64 = 5_000;

/// Why the store failed.
#[derive(Debug, PartialEq, Eq)]
pub enum BackendError {
    StorageError(String),
}

impl BackendError {
    /// What the error says.
    pub open spec fn text(self) -> Seq<char> {
        match self {
            BackendError::StorageError(text) => text@,
        }
    }
}

/// The key under which the store keeps what a client calls `name`.
pub open spec fn storage_key(name: Seq<char>, cid: u64) -> Seq<char> {
    name + "-"@ + text::decimal(cid as nat)
}

/// No two clients share a key, and no two names of one client do.
pub proof fn law_keys_are_distinct(name_a: Seq<char>, a: u64, name_b: Seq<char>, b: u64)
    requires
        storage_key(name_a, a) == storage_key(name_b, b),
    ensures
        name_a == name_b,
        a == b,
{
    reveal_strlit("-");
    let key = storage_key(name_a, a);
    let digits_a = text::decimal(a as nat);
    let digits_b = text::decimal(b as nat);
    text::lemma_decimal_shape(a as nat);
    text::lemma_decimal_shape(b as nat);
    assert forall|j: int| name_a.len() < j < key.len() implies key[j] != '-' by {
        assert(key[j] == digits_a[j - name_a.len() - 1]);
    }
    assert forall|j: int| name_b.len() < j < key.len() implies key[j] != '-' by {
        assert(key[j] == digits_b[j - name_b.len() - 1]);
    }
    text::lemma_last_of(key, '-', name_a.len() as int);
    text::lemma_last_of(key, '-', name_b.len() as int);
    assert(name_a =~= key.take(name_a.len() as int));
    assert(name_b =~= key.take(name_b.len() as int));
    assert(digits_a =~= key.skip(name_a.len() as int + 1));
    assert(digits_b =~= key.skip(name_b.len() as int + 1));
    text::law_decimal_injective(a as nat, b as nat);
}

/// The name of the queue of messages that came in.
pub fn inbound_message_prefix() -> (name: &'static str)
    ensures
        name@ == "inbound_messages"@,
{
    "inbound_messages"
}

/// The name of the queue of messages on their way out.
pub fn outbound_message_prefix() -> (name: &'static str)
    ensures
        name@ == "outbound_messages"@,
{
    "outbound_messages"
}

fn storage_key_text(name: &str, cid: u64) -> (key: String)
    ensures
        key@ == storage_key(name@, cid),
{
    name.to_owned().concat("-").concat(decimal_text(cid).as_str())
}

/// `request` asks for the value that the client `cid` keeps under `name`.
pub open spec fn asks_for(
    request: InternalServiceRequest,
    id: Uuid,
    client: u64,
    name: Seq<char>,
) -> bool {
    &&& request matches InternalServiceRequest::LocalDBGetKV { request_id, cid, peer_cid, key }
    &&& request_id == id
    &&& cid == client
    &&& peer_cid is None
    &&& key@ == storage_key(name, client)
}

/// `request` asks to keep `stored` for the client `cid` under `name`.
pub open spec fn asks_to_keep(
    request: InternalServiceRequest,
    id: Uuid,
    client: u64,
    name: Seq<char>,
    stored: Seq<u8>,
) -> bool {
    &&& request matches InternalServiceRequest::LocalDBSetKV {
        request_id,
        cid,
        peer_cid,
        key,
        value,
    }
    &&& request_id == id
    &&& cid == client
    &&& peer_cid is None
    &&& key@ == storage_key(name, client)
    &&& value@ == stored
}

/// The request for a value.
pub fn get_request(cid: u64, name: &str, request_id: Uuid) -> (request: InternalServiceRequest)
    ensures
        asks_for(request, request_id, cid, name@),
{
    InternalServiceRequest::LocalDBGetKV {
        request_id,
        cid,
        peer_cid: None,
        key: storage_key_text(name, cid),
    }
}

/// The request to keep a value.
pub fn set_request(cid: u64, name: &str, request_id: Uuid, value: Vec<u8>) -> (request:
    InternalServiceRequest)
    ensures
        asks_to_keep(request, request_id, cid, name@, value@),
{
    InternalServiceRequest::LocalDBSetKV {
        request_id,
        cid,
        peer_cid: None,
        key: storage_key_text(name, cid),
        value,
    }
}

/// The error where a request could not be handed to the messenger: `problem` says why.
pub fn send_failed(problem: &str) -> (error: BackendError)
    ensures
        error.text() == "Failed to send bypass message: "@ + problem@,
{
    BackendError::StorageError("Failed to send bypass message: ".to_owned().concat(problem))
}

/// What the answer to a request for a queue means.
#[derive(Debug, PartialEq, Eq)]
pub enum MapRead {
    /// The queue, in bytes.
    Value(Vec<u8>),
    /// There is no such queue yet: an empty one is to be written.
    Absent,
    Failed(BackendError),
}

/// What the answer to a request for the queue `prefix` means. No answer is not an empty queue,
/// and only an agent that says that it does not know the key makes a new one.
pub fn map_read(prefix: &str, answer: Option<InternalServiceResponse>) -> (read: MapRead)
    ensures
        match answer {
            Some(InternalServiceResponse::LocalDBGetKVSuccess(found)) => read == MapRead::Value(
                found.value,
            ),
            Some(InternalServiceResponse::LocalDBGetKVFailure(failure)) => if failure.message@
                == "Key not found"@ {
                read is Absent
            } else {
                read matches MapRead::Failed(error) && error.text() == "Failed to get "@ + prefix@
                    + " map: "@ + failure.message@
            },
            Some(_) => read matches MapRead::Failed(error) && error.text()
                == "Unexpected response when getting "@ + prefix@ + " map"@,
            None => read matches MapRead::Failed(error) && error.text()
                == "Timed out reading the "@ + prefix@
                + " map; refusing to treat that as an empty queue"@,
        },
{
    match answer {
        Some(InternalServiceResponse::LocalDBGetKVSuccess(found)) => MapRead::Value(found.value),
        Some(InternalServiceResponse::LocalDBGetKVFailure(failure)) => {
            if same_text(failure.message.as_str(), "Key not found") {
                MapRead::Absent
            } else {
                MapRead::Failed(
                    BackendError::StorageError(
                        "Failed to get ".to_owned().concat(prefix).concat(" map: ").concat(
                            failure.message.as_str(),
                        ),
                    ),
                )
            }
        },
        Some(_) => MapRead::Failed(
            BackendError::StorageError(
                "Unexpected response when getting ".to_owned().concat(prefix).concat(" map"),
            ),
        ),
        None => MapRead::Failed(
            BackendError::StorageError(
                "Timed out reading the ".to_owned().concat(prefix).concat(
                    " map; refusing to treat that as an empty queue",
                ),
            ),
        ),
    }
}

/// Where reading a queue stands.
#[derive(Debug, Clone, Copy, PartialEq, Eq, Structural)]
pub enum ReadPhase {
    /// The queue has been asked for.
    Asked,
    /// There was none, and an empty one has been written.
    Initializing,
}

/// How reading a queue goes on.
#[derive(PartialEq, Eq)]
pub enum ReadStep {
    /// The queue is in these bytes.
    Decode(Vec<u8>),
    /// Send this, and come back with the answer.
    Send(InternalServiceRequest),
    /// The queue is there, and empty.
    Empty,
    Failed(BackendError),
}

/// How reading the queue `prefix` of the client `cid` goes on after an answer, or after none
/// came. `empty` is an empty queue in bytes, and `fresh` the identifier of the request that
/// writes it where there is no queue yet.
pub fn get_map(
    phase: ReadPhase,
    cid: u64,
    prefix: &str,
    answer: Option<InternalServiceResponse>,
    fresh: Uuid,
    empty: Vec<u8>,
) -> (step: ReadStep)
    ensures
        match phase {
            ReadPhase::Asked => match answer {
                Some(InternalServiceResponse::LocalDBGetKVSuccess(found)) => step
                    == ReadStep::Decode(found.value),
                Some(InternalServiceResponse::LocalDBGetKVFailure(failure)) => if failure.message@
                    == "Key not found"@ {
                    step matches ReadStep::Send(request) && asks_to_keep(
                        request,
                        fresh,
                        cid,
                        prefix@,
                        empty@,
                    )
                } else {
                    step matches ReadStep::Failed(error) && error.text() == "Failed to get "@
                        + prefix@ + " map: "@ + failure.message@
                },
                Some(_) => step matches ReadStep::Failed(error) && error.text()
                    == "Unexpected response when getting "@ + prefix@ + " map"@,
                None => step matches ReadStep::Failed(error) && error.text()
                    == "Timed out reading the "@ + prefix@
                    + " map; refusing to treat that as an empty queue"@,
            },
            ReadPhase::Initializing => match answer {
                Some(InternalServiceResponse::LocalDBSetKVSuccess(_)) => step is Empty,
                Some(_) => step matches ReadStep::Failed(error) && error.text()
                    == "Failed to initialize "@ + prefix@ + " map"@,
                None => step matches ReadStep::Failed(error) && error.text()
                    == "Timed out initializing the "@ + prefix@ + " map; it may not exist"@,
            },
        },
{
    match phase {
        ReadPhase::Asked => match map_read(prefix, answer) {
            MapRead::Value(bytes) => ReadStep::Decode(bytes),
            MapRead::Absent => ReadStep::Send(set_request(cid, prefix, fresh, empty)),
            MapRead::Failed(error) => ReadStep::Failed(error),
        },
        ReadPhase::Initializing => match map_initialized(prefix, answer) {
            Ok(_) => ReadStep::Empty,
            Err(error) => ReadStep::Failed(error),
        },
    }
}

/// The error where the bytes of the queue `prefix` could not be read: `problem` says why.
pub fn map_unreadable(prefix: &str, problem: &str) -> (error: BackendError)
    ensures
        error.text() == "Failed to deserialize "@ + prefix@ + " map: "@ + problem@,
{
    BackendError::StorageError(
        "Failed to deserialize ".to_owned().concat(prefix).concat(" map: ").concat(problem),
    )
}

/// The error where the queue `prefix` could not be turned into bytes: `problem` says why.
pub fn map_unwritable(prefix: &str, problem: &str) -> (error: BackendError)
    ensures
        error.text() == "Failed to serialize "@ + prefix@ + " map: "@ + problem@,
{
    BackendError::StorageError(
        "Failed to serialize ".to_owned().concat(prefix).concat(" map: ").concat(problem),
    )
}

/// Whether the new queue `prefix` is there: only where the agent says that it was written.
pub fn map_initialized(prefix: &str, answer: Option<InternalServiceResponse>) -> (done: Result<
    (),
    BackendError,
>)
    ensures
        match answer {
            Some(InternalServiceResponse::LocalDBSetKVSuccess(_)) => done is Ok,
            Some(_) => done matches Err(error) && error.text() == "Failed to initialize "@
                + prefix@ + " map"@,
            None => done matches Err(error) && error.text() == "Timed out initializing the "@
                + prefix@ + " map; it may not exist"@,
        },
{
    match answer {
        Some(InternalServiceResponse::LocalDBSetKVSuccess(_)) => Ok(()),
        Some(_) => Err(
            BackendError::StorageError(
                "Failed to initialize ".to_owned().concat(prefix).concat(" map"),
            ),
        ),
        None => Err(
            BackendError::StorageError(
                "Timed out initializing the ".to_owned().concat(prefix).concat(
                    " map; it may not exist",
                ),
            ),
        ),
    }
}

/// Whether a change of the queue `prefix` is stored: only where the agent acknowledges it.
pub fn map_updated(prefix: &str, answer: Option<InternalServiceResponse>) -> (done: Result<
    (),
    BackendError,
>)
    ensures
        match answer {
            Some(InternalServiceResponse::LocalDBSetKVSuccess(_)) => done is Ok,
            Some(_) => done matches Err(error) && error.text() == "Failed to write "@ + prefix@
                + " map"@,
            None => done matches Err(error) && error.text() == "Timed out writing the "@ + prefix@
                + " map; the change may not be stored"@,
        },
{
    match answer {
        Some(InternalServiceResponse::LocalDBSetKVSuccess(_)) => Ok(()),
        Some(_) => Err(
            BackendError::StorageError("Failed to write ".to_owned().concat(prefix).concat(" map")),
        ),
        None => Err(
            BackendError::StorageError(
                "Timed out writing the ".to_owned().concat(prefix).concat(
                    " map; the change may not be stored",
                ),
            ),
        ),
    }
}

/// Whether the value `key` is stored: only where the agent acknowledges it.
pub fn value_stored(key: &str, answer: Option<InternalServiceResponse>) -> (done: Result<
    (),
    BackendError,
>)
    ensures
        match answer {
            Some(InternalServiceResponse::LocalDBSetKVSuccess(_)) => done is Ok,
            Some(_) => done matches Err(error) && error.text()
                == "Failed to store the value for key="@ + key@,
            None => done matches Err(error) && error.text()
                == "Timed out storing the value for key="@ + key@ + "; it may not be stored"@,
        },
{
    match answer {
        Some(InternalServiceResponse::LocalDBSetKVSuccess(_)) => Ok(()),
        Some(_) => Err(
            BackendError::StorageError("Failed to store the value for key=".to_owned().concat(key)),
        ),
        None => Err(
            BackendError::StorageError(
                "Timed out storing the value for key=".to_owned().concat(key).concat(
                    "; it may not be stored",
                ),
            ),
        ),
    }
}

/// The value that the answer to a request holds; none where there is no answer or it says
/// anything else.
pub fn value_loaded(answer: Option<InternalServiceResponse>) -> (value: Option<Vec<u8>>)
    ensures
        value == match answer {
            Some(InternalServiceResponse::LocalDBGetKVSuccess(found)) => Some(found.value),
            _ => None,
        },
{
    match answer {
        Some(InternalServiceResponse::LocalDBGetKVSuccess(found)) => Some(found.value),
        _ => None,
    }
}

/// What a batch was answered.
pub fn batch_answered(answer: Option<InternalServiceResponse>) -> (results: Result<
    Vec<InternalServiceResponse>,
    BackendError,
>)
    ensures
        match answer {
            Some(InternalServiceResponse::BatchedResponse(batch)) => results
                == Ok::<_, BackendError>(batch.results),
            Some(_) => results matches Err(error) && error.text()
                == "Unexpected response type for batched request"@,
            None => results matches Err(error) && error.text()
                == "Timeout waiting for batched response"@,
        },
{
    match answer {
        Some(InternalServiceResponse::BatchedResponse(batch)) => Ok(batch.results),
        Some(_) => Err(
            BackendError::StorageError(
                "Unexpected response type for batched request".to_owned(),
            ),
        ),
        None => Err(
            BackendError::StorageError("Timeout waiting for batched response".to_owned()),
        ),
    }
}

/// One request for several commands; nothing is to be sent where there are none.
pub fn batch_request(commands: Vec<InternalServiceRequest>, request_id: Uuid) -> (request: Option<
    InternalServiceRequest,
>)
    ensures
        request == if commands@.len() == 0 {
            None
        } else {
            Some(InternalServiceRequest::Batched { request_id, commands })
        },
{
    if commands.len() == 0 {
        None
    } else {
        Some(InternalServiceRequest::Batched { request_id, commands })
    }
}

/// The requests for several values, in the order of the names, each with an identifier of its
/// own.
pub fn get_requests(cid: u64, names: &Vec<String>) -> (requests: Vec<InternalServiceRequest>)
    ensures
        requests@.len() == names@.len(),
        forall|i: int|
            0 <= i < names@.len() ==> (#[trigger] requests@[i]).id().is_random() && asks_for(
                requests@[i],
                requests@[i].id(),
                cid,
                names@[i]@,
            ),
{
    let mut requests: Vec<InternalServiceRequest> = Vec::new();
    let mut i: usize = 0;
    while i < names.len()
        invariant
            i <= names.len(),
            requests@.len() == i,
            forall|j: int|
                0 <= j < i ==> (#[trigger] requests@[j]).id().is_random() && asks_for(
                    requests@[j],
                    requests@[j].id(),
                    cid,
                    names@[j]@,
                ),
        decreases names.len() - i,
    {
        requests.push(get_request(cid, names[i].as_str(), Uuid::new_v4()));
        i = i + 1;
    }
    requests
}

/// The requests to keep several values, in their order, each with an identifier of its own.
pub fn set_requests(cid: u64, entries: &Vec<(String, Vec<u8>)>) -> (requests: Vec<
    InternalServiceRequest,
>)
    ensures
        requests@.len() == entries@.len(),
        forall|i: int|
            0 <= i < entries@.len() ==> (#[trigger] requests@[i]).id().is_random() && asks_to_keep(
                requests@[i],
                requests@[i].id(),
                cid,
                entries@[i].0@,
                entries@[i].1@,
            ),
{
    let mut requests: Vec<InternalServiceRequest> = Vec::new();
    let mut i: usize = 0;
    while i < entries.len()
        invariant
            i <= entries.len(),
            requests@.len() == i,
            forall|j: int|
                0 <= j < i ==> (#[trigger] requests@[j]).id().is_random() && asks_to_keep(
                    requests@[j],
                    requests@[j].id(),
                    cid,
                    entries@[j].0@,
                    entries@[j].1@,
                ),
        decreases entries.len() - i,
    {
        requests.push(
            set_request(
                cid,
                entries[i].0.as_str(),
                Uuid::new_v4(),
                copy_bytes(&entries[i].1),
            ),
        );
        i = i + 1;
    }
    requests
}

/// The value in one answer of a batch.
pub open spec fn value_in(answer: InternalServiceResponse) -> Option<Seq<u8>> {
    match answer {
        InternalServiceResponse::LocalDBGetKVSuccess(found) => Some(found.value@),
        _ => None,
    }
}

/// The values in the answers of a batch, in their order; none where an answer says anything
/// else.
pub fn values_loaded(answers: Vec<InternalServiceResponse>) -> (values: Vec<Option<Vec<u8>>>)
    ensures
        values@.len() == answers@.len(),
        forall|i: int|
            0 <= i < values@.len() ==> match #[trigger] values@[i] {
                Some(value) => value_in(answers@[i]) == Some(value@),
                None => value_in(answers@[i]) is None,
            },
{
    let mut values: Vec<Option<Vec<u8>>> = Vec::new();
    let mut i: usize = 0;
    while i < answers.len()
        invariant
            i <= answers.len(),
            values@.len() == i,
            forall|j: int|
                0 <= j < i ==> match #[trigger] values@[j] {
                    Some(value) => value_in(answers@[j]) == Some(value@),
                    None => value_in(answers@[j]) is None,
                },
        decreases answers.len() - i,
    {
        match &answers[i] {
            InternalServiceResponse::LocalDBGetKVSuccess(found) => {
                values.push(Some(copy_bytes(&found.value)));
            },
            _ => {
                values.push(None);
            },
        }
        i = i + 1;
    }
    values
}

/// Why a batch of values is not stored.
#[derive(Debug, Clone, Copy, PartialEq, Eq, Structural)]
pub enum BatchProblem {
    /// The answer at this place acknowledges nothing.
    Unacknowledged(usize),
    /// There are more or fewer answers than values.
    Count { expected: usize, got: usize },
}

/// The answer acknowledges that a value is stored.
pub open spec fn acknowledges(answer: InternalServiceResponse) -> bool {
    answer is LocalDBSetKVSuccess
}

/// Whether every value of a batch of `expected` is stored: each answer must acknowledge, and
/// there must be one for each value. The first value whose answer does not is the problem.
pub fn batch_stored(expected: usize, answers: &Vec<InternalServiceResponse>) -> (stored: Result<
    (),
    BatchProblem,
>)
    ensures
        match stored {
            Ok(_) => answers@.len() == expected && forall|i: int|
                0 <= i < expected ==> acknowledges(#[trigger] answers@[i]),
            Err(BatchProblem::Unacknowledged(at)) => at < expected && at < answers@.len()
                && !acknowledges(answers@[at as int]) && forall|i: int|
                0 <= i < at ==> acknowledges(#[trigger] answers@[i]),
            Err(BatchProblem::Count { expected: e, got }) => e == expected && got == answers@.len()
                && got != expected && forall|i: int|
                0 <= i < expected && i < got ==> acknowledges(#[trigger] answers@[i]),
        },
{
    let mut i: usize = 0;
    while i < answers.len() && i < expected
        invariant
            i <= answers.len(),
            i <= expected,
            forall|j: int| 0 <= j < i ==> acknowledges(#[trigger] answers@[j]),
        decreases answers.len() - i,
    {
        match &answers[i] {
            InternalServiceResponse::LocalDBSetKVSuccess(_) => {},
            _ => {
                return Err(BatchProblem::Unacknowledged(i));
            },
        }
        i = i + 1;
    }
    if answers.len() != expected {
        return Err(BatchProblem::Count { expected, got: answers.len() });
    }
    Ok(())
}

/// The error where the answer for `key` acknowledges nothing; `described` describes the answer.
pub fn batch_unacknowledged(key: &str, described: &str) -> (error: BackendError)
    ensures
        error.text() == "Batched store for key="@ + key@ + " was not acknowledged: "@ + described@,
{
    BackendError::StorageError(
        "Batched store for key=".to_owned().concat(key).concat(" was not acknowledged: ").concat(
            described,
        ),
    )
}

/// The error where a batch has more or fewer answers than values.
pub fn batch_miscounted(expected: usize, got: usize) -> (error: BackendError)
    ensures
        error.text() == "Batched store expected "@ + text::decimal(expected as nat)
            + " acknowledgements, got "@ + text::decimal(got as nat),
{
    BackendError::StorageError(
        "Batched store expected ".to_owned().concat(decimal_text(expected as u64).as_str()).concat(
            " acknowledgements, got ",
        ).concat(decimal_text(got as u64).as_str()),
    )
}

/// Whether reading a queue is worth another try after a while: the error says that there is no
/// connection yet.
pub fn retry_read(error: &str) -> (again: bool)
    ensures
        again == (text::has_part(error@, "Failed to deliver message"@) || text::has_part(
            error@,
            "get_kv: Server connection not found"@,
        )),
{
    contains(error, "Failed to deliver message") || contains(
        error,
        "get_kv: Server connection not found",
    )
}

/// The identifier under which a message is stored: that of the request it holds, or a new one.
pub fn store_request_id(message: &WrappedMessage) -> (id: Uuid)
    ensures
        match message.contents {
            InternalServicePayload::Request(request) => id == request.id(),
            InternalServicePayload::Response(_) => id.is_random(),
        },
{
    match &message.contents {
        InternalServicePayload::Request(request) => match request.request_id() {
            Some(id) => *id,
            None => Uuid { bits: 0 },
        },
        InternalServicePayload::Response(_) => Uuid::new_v4(),
    }
}

/// The change that keeps a message on its way out, under the peer that it is for.
pub fn store_outbound(message: WrappedMessage) -> (change: Change)
    ensures
        change == (Change::Store {
            peer: message.destination_id,
            message_id: message.message_id,
            message,
        }),
{
    Change::Store { peer: message.destination_id, message_id: message.message_id, message }
}

/// The change that keeps a message that came in, under the peer that it is from.
pub fn store_inbound(message: WrappedMessage) -> (change: Change)
    ensures
        change == (Change::Store {
            peer: message.source_id,
            message_id: message.message_id,
            message,
        }),
{
    Change::Store { peer: message.source_id, message_id: message.message_id, message }
}

/// The change that keeps a message that came in no longer.
pub fn clear_message_inbound(peer: u64, message_id: u64) -> (change: Change)
    ensures
        change == (Change::Clear { peer, message_id }),
{
    Change::Clear { peer, message_id }
}

/// The change that keeps a message on its way out no longer.
pub fn clear_message_outbound(peer: u64, message_id: u64) -> (change: Change)
    ensures
        change == (Change::Clear { peer, message_id }),
{
    Change::Clear { peer, message_id }
}

/// The one change that keeps several messages on their way out no longer: an acknowledgement
/// covers everything before it. Where there are none, nothing is to be read or written.
pub fn clear_messages_outbound(peer: u64, message_ids: Vec<u64>) -> (change: Option<Change>)
    ensures
        change == if message_ids@.len() == 0 {
            None
        } else {
            Some(Change::ClearMany { peer, message_ids })
        },
{
    if message_ids.len() == 0 {
        None
    } else {
        Some(Change::ClearMany { peer, message_ids })
    }
}

/// What a backend makes of a response.
#[derive(PartialEq, Eq)]
pub enum Inspected {
    /// It is for whoever waits for the answer to its request.
    Awaited(InternalServiceResponse),
    /// It is for somebody else.
    NotOurs(InternalServiceResponse),
}

/// The backend of one client: the requests whose answers it waits for.
pub struct CitadelWorkspaceBackend {
    cid: u64,
    expected_requests: DashMap<u128, ()>,
}

impl CitadelWorkspaceBackend {
    /// The client whose backend this is.
    pub closed spec fn client(self) -> u64 {
        self.cid
    }

    /// The client whose backend this is.
    pub fn cid(&self) -> (cid: u64)
        ensures
            cid == self.client(),
    {
        self.cid
    }

    /// The identifiers of the requests whose answers are awaited.
    pub closed spec fn expected(self) -> Set<u128> {
        tables::awaited(self.expected_requests)
    }

    /// The backend of `cid`, which waits for nothing.
    pub fn new(cid: u64) -> (backend: Self)
        ensures
            backend.client() == cid,
            backend.expected() == Set::<u128>::empty(),
    {
        CitadelWorkspaceBackend { cid, expected_requests: new_awaited() }
    }

    /// The answer to this request is awaited from now on.
    pub fn add_expected_request(&mut self, request_id: Uuid)
        ensures
            final(self).client() == old(self).client(),
            final(self).expected() == old(self).expected().insert(request_id.bits),
    {
        add_awaited(&mut self.expected_requests, request_id.bits);
    }

    /// The answer to this request did not come in time, and is awaited no longer.
    pub fn give_up_on(&mut self, request_id: Uuid)
        ensures
            final(self).client() == old(self).client(),
            final(self).expected() == old(self).expected().remove(request_id.bits),
    {
        let _ = remove_awaited(&mut self.expected_requests, request_id.bits);
    }

    /// Whose a response is: an answer that is awaited is taken, and is awaited no longer.
    pub fn inspect_received_payload(&mut self, response: InternalServiceResponse) -> (inspected:
        Inspected)
        ensures
            final(self).client() == old(self).client(),
            if response.answered() is Some && old(self).expected().contains(
                response.answered()->0.bits,
            ) {
                &&& inspected == Inspected::Awaited(response)
                &&& final(self).expected() == old(self).expected().remove(
                    response.answered()->0.bits,
                )
            } else {
                &&& inspected == Inspected::NotOurs(response)
                &&& final(self).expected() == old(self).expected()
            },
            response matches InternalServiceResponse::LocalDBGetKVSuccess(data) ==> inspected
                is Awaited == (data.request_id is Some && old(self).expected().contains(
                data.request_id->0.bits,
            )),
            response matches InternalServiceResponse::LocalDBGetKVFailure(data) ==> inspected
                is Awaited == (data.request_id is Some && old(self).expected().contains(
                data.request_id->0.bits,
            )),
            response matches InternalServiceResponse::LocalDBSetKVSuccess(data) ==> inspected
                is Awaited == (data.request_id is Some && old(self).expected().contains(
                data.request_id->0.bits,
            )),
            response matches InternalServiceResponse::LocalDBSetKVFailure(data) ==> inspected
                is Awaited == (data.request_id is Some && old(self).expected().contains(
                data.request_id->0.bits,
            )),
            response matches InternalServiceResponse::BatchedResponse(data) ==> inspected
                is Awaited == (data.request_id is Some && old(self).expected().contains(
                data.request_id->0.bits,
            )),
    {
        let id: Option<u128> = match response.request_id() {
            Some(id) => Some(id.bits),
            None => None,
        };
        match id {
            Some(bits) => {
                if remove_awaited(&mut self.expected_requests, bits) {
                    return Inspected::Awaited(response);
                }
                assert(self.expected() =~= old(self).expected());
            },
            None => {},
        }
        Inspected::NotOurs(response)
    }
}

/// What an error says is the text that it holds.
pub proof fn law_an_error_says_its_text(error: BackendError)
    ensures
        match error {
            BackendError::StorageError(said) => error.text() == said@,
        },
{
}

/// A key is the name, a hyphen and the client's CID in decimal.
pub proof fn law_a_key_is_made_of_name_and_client(name: Seq<char>, cid: u64)
    ensures
        storage_key(name, cid).take(name.len() as int) == name,
        storage_key(name, cid)[name.len() as int] == '-',
        storage_key(name, cid).skip(name.len() as int + 1) == text::decimal(cid as nat),
{
    reveal_strlit("-");
    let key = storage_key(name, cid);
    assert(key.take(name.len() as int) =~= name);
    assert(key.skip(name.len() as int + 1) =~= text::decimal(cid as nat));
}

/// A request for a value is one of its client, for that client's own key, with no peer, under the
/// given identifier; a request to keep one holds the value besides.
pub proof fn law_requests_are_of_their_client(
    request: InternalServiceRequest,
    id: Uuid,
    client: u64,
    name: Seq<char>,
    stored: Seq<u8>,
)
    ensures
        asks_for(request, id, client, name) ==> request is LocalDBGetKV && request.id() == id
            && request->LocalDBGetKV_cid == client && request->LocalDBGetKV_peer_cid is None
            && request->LocalDBGetKV_key@ == name + "-"@ + text::decimal(client as nat),
        asks_to_keep(request, id, client, name, stored) ==> request is LocalDBSetKV && request.id()
            == id && request->LocalDBSetKV_cid == client && request->LocalDBSetKV_peer_cid is None
            && request->LocalDBSetKV_key@ == name + "-"@ + text::decimal(client as nat)
            && request->LocalDBSetKV_value@ == stored,
{
}

/// An answer of a batch has a value exactly where it says that one was found, and then that value;
/// it acknowledges a value exactly where it says that it was kept.
pub proof fn law_answers_of_a_batch(answer: InternalServiceResponse)
    ensures
        answer matches InternalServiceResponse::LocalDBGetKVSuccess(found) ==> value_in(answer)
            == Some(found.value@),
        value_in(answer) is Some <==> answer is LocalDBGetKVSuccess,
        acknowledges(answer) <==> answer is LocalDBSetKVSuccess,
{
}

/// An answer is awaited for five seconds, and a queue that could not be read is tried again after
/// as long.
pub proof fn law_how_long_the_store_may_take()
    ensures
        RESPONSE_TIMEOUT_MS == 5_000,
        RETRY_READ_MS == 5_000,
{
}

/// A queue is read only from an answer that holds one, and taken for absent only where the agent
/// says that it does not know the key: no answer, and any other, is a failure, never an empty
/// queue.
pub proof fn law_no_answer_is_no_empty_queue(
    prefix: &str,
    answer: Option<InternalServiceResponse>,
    read: MapRead,
)
    requires
        call_ensures(map_read, (prefix, answer), read),
    ensures
        answer is None ==> read is Failed,
        read is Absent <==> (answer matches Some(InternalServiceResponse::LocalDBGetKVFailure(said))
            && said.message@ == "Key not found"@),
        read is Value <==> answer is Some && answer->0 is LocalDBGetKVSuccess,
        answer matches Some(InternalServiceResponse::LocalDBGetKVSuccess(found)) ==> read
            == MapRead::Value(found.value),
{
}

/// A change, a new queue and a value are stored exactly where the agent acknowledges it: nothing
/// else, and no answer at all, counts as success.
pub proof fn law_only_an_acknowledged_write_is_stored(
    name: &str,
    answer: Option<InternalServiceResponse>,
    initialized: Result<(), BackendError>,
    updated: Result<(), BackendError>,
    kept: Result<(), BackendError>,
)
    requires
        call_ensures(map_initialized, (name, answer), initialized),
        call_ensures(map_updated, (name, answer), updated),
        call_ensures(value_stored, (name, answer), kept),
    ensures
        initialized is Ok <==> answer is Some && answer->0 is LocalDBSetKVSuccess,
        updated is Ok <==> answer is Some && answer->0 is LocalDBSetKVSuccess,
        kept is Ok <==> answer is Some && answer->0 is LocalDBSetKVSuccess,
{
}

/// A value is loaded exactly where the answer says that one was found, and then that value; and a
/// batch is answered exactly where the answer is that of a batch, and then as it was.
pub proof fn law_what_answers_hold(
    answer: Option<InternalServiceResponse>,
    value: Option<Vec<u8>>,
    results: Result<Vec<InternalServiceResponse>, BackendError>,
)
    requires
        call_ensures(value_loaded, (answer,), value),
        call_ensures(batch_answered, (answer,), results),
    ensures
        value is Some <==> answer is Some && answer->0 is LocalDBGetKVSuccess,
        answer matches Some(InternalServiceResponse::LocalDBGetKVSuccess(found)) ==> value == Some(
            found.value,
        ),
        results is Ok <==> answer is Some && answer->0 is BatchedResponse,
        answer matches Some(InternalServiceResponse::BatchedResponse(batch)) ==> results
            == Ok::<_, BackendError>(batch.results),
{
}

/// Where there is no queue an empty one is written, for the same client and under the same name,
/// before the queue counts as empty.
pub proof fn law_an_absent_queue_is_written_first(
    phase: ReadPhase,
    cid: u64,
    prefix: &str,
    answer: Option<InternalServiceResponse>,
    fresh: Uuid,
    empty: Vec<u8>,
    step: ReadStep,
)
    requires
        call_ensures(get_map, (phase, cid, prefix, answer, fresh, empty), step),
    ensures
        step is Empty <==> phase is Initializing && answer is Some && answer->0
            is LocalDBSetKVSuccess,
        step matches ReadStep::Send(request) ==> phase is Asked && asks_to_keep(
            request,
            fresh,
            cid,
            prefix@,
            empty@,
        ),
        step is Decode <==> phase is Asked && answer is Some && answer->0 is LocalDBGetKVSuccess,
        answer is None ==> step is Failed,
{
}

/// What is asked for is asked for by the client itself, each thing under the key of its own name.
pub proof fn law_what_is_asked_for(
    cid: u64,
    name: &str,
    request_id: Uuid,
    value: Vec<u8>,
    get: InternalServiceRequest,
    set: InternalServiceRequest,
)
    requires
        call_ensures(get_request, (cid, name, request_id), get),
        call_ensures(set_request, (cid, name, request_id, value), set),
    ensures
        get is LocalDBGetKV,
        get.id() == request_id,
        get->LocalDBGetKV_cid == cid,
        get->LocalDBGetKV_peer_cid is None,
        get->LocalDBGetKV_key@ == name@ + "-"@ + text::decimal(cid as nat),
        set is LocalDBSetKV,
        set.id() == request_id,
        set->LocalDBSetKV_cid == cid,
        set->LocalDBSetKV_peer_cid is None,
        set->LocalDBSetKV_key@ == get->LocalDBGetKV_key@,
        set->LocalDBSetKV_value@ == value@,
{
}

/// Several commands go out together, in their order, under one identifier, and none go out as
/// nothing.
pub proof fn law_commands_go_out_together(
    commands: Vec<InternalServiceRequest>,
    request_id: Uuid,
    request: Option<InternalServiceRequest>,
)
    requires
        call_ensures(batch_request, (commands, request_id), request),
    ensures
        request is None <==> commands@.len() == 0,
        request is Some ==> request->0 == (InternalServiceRequest::Batched {
            request_id,
            commands,
        }),
{
}

/// A batch is stored exactly where there is one answer for each value and every one acknowledges.
pub proof fn law_a_batch_is_stored_as_a_whole(
    expected: usize,
    answers: Vec<InternalServiceResponse>,
    stored: Result<(), BatchProblem>,
)
    requires
        call_ensures(batch_stored, (expected, &answers), stored),
    ensures
        stored is Ok <==> answers@.len() == expected && forall|i: int|
            0 <= i < answers@.len() ==> (#[trigger] answers@[i]) is LocalDBSetKVSuccess,
        stored matches Err(BatchProblem::Unacknowledged(at)) ==> answers@[at as int]
            !is LocalDBSetKVSuccess && forall|i: int|
            0 <= i < at ==> (#[trigger] answers@[i]) is LocalDBSetKVSuccess,
{
    if stored is Ok {
        assert forall|i: int| 0 <= i < answers@.len() implies (#[trigger] answers@[i])
            is LocalDBSetKVSuccess by {
            assert(acknowledges(answers@[i]));
        }
    }
    if let Err(BatchProblem::Unacknowledged(at)) = stored {
        assert forall|i: int| 0 <= i < at implies (#[trigger] answers@[i])
            is LocalDBSetKVSuccess by {
            assert(acknowledges(answers@[i]));
        }
    }
}

/// A message on its way out is kept under the peer that it is for, one that came in under the peer
/// that it is from, each by its number and as it is.
pub proof fn law_under_whom_a_message_is_kept(
    message: WrappedMessage,
    sent: Change,
    came: Change,
)
    requires
        call_ensures(store_outbound, (message,), sent),
        call_ensures(store_inbound, (message,), came),
    ensures
        sent == (Change::Store {
            peer: message.destination_id,
            message_id: message.message_id,
            message,
        }),
        came == (Change::Store {
            peer: message.source_id,
            message_id: message.message_id,
            message,
        }),
{
}

/// A message that was kept is gone after its own clear, and only that one: the clear of a message
/// names its peer and its number, and that of several names them all.
pub proof fn law_what_is_cleared(
    peer: u64,
    message_id: u64,
    message_ids: Vec<u64>,
    came: Change,
    sent: Change,
    many: Option<Change>,
)
    requires
        call_ensures(clear_message_inbound, (peer, message_id), came),
        call_ensures(clear_message_outbound, (peer, message_id), sent),
        call_ensures(clear_messages_outbound, (peer, message_ids), many),
    ensures
        came == (Change::Clear { peer, message_id }),
        sent == (Change::Clear { peer, message_id }),
        many is None <==> message_ids@.len() == 0,
        many is Some ==> many->0 == (Change::ClearMany { peer, message_ids }),
{
}

/// Reading a queue is tried again only where the error says that there is no connection yet,
/// wherever in its text.
pub proof fn law_when_reading_is_tried_again(error: &str, again: bool, a: Seq<char>, b: Seq<char>)
    requires
        call_ensures(retry_read, (error,), again),
    ensures
        error@ == a + "Failed to deliver message"@ + b ==> again,
        error@ == a + "get_kv: Server connection not found"@ + b ==> again,
        again ==> exists|before: Seq<char>, behind: Seq<char>|
            error@ == #[trigger] (before + "Failed to deliver message"@ + behind) || error@
                == before + "get_kv: Server connection not found"@ + behind,
{
    let one = "Failed to deliver message"@;
    let other = "get_kv: Server connection not found"@;
    text::law_parts(error@, one, a, b);
    text::law_parts(error@, other, a, b);
    if again {
        if text::has_part(error@, one) {
            let (before, behind) = choose|before: Seq<char>, behind: Seq<char>|
                error@ == #[trigger] (before + one + behind);
            assert(error@ == before + one + behind);
        } else {
            let (before, behind) = choose|before: Seq<char>, behind: Seq<char>|
                error@ == #[trigger] (before + other + behind);
            let shown = before + one + behind;
            assert(error@ == before + other + behind);
        }
    }
}

/// The answer to a request that a backend waits for is taken by it, once: a backend that expects a
/// request takes the first response whose data names that request, and passes any later one.
pub proof fn law_an_awaited_answer_is_taken_once(
    request_id: Uuid,
    response: InternalServiceResponse,
    again: InternalServiceResponse,
)
    requires
        response.answered() == Some(request_id),
        again.answered() == Some(request_id),
    ensures
        forall|
            backend: &mut CitadelWorkspaceBackend,
            waiting: &mut CitadelWorkspaceBackend,
            served: &mut CitadelWorkspaceBackend,
            first: Inspected,
            second: Inspected,
        |
            #![trigger call_ensures(CitadelWorkspaceBackend::add_expected_request, (backend, request_id), ()), call_ensures(CitadelWorkspaceBackend::inspect_received_payload, (waiting, response), first), call_ensures(CitadelWorkspaceBackend::inspect_received_payload, (served, again), second)]
            call_ensures(
                CitadelWorkspaceBackend::add_expected_request,
                (backend, request_id),
                (),
            ) && *waiting == *final(backend) && call_ensures(
                CitadelWorkspaceBackend::inspect_received_payload,
                (waiting, response),
                first,
            ) && *served == *final(waiting) && call_ensures(
                CitadelWorkspaceBackend::inspect_received_payload,
                (served, again),
                second,
            ) ==> first == Inspected::Awaited(response) && second == Inspected::NotOurs(again)
                && final(served).client() == backend.client(),
{
}

/// A value that a backend has asked for is taken by it: the answer names the request in its own
/// data.
pub proof fn law_a_value_that_was_asked_for_is_taken(
    request_id: Uuid,
    found: crate::types::local_db::LocalDBGetKVSuccess,
)
    requires
        found.request_id == Some(request_id),
    ensures
        forall|
            backend: &mut CitadelWorkspaceBackend,
            waiting: &mut CitadelWorkspaceBackend,
            inspected: Inspected,
        |
            #![trigger call_ensures(CitadelWorkspaceBackend::add_expected_request, (backend, request_id), ()), call_ensures(CitadelWorkspaceBackend::inspect_received_payload, (waiting, InternalServiceResponse::LocalDBGetKVSuccess(found)), inspected)]
            call_ensures(
                CitadelWorkspaceBackend::add_expected_request,
                (backend, request_id),
                (),
            ) && *waiting == *final(backend) && call_ensures(
                CitadelWorkspaceBackend::inspect_received_payload,
                (waiting, InternalServiceResponse::LocalDBGetKVSuccess(found)),
                inspected,
            ) ==> inspected == Inspected::Awaited(
                InternalServiceResponse::LocalDBGetKVSuccess(found),
            ),
{
}

/// A response that answers nothing, or something that the backend does not wait for, is passed as
/// it is, and the backend waits for what it waited for. A request that was given up is waited for
/// no longer.
pub proof fn law_other_answers_are_passed(response: InternalServiceResponse, request_id: Uuid)
    ensures
        forall|backend: &mut CitadelWorkspaceBackend, inspected: Inspected| #[trigger]
            call_ensures(
                CitadelWorkspaceBackend::inspect_received_payload,
                (backend, response),
                inspected,
            ) && (response.answered() is None || !backend.expected().contains(
                response.answered()->0.bits,
            )) ==> inspected == Inspected::NotOurs(response) && final(backend).expected()
                == backend.expected(),
        forall|backend: &mut CitadelWorkspaceBackend| #[trigger]
            call_ensures(CitadelWorkspaceBackend::give_up_on, (backend, request_id), ())
                ==> !final(backend).expected().contains(request_id.bits),
{
}

} // verus!
