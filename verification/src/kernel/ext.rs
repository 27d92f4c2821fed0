//! One client's connection: what is written to it, what is read from it, and what stays when it
//! goes.

use crate::types::ids::Uuid;
use crate::types::payload::InternalServicePayload;
use crate::types::request::InternalServiceRequest;
use crate::types::response::InternalServiceResponse;
use crate::types::session::ServiceConnectionAccepted;
use vstd::prelude::*;

verus! {

/// What a new client is told first: its connection is accepted, under this identifier.
pub fn greeting(conn_id: Uuid) -> (response: InternalServiceResponse)
    ensures
        response == InternalServiceResponse::ServiceConnectionAccepted(
            ServiceConnectionAccepted { cid: 0, request_id: Some(conn_id) },
        ),
{
    InternalServiceResponse::ServiceConnectionAccepted(
        ServiceConnectionAccepted { cid: 0, request_id: Some(conn_id) },
    )
}

/// What one of a connection's two queues has to give.
#[derive(Debug, PartialEq, Eq)]
pub enum Ready {
    /// The next item.
    Item(InternalServiceResponse),
    /// The queue has ended.
    Ended,
    /// Nothing yet.
    NotYet,
}

/// What to do with a connection next.
#[derive(Debug, PartialEq, Eq)]
pub enum WriteStep {
    /// Write this to the client.
    Write(InternalServiceResponse),
    /// Media has ended; control goes on.
    MediaEnded,
    /// Control has ended, and with it the connection.
    Close,
    /// Wait for either queue.
    Wait,
}

/// What to write next. Control comes first: a call that saturates the socket must never delay an
/// answer that the client waits for. The end of control is the end of the connection, whatever
/// media still waits; the end of media is not. The media queue is not looked at where control has
/// something, nor after it has ended.
pub fn next_write(control: Ready, media_open: bool, media: Ready) -> (step: WriteStep)
    ensures
        step == match control {
            Ready::Item(response) => WriteStep::Write(response),
            Ready::Ended => WriteStep::Close,
            Ready::NotYet => if media_open {
                match media {
                    Ready::Item(frame) => WriteStep::Write(frame),
                    Ready::Ended => WriteStep::MediaEnded,
                    Ready::NotYet => WriteStep::Wait,
                }
            } else {
                WriteStep::Wait
            },
        },
{
    match control {
        Ready::Item(response) => WriteStep::Write(response),
        Ready::Ended => WriteStep::Close,
        Ready::NotYet => {
            if media_open {
                match media {
                    Ready::Item(frame) => WriteStep::Write(frame),
                    Ready::Ended => WriteStep::MediaEnded,
                    Ready::NotYet => WriteStep::Wait,
                }
            } else {
                WriteStep::Wait
            }
        },
    }
}

/// What a message of a client is for.
#[derive(PartialEq, Eq)]
pub enum ReadStep {
    /// A request for the kernel. Where the kernel cannot take it, reading ends.
    ToKernel(InternalServiceRequest),
    /// Nothing that a client should send; reading goes on.
    Ignore,
    /// The client is gone.
    End,
}

/// What a message of a client is for. A bad one is ignored.
pub fn read_step<E>(message: Option<Result<InternalServicePayload, E>>) -> (step: ReadStep)
    ensures
        step == match message {
            Some(Ok(InternalServicePayload::Request(request))) => ReadStep::ToKernel(request),
            Some(_) => ReadStep::Ignore,
            None => ReadStep::End,
        },
{
    match message {
        Some(Ok(InternalServicePayload::Request(request))) => ReadStep::ToKernel(request),
        Some(_) => ReadStep::Ignore,
        None => ReadStep::End,
    }
}

/// Control comes first, whatever media waits; its end is the end of the connection; and media is
/// written only while control has nothing and media has not ended.
pub proof fn law_control_comes_first(
    control: Ready,
    media_open: bool,
    media: Ready,
    step: WriteStep,
)
    requires
        call_ensures(next_write, (control, media_open, media), step),
    ensures
        control matches Ready::Item(response) ==> step == WriteStep::Write(response),
        step is Close <==> control is Ended,
        step is MediaEnded <==> control is NotYet && media_open && media is Ended,
        control is NotYet && media_open ==> (media matches Ready::Item(frame) ==> step
            == WriteStep::Write(frame)),
        control is NotYet && (!media_open || media is NotYet) ==> step is Wait,
{
}

/// Only a request of a client reaches the kernel, and only the client's going ends the reading.
pub proof fn law_only_requests_reach_the_kernel<E>(
    message: Option<Result<InternalServicePayload, E>>,
    step: ReadStep,
)
    requires
        call_ensures(read_step::<E>, (message,), step),
    ensures
        step is End <==> message is None,
        message matches Some(Ok(InternalServicePayload::Request(request))) ==> step
            == ReadStep::ToKernel(request),
        step is ToKernel ==> message is Some && message->0 is Ok && message->0->Ok_0 is Request,
{
}

/// A new client is told the identifier of its own connection.
pub proof fn law_a_client_is_greeted_by_its_identifier(
    conn_id: Uuid,
    response: InternalServiceResponse,
)
    requires
        call_ensures(greeting, (conn_id,), response),
    ensures
        response is ServiceConnectionAccepted,
        response.answered() == Some(conn_id),
        response.session() == 0,
        !response.reports_failure(),
{
}

} // verus!
